//! Collateral policy: admission control, withdrawal safety, conversion
//! formulas, and deposit-address derivation.

use vault_registry::collateral::CollateralLedger;
use vault_registry::oracle::{
    calculate_collateral, calculate_max_polkabtc_from_collateral_for_threshold, dots_to_btc,
    is_collateral_below_secure_threshold, required_collateral, Ratio,
};
use vault_registry::types::{addr_eq, BtcPublicKey, SecureId, Vault, VaultError, Wallet};
use vault_registry::vault::RichVault;

fn key() -> BtcPublicKey {
    BtcPublicKey { bytes: vec![2u8; 33] }
}

fn vault_with(id: u64, to_be_issued: u128, issued: u128) -> RichVault {
    let mut data = Vault::new(id, key());
    data.to_be_issued_tokens = to_be_issued;
    data.issued_tokens = issued;
    RichVault { data }
}

#[test]
fn conversion_formulas_round_down() {
    let rate = Ratio::new(3, 2); // 1.5 collateral units per token
    let threshold = Ratio::new(150, 100); // 150 %
    // 7 tokens are worth floor(7 * 3 / 2) = 10; securing them takes
    // floor(10 * 150 / 100) = 15 collateral units.
    assert_eq!(required_collateral(7, &rate, &threshold), Ok(15));
    // 15 collateral units are worth floor(15 * 2 / 3) = 10 tokens; at a
    // 150 % threshold they secure floor(10 * 100 / 150) = 6 tokens.
    assert_eq!(dots_to_btc(15, &rate), Ok(10));
    assert_eq!(
        calculate_max_polkabtc_from_collateral_for_threshold(15, &rate, &threshold),
        Ok(6)
    );
}

#[test]
fn conversion_overflow_is_reported() {
    let rate = Ratio::new(2, 1);
    let threshold = Ratio::new(2, 1);
    assert_eq!(
        required_collateral(u128::MAX, &rate, &threshold),
        Err(VaultError::ArithmeticOverflow)
    );
}

#[test]
fn collateral_share_formula() {
    assert_eq!(calculate_collateral(100, 7, 10), Ok(70));
    assert_eq!(calculate_collateral(10, 1, 3), Ok(3));
    assert_eq!(calculate_collateral(25, 0, 0), Ok(25));
    assert_eq!(calculate_collateral(25, 0, 9), Ok(0));
}

#[test]
fn ledger_lock_release_slash() {
    let mut ledger = CollateralLedger::new();
    assert_eq!(ledger.balance_of(1), 0);
    assert!(ledger.lock(1, 100).is_ok());
    assert!(ledger.lock(1, 20).is_ok());
    assert_eq!(ledger.balance_of(1), 120);
    assert!(ledger.release_collateral(1, 50).is_ok());
    assert_eq!(ledger.balance_of(1), 70);
    assert_eq!(
        ledger.release_collateral(1, 71),
        Err(VaultError::ArithmeticUnderflow)
    );
    assert!(ledger.slash_collateral(1, 2, 30).is_ok());
    assert_eq!(ledger.balance_of(1), 40);
    assert_eq!(ledger.balance_of(2), 30);
    assert_eq!(
        ledger.slash_collateral(1, 2, 41),
        Err(VaultError::ArithmeticUnderflow)
    );
    assert_eq!(ledger.balance_of(1), 40);
    assert_eq!(ledger.balance_of(2), 30);
}

#[test]
fn ledger_lock_overflow_is_reported() {
    let mut ledger = CollateralLedger::new();
    assert!(ledger.lock(1, u128::MAX).is_ok());
    assert_eq!(ledger.lock(1, 1), Err(VaultError::ArithmeticOverflow));
    assert_eq!(ledger.balance_of(1), u128::MAX);
}

#[test]
fn admission_control_is_exact_at_the_boundary() {
    // Rate 1:1, threshold 200 %: 100 free collateral units secure at most
    // 50 new tokens.
    let rate = Ratio::new(1, 1);
    let threshold = Ratio::new(2, 1);
    let mut ledger = CollateralLedger::new();
    assert!(ledger.lock(1, 100).is_ok());

    let mut rv = vault_with(1, 0, 0);
    assert_eq!(rv.issuable_tokens(&ledger, &rate, &threshold), Ok(50));
    assert_eq!(
        rv.increase_to_be_issued(&ledger, &rate, &threshold, 51),
        Err(VaultError::ExceedingVaultLimit)
    );
    assert_eq!(rv.data.to_be_issued_tokens, 0);
    assert!(rv
        .increase_to_be_issued(&ledger, &rate, &threshold, 50)
        .is_ok());
    assert_eq!(rv.data.to_be_issued_tokens, 50);
    // The vault is now fully committed: nothing more is issuable.
    assert_eq!(rv.issuable_tokens(&ledger, &rate, &threshold), Ok(0));
    assert_eq!(
        rv.increase_to_be_issued(&ledger, &rate, &threshold, 1),
        Err(VaultError::ExceedingVaultLimit)
    );
}

#[test]
fn issuable_tokens_decrease_as_tokens_are_committed() {
    let rate = Ratio::new(1, 1);
    let threshold = Ratio::new(2, 1);
    let mut ledger = CollateralLedger::new();
    assert!(ledger.lock(1, 100).is_ok());
    let mut rv = vault_with(1, 0, 0);
    assert!(rv
        .increase_to_be_issued(&ledger, &rate, &threshold, 20)
        .is_ok());
    // 20 committed tokens use 40 collateral; 60 remain, securing 30.
    assert_eq!(rv.get_used_collateral(&rate, &threshold), Ok(40));
    assert_eq!(
        rv.get_free_collateral(&ledger, &rate, &threshold),
        Ok(60)
    );
    assert_eq!(rv.issuable_tokens(&ledger, &rate, &threshold), Ok(30));
}

#[test]
fn withdrawal_that_breaks_the_threshold_fails_without_effect() {
    let rate = Ratio::new(1, 1);
    let threshold = Ratio::new(2, 1);
    let mut ledger = CollateralLedger::new();
    assert!(ledger.lock(1, 120).is_ok());
    // 50 committed tokens need 100 collateral; only 20 are free.
    let rv = vault_with(1, 10, 40);
    assert_eq!(
        rv.withdraw_collateral(&mut ledger, &rate, &threshold, 30),
        Err(VaultError::InsufficientCollateral)
    );
    assert_eq!(ledger.balance_of(1), 120);
    assert!(rv
        .withdraw_collateral(&mut ledger, &rate, &threshold, 20)
        .is_ok());
    assert_eq!(ledger.balance_of(1), 100);
}

#[test]
fn withdrawing_more_than_the_balance_fails() {
    let rate = Ratio::new(1, 1);
    let threshold = Ratio::new(2, 1);
    let mut ledger = CollateralLedger::new();
    assert!(ledger.lock(1, 10).is_ok());
    let rv = vault_with(1, 0, 0);
    assert_eq!(
        rv.withdraw_collateral(&mut ledger, &rate, &threshold, 20),
        Err(VaultError::ArithmeticUnderflow)
    );
    assert_eq!(ledger.balance_of(1), 10);
}

#[test]
fn increase_collateral_locks_in_the_ledger() {
    let mut ledger = CollateralLedger::new();
    let rv = vault_with(1, 0, 0);
    assert!(rv.increase_collateral(&mut ledger, 75).is_ok());
    assert_eq!(rv.get_collateral(&ledger), 75);
    assert_eq!(
        rv.increase_collateral(&mut ledger, u128::MAX),
        Err(VaultError::ArithmeticOverflow)
    );
    assert_eq!(rv.get_collateral(&ledger), 75);
}

#[test]
fn threshold_check_matches_required_collateral() {
    let rate = Ratio::new(1, 1);
    let threshold = Ratio::new(2, 1);
    assert_eq!(
        is_collateral_below_secure_threshold(99, 50, &rate, &threshold),
        Ok(true)
    );
    assert_eq!(
        is_collateral_below_secure_threshold(100, 50, &rate, &threshold),
        Ok(false)
    );
}

#[test]
fn undercollateralized_vault_has_no_free_collateral() {
    let rate = Ratio::new(1, 1);
    let threshold = Ratio::new(2, 1);
    let mut ledger = CollateralLedger::new();
    assert!(ledger.lock(1, 50).is_ok());
    // 100 issued tokens need 200 collateral but only 50 are locked.
    let mut rv = vault_with(1, 0, 100);
    assert_eq!(
        rv.get_free_collateral(&ledger, &rate, &threshold),
        Err(VaultError::ArithmeticUnderflow)
    );
    assert_eq!(
        rv.issuable_tokens(&ledger, &rate, &threshold),
        Err(VaultError::ArithmeticUnderflow)
    );
    assert_eq!(
        rv.increase_to_be_issued(&ledger, &rate, &threshold, 1),
        Err(VaultError::ArithmeticUnderflow)
    );
}

#[test]
fn distinct_nonces_give_distinct_recorded_addresses() {
    let mut rv = RichVault { data: Vault::new(1, key()) };
    let id1 = SecureId { bytes: vec![1u8; 32] };
    let id2 = SecureId { bytes: vec![9u8; 32] };
    let a1 = rv.new_deposit_address(&id1).unwrap();
    let a2 = rv.new_deposit_address(&id2).unwrap();
    assert!(!addr_eq(&a1, &a2));
    assert!(rv.data.wallet.has_btc_address(&a1));
    assert!(rv.data.wallet.has_btc_address(&a2));
}

#[test]
fn deriving_from_a_malformed_key_fails() {
    let mut rv = RichVault {
        data: Vault::new(1, BtcPublicKey { bytes: vec![2u8; 10] }),
    };
    let id = SecureId { bytes: vec![1u8; 32] };
    assert!(matches!(
        rv.new_deposit_address(&id),
        Err(VaultError::InvalidPublicKey)
    ));
    assert_eq!(rv.data.wallet.addresses.len(), 0);
}

#[test]
fn wallet_membership_and_idempotent_insert() {
    let mut wallet = Wallet::new(key());
    let addr = vault_registry::types::BtcAddress::P2PKH(vec![5u8; 20]);
    let same = vault_registry::types::BtcAddress::P2PKH(vec![5u8; 20]);
    let other = vault_registry::types::BtcAddress::P2SH(vec![5u8; 20]);
    assert!(!wallet.has_btc_address(&addr));
    wallet.add_btc_address(addr);
    assert!(wallet.has_btc_address(&same));
    assert!(!wallet.has_btc_address(&other));
    wallet.add_btc_address(same);
    assert_eq!(wallet.addresses.len(), 1);
}

#[test]
fn update_public_key_keeps_addresses() {
    let mut rv = RichVault { data: Vault::new(1, key()) };
    let id1 = SecureId { bytes: vec![1u8; 32] };
    let a1 = rv.new_deposit_address(&id1).unwrap();
    rv.update_public_key(BtcPublicKey { bytes: vec![3u8; 33] });
    assert!(rv.data.wallet.has_btc_address(&a1));
    assert_eq!(rv.data.wallet.public_key.bytes, vec![3u8; 33]);
}
