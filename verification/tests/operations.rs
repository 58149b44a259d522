//! Token-lifecycle operations: issue, redeem, transfer, ban, liquidate.

use vault_registry::types::{BtcPublicKey, SystemVault, Vault, VaultError, VaultStatus, Version};
use vault_registry::vault::{RichSystemVault, RichVault, UpdatableVault};
use vault_registry::collateral::CollateralLedger;

fn key() -> BtcPublicKey {
    BtcPublicKey { bytes: vec![2u8; 33] }
}

fn vault_with(id: u64, to_be_issued: u128, issued: u128, to_be_redeemed: u128) -> RichVault {
    let mut data = Vault::new(id, key());
    data.to_be_issued_tokens = to_be_issued;
    data.issued_tokens = issued;
    data.to_be_redeemed_tokens = to_be_redeemed;
    RichVault { data }
}

#[test]
fn new_vault_is_active_and_empty() {
    let v = Vault::new(7, key());
    assert_eq!(v.id, 7);
    assert_eq!(v.to_be_issued_tokens, 0);
    assert_eq!(v.issued_tokens, 0);
    assert_eq!(v.to_be_redeemed_tokens, 0);
    assert!(v.banned_until.is_none());
    assert_eq!(v.status, VaultStatus::Active);
    assert!(!v.is_liquidated());
    assert!(matches!(Version::V0, Version::V0));
    assert!(matches!(Version::V1, Version::V1));
}

#[test]
fn default_status_is_active() {
    assert_eq!(VaultStatus::default(), VaultStatus::Active);
}

#[test]
fn issue_ordering_promotes_committed_tokens() {
    let mut rv = vault_with(1, 5, 0, 0);
    assert!(rv.issue_tokens(5).is_ok());
    assert_eq!(rv.data.issued_tokens, 5);
    assert_eq!(rv.data.to_be_issued_tokens, 0);
}

#[test]
fn issue_more_than_committed_fails_and_changes_nothing() {
    let mut rv = vault_with(1, 3, 2, 0);
    assert_eq!(
        rv.issue_tokens(5),
        Err(VaultError::InsufficientTokensCommitted)
    );
    assert_eq!(rv.data.to_be_issued_tokens, 3);
    assert_eq!(rv.data.issued_tokens, 2);
}

#[test]
fn decrease_to_be_issued_checked() {
    let mut rv = vault_with(1, 4, 0, 0);
    assert!(rv.decrease_to_be_issued(3).is_ok());
    assert_eq!(rv.data.to_be_issued_tokens, 1);
    assert_eq!(
        rv.decrease_to_be_issued(2),
        Err(VaultError::InsufficientTokensCommitted)
    );
    assert_eq!(rv.data.to_be_issued_tokens, 1);
}

#[test]
fn redeem_double_commit_prevented() {
    let mut rv = vault_with(1, 0, 10, 0);
    assert!(rv.increase_to_be_redeemed(10).is_ok());
    assert_eq!(rv.data.to_be_redeemed_tokens, 10);
    assert_eq!(
        rv.increase_to_be_redeemed(1),
        Err(VaultError::InsufficientTokensCommitted)
    );
    assert_eq!(rv.data.to_be_redeemed_tokens, 10);
}

#[test]
fn partial_redeem_commitments_stack_up_to_issued() {
    let mut rv = vault_with(1, 0, 10, 0);
    assert!(rv.increase_to_be_redeemed(4).is_ok());
    assert!(rv.increase_to_be_redeemed(6).is_ok());
    assert_eq!(
        rv.increase_to_be_redeemed(1),
        Err(VaultError::InsufficientTokensCommitted)
    );
    assert!(rv.decrease_to_be_redeemed(3).is_ok());
    assert_eq!(rv.data.to_be_redeemed_tokens, 7);
}

#[test]
fn decrease_tokens_settles_redeem_and_issued_together() {
    let mut rv = vault_with(1, 2, 10, 6);
    assert!(rv.decrease_tokens(6).is_ok());
    assert_eq!(rv.data.issued_tokens, 4);
    assert_eq!(rv.data.to_be_redeemed_tokens, 0);
    assert_eq!(rv.data.to_be_issued_tokens, 2);
}

#[test]
fn redeem_tokens_requires_commitment() {
    let mut rv = vault_with(1, 0, 10, 2);
    assert_eq!(
        rv.redeem_tokens(5),
        Err(VaultError::InsufficientTokensCommitted)
    );
    assert_eq!(rv.data.issued_tokens, 10);
    assert_eq!(rv.data.to_be_redeemed_tokens, 2);
    assert!(rv.redeem_tokens(2).is_ok());
    assert_eq!(rv.data.issued_tokens, 8);
    assert_eq!(rv.data.to_be_redeemed_tokens, 0);
}

#[test]
fn invariant_holds_after_each_completed_operation() {
    let mut rv = vault_with(1, 8, 0, 0);
    let ops: Vec<&str> = vec![
        "issue5", "redeem_commit3", "decrease_tokens2", "issue3", "redeem_commit4", "uncommit1",
    ];
    for op in ops {
        let _ = match op {
            "issue5" => rv.issue_tokens(5),
            "redeem_commit3" => rv.increase_to_be_redeemed(3),
            "decrease_tokens2" => rv.decrease_tokens(2),
            "issue3" => rv.issue_tokens(3),
            "redeem_commit4" => rv.increase_to_be_redeemed(4),
            _ => rv.decrease_to_be_redeemed(1),
        };
        assert!(rv.data.to_be_redeemed_tokens <= rv.data.issued_tokens);
    }
}

#[test]
fn transfer_moves_issued_balance() {
    let mut from = vault_with(1, 0, 10, 5);
    let mut to = vault_with(2, 0, 1, 0);
    assert!(from.transfer(&mut to, 4).is_ok());
    assert_eq!(from.data.issued_tokens, 6);
    assert_eq!(from.data.to_be_redeemed_tokens, 1);
    assert_eq!(to.data.issued_tokens, 5);
    assert_eq!(
        from.transfer(&mut to, 2),
        Err(VaultError::InsufficientTokensCommitted)
    );
    assert_eq!(from.data.issued_tokens, 6);
    assert_eq!(to.data.issued_tokens, 5);
}

#[test]
fn ban_boundary_is_inclusive() {
    let mut rv = vault_with(1, 0, 0, 0);
    assert!(rv.ensure_not_banned(0).is_ok());
    rv.ban_until(5);
    assert_eq!(rv.ensure_not_banned(4), Err(VaultError::VaultBanned));
    assert_eq!(rv.ensure_not_banned(5), Err(VaultError::VaultBanned));
    assert!(rv.ensure_not_banned(6).is_ok());
}

#[test]
fn liquidation_moves_obligations_and_slashes_proportionally() {
    let mut rv = vault_with(1, 4, 10, 3);
    let mut pool = RichSystemVault { data: SystemVault::new(2) };
    pool.data.issued_tokens = 100;
    pool.data.to_be_issued_tokens = 20;
    pool.data.to_be_redeemed_tokens = 7;
    let mut ledger = CollateralLedger::new();
    assert!(ledger.lock(1, 100).is_ok());
    assert!(ledger.lock(2, 50).is_ok());

    assert!(rv
        .liquidate(&mut pool, &mut ledger, VaultStatus::Liquidated)
        .is_ok());

    // Pool absorbs the vault's counters.
    assert_eq!(pool.data.issued_tokens, 110);
    assert_eq!(pool.data.to_be_issued_tokens, 24);
    assert_eq!(pool.data.to_be_redeemed_tokens, 10);
    // The vault keeps only its pending redemptions.
    assert_eq!(rv.data.issued_tokens, 0);
    assert_eq!(rv.data.to_be_issued_tokens, 0);
    assert_eq!(rv.data.to_be_redeemed_tokens, 3);
    assert_eq!(rv.data.status, VaultStatus::Liquidated);
    assert!(rv.data.is_liquidated());
    // Slash is 100 * (10 - 3) / 10 = 70 of the vault's collateral.
    assert_eq!(ledger.balance_of(1), 30);
    assert_eq!(ledger.balance_of(2), 120);
}

#[test]
fn liquidation_for_theft_seizes_everything_when_nothing_pending() {
    let mut rv = vault_with(1, 0, 8, 0);
    let mut pool = RichSystemVault { data: SystemVault::new(2) };
    let mut ledger = CollateralLedger::new();
    assert!(ledger.lock(1, 40).is_ok());

    assert!(rv
        .liquidate(&mut pool, &mut ledger, VaultStatus::CommittedTheft)
        .is_ok());

    assert_eq!(rv.data.status, VaultStatus::CommittedTheft);
    assert_eq!(ledger.balance_of(1), 0);
    assert_eq!(ledger.balance_of(2), 40);
    assert_eq!(pool.data.issued_tokens, 8);
}

#[test]
fn liquidation_of_empty_vault_seizes_whole_balance() {
    let mut rv = vault_with(1, 0, 0, 0);
    let mut pool = RichSystemVault { data: SystemVault::new(2) };
    let mut ledger = CollateralLedger::new();
    assert!(ledger.lock(1, 25).is_ok());
    assert!(rv
        .liquidate(&mut pool, &mut ledger, VaultStatus::Liquidated)
        .is_ok());
    assert_eq!(ledger.balance_of(1), 0);
    assert_eq!(ledger.balance_of(2), 25);
    assert_eq!(pool.data.issued_tokens, 0);
}

#[test]
fn liquidation_rejects_a_corrupt_record_untouched() {
    // More tokens pending redeem than issued should be structurally
    // impossible; liquidation refuses such a record defensively.
    let mut rv = vault_with(1, 0, 2, 5);
    let mut pool = RichSystemVault { data: SystemVault::new(2) };
    let mut ledger = CollateralLedger::new();
    assert!(ledger.lock(1, 30).is_ok());
    assert_eq!(
        rv.liquidate(&mut pool, &mut ledger, VaultStatus::Liquidated),
        Err(VaultError::ArithmeticUnderflow)
    );
    assert_eq!(rv.data.issued_tokens, 2);
    assert_eq!(rv.data.status, VaultStatus::Active);
    assert_eq!(ledger.balance_of(1), 30);
    assert_eq!(pool.data.issued_tokens, 0);
}

#[test]
fn pool_decrease_issued_is_checked() {
    let mut pool = RichSystemVault { data: SystemVault::new(2) };
    pool.data.issued_tokens = 5;
    assert!(pool.decrease_issued(3).is_ok());
    assert_eq!(pool.data.issued_tokens, 2);
    assert_eq!(
        pool.decrease_issued(3),
        Err(VaultError::InsufficientTokensCommitted)
    );
    assert_eq!(pool.data.issued_tokens, 2);
    assert_eq!(pool.id(), 2);
    assert_eq!(pool.issued_tokens(), 2);
}
