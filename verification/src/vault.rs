//! The per-vault state machine and the pooled liquidation account.
//!
//! `RichVault` wraps one vault's record and exposes every mutating and
//! query operation; `RichSystemVault` wraps the pooled fallback record.
//! Both implement the `UpdatableVault` capability, so the liquidation
//! protocol moves obligations between them without knowing which concrete
//! account it holds.  Every operation either completes with its stated
//! effect or fails with a `VaultError` and changes nothing.

use vstd::prelude::*;
use crate::collateral::CollateralLedger;
use crate::oracle::{
    calculate_collateral, calculate_max_polkabtc_from_collateral_for_threshold,
    is_collateral_below_secure_threshold, max_tokens_fits, required_collateral,
    required_collateral_fits, spec_collateral_share, spec_max_tokens_from_collateral,
    spec_required_collateral, Ratio,
};
use crate::types::{
    clone_bytes, extend_bytes, spec_deposit_address, spec_deposit_key, AccountId, Amount,
    BlockNumber, BtcAddress, BtcPublicKey, SecureId, SystemVault, Vault, VaultError, VaultStatus,
    PUBLIC_KEY_SIZE,
};

verus! {

/// The common capability of every ledger entity that can hold token
/// obligations: the vault records and the pooled liquidation record.
/// The `force` mutators apply one counter update unconditionally; the
/// admission checks live in the callers.
pub trait UpdatableVault {
    /// Account identifier of the entity.
    spec fn spec_id(&self) -> AccountId;

    /// Tokens pending issue.
    spec fn spec_to_be_issued(&self) -> Amount;

    /// Tokens issued.
    spec fn spec_issued(&self) -> Amount;

    /// Tokens pending redeem.
    spec fn spec_to_be_redeemed(&self) -> Amount;

    fn id(&self) -> (r: AccountId)
        ensures
            r == self.spec_id(),
    ;

    fn issued_tokens(&self) -> (r: Amount)
        ensures
            r == self.spec_issued(),
    ;

    fn force_issue_tokens(&mut self, tokens: Amount)
        requires
            old(self).spec_issued() + tokens <= Amount::MAX,
        ensures
            final(self).spec_issued() == old(self).spec_issued() + tokens,
            final(self).spec_to_be_issued() == old(self).spec_to_be_issued(),
            final(self).spec_to_be_redeemed() == old(self).spec_to_be_redeemed(),
            final(self).spec_id() == old(self).spec_id(),
    ;

    fn force_increase_to_be_issued(&mut self, tokens: Amount)
        requires
            old(self).spec_to_be_issued() + tokens <= Amount::MAX,
        ensures
            final(self).spec_to_be_issued() == old(self).spec_to_be_issued() + tokens,
            final(self).spec_issued() == old(self).spec_issued(),
            final(self).spec_to_be_redeemed() == old(self).spec_to_be_redeemed(),
            final(self).spec_id() == old(self).spec_id(),
    ;

    fn force_increase_to_be_redeemed(&mut self, tokens: Amount)
        requires
            old(self).spec_to_be_redeemed() + tokens <= Amount::MAX,
        ensures
            final(self).spec_to_be_redeemed() == old(self).spec_to_be_redeemed() + tokens,
            final(self).spec_issued() == old(self).spec_issued(),
            final(self).spec_to_be_issued() == old(self).spec_to_be_issued(),
            final(self).spec_id() == old(self).spec_id(),
    ;

    fn force_decrease_issued(&mut self, tokens: Amount)
        requires
            tokens <= old(self).spec_issued(),
        ensures
            final(self).spec_issued() == old(self).spec_issued() - tokens,
            final(self).spec_to_be_issued() == old(self).spec_to_be_issued(),
            final(self).spec_to_be_redeemed() == old(self).spec_to_be_redeemed(),
            final(self).spec_id() == old(self).spec_id(),
    ;

    fn force_decrease_to_be_issued(&mut self, tokens: Amount)
        requires
            tokens <= old(self).spec_to_be_issued(),
        ensures
            final(self).spec_to_be_issued() == old(self).spec_to_be_issued() - tokens,
            final(self).spec_issued() == old(self).spec_issued(),
            final(self).spec_to_be_redeemed() == old(self).spec_to_be_redeemed(),
            final(self).spec_id() == old(self).spec_id(),
    ;

    fn force_decrease_to_be_redeemed(&mut self, tokens: Amount)
        requires
            tokens <= old(self).spec_to_be_redeemed(),
        ensures
            final(self).spec_to_be_redeemed() == old(self).spec_to_be_redeemed() - tokens,
            final(self).spec_issued() == old(self).spec_issued(),
            final(self).spec_to_be_issued() == old(self).spec_to_be_issued(),
            final(self).spec_id() == old(self).spec_id(),
    ;

    /// Checked decrease of the issued counter: fails, changing nothing,
    /// when less than `tokens` is issued.
    fn decrease_issued(&mut self, tokens: Amount) -> (res: Result<(), VaultError>)
        ensures
            res is Ok <==> tokens <= old(self).spec_issued(),
            res is Ok ==> final(self).spec_issued() == old(self).spec_issued() - tokens,
            res is Err ==> final(self).spec_issued() == old(self).spec_issued(),
            res matches Err(e) ==> e == VaultError::InsufficientTokensCommitted,
            final(self).spec_to_be_issued() == old(self).spec_to_be_issued(),
            final(self).spec_to_be_redeemed() == old(self).spec_to_be_redeemed(),
            final(self).spec_id() == old(self).spec_id(),
    {
        let issued_tokens = self.issued_tokens();
        if issued_tokens >= tokens {
            self.force_decrease_issued(tokens);
            Ok(())
        } else {
            Err(VaultError::InsufficientTokensCommitted)
        }
    }
}

/// A working copy of one vault's record, exposing all of its operations.
pub struct RichVault {
    pub data: Vault,
}

impl UpdatableVault for RichVault {
    open spec fn spec_id(&self) -> AccountId {
        self.data.id
    }

    open spec fn spec_to_be_issued(&self) -> Amount {
        self.data.to_be_issued_tokens
    }

    open spec fn spec_issued(&self) -> Amount {
        self.data.issued_tokens
    }

    open spec fn spec_to_be_redeemed(&self) -> Amount {
        self.data.to_be_redeemed_tokens
    }

    fn id(&self) -> (r: AccountId) {
        self.data.id
    }

    fn issued_tokens(&self) -> (r: Amount) {
        self.data.issued_tokens
    }

    fn force_issue_tokens(&mut self, tokens: Amount)
        ensures
            final(self).data == old(self).data.with_tokens(
                old(self).data.to_be_issued_tokens,
                (old(self).data.issued_tokens + tokens) as Amount,
                old(self).data.to_be_redeemed_tokens,
            ),
    {
        self.data.issued_tokens = self.data.issued_tokens + tokens;
    }

    fn force_increase_to_be_issued(&mut self, tokens: Amount)
        ensures
            final(self).data == old(self).data.with_tokens(
                (old(self).data.to_be_issued_tokens + tokens) as Amount,
                old(self).data.issued_tokens,
                old(self).data.to_be_redeemed_tokens,
            ),
    {
        self.data.to_be_issued_tokens = self.data.to_be_issued_tokens + tokens;
    }

    fn force_increase_to_be_redeemed(&mut self, tokens: Amount)
        ensures
            final(self).data == old(self).data.with_tokens(
                old(self).data.to_be_issued_tokens,
                old(self).data.issued_tokens,
                (old(self).data.to_be_redeemed_tokens + tokens) as Amount,
            ),
    {
        self.data.to_be_redeemed_tokens = self.data.to_be_redeemed_tokens + tokens;
    }

    fn force_decrease_issued(&mut self, tokens: Amount)
        ensures
            final(self).data == old(self).data.with_tokens(
                old(self).data.to_be_issued_tokens,
                (old(self).data.issued_tokens - tokens) as Amount,
                old(self).data.to_be_redeemed_tokens,
            ),
    {
        self.data.issued_tokens = self.data.issued_tokens - tokens;
    }

    fn force_decrease_to_be_issued(&mut self, tokens: Amount)
        ensures
            final(self).data == old(self).data.with_tokens(
                (old(self).data.to_be_issued_tokens - tokens) as Amount,
                old(self).data.issued_tokens,
                old(self).data.to_be_redeemed_tokens,
            ),
    {
        self.data.to_be_issued_tokens = self.data.to_be_issued_tokens - tokens;
    }

    fn force_decrease_to_be_redeemed(&mut self, tokens: Amount)
        ensures
            final(self).data == old(self).data.with_tokens(
                old(self).data.to_be_issued_tokens,
                old(self).data.issued_tokens,
                (old(self).data.to_be_redeemed_tokens - tokens) as Amount,
            ),
    {
        self.data.to_be_redeemed_tokens = self.data.to_be_redeemed_tokens - tokens;
    }
}

/// The collateral that secures a vault's committed tokens, issued plus
/// pending issue, at the given rate and threshold.
pub open spec fn spec_used_collateral(v: Vault, rate: Ratio, threshold: Ratio) -> int {
    spec_required_collateral(v.total_committed(), rate, threshold)
}

/// Does the used-collateral computation fit the checked range?
pub open spec fn used_collateral_fits(v: Vault, rate: Ratio, threshold: Ratio) -> bool {
    required_collateral_fits(v.total_committed(), rate, threshold)
}

/// The vault's collateral not yet securing committed tokens.
pub open spec fn spec_free_collateral(v: Vault, balance: Amount, rate: Ratio, threshold: Ratio) -> int {
    balance - spec_used_collateral(v, rate, threshold)
}

/// Does the free-collateral computation complete: the scaling fits and the
/// used collateral does not exceed the balance?
pub open spec fn free_collateral_ok(v: Vault, balance: Amount, rate: Ratio, threshold: Ratio) -> bool {
    used_collateral_fits(v, rate, threshold) && spec_used_collateral(v, rate, threshold) <= balance
}

/// The error the free-collateral computation reports when it cannot
/// complete.
pub open spec fn free_collateral_err(v: Vault, balance: Amount, rate: Ratio, threshold: Ratio) -> VaultError {
    if !used_collateral_fits(v, rate, threshold) {
        VaultError::ArithmeticOverflow
    } else {
        VaultError::ArithmeticUnderflow
    }
}

/// The greatest additional token amount the vault's free collateral can
/// secure at the threshold.
pub open spec fn spec_issuable_tokens(v: Vault, balance: Amount, rate: Ratio, threshold: Ratio) -> int {
    spec_max_tokens_from_collateral(spec_free_collateral(v, balance, rate, threshold), rate, threshold)
}

/// Does the issuable-token computation complete?
pub open spec fn issuable_tokens_ok(v: Vault, balance: Amount, rate: Ratio, threshold: Ratio) -> bool {
    free_collateral_ok(v, balance, rate, threshold) && max_tokens_fits(
        spec_free_collateral(v, balance, rate, threshold),
        rate,
        threshold,
    )
}

/// The error the issuable-token computation reports when it cannot
/// complete.
pub open spec fn issuable_tokens_err(v: Vault, balance: Amount, rate: Ratio, threshold: Ratio) -> VaultError {
    if !free_collateral_ok(v, balance, rate, threshold) {
        free_collateral_err(v, balance, rate, threshold)
    } else {
        VaultError::ArithmeticOverflow
    }
}

/// Can `tokens` more be committed to redemption: the record satisfies its
/// invariant and the amount does not exceed the redeemable balance.
pub open spec fn can_commit_for_redeem(v: Vault, tokens: Amount) -> bool {
    v.to_be_redeemed_tokens <= v.issued_tokens && tokens <= v.redeemable()
}

/// What the vault's balance would be after withdrawing `withdrawn`,
/// saturating at zero.
pub open spec fn spec_remaining_collateral(balance: Amount, withdrawn: Amount) -> int {
    if withdrawn <= balance {
        balance - withdrawn
    } else {
        0
    }
}

/// Is a withdrawal admissible: the committed tokens still fit the checked
/// range, the remaining collateral still secures them at the threshold,
/// and the balance covers the withdrawal.
pub open spec fn withdraw_allowed(
    v: Vault,
    balance: Amount,
    withdrawn: Amount,
    rate: Ratio,
    threshold: Ratio,
) -> bool {
    &&& v.total_committed() <= Amount::MAX
    &&& used_collateral_fits(v, rate, threshold)
    &&& spec_remaining_collateral(balance, withdrawn) >= spec_used_collateral(v, rate, threshold)
    &&& withdrawn <= balance
}

/// The error a rejected withdrawal reports.
pub open spec fn withdraw_err(
    v: Vault,
    balance: Amount,
    withdrawn: Amount,
    rate: Ratio,
    threshold: Ratio,
) -> VaultError {
    if v.total_committed() > Amount::MAX || !used_collateral_fits(v, rate, threshold) {
        VaultError::ArithmeticOverflow
    } else if spec_remaining_collateral(balance, withdrawn) < spec_used_collateral(v, rate, threshold) {
        VaultError::InsufficientCollateral
    } else {
        VaultError::ArithmeticUnderflow
    }
}

/// The collateral a liquidation seizes: the share of the vault's balance
/// backing tokens that are issued and not pending redeem.  A vault with
/// nothing issued has no redeemer to protect, so its whole balance is
/// seized.
pub open spec fn spec_liquidation_slash(v: Vault, balance: Amount) -> int {
    spec_collateral_share(balance as int, v.redeemable(), v.issued_tokens as int)
}

impl RichVault {
    /// Lock `collateral` more for this vault in the collateral ledger.
    pub fn increase_collateral(&self, ledger: &mut CollateralLedger, collateral: Amount) -> (res:
        Result<(), VaultError>)
        ensures
            res is Ok <==> old(ledger).spec_balance(self.data.id) + collateral <= Amount::MAX,
            res is Ok ==> final(ledger).spec_balance(self.data.id) == old(ledger).spec_balance(
                self.data.id,
            ) + collateral,
            res is Ok ==> forall|o: AccountId|
                o != self.data.id ==> final(ledger).spec_balance(o) == old(ledger).spec_balance(o),
            res matches Err(e) ==> e == VaultError::ArithmeticOverflow && *final(ledger) == *old(
                ledger,
            ),
    {
        ledger.lock(self.data.id, collateral)
    }

    /// The vault's locked collateral balance.
    pub fn get_collateral(&self, ledger: &CollateralLedger) -> (r: Amount)
        ensures
            r == ledger.spec_balance(self.data.id),
    {
        ledger.balance_of(self.data.id)
    }

    /// The collateral securing the vault's committed tokens at the secure
    /// threshold.
    pub fn get_used_collateral(&self, rate: &Ratio, threshold: &Ratio) -> (res: Result<
        Amount,
        VaultError,
    >)
        requires
            rate.wf(),
            threshold.wf(),
            self.data.total_committed() <= Amount::MAX,
        ensures
            res is Ok <==> used_collateral_fits(self.data, *rate, *threshold),
            res matches Ok(v) ==> v == spec_used_collateral(self.data, *rate, *threshold),
            res matches Err(e) ==> e == VaultError::ArithmeticOverflow,
    {
        let tokens = self.data.issued_tokens + self.data.to_be_issued_tokens;
        required_collateral(tokens, rate, threshold)
    }

    /// The vault's collateral not yet securing committed tokens.
    pub fn get_free_collateral(
        &self,
        ledger: &CollateralLedger,
        rate: &Ratio,
        threshold: &Ratio,
    ) -> (res: Result<Amount, VaultError>)
        requires
            rate.wf(),
            threshold.wf(),
            self.data.total_committed() <= Amount::MAX,
        ensures
            res is Ok <==> free_collateral_ok(
                self.data,
                ledger.spec_balance(self.data.id),
                *rate,
                *threshold,
            ),
            res matches Ok(v) ==> v == spec_free_collateral(
                self.data,
                ledger.spec_balance(self.data.id),
                *rate,
                *threshold,
            ),
            res matches Err(e) ==> e == free_collateral_err(
                self.data,
                ledger.spec_balance(self.data.id),
                *rate,
                *threshold,
            ),
    {
        let used = self.get_used_collateral(rate, threshold)?;
        let collateral = self.get_collateral(ledger);
        match collateral.checked_sub(used) {
            Some(free) => Ok(free),
            None => Err(VaultError::ArithmeticUnderflow),
        }
    }

    /// The greatest additional token amount the vault can be asked to back
    /// with its current free collateral at the secure threshold.
    pub fn issuable_tokens(
        &self,
        ledger: &CollateralLedger,
        rate: &Ratio,
        threshold: &Ratio,
    ) -> (res: Result<Amount, VaultError>)
        requires
            rate.wf(),
            threshold.wf(),
            self.data.total_committed() <= Amount::MAX,
        ensures
            res is Ok <==> issuable_tokens_ok(
                self.data,
                ledger.spec_balance(self.data.id),
                *rate,
                *threshold,
            ),
            res matches Ok(v) ==> v == spec_issuable_tokens(
                self.data,
                ledger.spec_balance(self.data.id),
                *rate,
                *threshold,
            ),
            res matches Err(e) ==> e == issuable_tokens_err(
                self.data,
                ledger.spec_balance(self.data.id),
                *rate,
                *threshold,
            ),
    {
        let free = self.get_free_collateral(ledger, rate, threshold)?;
        calculate_max_polkabtc_from_collateral_for_threshold(free, rate, threshold)
    }

    /// Release `collateral` of the vault's balance, unless the remaining
    /// collateral would no longer secure the committed tokens at the
    /// secure threshold.  A rejected withdrawal leaves the ledger
    /// unchanged.
    pub fn withdraw_collateral(
        &self,
        ledger: &mut CollateralLedger,
        rate: &Ratio,
        threshold: &Ratio,
        collateral: Amount,
    ) -> (res: Result<(), VaultError>)
        requires
            rate.wf(),
            threshold.wf(),
        ensures
            res is Ok <==> withdraw_allowed(
                self.data,
                old(ledger).spec_balance(self.data.id),
                collateral,
                *rate,
                *threshold,
            ),
            res is Ok ==> final(ledger).spec_balance(self.data.id) == old(ledger).spec_balance(
                self.data.id,
            ) - collateral,
            res is Ok ==> forall|o: AccountId|
                o != self.data.id ==> final(ledger).spec_balance(o) == old(ledger).spec_balance(o),
            res is Err ==> *final(ledger) == *old(ledger),
            res matches Err(e) ==> e == withdraw_err(
                self.data,
                old(ledger).spec_balance(self.data.id),
                collateral,
                *rate,
                *threshold,
            ),
    {
        let current = ledger.balance_of(self.data.id);
        let remaining = if collateral <= current {
            current - collateral
        } else {
            0
        };
        let tokens = match self.data.issued_tokens.checked_add(self.data.to_be_issued_tokens) {
            Some(t) => t,
            None => {
                return Err(VaultError::ArithmeticOverflow);
            },
        };
        let below = is_collateral_below_secure_threshold(remaining, tokens, rate, threshold)?;
        if below {
            return Err(VaultError::InsufficientCollateral);
        }
        ledger.release_collateral(self.data.id, collateral)
    }

    /// Admit a new mint promise of `tokens`: succeeds exactly when the
    /// amount does not exceed the issuable tokens computed from the
    /// vault's current free collateral.
    pub fn increase_to_be_issued(
        &mut self,
        ledger: &CollateralLedger,
        rate: &Ratio,
        threshold: &Ratio,
        tokens: Amount,
    ) -> (res: Result<(), VaultError>)
        requires
            rate.wf(),
            threshold.wf(),
            old(self).data.total_committed() <= Amount::MAX,
            old(self).data.to_be_issued_tokens + tokens <= Amount::MAX,
        ensures
            res is Ok <==> issuable_tokens_ok(
                old(self).data,
                ledger.spec_balance(old(self).data.id),
                *rate,
                *threshold,
            ) && tokens <= spec_issuable_tokens(
                old(self).data,
                ledger.spec_balance(old(self).data.id),
                *rate,
                *threshold,
            ),
            res is Ok ==> final(self).data == old(self).data.with_tokens(
                (old(self).data.to_be_issued_tokens + tokens) as Amount,
                old(self).data.issued_tokens,
                old(self).data.to_be_redeemed_tokens,
            ),
            res is Err ==> *final(self) == *old(self),
            res matches Err(e) ==> e == (if !issuable_tokens_ok(
                old(self).data,
                ledger.spec_balance(old(self).data.id),
                *rate,
                *threshold,
            ) {
                issuable_tokens_err(
                    old(self).data,
                    ledger.spec_balance(old(self).data.id),
                    *rate,
                    *threshold,
                )
            } else {
                VaultError::ExceedingVaultLimit
            }),
            old(self).data.wf() ==> final(self).data.wf(),
    {
        let issuable = self.issuable_tokens(ledger, rate, threshold)?;
        if issuable >= tokens {
            self.force_increase_to_be_issued(tokens);
            Ok(())
        } else {
            Err(VaultError::ExceedingVaultLimit)
        }
    }

    /// Retract `tokens` of the vault's pending mint promises.
    pub fn decrease_to_be_issued(&mut self, tokens: Amount) -> (res: Result<(), VaultError>)
        ensures
            res is Ok <==> tokens <= old(self).data.to_be_issued_tokens,
            res is Ok ==> final(self).data == old(self).data.with_tokens(
                (old(self).data.to_be_issued_tokens - tokens) as Amount,
                old(self).data.issued_tokens,
                old(self).data.to_be_redeemed_tokens,
            ),
            res is Err ==> *final(self) == *old(self),
            res matches Err(e) ==> e == VaultError::InsufficientTokensCommitted,
            old(self).data.wf() ==> final(self).data.wf(),
    {
        if self.data.to_be_issued_tokens >= tokens {
            self.force_decrease_to_be_issued(tokens);
            Ok(())
        } else {
            Err(VaultError::InsufficientTokensCommitted)
        }
    }

    /// Promote `tokens` from promised to issued: the pending pool is
    /// drained first, and only then is the issued counter raised, so the
    /// committed-but-unissued pool never goes negative, even transiently.
    pub fn issue_tokens(&mut self, tokens: Amount) -> (res: Result<(), VaultError>)
        requires
            old(self).data.issued_tokens + tokens <= Amount::MAX,
        ensures
            res is Ok <==> tokens <= old(self).data.to_be_issued_tokens,
            res is Ok ==> final(self).data == old(self).data.with_tokens(
                (old(self).data.to_be_issued_tokens - tokens) as Amount,
                (old(self).data.issued_tokens + tokens) as Amount,
                old(self).data.to_be_redeemed_tokens,
            ),
            res is Err ==> *final(self) == *old(self),
            res matches Err(e) ==> e == VaultError::InsufficientTokensCommitted,
            old(self).data.wf() ==> final(self).data.wf(),
    {
        self.decrease_to_be_issued(tokens)?;
        self.force_issue_tokens(tokens);
        Ok(())
    }

    /// Commit `tokens` of the issued balance to a redemption request.
    /// Only tokens not already committed to another request are eligible,
    /// which prevents committing the same issued tokens twice.
    pub fn increase_to_be_redeemed(&mut self, tokens: Amount) -> (res: Result<(), VaultError>)
        ensures
            res is Ok <==> can_commit_for_redeem(old(self).data, tokens),
            res is Ok ==> final(self).data == old(self).data.with_tokens(
                old(self).data.to_be_issued_tokens,
                old(self).data.issued_tokens,
                (old(self).data.to_be_redeemed_tokens + tokens) as Amount,
            ),
            res is Ok ==> final(self).data.wf(),
            res is Err ==> *final(self) == *old(self),
            res matches Err(e) ==> e == (if old(self).data.to_be_redeemed_tokens > old(
                self,
            ).data.issued_tokens {
                VaultError::ArithmeticUnderflow
            } else {
                VaultError::InsufficientTokensCommitted
            }),
    {
        let redeemable = match self.data.issued_tokens.checked_sub(
            self.data.to_be_redeemed_tokens,
        ) {
            Some(r) => r,
            None => {
                return Err(VaultError::ArithmeticUnderflow);
            },
        };
        if redeemable >= tokens {
            self.force_increase_to_be_redeemed(tokens);
            Ok(())
        } else {
            Err(VaultError::InsufficientTokensCommitted)
        }
    }

    /// Release `tokens` from a redemption commitment without redeeming.
    pub fn decrease_to_be_redeemed(&mut self, tokens: Amount) -> (res: Result<(), VaultError>)
        ensures
            res is Ok <==> tokens <= old(self).data.to_be_redeemed_tokens,
            res is Ok ==> final(self).data == old(self).data.with_tokens(
                old(self).data.to_be_issued_tokens,
                old(self).data.issued_tokens,
                (old(self).data.to_be_redeemed_tokens - tokens) as Amount,
            ),
            res is Err ==> *final(self) == *old(self),
            res matches Err(e) ==> e == VaultError::InsufficientTokensCommitted,
            old(self).data.wf() ==> final(self).data.wf(),
    {
        if self.data.to_be_redeemed_tokens >= tokens {
            self.force_decrease_to_be_redeemed(tokens);
            Ok(())
        } else {
            Err(VaultError::InsufficientTokensCommitted)
        }
    }

    /// Settle `tokens` of a redemption: both the pending-redeem and the
    /// issued counters go down together.  Both must cover the amount, and
    /// both are checked before either changes, so a failure mutates
    /// nothing.  Releasing or slashing the backing collateral is the
    /// caller's responsibility.
    pub fn decrease_tokens(&mut self, tokens: Amount) -> (res: Result<(), VaultError>)
        ensures
            res is Ok <==> tokens <= old(self).data.to_be_redeemed_tokens && tokens <= old(
                self,
            ).data.issued_tokens,
            res is Ok ==> final(self).data == old(self).data.with_tokens(
                old(self).data.to_be_issued_tokens,
                (old(self).data.issued_tokens - tokens) as Amount,
                (old(self).data.to_be_redeemed_tokens - tokens) as Amount,
            ),
            res is Err ==> *final(self) == *old(self),
            res matches Err(e) ==> e == VaultError::InsufficientTokensCommitted,
            old(self).data.wf() ==> final(self).data.wf(),
    {
        if self.data.to_be_redeemed_tokens < tokens {
            return Err(VaultError::InsufficientTokensCommitted);
        }
        if self.data.issued_tokens < tokens {
            return Err(VaultError::InsufficientTokensCommitted);
        }
        self.force_decrease_to_be_redeemed(tokens);
        self.force_decrease_issued(tokens);
        Ok(())
    }

    /// Settle `tokens` of a redemption; the same primitive serves both
    /// cooperative redemption and theft-driven forced redemption.
    pub fn redeem_tokens(&mut self, tokens: Amount) -> (res: Result<(), VaultError>)
        ensures
            res is Ok <==> tokens <= old(self).data.to_be_redeemed_tokens && tokens <= old(
                self,
            ).data.issued_tokens,
            res is Ok ==> final(self).data == old(self).data.with_tokens(
                old(self).data.to_be_issued_tokens,
                (old(self).data.issued_tokens - tokens) as Amount,
                (old(self).data.to_be_redeemed_tokens - tokens) as Amount,
            ),
            res is Err ==> *final(self) == *old(self),
            res matches Err(e) ==> e == VaultError::InsufficientTokensCommitted,
            old(self).data.wf() ==> final(self).data.wf(),
    {
        self.decrease_tokens(tokens)
    }

    /// Move `tokens` of issued balance from this vault to another without
    /// a round trip through redeem and issue.
    pub fn transfer(&mut self, other: &mut RichVault, tokens: Amount) -> (res: Result<
        (),
        VaultError,
    >)
        requires
            old(other).data.issued_tokens + tokens <= Amount::MAX,
        ensures
            res is Ok <==> tokens <= old(self).data.to_be_redeemed_tokens && tokens <= old(
                self,
            ).data.issued_tokens,
            res is Ok ==> final(self).data == old(self).data.with_tokens(
                old(self).data.to_be_issued_tokens,
                (old(self).data.issued_tokens - tokens) as Amount,
                (old(self).data.to_be_redeemed_tokens - tokens) as Amount,
            ),
            res is Ok ==> final(other).data == old(other).data.with_tokens(
                old(other).data.to_be_issued_tokens,
                (old(other).data.issued_tokens + tokens) as Amount,
                old(other).data.to_be_redeemed_tokens,
            ),
            res is Err ==> *final(self) == *old(self) && *final(other) == *old(other),
            res matches Err(e) ==> e == VaultError::InsufficientTokensCommitted,
            old(self).data.wf() ==> final(self).data.wf(),
            old(other).data.wf() ==> final(other).data.wf(),
    {
        self.decrease_tokens(tokens)?;
        other.force_issue_tokens(tokens);
        Ok(())
    }

    /// Liquidate the vault: seize the collateral backing its issued and
    /// not-yet-redeeming tokens, move every token obligation to the pooled
    /// liquidation account, and mark the vault with the terminal status
    /// recording the cause.  Tokens pending redeem stay on the vault so
    /// their redeemer can still settle or cancel.  The collateral seizure
    /// and the token transfer both happen or neither does.
    pub fn liquidate<V: UpdatableVault>(
        &mut self,
        liquidation_vault: &mut V,
        ledger: &mut CollateralLedger,
        status: VaultStatus,
    ) -> (res: Result<(), VaultError>)
        requires
            old(self).data.status == VaultStatus::Active,
            status == VaultStatus::Liquidated || status == VaultStatus::CommittedTheft,
            old(self).data.id != old(liquidation_vault).spec_id(),
            old(liquidation_vault).spec_issued() + old(self).data.issued_tokens <= Amount::MAX,
            old(liquidation_vault).spec_to_be_issued() + old(self).data.to_be_issued_tokens
                <= Amount::MAX,
            old(liquidation_vault).spec_to_be_redeemed() + old(self).data.to_be_redeemed_tokens
                <= Amount::MAX,
        ensures
            res is Ok <==> (old(self).data.to_be_redeemed_tokens <= old(self).data.issued_tokens
                && (old(self).data.issued_tokens == 0 || old(ledger).spec_balance(
                old(self).data.id,
            ) * old(self).data.redeemable() <= Amount::MAX) && old(ledger).spec_balance(
                old(liquidation_vault).spec_id(),
            ) + spec_liquidation_slash(
                old(self).data,
                old(ledger).spec_balance(old(self).data.id),
            ) <= Amount::MAX),
            res is Ok ==> final(self).data == old(self).data.liquidated(status),
            res is Ok ==> final(liquidation_vault).spec_issued() == old(
                liquidation_vault,
            ).spec_issued() + old(self).data.issued_tokens,
            res is Ok ==> final(liquidation_vault).spec_to_be_issued() == old(
                liquidation_vault,
            ).spec_to_be_issued() + old(self).data.to_be_issued_tokens,
            res is Ok ==> final(liquidation_vault).spec_to_be_redeemed() == old(
                liquidation_vault,
            ).spec_to_be_redeemed() + old(self).data.to_be_redeemed_tokens,
            final(liquidation_vault).spec_id() == old(liquidation_vault).spec_id(),
            res is Ok ==> final(ledger).spec_balance(old(self).data.id) == old(
                ledger,
            ).spec_balance(old(self).data.id) - spec_liquidation_slash(
                old(self).data,
                old(ledger).spec_balance(old(self).data.id),
            ),
            res is Ok ==> final(ledger).spec_balance(old(liquidation_vault).spec_id()) == old(
                ledger,
            ).spec_balance(old(liquidation_vault).spec_id()) + spec_liquidation_slash(
                old(self).data,
                old(ledger).spec_balance(old(self).data.id),
            ),
            res is Ok ==> forall|o: AccountId|
                o != old(self).data.id && o != old(liquidation_vault).spec_id()
                    ==> final(ledger).spec_balance(o) == old(ledger).spec_balance(o),
            res is Err ==> *final(self) == *old(self) && *final(liquidation_vault) == *old(
                liquidation_vault,
            ) && *final(ledger) == *old(ledger),
            res matches Err(e) ==> (e == VaultError::ArithmeticUnderflow <==> old(
                self,
            ).data.to_be_redeemed_tokens > old(self).data.issued_tokens),
            res matches Err(e) ==> (e == VaultError::ArithmeticUnderflow || e
                == VaultError::ArithmeticOverflow),
    {
        let collateral = ledger.balance_of(self.data.id);
        let backing = match self.data.issued_tokens.checked_sub(self.data.to_be_redeemed_tokens) {
            Some(b) => b,
            None => {
                return Err(VaultError::ArithmeticUnderflow);
            },
        };
        let to_slash = calculate_collateral(collateral, backing, self.data.issued_tokens)?;
        let pool_id = liquidation_vault.id();
        ledger.slash_collateral(self.data.id, pool_id, to_slash)?;
        liquidation_vault.force_issue_tokens(self.data.issued_tokens);
        liquidation_vault.force_increase_to_be_issued(self.data.to_be_issued_tokens);
        liquidation_vault.force_increase_to_be_redeemed(self.data.to_be_redeemed_tokens);
        self.data.to_be_issued_tokens = 0;
        self.data.issued_tokens = 0;
        self.data.status = status;
        Ok(())
    }

    /// Fail with `VaultBanned` while the vault is banned; the boundary
    /// height itself is still banned.
    pub fn ensure_not_banned(&self, height: BlockNumber) -> (res: Result<(), VaultError>)
        ensures
            res is Ok <==> !self.data.is_banned_at(height),
            res matches Err(e) ==> e == VaultError::VaultBanned,
    {
        let is_banned = match self.data.banned_until {
            None => false,
            Some(until) => height <= until,
        };
        if is_banned {
            Err(VaultError::VaultBanned)
        } else {
            Ok(())
        }
    }

    /// Ban the vault up to and including `height`, overwriting any
    /// earlier ban.
    pub fn ban_until(&mut self, height: BlockNumber)
        ensures
            final(self).data == old(self).data.with_ban(height),
    {
        self.data.banned_until = Some(height);
    }

    /// Derive a fresh deposit key from the vault's public key and a
    /// one-time identifier.
    fn new_deposit_public_key(&self, secure_id: &SecureId) -> (res: Result<
        BtcPublicKey,
        VaultError,
    >)
        ensures
            res is Ok <==> self.data.wallet.public_key.valid(),
            res matches Ok(k) ==> k@ == spec_deposit_key(self.data.wallet.public_key@, secure_id@),
            res matches Err(e) ==> e == VaultError::InvalidPublicKey,
    {
        if self.data.wallet.public_key.bytes.len() != PUBLIC_KEY_SIZE {
            return Err(VaultError::InvalidPublicKey);
        }
        let mut bytes = clone_bytes(&self.data.wallet.public_key.bytes);
        extend_bytes(&mut bytes, &secure_id.bytes);
        Ok(BtcPublicKey { bytes })
    }

    /// Record one more deposit address in the vault's wallet.
    pub fn insert_deposit_address(&mut self, btc_address: BtcAddress)
        ensures
            final(self).data.wallet.addr_set() == old(self).data.wallet.addr_set().insert(
                btc_address@,
            ),
            final(self).data.wallet.public_key@ == old(self).data.wallet.public_key@,
            (final(self).data == Vault { wallet: final(self).data.wallet, ..old(self).data }),
    {
        self.data.wallet.add_btc_address(btc_address);
    }

    /// Derive a fresh deposit address from the vault's public key and the
    /// caller's one-time identifier, record it in the wallet, and return
    /// it.  Distinct identifiers yield distinct addresses.
    pub fn new_deposit_address(&mut self, secure_id: &SecureId) -> (res: Result<
        BtcAddress,
        VaultError,
    >)
        ensures
            res is Ok <==> old(self).data.wallet.public_key.valid(),
            res matches Ok(a) ==> a@ == spec_deposit_address(
                old(self).data.wallet.public_key@,
                secure_id@,
            ),
            res matches Ok(a) ==> final(self).data.wallet.addr_set() == old(
                self,
            ).data.wallet.addr_set().insert(a@),
            res is Ok ==> final(self).data.wallet.public_key@ == old(self).data.wallet.public_key@,
            res is Ok ==> (final(self).data == Vault {
                wallet: final(self).data.wallet,
                ..old(self).data
            }),
            res is Err ==> *final(self) == *old(self),
            res matches Err(e) ==> e == VaultError::InvalidPublicKey,
    {
        let key = self.new_deposit_public_key(secure_id)?;
        let payload = key.bytes;
        let stored = BtcAddress::P2WPKHv0(clone_bytes(&payload));
        self.insert_deposit_address(stored);
        Ok(BtcAddress::P2WPKHv0(payload))
    }

    /// Replace the wallet's public key; the recorded addresses stay.
    pub fn update_public_key(&mut self, public_key: BtcPublicKey)
        ensures
            final(self).data.wallet.public_key@ == public_key@,
            final(self).data.wallet.addr_set() == old(self).data.wallet.addr_set(),
            (final(self).data == Vault { wallet: final(self).data.wallet, ..old(self).data }),
    {
        self.data.wallet.public_key = public_key;
    }
}

/// A working copy of the pooled liquidation record.
pub struct RichSystemVault {
    pub data: SystemVault,
}

impl UpdatableVault for RichSystemVault {
    open spec fn spec_id(&self) -> AccountId {
        self.data.id
    }

    open spec fn spec_to_be_issued(&self) -> Amount {
        self.data.to_be_issued_tokens
    }

    open spec fn spec_issued(&self) -> Amount {
        self.data.issued_tokens
    }

    open spec fn spec_to_be_redeemed(&self) -> Amount {
        self.data.to_be_redeemed_tokens
    }

    fn id(&self) -> (r: AccountId) {
        self.data.id
    }

    fn issued_tokens(&self) -> (r: Amount) {
        self.data.issued_tokens
    }

    fn force_issue_tokens(&mut self, tokens: Amount) {
        self.data.issued_tokens = self.data.issued_tokens + tokens;
    }

    fn force_increase_to_be_issued(&mut self, tokens: Amount) {
        self.data.to_be_issued_tokens = self.data.to_be_issued_tokens + tokens;
    }

    fn force_increase_to_be_redeemed(&mut self, tokens: Amount) {
        self.data.to_be_redeemed_tokens = self.data.to_be_redeemed_tokens + tokens;
    }

    fn force_decrease_issued(&mut self, tokens: Amount) {
        self.data.issued_tokens = self.data.issued_tokens - tokens;
    }

    fn force_decrease_to_be_issued(&mut self, tokens: Amount) {
        self.data.to_be_issued_tokens = self.data.to_be_issued_tokens - tokens;
    }

    fn force_decrease_to_be_redeemed(&mut self, tokens: Amount) {
        self.data.to_be_redeemed_tokens = self.data.to_be_redeemed_tokens - tokens;
    }
}

/// Committing the whole issued balance to redemption exhausts the
/// redeemable tokens: afterwards no further positive commitment can be
/// admitted, so the same issued tokens can never back two redemption
/// requests.
pub proof fn lemma_redeem_double_commit_prevented(v: Vault, tokens: Amount)
    requires
        v.to_be_redeemed_tokens == 0,
        tokens >= 1,
    ensures
        can_commit_for_redeem(v, v.issued_tokens),
        !can_commit_for_redeem(
            v.with_tokens(v.to_be_issued_tokens, v.issued_tokens, v.issued_tokens),
            tokens,
        ),
{
}

/// Liquidation conserves obligations.  The pool's counters each grow by
/// exactly the vault's counters; the vault keeps only its tokens pending
/// redeem; and the combined issued-plus-promised total over both ledger
/// entities is unchanged.
pub proof fn lemma_liquidation_conservation(v: Vault, pool: SystemVault, status: VaultStatus)
    requires
        v.wf(),
        pool.issued_tokens + v.issued_tokens <= Amount::MAX,
        pool.to_be_issued_tokens + v.to_be_issued_tokens <= Amount::MAX,
        pool.to_be_redeemed_tokens + v.to_be_redeemed_tokens <= Amount::MAX,
    ensures
        v.liquidated(status).to_be_issued_tokens == 0,
        v.liquidated(status).issued_tokens == 0,
        v.liquidated(status).to_be_redeemed_tokens == v.to_be_redeemed_tokens,
        v.liquidated(status).total_committed() + (pool.issued_tokens + v.issued_tokens) + (
        pool.to_be_issued_tokens + v.to_be_issued_tokens) == v.total_committed()
            + pool.total_committed(),
        (pool.to_be_redeemed_tokens + v.to_be_redeemed_tokens) - pool.to_be_redeemed_tokens
            == v.to_be_redeemed_tokens,
        pool.to_be_redeemed_tokens <= pool.issued_tokens ==> pool.to_be_redeemed_tokens
            + v.to_be_redeemed_tokens <= pool.issued_tokens + v.issued_tokens,
{
}

/// A ban is inclusive of its boundary: at the banned-until height the
/// vault is still banned, and one block later it no longer is.
pub proof fn lemma_ban_boundary(v: Vault, height: BlockNumber)
    requires
        height < BlockNumber::MAX,
    ensures
        v.with_ban(height).is_banned_at(height),
        !v.with_ban(height).is_banned_at((height + 1) as BlockNumber),
{
}

} // verus!
