//! Data model: vault records, wallets, Bitcoin-style addresses and keys,
//! statuses and the error taxonomy shared by every operation.

use vstd::prelude::*;

verus! {

/// Storage schema versions of the persisted vault records.
pub enum Version {
    /// Initial version.
    V0,
    /// Address type with script format.
    V1,
}

/// Lifecycle status of a vault.  `Active` is the initial state; the other
/// two states are terminal: no operation returns a vault to `Active`.
#[derive(Clone, Copy, Debug, PartialEq, Eq, Structural)]
pub enum VaultStatus {
    /// Vault is active.
    Active,
    /// Vault has been liquidated.
    Liquidated,
    /// Vault theft has been reported.
    CommittedTheft,
}

impl Default for VaultStatus {
    fn default() -> (r: Self)
        ensures
            r == VaultStatus::Active,
    {
        VaultStatus::Active
    }
}

/// Failure kinds of the registry operations.  A failed operation never
/// mutates any state.
#[derive(Clone, Copy, Debug, PartialEq, Eq, Structural)]
pub enum VaultError {
    /// An attempted decrease exceeds the relevant token counter.
    InsufficientTokensCommitted,
    /// An attempted issuance exceeds the vault's issuable capacity.
    ExceedingVaultLimit,
    /// A withdrawal would push the vault below the secure threshold.
    InsufficientCollateral,
    /// A checked addition or multiplication does not fit the amount type.
    ArithmeticOverflow,
    /// A checked subtraction would go below zero.
    ArithmeticUnderflow,
    /// Deposit-key derivation was asked of a malformed public key.
    InvalidPublicKey,
    /// The vault is banned at the given block height.
    VaultBanned,
}

/// Account identifier of a vault or of the pooled liquidation account.
pub type AccountId = u64;

/// Block height, used for vault banning.
pub type BlockNumber = u64;

/// Token amount, both for the pegged asset and for the collateral asset,
/// in the asset's smallest unit.
pub type Amount = u128;

/// Byte length of a compressed public key.
pub const PUBLIC_KEY_SIZE: usize = 33;

/// A public key from which a vault derives its deposit addresses.
pub struct BtcPublicKey {
    pub bytes: Vec<u8>,
}

impl View for BtcPublicKey {
    type V = Seq<u8>;

    open spec fn view(&self) -> Seq<u8> {
        self.bytes@
    }
}

impl BtcPublicKey {
    /// A key is well formed when it has the length of a compressed key.
    pub open spec fn valid(self) -> bool {
        self@.len() == PUBLIC_KEY_SIZE
    }
}

/// A caller-supplied one-time identifier that makes a derived deposit
/// address unique.
pub struct SecureId {
    pub bytes: Vec<u8>,
}

impl View for SecureId {
    type V = Seq<u8>;

    open spec fn view(&self) -> Seq<u8> {
        self.bytes@
    }
}

/// A Bitcoin-style deposit address.  The payload is the script's hash
/// material.
pub enum BtcAddress {
    P2PKH(Vec<u8>),
    P2SH(Vec<u8>),
    P2WPKHv0(Vec<u8>),
    P2WSHv0(Vec<u8>),
}

/// Abstract value of an address: a tag for the script kind and the payload
/// bytes.
pub type AddressView = (int, Seq<u8>);

impl View for BtcAddress {
    type V = AddressView;

    open spec fn view(&self) -> AddressView {
        match self {
            BtcAddress::P2PKH(h) => (0int, h@),
            BtcAddress::P2SH(h) => (1int, h@),
            BtcAddress::P2WPKHv0(h) => (2int, h@),
            BtcAddress::P2WSHv0(h) => (3int, h@),
        }
    }
}

/// Byte-for-byte equality of two vectors.
pub fn bytes_eq(a: &Vec<u8>, b: &Vec<u8>) -> (r: bool)
    ensures
        r == (a@ == b@),
{
    if a.len() != b.len() {
        return false;
    }
    let mut i: usize = 0;
    while i < a.len()
        invariant
            i <= a@.len(),
            a@.len() == b@.len(),
            forall|j: int| 0 <= j < i ==> a@[j] == b@[j],
        decreases a@.len() - i,
    {
        if a[i] != b[i] {
            return false;
        }
        i += 1;
    }
    proof {
        assert(a@ =~= b@);
    }
    true
}

/// Append every byte of `src` to `dst`.
pub fn extend_bytes(dst: &mut Vec<u8>, src: &Vec<u8>)
    ensures
        final(dst)@ == old(dst)@ + src@,
{
    let mut i: usize = 0;
    proof {
        assert(dst@ =~= old(dst)@ + src@.take(0));
    }
    while i < src.len()
        invariant
            i <= src@.len(),
            dst@ == old(dst)@ + src@.take(i as int),
        decreases src@.len() - i,
    {
        dst.push(src[i]);
        proof {
            assert(dst@ =~= old(dst)@ + src@.take(i + 1));
        }
        i += 1;
    }
    proof {
        assert(src@.take(src@.len() as int) =~= src@);
    }
}

/// A fresh vector with the same bytes.
pub fn clone_bytes(src: &Vec<u8>) -> (r: Vec<u8>)
    ensures
        r@ == src@,
{
    let mut r: Vec<u8> = Vec::new();
    extend_bytes(&mut r, src);
    proof {
        assert(Seq::<u8>::empty() + src@ =~= src@);
    }
    r
}

/// Equality of two addresses, decided on their abstract values.
pub fn addr_eq(a: &BtcAddress, b: &BtcAddress) -> (r: bool)
    ensures
        r == (a@ == b@),
{
    match (a, b) {
        (BtcAddress::P2PKH(x), BtcAddress::P2PKH(y)) => bytes_eq(x, y),
        (BtcAddress::P2SH(x), BtcAddress::P2SH(y)) => bytes_eq(x, y),
        (BtcAddress::P2WPKHv0(x), BtcAddress::P2WPKHv0(y)) => bytes_eq(x, y),
        (BtcAddress::P2WSHv0(x), BtcAddress::P2WSHv0(y)) => bytes_eq(x, y),
        _ => false,
    }
}

proof fn lemma_to_set_push<A>(s: Seq<A>, a: A)
    ensures
        s.push(a).to_set() == s.to_set().insert(a),
{
    assert forall|x: A| s.push(a).to_set().contains(x) implies s.to_set().insert(a).contains(
        x,
    ) by {
        let i = choose|i: int| 0 <= i < s.push(a).len() && s.push(a)[i] == x;
        if i < s.len() {
            assert(s[i] == x);
        }
    }
    assert forall|x: A| s.to_set().insert(a).contains(x) implies s.push(a).to_set().contains(
        x,
    ) by {
        if s.to_set().contains(x) {
            let i = choose|i: int| 0 <= i < s.len() && s[i] == x;
            assert(s.push(a)[i] == x);
        } else {
            assert(s.push(a)[s.len() as int] == x);
        }
    }
    assert(s.push(a).to_set() =~= s.to_set().insert(a));
}

/// The wallet of a vault: its current public key and every deposit address
/// it has ever derived.  The address set only grows; there is no removal.
pub struct Wallet {
    pub addresses: Vec<BtcAddress>,
    pub public_key: BtcPublicKey,
}

impl Wallet {
    /// The recorded deposit addresses, as a set of abstract address values.
    pub open spec fn addr_set(self) -> Set<AddressView> {
        self.addresses@.map_values(|a: BtcAddress| a@).to_set()
    }

    pub fn new(public_key: BtcPublicKey) -> (r: Self)
        ensures
            r.addr_set() == Set::<AddressView>::empty(),
            r.public_key@ == public_key@,
    {
        let r = Wallet { addresses: Vec::new(), public_key };
        proof {
            assert(r.addresses@.map_values(|a: BtcAddress| a@) =~= Seq::<AddressView>::empty());
            assert(r.addr_set() =~= Set::<AddressView>::empty());
        }
        r
    }

    /// Membership check used for theft detection: has this wallet ever
    /// derived the given address?
    pub fn has_btc_address(&self, address: &BtcAddress) -> (r: bool)
        ensures
            r == self.addr_set().contains(address@),
    {
        let ghost views = self.addresses@.map_values(|a: BtcAddress| a@);
        let mut i: usize = 0;
        while i < self.addresses.len()
            invariant
                i <= self.addresses@.len(),
                views == self.addresses@.map_values(|a: BtcAddress| a@),
                forall|j: int| 0 <= j < i ==> views[j] != address@,
            decreases self.addresses@.len() - i,
        {
            if addr_eq(&self.addresses[i], address) {
                proof {
                    assert(views[i as int] == address@);
                }
                return true;
            }
            i += 1;
        }
        proof {
            if views.to_set().contains(address@) {
                let j = choose|j: int| 0 <= j < views.len() && views[j] == address@;
                assert(views[j] != address@);
            }
        }
        false
    }

    /// Records one more deposit address.  Recording an address the wallet
    /// already holds leaves the set unchanged.
    pub fn add_btc_address(&mut self, address: BtcAddress)
        ensures
            final(self).addr_set() == old(self).addr_set().insert(address@),
            final(self).public_key@ == old(self).public_key@,
    {
        let ghost a_view = address@;
        if !self.has_btc_address(&address) {
            let ghost olds = self.addresses@;
            self.addresses.push(address);
            proof {
                let f = |a: BtcAddress| a@;
                assert(self.addresses@.map_values(f) =~= olds.map_values(f).push(a_view));
                lemma_to_set_push(olds.map_values(f), a_view);
            }
        } else {
            proof {
                assert(self.addr_set() =~= old(self).addr_set().insert(a_view));
            }
        }
    }
}

/// One vault's persistent record.
pub struct Vault {
    /// Account identifier of the vault.
    pub id: AccountId,
    /// Tokens pending issue.
    pub to_be_issued_tokens: Amount,
    /// Tokens issued.
    pub issued_tokens: Amount,
    /// Tokens pending redeem.
    pub to_be_redeemed_tokens: Amount,
    /// The vault's public key and derived deposit addresses.
    pub wallet: Wallet,
    /// Block height until which the vault is banned, inclusive.
    pub banned_until: Option<BlockNumber>,
    /// Current lifecycle status.
    pub status: VaultStatus,
}

impl Vault {
    /// The record invariant: tokens committed to redemption never exceed
    /// the issued tokens.  It holds after every completed operation, with
    /// one prescribed exception: liquidating a vault that still has tokens
    /// pending redeem leaves those tokens in place while its issued tokens
    /// move to the pool.
    pub open spec fn wf(self) -> bool {
        self.to_be_redeemed_tokens <= self.issued_tokens
    }

    /// The record with the three token counters replaced and everything
    /// else as it was.
    pub open spec fn with_tokens(self, to_be_issued: Amount, issued: Amount, to_be_redeemed: Amount) -> Vault {
        Vault {
            to_be_issued_tokens: to_be_issued,
            issued_tokens: issued,
            to_be_redeemed_tokens: to_be_redeemed,
            ..self
        }
    }

    /// The record banned up to and including `height`.
    pub open spec fn with_ban(self, height: BlockNumber) -> Vault {
        Vault { banned_until: Some(height), ..self }
    }

    /// The record after liquidation: promised and issued tokens are gone,
    /// tokens pending redeem stay so their redeemer can still settle, and
    /// the status records the cause.
    pub open spec fn liquidated(self, status: VaultStatus) -> Vault {
        Vault { to_be_issued_tokens: 0, issued_tokens: 0, status, ..self }
    }

    /// Issued tokens not yet committed to a redemption request.
    pub open spec fn redeemable(self) -> int {
        self.issued_tokens - self.to_be_redeemed_tokens
    }

    /// Tokens whose backing collateral is committed: issued plus promised.
    pub open spec fn total_committed(self) -> int {
        self.issued_tokens + self.to_be_issued_tokens
    }

    /// Is the vault banned at the given height?  The boundary height is
    /// itself banned.
    pub open spec fn is_banned_at(self, height: BlockNumber) -> bool {
        match self.banned_until {
            Some(until) => height <= until,
            None => false,
        }
    }

    pub fn new(id: AccountId, public_key: BtcPublicKey) -> (r: Vault)
        ensures
            r.id == id,
            r.to_be_issued_tokens == 0,
            r.issued_tokens == 0,
            r.to_be_redeemed_tokens == 0,
            r.wallet.addr_set() == Set::<AddressView>::empty(),
            r.wallet.public_key@ == public_key@,
            r.banned_until is None,
            r.status == VaultStatus::Active,
            r.wf(),
    {
        let wallet = Wallet::new(public_key);
        Vault {
            id,
            wallet,
            to_be_issued_tokens: 0,
            issued_tokens: 0,
            to_be_redeemed_tokens: 0,
            banned_until: None,
            status: VaultStatus::Active,
        }
    }

    pub fn is_liquidated(&self) -> (r: bool)
        ensures
            r == (self.status == VaultStatus::Liquidated),
    {
        matches!(self.status, VaultStatus::Liquidated)
    }
}

/// The deposit key derived from a vault's public key and a one-time
/// identifier.  The derived key commits to both inputs, here modeled as
/// their concatenation, so it is deterministic and, for one parent key,
/// injective in the identifier.
pub open spec fn spec_deposit_key(public_key: Seq<u8>, secure_id: Seq<u8>) -> Seq<u8> {
    public_key + secure_id
}

/// The deposit address derived from a public key and a one-time
/// identifier: a pay-to-witness address whose payload is the derived key.
pub open spec fn spec_deposit_address(public_key: Seq<u8>, secure_id: Seq<u8>) -> AddressView {
    (2int, spec_deposit_key(public_key, secure_id))
}

/// Deriving with two distinct one-time identifiers from the same public
/// key yields two distinct addresses, and a wallet that records both
/// reports both as present.
pub proof fn lemma_deposit_addresses_distinct(
    public_key: Seq<u8>,
    id1: Seq<u8>,
    id2: Seq<u8>,
    recorded: Set<AddressView>,
)
    requires
        id1 != id2,
    ensures
        spec_deposit_address(public_key, id1) != spec_deposit_address(public_key, id2),
        recorded.insert(spec_deposit_address(public_key, id1)).insert(
            spec_deposit_address(public_key, id2),
        ).contains(spec_deposit_address(public_key, id1)),
        recorded.insert(spec_deposit_address(public_key, id1)).insert(
            spec_deposit_address(public_key, id2),
        ).contains(spec_deposit_address(public_key, id2)),
{
    let k1 = spec_deposit_key(public_key, id1);
    let k2 = spec_deposit_key(public_key, id2);
    if k1 == k2 {
        assert(k1.len() == public_key.len() + id1.len());
        assert(k2.len() == public_key.len() + id2.len());
        assert(id1.len() == id2.len());
        assert forall|i: int| 0 <= i < id1.len() implies id1[i] == id2[i] by {
            assert(k1[public_key.len() + i] == id1[i]);
            assert(k2[public_key.len() + i] == id2[i]);
        }
        assert(id1 =~= id2);
    }
}

/// The pooled fallback record that absorbs debt from liquidated vaults.
/// It has no wallet, no ban state and no status: it cannot itself be
/// liquidated.
pub struct SystemVault {
    /// Account identifier of the pooled liquidation account.
    pub id: AccountId,
    /// Tokens pending issue.
    pub to_be_issued_tokens: Amount,
    /// Tokens issued.
    pub issued_tokens: Amount,
    /// Tokens pending redeem.
    pub to_be_redeemed_tokens: Amount,
}

impl SystemVault {
    /// Tokens whose backing collateral is committed: issued plus promised.
    pub open spec fn total_committed(self) -> int {
        self.issued_tokens + self.to_be_issued_tokens
    }

    pub fn new(id: AccountId) -> (r: SystemVault)
        ensures
            r.id == id,
            r.to_be_issued_tokens == 0,
            r.issued_tokens == 0,
            r.to_be_redeemed_tokens == 0,
    {
        SystemVault { id, to_be_issued_tokens: 0, issued_tokens: 0, to_be_redeemed_tokens: 0 }
    }
}

} // verus!
