//! Records of the bridge hub: the singleton configuration, the per-call
//! bridge request and completion records, the per-owner portfolio snapshot,
//! and the `Hub` ledger that holds them.
//!
//! The `Hub` models the durable, individually addressed store the operations
//! run against: records live at deterministic addresses, so creating a second
//! record with the same key fails instead of overwriting the first.

use vstd::prelude::*;

verus! {

/// The native chain identifier: bridge records may only name a different
/// chain as their target or source.
pub const NATIVE_CHAIN_ID: u16 = 1;

/// Fee rates are expressed in basis points and capped at 10%.
pub const MAX_FEE_BPS: u16 = 1000;

/// Denominator for basis-point fee arithmetic.
pub const BPS_DENOMINATOR: u64 = 10000;

/// A 32-byte opaque identity: the ledger addresses every participant and
/// record by such a value.
#[derive(Clone, Copy, Debug)]
pub struct Identity {
    pub bytes: [u8; 32],
}

impl PartialEq for Identity {
    fn eq(&self, other: &Identity) -> (r: bool) {
        let r = bytes32_eq(&self.bytes, &other.bytes);
        proof {
            if self.bytes@ == other.bytes@ {
                assert(self.bytes == other.bytes);
            }
        }
        r
    }
}

impl vstd::std_specs::cmp::PartialEqSpecImpl for Identity {
    open spec fn obeys_eq_spec() -> bool {
        true
    }

    open spec fn eq_spec(&self, other: &Identity) -> bool {
        *self == *other
    }
}

/// Lifecycle of a bridge record: it only ever progresses from `Initiated`
/// to `Completed` or `Failed`, never backwards.
#[derive(Clone, Copy, Debug, PartialEq, Eq, Structural)]
pub enum BridgeStatus {
    Initiated,
    Completed,
    Failed,
}

/// The hub's singleton configuration and running totals.
#[derive(Clone, Copy, Debug)]
pub struct HubState {
    pub authority: Identity,
    pub admin: Identity,
    pub bridge_fee_bps: u16,
    pub is_paused: bool,
    pub total_bridges: u64,
    pub total_volume: u64,
    pub bump: u8,
}

/// One outbound transfer intent, keyed by (user, target chain, gross amount).
///
/// `amount` holds the net amount after the fee was taken; the gross amount
/// the caller asked to bridge is `amount + fee_amount`.
#[derive(Clone, Copy, Debug)]
pub struct BridgeRequest {
    pub user: Identity,
    pub token_mint: Identity,
    pub amount: u64,
    pub fee_amount: u64,
    pub target_chain: u16,
    pub recipient: [u8; 32],
    pub timestamp: i64,
    pub status: BridgeStatus,
    pub bump: u8,
}

/// One inbound completion record, keyed by its attested bridge hash.
/// Immutable once written: recording the same hash twice is rejected.
#[derive(Clone, Copy, Debug)]
pub struct BridgeCompletion {
    pub source_chain: u16,
    pub bridge_hash: [u8; 32],
    pub recipient: Identity,
    pub token_mint: Identity,
    pub amount: u64,
    pub timestamp: i64,
    pub status: BridgeStatus,
    pub bump: u8,
}

/// A per-owner reporting cache of balances; never a source of truth.
#[derive(Clone, Copy, Debug)]
pub struct Portfolio {
    pub owner: Identity,
    pub solana_balance: u64,
    pub ethereum_balance: u64,
    pub polygon_balance: u64,
    pub total_value_usd: u64,
    pub last_update: i64,
    pub bump: u8,
}

/// Notification emitted when the hub is initialized.
#[derive(Clone, Copy, Debug)]
pub struct HubInitialized {
    pub authority: Identity,
    pub admin: Identity,
    pub bridge_fee_bps: u16,
    pub timestamp: i64,
}

/// Notification emitted when an outbound bridge intent is booked.
#[derive(Clone, Copy, Debug)]
pub struct BridgeInitiated {
    pub user: Identity,
    pub bridge_id: Identity,
    pub token_mint: Identity,
    pub amount: u64,
    pub fee_amount: u64,
    pub target_chain: u16,
    pub recipient: [u8; 32],
    pub timestamp: i64,
}

/// Notification emitted when an inbound completion is recorded.
#[derive(Clone, Copy, Debug)]
pub struct BridgeCompleted {
    pub recipient: Identity,
    pub completion_id: Identity,
    pub source_chain: u16,
    pub bridge_hash: [u8; 32],
    pub amount: u64,
    pub timestamp: i64,
}

/// Notification emitted when a portfolio record is created.
#[derive(Clone, Copy, Debug)]
pub struct PortfolioCreated {
    pub user: Identity,
    pub portfolio_id: Identity,
    pub timestamp: i64,
}

/// Notification emitted when a portfolio record is overwritten.
#[derive(Clone, Copy, Debug)]
pub struct PortfolioUpdated {
    pub user: Identity,
    pub solana_balance: u64,
    pub ethereum_balance: u64,
    pub polygon_balance: u64,
    pub total_value_usd: u64,
    pub timestamp: i64,
}

/// Notification emitted when the pause flag is set.
#[derive(Clone, Copy, Debug)]
pub struct HubPauseStateChanged {
    pub is_paused: bool,
    pub timestamp: i64,
}

/// Notification emitted when the admin claims accrued fees.
#[derive(Clone, Copy, Debug)]
pub struct FeesCollected {
    pub admin: Identity,
    pub amount: u64,
    pub timestamp: i64,
}

/// The fee owed on a gross amount at a basis-point rate, rounded down.
pub open spec fn fee_of(amount: u64, fee_bps: u16) -> int {
    (amount * fee_bps) / (BPS_DENOMINATOR as int)
}

/// The gross amount a request was booked for: net plus fee.
pub open spec fn request_gross(r: BridgeRequest) -> int {
    r.amount + r.fee_amount
}

/// Whether a request occupies the address derived from (user, chain, gross
/// amount).
pub open spec fn request_matches(r: BridgeRequest, user: Identity, target_chain: u16, gross: u64) -> bool {
    &&& r.user == user
    &&& r.target_chain == target_chain
    &&& request_gross(r) == gross
}

/// Well-formedness of a single stored request under the hub's fee rate.
pub open spec fn request_wf(r: BridgeRequest, fee_bps: u16) -> bool {
    &&& r.target_chain != NATIVE_CHAIN_ID
    &&& 0 < request_gross(r) <= u64::MAX
    &&& r.fee_amount == fee_of((r.amount + r.fee_amount) as u64, fee_bps)
}

/// Well-formedness of a single stored completion.
pub open spec fn completion_wf(c: BridgeCompletion) -> bool {
    &&& c.source_chain != NATIVE_CHAIN_ID
    &&& c.amount > 0
    &&& c.status is Completed
}

/// Sum of the gross amounts of the stored requests.
pub open spec fn total_gross(s: Seq<BridgeRequest>) -> int
    decreases s.len(),
{
    if s.len() == 0 {
        0
    } else {
        total_gross(s.drop_last()) + request_gross(s.last())
    }
}

/// Number of stored completions that carry the given bridge hash.
pub open spec fn count_with_hash(s: Seq<BridgeCompletion>, hash: Seq<u8>) -> nat
    decreases s.len(),
{
    if s.len() == 0 {
        0
    } else {
        count_with_hash(s.drop_last(), hash) + if s.last().bridge_hash@ == hash {
            1nat
        } else {
            0nat
        }
    }
}

/// The hub ledger: the singleton configuration together with the records
/// created under it, each family keyed by its deterministic address seeds.
#[derive(Debug)]
pub struct Hub {
    /// The singleton configuration and running totals.
    pub state: HubState,
    /// Outbound intents, append-only, unique per (user, chain, gross).
    pub requests: Vec<BridgeRequest>,
    /// Inbound completions, append-only, unique per bridge hash.
    pub completions: Vec<BridgeCompletion>,
    /// The owners whose portfolio address is occupied. The records
    /// themselves live with their owners, who alone may update them; the
    /// ledger only refuses a second creation for the same owner.
    pub portfolio_owners: Vec<Identity>,
}

impl HubState {
    /// The configuration invariant: the fee rate never exceeds the cap.
    pub open spec fn wf(self) -> bool {
        self.bridge_fee_bps <= MAX_FEE_BPS
    }

    /// The same configuration with the pause flag set to `paused`.
    pub open spec fn with_paused(self, paused: bool) -> HubState {
        HubState { is_paused: paused, ..self }
    }

    /// The same configuration with the totals advanced by one bridge of the
    /// given gross amount.
    pub open spec fn with_bridge_booked(self, gross: u64) -> HubState {
        HubState {
            total_bridges: (self.total_bridges + 1) as u64,
            total_volume: (self.total_volume + gross) as u64,
            ..self
        }
    }
}

impl Hub {
    /// Whether a request occupies the address derived from (user, chain,
    /// gross amount).
    pub open spec fn has_request(self, user: Identity, target_chain: u16, gross: u64) -> bool {
        exists|i: int|
            0 <= i < self.requests@.len() && request_matches(
                #[trigger] self.requests@[i],
                user,
                target_chain,
                gross,
            )
    }

    /// Whether a completion occupies the address derived from the hash.
    pub open spec fn has_completion(self, hash: [u8; 32]) -> bool {
        exists|i: int| 0 <= i < self.completions@.len() && (#[trigger] self.completions@[i]).bridge_hash@ == hash@
    }

    /// Whether a portfolio occupies the address derived from the owner.
    pub open spec fn has_portfolio(self, owner: Identity) -> bool {
        exists|i: int| 0 <= i < self.portfolio_owners@.len() && #[trigger] self.portfolio_owners@[i] == owner
    }

    /// Number of completions recorded for the given hash.
    pub open spec fn completion_count(self, hash: [u8; 32]) -> nat {
        count_with_hash(self.completions@, hash@)
    }

    /// The ledger invariant.
    ///
    /// Each record family is keyed uniquely, every stored record passed its
    /// creation checks, and the hub's running totals agree exactly with the
    /// stored requests: the bridge count is their number and the volume the
    /// sum of their gross amounts.
    pub open spec fn wf(self) -> bool {
        &&& self.state.wf()
        &&& self.state.total_bridges == self.requests@.len()
        &&& self.state.total_volume == total_gross(self.requests@)
        &&& forall|i: int|
            0 <= i < self.requests@.len() ==> request_wf(
                #[trigger] self.requests@[i],
                self.state.bridge_fee_bps,
            )
        &&& forall|i: int, j: int|
            0 <= i < j < self.requests@.len() ==> !request_matches(
                #[trigger] self.requests@[j],
                (#[trigger] self.requests@[i]).user,
                self.requests@[i].target_chain,
                (self.requests@[i].amount + self.requests@[i].fee_amount) as u64,
            )
        &&& forall|i: int|
            0 <= i < self.completions@.len() ==> completion_wf(#[trigger] self.completions@[i])
        &&& forall|i: int, j: int|
            0 <= i < j < self.completions@.len() ==> (#[trigger] self.completions@[i]).bridge_hash@
                != (#[trigger] self.completions@[j]).bridge_hash@
        &&& forall|i: int, j: int|
            0 <= i < j < self.portfolio_owners@.len() ==> #[trigger] self.portfolio_owners@[i]
                != #[trigger] self.portfolio_owners@[j]
    }
}

/// Appending a request adds exactly its gross amount to the sum.
pub proof fn lemma_total_gross_push(s: Seq<BridgeRequest>, r: BridgeRequest)
    ensures
        total_gross(s.push(r)) == total_gross(s) + request_gross(r),
{
    assert(s.push(r).drop_last() =~= s);
    assert(s.push(r).last() == r);
}

/// Appending a completion raises the count of its own hash by one and
/// leaves the count of every other hash as it was.
pub proof fn lemma_count_with_hash_push(s: Seq<BridgeCompletion>, c: BridgeCompletion, hash: Seq<u8>)
    ensures
        c.bridge_hash@ == hash ==> count_with_hash(s.push(c), hash) == count_with_hash(s, hash) + 1,
        c.bridge_hash@ != hash ==> count_with_hash(s.push(c), hash) == count_with_hash(s, hash),
{
    assert(s.push(c).drop_last() =~= s);
    assert(s.push(c).last() == c);
}

/// A hash is counted zero times exactly when no stored completion carries it.
pub proof fn lemma_count_with_hash_zero(s: Seq<BridgeCompletion>, hash: Seq<u8>)
    ensures
        (count_with_hash(s, hash) == 0) <==> (forall|i: int|
            0 <= i < s.len() ==> (#[trigger] s[i]).bridge_hash@ != hash),
    decreases s.len(),
{
    if s.len() > 0 {
        lemma_count_with_hash_zero(s.drop_last(), hash);
        assert(forall|i: int| 0 <= i < s.len() - 1 ==> #[trigger] s[i] == s.drop_last()[i]);
    }
}

/// Whether two 32-byte values hold the same bytes.
pub fn bytes32_eq(a: &[u8; 32], b: &[u8; 32]) -> (r: bool)
    ensures
        r <==> a@ == b@,
{
    let mut i: usize = 0;
    while i < 32
        invariant
            0 <= i <= 32,
            forall|j: int| 0 <= j < i ==> a@[j] == b@[j],
        decreases 32 - i,
    {
        if a[i] != b[i] {
            return false;
        }
        i += 1;
    }
    proof {
        assert(a@ =~= b@);
    }
    true
}

} // verus!
