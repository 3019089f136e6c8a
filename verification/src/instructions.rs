//! The bridge-hub operations: initialization, pause gating, outbound and
//! inbound bridging, portfolio aggregation and fee collection.
//!
//! Every operation validates before it mutates, so a reported error leaves
//! the ledger exactly as it was. Record creation checks the record's
//! deterministic key first, the way the host ledger refuses to create an
//! account at an occupied address before any handler logic runs.

use vstd::prelude::*;

use crate::errors::HubError;
use crate::state::BridgeCompleted;
use crate::state::BridgeCompletion;
use crate::state::BridgeInitiated;
use crate::state::BridgeRequest;
use crate::state::BridgeStatus;
use crate::state::FeesCollected;
use crate::state::Hub;
use crate::state::HubInitialized;
use crate::state::HubPauseStateChanged;
use crate::state::HubState;
use crate::state::Identity;
use crate::state::Portfolio;
use crate::state::PortfolioCreated;
use crate::state::PortfolioUpdated;
use crate::state::bytes32_eq;
use crate::state::completion_wf;
use crate::state::fee_of;
use crate::state::lemma_count_with_hash_push;
use crate::state::lemma_total_gross_push;
use crate::state::request_matches;
use crate::state::request_wf;
use crate::state::total_gross;
use crate::state::BPS_DENOMINATOR;
use crate::state::MAX_FEE_BPS;
use crate::state::NATIVE_CHAIN_ID;

verus! {

/// Splits a gross amount into (fee, net) at the given basis-point rate.
///
/// The fee is `floor(amount * fee_bps / 10000)`, taken in widened
/// intermediate arithmetic, and the two parts always recompose exactly to
/// the gross amount.
pub fn compute_fee_split(amount: u64, fee_bps: u16) -> (r: (u64, u64))
    requires
        fee_bps <= MAX_FEE_BPS,
    ensures
        r.0 == fee_of(amount, fee_bps),
        r.0 + r.1 == amount,
{
    proof {
        assert(amount * fee_bps <= amount * 10000) by (nonlinear_arith)
            requires
                fee_bps <= 10000,
        ;
        assert((amount * fee_bps) / 10000 <= amount) by (nonlinear_arith)
            requires
                amount * fee_bps <= amount * 10000,
        ;
    }
    let wide: u128 = (amount as u128) * (fee_bps as u128) / (BPS_DENOMINATOR as u128);
    let fee: u64 = wide as u64;
    (fee, amount - fee)
}

/// Whether a request already occupies the key (user, target chain, gross
/// amount).
pub fn occupies_request_key(hub: &Hub, user: &Identity, target_chain: u16, gross: u64) -> (r: bool)
    requires
        hub.wf(),
    ensures
        r <==> hub.has_request(*user, target_chain, gross),
{
    let n = hub.requests.len();
    let mut i: usize = 0;
    while i < n
        invariant
            hub.wf(),
            n == hub.requests@.len(),
            0 <= i <= n,
            forall|k: int|
                0 <= k < i ==> !request_matches(
                    #[trigger] hub.requests@[k],
                    *user,
                    target_chain,
                    gross,
                ),
        decreases n - i,
    {
        let r = &hub.requests[i];
        proof {
            assert(request_wf(hub.requests@[i as int], hub.state.bridge_fee_bps));
        }
        let g: u64 = r.amount + r.fee_amount;
        if r.user == *user && r.target_chain == target_chain && g == gross {
            proof {
                assert(request_matches(hub.requests@[i as int], *user, target_chain, gross));
            }
            return true;
        }
        i += 1;
    }
    false
}

/// Whether a completion already occupies the key of this bridge hash.
pub fn occupies_completion_key(hub: &Hub, bridge_hash: &[u8; 32]) -> (r: bool)
    ensures
        r <==> hub.has_completion(*bridge_hash),
{
    let n = hub.completions.len();
    let mut i: usize = 0;
    while i < n
        invariant
            n == hub.completions@.len(),
            0 <= i <= n,
            forall|k: int|
                0 <= k < i ==> (#[trigger] hub.completions@[k]).bridge_hash@ != bridge_hash@,
        decreases n - i,
    {
        if bytes32_eq(&hub.completions[i].bridge_hash, bridge_hash) {
            return true;
        }
        i += 1;
    }
    false
}

/// Whether a portfolio already occupies the key of this owner.
pub fn occupies_portfolio_key(hub: &Hub, owner: &Identity) -> (r: bool)
    ensures
        r <==> hub.has_portfolio(*owner),
{
    let n = hub.portfolio_owners.len();
    let mut i: usize = 0;
    while i < n
        invariant
            n == hub.portfolio_owners@.len(),
            0 <= i <= n,
            forall|k: int| 0 <= k < i ==> #[trigger] hub.portfolio_owners@[k] != *owner,
        decreases n - i,
    {
        if hub.portfolio_owners[i] == *owner {
            return true;
        }
        i += 1;
    }
    false
}

/// Creates the hub ledger under its configuration.
///
/// Fails with `InvalidFee` exactly when the fee rate exceeds the cap; no
/// state exists after a failure. On success the configuration records the
/// initializing caller as authority, the given admin, an unpaused flag and
/// zero totals, and the ledger holds no records yet.
pub fn initialize_hub(authority: Identity, bridge_fee_bps: u16, admin: Identity, bump: u8, now: i64) -> (r:
    Result<(Hub, HubInitialized), HubError>)
    ensures
        r is Ok <==> bridge_fee_bps <= MAX_FEE_BPS,
        r matches Err(e) ==> e == HubError::InvalidFee,
        r matches Ok(p) ==> {
            &&& p.0.state == (HubState {
                authority,
                admin,
                bridge_fee_bps,
                is_paused: false,
                total_bridges: 0,
                total_volume: 0,
                bump,
            })
            &&& p.0.requests@.len() == 0
            &&& p.0.completions@.len() == 0
            &&& p.0.portfolio_owners@.len() == 0
            &&& p.0.wf()
            &&& p.1 == (HubInitialized { authority, admin, bridge_fee_bps, timestamp: now })
        },
{
    if bridge_fee_bps > MAX_FEE_BPS {
        return Err(HubError::InvalidFee);
    }
    let state = HubState {
        authority,
        admin,
        bridge_fee_bps,
        is_paused: false,
        total_bridges: 0,
        total_volume: 0,
        bump,
    };
    let hub = Hub {
        state,
        requests: Vec::new(),
        completions: Vec::new(),
        portfolio_owners: Vec::new(),
    };
    let event = HubInitialized { authority, admin, bridge_fee_bps, timestamp: now };
    Ok((hub, event))
}

/// Sets the pause flag.
///
/// Admin-gated: any other caller gets `UnauthorizedAdmin` and the ledger is
/// untouched. Setting the flag to the value it already has is legal, so the
/// operation is idempotent.
pub fn set_pause_state(hub: &mut Hub, admin: Identity, paused: bool, now: i64) -> (r: Result<
    HubPauseStateChanged,
    HubError,
>)
    requires
        old(hub).wf(),
    ensures
        final(hub).wf(),
        r is Ok <==> admin == old(hub).state.admin,
        r matches Err(e) ==> e == HubError::UnauthorizedAdmin && *final(hub) == *old(hub),
        r matches Ok(ev) ==> {
            &&& final(hub).state == old(hub).state.with_paused(paused)
            &&& final(hub).requests@ == old(hub).requests@
            &&& final(hub).completions@ == old(hub).completions@
            &&& final(hub).portfolio_owners@ == old(hub).portfolio_owners@
            &&& ev == (HubPauseStateChanged { is_paused: paused, timestamp: now })
        },
{
    if !(admin == hub.state.admin) {
        return Err(HubError::UnauthorizedAdmin);
    }
    hub.state.is_paused = paused;
    Ok(HubPauseStateChanged { is_paused: paused, timestamp: now })
}

/// The admin's claim against the fees accrued as the difference between
/// gross and net amounts already booked.
///
/// Admin-gated and amount-validated; the actual asset movement is the host
/// collaborator's, so the ledger itself is read-only here and the claim is
/// booked as an event.
pub fn collect_fees(hub: &Hub, admin: Identity, amount: u64, now: i64) -> (r: Result<
    FeesCollected,
    HubError,
>)
    ensures
        r is Ok <==> admin == hub.state.admin && amount > 0,
        !(admin == hub.state.admin) ==> r == Err::<FeesCollected, HubError>(
            HubError::UnauthorizedAdmin,
        ),
        admin == hub.state.admin && amount == 0 ==> r == Err::<FeesCollected, HubError>(
            HubError::InvalidAmount,
        ),
        r matches Ok(ev) ==> ev == (FeesCollected { admin, amount, timestamp: now }),
{
    if !(admin == hub.state.admin) {
        return Err(HubError::UnauthorizedAdmin);
    }
    if amount == 0 {
        return Err(HubError::InvalidAmount);
    }
    Ok(FeesCollected { admin, amount, timestamp: now })
}

/// Whether an outbound bridge call is accepted by the hub as it stands.
pub open spec fn bridge_accepted(h: Hub, user: Identity, target_chain: u16, amount: u64) -> bool {
    &&& !h.has_request(user, target_chain, amount)
    &&& !h.state.is_paused
    &&& amount > 0
    &&& target_chain != NATIVE_CHAIN_ID
}

/// Books an outbound bridge intent: validates, takes the fee, records the
/// request and advances the hub totals.
///
/// The request is keyed by (user, target chain, gross amount); an occupied
/// key is refused first, before anything else, the way the host ledger
/// refuses to re-create the account, and the pause, amount and chain
/// validations follow in that order.
/// On success the stored request holds the net amount and the fee,
/// recomposing exactly to the gross amount, and the hub's totals grow by one
/// bridge and the gross volume. Counter overflow is a fatal invariant
/// violation, not a recoverable error, so the caller keeps the totals within
/// bounds.
///
/// `bridge_id` and `bump` are the record's host-derived address and
/// discriminator, from `derive_bridge_request_address`.
pub fn bridge_assets(
    hub: &mut Hub,
    user: Identity,
    target_chain: u16,
    amount: u64,
    recipient: [u8; 32],
    token_mint: Identity,
    bridge_id: Identity,
    bump: u8,
    now: i64,
) -> (r: Result<BridgeInitiated, HubError>)
    requires
        old(hub).wf(),
        bridge_accepted(*old(hub), user, target_chain, amount) ==> old(hub).state.total_bridges
            < u64::MAX && old(hub).state.total_volume + amount <= u64::MAX,
    ensures
        final(hub).wf(),
        r is Ok <==> bridge_accepted(*old(hub), user, target_chain, amount),
        r is Err ==> *final(hub) == *old(hub),
        old(hub).has_request(user, target_chain, amount) ==> r == Err::<BridgeInitiated, HubError>(
            HubError::BridgeRequestNotFound,
        ),
        !old(hub).has_request(user, target_chain, amount) && old(hub).state.is_paused ==> r
            == Err::<BridgeInitiated, HubError>(HubError::HubPaused),
        !old(hub).has_request(user, target_chain, amount) && !old(hub).state.is_paused && amount
            == 0 ==> r == Err::<BridgeInitiated, HubError>(HubError::InvalidAmount),
        !old(hub).has_request(user, target_chain, amount) && !old(hub).state.is_paused && amount > 0
            && target_chain == NATIVE_CHAIN_ID ==> r == Err::<BridgeInitiated, HubError>(
            HubError::InvalidChain,
        ),
        r is Ok ==> {
            let fee = fee_of(amount, old(hub).state.bridge_fee_bps) as u64;
            let net = (amount - fee) as u64;
            &&& fee + net == amount
            &&& final(hub).state == old(hub).state.with_bridge_booked(amount)
            &&& final(hub).requests@ == old(hub).requests@.push(
                BridgeRequest {
                    user,
                    token_mint,
                    amount: net,
                    fee_amount: fee,
                    target_chain,
                    recipient,
                    timestamp: now,
                    status: BridgeStatus::Initiated,
                    bump,
                },
            )
            &&& final(hub).completions@ == old(hub).completions@
            &&& final(hub).portfolio_owners@ == old(hub).portfolio_owners@
            &&& r == Ok::<BridgeInitiated, HubError>(
                BridgeInitiated {
                    user,
                    bridge_id,
                    token_mint,
                    amount: net,
                    fee_amount: fee,
                    target_chain,
                    recipient,
                    timestamp: now,
                },
            )
        },
{
    if occupies_request_key(hub, &user, target_chain, amount) {
        return Err(HubError::BridgeRequestNotFound);
    }
    if hub.state.is_paused {
        return Err(HubError::HubPaused);
    }
    if amount == 0 {
        return Err(HubError::InvalidAmount);
    }
    if target_chain == NATIVE_CHAIN_ID {
        return Err(HubError::InvalidChain);
    }
    let (fee_amount, bridge_amount) = compute_fee_split(amount, hub.state.bridge_fee_bps);
    let request = BridgeRequest {
        user,
        token_mint,
        amount: bridge_amount,
        fee_amount,
        target_chain,
        recipient,
        timestamp: now,
        status: BridgeStatus::Initiated,
        bump,
    };
    let ghost pre_requests = hub.requests@;
    hub.requests.push(request);
    hub.state.total_bridges = hub.state.total_bridges + 1;
    hub.state.total_volume = hub.state.total_volume + amount;
    proof {
        lemma_total_gross_push(pre_requests, request);
        assert(request_wf(request, hub.state.bridge_fee_bps));
        assert forall|i: int, j: int| 0 <= i < j < hub.requests@.len() implies !request_matches(
            hub.requests@[j],
            hub.requests@[i].user,
            hub.requests@[i].target_chain,
            (hub.requests@[i].amount + hub.requests@[i].fee_amount) as u64,
        ) by {
            if j == hub.requests@.len() - 1 {
                assert(hub.requests@[i] == pre_requests[i]);
                assert(!request_matches(pre_requests[i], user, target_chain, amount));
            } else {
                assert(hub.requests@[i] == pre_requests[i]);
                assert(hub.requests@[j] == pre_requests[j]);
            }
        }
    }
    Ok(
        BridgeInitiated {
            user,
            bridge_id,
            token_mint,
            amount: bridge_amount,
            fee_amount,
            target_chain,
            recipient,
            timestamp: now,
        },
    )
}

/// Whether an inbound completion call is accepted by the hub as it stands.
pub open spec fn completion_accepted(h: Hub, source_chain: u16, amount: u64, bridge_hash: [u8; 32]) -> bool {
    &&& !h.has_completion(bridge_hash)
    &&& !h.state.is_paused
    &&& amount > 0
    &&& source_chain != NATIVE_CHAIN_ID
}

/// Records an inbound bridge completion.
///
/// The record is keyed by the attested bridge hash alone: recording the same
/// hash twice fails with `BridgeAlreadyCompleted` and leaves the ledger
/// untouched, which is the replay prevention. The occupied key is refused
/// first, before the pause, amount and chain gates, the way the host ledger
/// refuses to re-create the account. Proof verification against the
/// messaging relayer is the host's required precondition and is not
/// performed here.
///
/// `completion_id` and `bump` are the record's host-derived address and
/// discriminator, from `derive_bridge_completion_address`.
pub fn complete_bridge(
    hub: &mut Hub,
    source_chain: u16,
    amount: u64,
    bridge_hash: [u8; 32],
    recipient: Identity,
    token_mint: Identity,
    completion_id: Identity,
    bump: u8,
    now: i64,
) -> (r: Result<BridgeCompleted, HubError>)
    requires
        old(hub).wf(),
    ensures
        final(hub).wf(),
        r is Ok <==> completion_accepted(*old(hub), source_chain, amount, bridge_hash),
        r is Err ==> *final(hub) == *old(hub),
        old(hub).has_completion(bridge_hash) ==> r == Err::<BridgeCompleted, HubError>(
            HubError::BridgeAlreadyCompleted,
        ),
        !old(hub).has_completion(bridge_hash) && old(hub).state.is_paused ==> r == Err::<
            BridgeCompleted,
            HubError,
        >(HubError::HubPaused),
        !old(hub).has_completion(bridge_hash) && !old(hub).state.is_paused && amount == 0 ==> r
            == Err::<BridgeCompleted, HubError>(HubError::InvalidAmount),
        !old(hub).has_completion(bridge_hash) && !old(hub).state.is_paused && amount > 0
            && source_chain == NATIVE_CHAIN_ID ==> r == Err::<BridgeCompleted, HubError>(
            HubError::InvalidChain,
        ),
        r is Ok ==> {
            &&& final(hub).state == old(hub).state
            &&& final(hub).requests@ == old(hub).requests@
            &&& final(hub).portfolio_owners@ == old(hub).portfolio_owners@
            &&& final(hub).completions@ == old(hub).completions@.push(
                BridgeCompletion {
                    source_chain,
                    bridge_hash,
                    recipient,
                    token_mint,
                    amount,
                    timestamp: now,
                    status: BridgeStatus::Completed,
                    bump,
                },
            )
            &&& final(hub).has_completion(bridge_hash)
            &&& final(hub).completion_count(bridge_hash) == old(hub).completion_count(bridge_hash)
                + 1
            &&& r == Ok::<BridgeCompleted, HubError>(
                BridgeCompleted {
                    recipient,
                    completion_id,
                    source_chain,
                    bridge_hash,
                    amount,
                    timestamp: now,
                },
            )
        },
{
    if occupies_completion_key(hub, &bridge_hash) {
        return Err(HubError::BridgeAlreadyCompleted);
    }
    if hub.state.is_paused {
        return Err(HubError::HubPaused);
    }
    if amount == 0 {
        return Err(HubError::InvalidAmount);
    }
    if source_chain == NATIVE_CHAIN_ID {
        return Err(HubError::InvalidChain);
    }
    let completion = BridgeCompletion {
        source_chain,
        bridge_hash,
        recipient,
        token_mint,
        amount,
        timestamp: now,
        status: BridgeStatus::Completed,
        bump,
    };
    let ghost pre_completions = hub.completions@;
    hub.completions.push(completion);
    proof {
        lemma_count_with_hash_push(pre_completions, completion, bridge_hash@);
        assert(completion_wf(completion));
        let n = hub.completions@.len() - 1;
        assert(hub.completions@[n].bridge_hash@ == bridge_hash@);
        assert forall|i: int, j: int| 0 <= i < j < hub.completions@.len() implies (
        hub.completions@[i]).bridge_hash@ != (hub.completions@[j]).bridge_hash@ by {
            assert(hub.completions@[i] == pre_completions[i]);
            if j < n {
                assert(hub.completions@[j] == pre_completions[j]);
            }
        }
    }
    Ok(BridgeCompleted { recipient, completion_id, source_chain, bridge_hash, amount, timestamp: now })
}

/// Creates a zero-initialized portfolio record for its owner.
///
/// One per owner: an occupied owner key is refused with `PortfolioNotFound`,
/// the portfolio-family shape of the host ledger's record-already-exists
/// failure, and the ledger is untouched.
///
/// `portfolio_id` and `bump` are the record's host-derived address and
/// discriminator, from `derive_portfolio_address`.
pub fn create_portfolio(hub: &mut Hub, user: Identity, portfolio_id: Identity, bump: u8, now: i64) -> (r:
    Result<(Portfolio, PortfolioCreated), HubError>)
    requires
        old(hub).wf(),
    ensures
        final(hub).wf(),
        r is Ok <==> !old(hub).has_portfolio(user),
        r matches Err(e) ==> e == HubError::PortfolioNotFound && *final(hub) == *old(hub),
        r matches Ok(p) ==> {
            &&& final(hub).state == old(hub).state
            &&& final(hub).requests@ == old(hub).requests@
            &&& final(hub).completions@ == old(hub).completions@
            &&& final(hub).portfolio_owners@ == old(hub).portfolio_owners@.push(user)
            &&& final(hub).has_portfolio(user)
            &&& p.0 == (Portfolio {
                owner: user,
                solana_balance: 0,
                ethereum_balance: 0,
                polygon_balance: 0,
                total_value_usd: 0,
                last_update: now,
                bump,
            })
            &&& p.1 == (PortfolioCreated { user, portfolio_id, timestamp: now })
        },
{
    if occupies_portfolio_key(hub, &user) {
        return Err(HubError::PortfolioNotFound);
    }
    let ghost pre_owners = hub.portfolio_owners@;
    hub.portfolio_owners.push(user);
    proof {
        assert(hub.portfolio_owners@[hub.portfolio_owners@.len() - 1] == user);
        assert forall|i: int, j: int| 0 <= i < j < hub.portfolio_owners@.len() implies (
        hub.portfolio_owners@[i]) != (hub.portfolio_owners@[j]) by {
            assert(hub.portfolio_owners@[i] == pre_owners[i]);
            if j < hub.portfolio_owners@.len() - 1 {
                assert(hub.portfolio_owners@[j] == pre_owners[j]);
            }
        }
    }
    let portfolio = Portfolio {
        owner: user,
        solana_balance: 0,
        ethereum_balance: 0,
        polygon_balance: 0,
        total_value_usd: 0,
        last_update: now,
        bump,
    };
    Ok((portfolio, PortfolioCreated { user, portfolio_id, timestamp: now }))
}

/// Overwrites a portfolio's per-chain balances and recomputes the aggregate
/// as their sum, stamping the update time.
///
/// Owner-gated: any other caller gets `UnauthorizedPortfolioAccess` and the
/// record keeps every field. Aggregate overflow is a fatal invariant
/// violation, not a recoverable error, so the caller keeps the sum within
/// bounds. The aggregate is a placeholder valuation, not an oracle price.
pub fn update_portfolio(
    portfolio: &mut Portfolio,
    user: Identity,
    solana_balance: u64,
    ethereum_balance: u64,
    polygon_balance: u64,
    now: i64,
) -> (r: Result<PortfolioUpdated, HubError>)
    requires
        user == old(portfolio).owner ==> solana_balance + ethereum_balance + polygon_balance
            <= u64::MAX,
    ensures
        r is Ok <==> user == old(portfolio).owner,
        r matches Err(e) ==> e == HubError::UnauthorizedPortfolioAccess && *final(portfolio)
            == *old(portfolio),
        r matches Ok(ev) ==> {
            let total = (solana_balance + ethereum_balance + polygon_balance) as u64;
            &&& *final(portfolio) == (Portfolio {
                owner: old(portfolio).owner,
                solana_balance,
                ethereum_balance,
                polygon_balance,
                total_value_usd: total,
                last_update: now,
                bump: old(portfolio).bump,
            })
            &&& ev == (PortfolioUpdated {
                user,
                solana_balance,
                ethereum_balance,
                polygon_balance,
                total_value_usd: total,
                timestamp: now,
            })
        },
{
    if !(user == portfolio.owner) {
        return Err(HubError::UnauthorizedPortfolioAccess);
    }
    portfolio.solana_balance = solana_balance;
    portfolio.ethereum_balance = ethereum_balance;
    portfolio.polygon_balance = polygon_balance;
    portfolio.total_value_usd = solana_balance + ethereum_balance + polygon_balance;
    portfolio.last_update = now;
    Ok(
        PortfolioUpdated {
            user,
            solana_balance,
            ethereum_balance,
            polygon_balance,
            total_value_usd: portfolio.total_value_usd,
            timestamp: now,
        },
    )
}

} // verus!
