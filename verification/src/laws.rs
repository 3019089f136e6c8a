//! Laws that relate several operations, stated over the same spec functions
//! the operations' contracts use.

use vstd::prelude::*;

use crate::instructions::completion_accepted;
use crate::state::lemma_count_with_hash_push;
use crate::state::lemma_count_with_hash_zero;
use crate::state::BridgeCompletion;
use crate::state::Hub;
use crate::state::HubState;
use crate::state::Identity;

verus! {

/// Setting the pause flag is idempotent. When the caller is the admin, a
/// `set_pause_state` call succeeds and leaves the configuration at
/// `with_paused`; the admin is unchanged by it, so an immediate second
/// identical call is authorized as well, and it moves the configuration
/// nowhere: twice `set_pause_state(true)` succeeds twice and leaves the
/// flag raised.
pub proof fn lemma_set_pause_state_idempotent(h: HubState, admin: Identity, paused: bool)
    requires
        admin == h.admin,
    ensures
        h.with_paused(paused).is_paused == paused,
        admin == h.with_paused(paused).admin,
        h.with_paused(paused).with_paused(paused) == h.with_paused(paused),
{
}

/// A bridge hash is completed at most once. After a successful
/// `complete_bridge` pushed the record `c` for a hash that was free, the
/// hash is occupied and counted exactly once, and no further completion
/// call for the same hash is accepted, whatever chain and amount it names:
/// by the operation's contract the repeat reports `BridgeAlreadyCompleted`
/// and leaves the ledger unchanged.
pub proof fn lemma_complete_bridge_exactly_once(
    pre: Hub,
    post: Hub,
    c: BridgeCompletion,
    bridge_hash: [u8; 32],
)
    requires
        !pre.has_completion(bridge_hash),
        c.bridge_hash == bridge_hash,
        post.completions@ == pre.completions@.push(c),
    ensures
        post.has_completion(bridge_hash),
        post.completion_count(bridge_hash) == 1,
        forall|source_chain: u16, amount: u64|
            !completion_accepted(post, source_chain, amount, bridge_hash),
{
    lemma_count_with_hash_zero(pre.completions@, bridge_hash@);
    lemma_count_with_hash_push(pre.completions@, c, bridge_hash@);
    assert(post.completions@[post.completions@.len() - 1].bridge_hash@ == bridge_hash@);
}

} // verus!
