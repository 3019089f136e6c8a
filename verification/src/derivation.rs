//! Deterministic sub-account derivation.
//!
//! Every record family reserves a fixed seed tag, and the record's key
//! parameters join the tag as further seeds in a fixed little-endian byte
//! layout. The host runtime hashes the seed list with the program id into a
//! stable address plus a discriminator (the "bump"), which later operations
//! persist so they can reconstruct the same address and the vault's signing
//! capability. Distinct tags keep the families apart, and within a family
//! the seed layout is injective in the key parameters, so two logically
//! distinct records never derive the same seed list.

use vstd::prelude::*;

use vstd::bytes::lemma_auto_spec_u16_to_from_le_bytes;
use vstd::bytes::lemma_auto_spec_u64_to_from_le_bytes;
use vstd::bytes::spec_u16_from_le_bytes;
use vstd::bytes::spec_u16_to_le_bytes;
use vstd::bytes::spec_u64_from_le_bytes;
use vstd::bytes::spec_u64_to_le_bytes;
use vstd::bytes::u16_to_le_bytes;
use vstd::bytes::u64_to_le_bytes;
use vstd::slice::slice_to_vec;

use crate::state::Identity;

verus! {

/// The derived address and bump for a seed list under a program id, if the
/// host's search finds one.
///
/// The derivation is a pure function of the seeds and the program id alone;
/// it is `None` exactly when no valid derivation exists for them.
pub uninterp spec fn pda_of(seeds: Seq<Seq<u8>>, program_id: Seq<u8>) -> Option<(Seq<u8>, u8)>;

/// Relies on `Pubkey::try_find_program_address` of anchor_lang's re-exported
/// Solana address type: the derived address and bump are a function of the
/// seed list and the program id alone, and the search reports `None` when no
/// valid derivation exists (seeds too many or too long, or every bump
/// exhausted).
#[verifier::external_body]
fn find_program_address(seeds: &Vec<Vec<u8>>, program_id: &[u8; 32]) -> (r: Option<([u8; 32], u8)>)
    ensures
        r matches Some(p) ==> pda_of(seeds.deep_view(), program_id@) == Some((p.0@, p.1)),
        r is None ==> pda_of(seeds.deep_view(), program_id@) is None,
{
    let key = anchor_lang::prelude::Pubkey::new_from_array(*program_id);
    let seed_slices: Vec<&[u8]> = seeds.iter().map(|s| s.as_slice()).collect();
    anchor_lang::prelude::Pubkey::try_find_program_address(&seed_slices, &key).map(
        |p: (anchor_lang::prelude::Pubkey, u8)| (p.0.to_bytes(), p.1),
    )
}

/// The hub-state family's seed tag: "hub-state" in ASCII.
pub open spec fn hub_state_tag() -> Seq<u8> {
    seq![104u8, 117u8, 98u8, 45u8, 115u8, 116u8, 97u8, 116u8, 101u8]
}

/// The bridge-request family's seed tag: "bridge-request" in ASCII.
pub open spec fn bridge_request_tag() -> Seq<u8> {
    seq![98u8, 114u8, 105u8, 100u8, 103u8, 101u8, 45u8, 114u8, 101u8, 113u8, 117u8, 101u8, 115u8, 116u8]
}

/// The bridge-completion family's seed tag: "bridge-completion" in ASCII.
pub open spec fn bridge_completion_tag() -> Seq<u8> {
    seq![
        98u8,
        114u8,
        105u8,
        100u8,
        103u8,
        101u8,
        45u8,
        99u8,
        111u8,
        109u8,
        112u8,
        108u8,
        101u8,
        116u8,
        105u8,
        111u8,
        110u8,
    ]
}

/// The portfolio family's seed tag: "portfolio" in ASCII.
pub open spec fn portfolio_tag() -> Seq<u8> {
    seq![112u8, 111u8, 114u8, 116u8, 102u8, 111u8, 108u8, 105u8, 111u8]
}

/// The vault family's seed tag: "vault" in ASCII.
pub open spec fn vault_tag() -> Seq<u8> {
    seq![118u8, 97u8, 117u8, 108u8, 116u8]
}

/// Seed list of the singleton hub configuration: the tag alone.
pub open spec fn hub_state_seeds() -> Seq<Seq<u8>> {
    seq![hub_state_tag()]
}

/// Seed list of a bridge request: tag, user identity, target chain and
/// gross amount, the numbers in little-endian bytes.
pub open spec fn bridge_request_seeds(user: Identity, target_chain: u16, amount: u64) -> Seq<
    Seq<u8>,
> {
    seq![
        bridge_request_tag(),
        user.bytes@,
        spec_u16_to_le_bytes(target_chain),
        spec_u64_to_le_bytes(amount),
    ]
}

/// Seed list of a bridge completion: tag and the attested bridge hash.
pub open spec fn bridge_completion_seeds(bridge_hash: [u8; 32]) -> Seq<Seq<u8>> {
    seq![bridge_completion_tag(), bridge_hash@]
}

/// Seed list of a portfolio: tag and the owner identity.
pub open spec fn portfolio_seeds(owner: Identity) -> Seq<Seq<u8>> {
    seq![portfolio_tag(), owner.bytes@]
}

/// Seed list of a pact's vault: tag and the pact's own address.
pub open spec fn vault_seeds(pact_address: Identity) -> Seq<Seq<u8>> {
    seq![vault_tag(), pact_address.bytes@]
}

/// The hub-state tag as bytes.
fn hub_state_tag_bytes() -> (r: Vec<u8>)
    ensures
        r@ == hub_state_tag(),
{
    let t: [u8; 9] = [104, 117, 98, 45, 115, 116, 97, 116, 101];
    let v = slice_to_vec(t.as_slice());
    proof {
        assert(v@ =~= hub_state_tag());
    }
    v
}

/// The bridge-request tag as bytes.
fn bridge_request_tag_bytes() -> (r: Vec<u8>)
    ensures
        r@ == bridge_request_tag(),
{
    let t: [u8; 14] = [98, 114, 105, 100, 103, 101, 45, 114, 101, 113, 117, 101, 115, 116];
    let v = slice_to_vec(t.as_slice());
    proof {
        assert(v@ =~= bridge_request_tag());
    }
    v
}

/// The bridge-completion tag as bytes.
fn bridge_completion_tag_bytes() -> (r: Vec<u8>)
    ensures
        r@ == bridge_completion_tag(),
{
    let t: [u8; 17] = [
        98,
        114,
        105,
        100,
        103,
        101,
        45,
        99,
        111,
        109,
        112,
        108,
        101,
        116,
        105,
        111,
        110,
    ];
    let v = slice_to_vec(t.as_slice());
    proof {
        assert(v@ =~= bridge_completion_tag());
    }
    v
}

/// The portfolio tag as bytes.
fn portfolio_tag_bytes() -> (r: Vec<u8>)
    ensures
        r@ == portfolio_tag(),
{
    let t: [u8; 9] = [112, 111, 114, 116, 102, 111, 108, 105, 111];
    let v = slice_to_vec(t.as_slice());
    proof {
        assert(v@ =~= portfolio_tag());
    }
    v
}

/// The vault tag as bytes.
fn vault_tag_bytes() -> (r: Vec<u8>)
    ensures
        r@ == vault_tag(),
{
    let t: [u8; 5] = [118, 97, 117, 108, 116];
    let v = slice_to_vec(t.as_slice());
    proof {
        assert(v@ =~= vault_tag());
    }
    v
}

/// Derives the singleton hub configuration's address and bump.
pub fn derive_hub_state_address(program_id: &Identity) -> (r: Option<(Identity, u8)>)
    ensures
        r matches Some(p) ==> pda_of(hub_state_seeds(), program_id.bytes@) == Some(
            (p.0.bytes@, p.1),
        ),
        r is None ==> pda_of(hub_state_seeds(), program_id.bytes@) is None,
{
    let mut seeds: Vec<Vec<u8>> = Vec::new();
    seeds.push(hub_state_tag_bytes());
    proof {
        assert(seeds.deep_view() =~~= hub_state_seeds());
    }
    match find_program_address(&seeds, &program_id.bytes) {
        Some(p) => Some((Identity { bytes: p.0 }, p.1)),
        None => None,
    }
}

/// Derives a bridge request's address and bump from its key (user, target
/// chain, gross amount).
pub fn derive_bridge_request_address(
    user: &Identity,
    target_chain: u16,
    amount: u64,
    program_id: &Identity,
) -> (r: Option<(Identity, u8)>)
    ensures
        r matches Some(p) ==> pda_of(
            bridge_request_seeds(*user, target_chain, amount),
            program_id.bytes@,
        ) == Some((p.0.bytes@, p.1)),
        r is None ==> pda_of(bridge_request_seeds(*user, target_chain, amount), program_id.bytes@)
            is None,
{
    let mut seeds: Vec<Vec<u8>> = Vec::new();
    seeds.push(bridge_request_tag_bytes());
    seeds.push(slice_to_vec(user.bytes.as_slice()));
    seeds.push(u16_to_le_bytes(target_chain));
    seeds.push(u64_to_le_bytes(amount));
    proof {
        assert(seeds.deep_view() =~~= bridge_request_seeds(*user, target_chain, amount));
    }
    match find_program_address(&seeds, &program_id.bytes) {
        Some(p) => Some((Identity { bytes: p.0 }, p.1)),
        None => None,
    }
}

/// Derives a bridge completion's address and bump from the bridge hash
/// alone: the same attested proof always lands on the same address.
pub fn derive_bridge_completion_address(bridge_hash: &[u8; 32], program_id: &Identity) -> (r:
    Option<(Identity, u8)>)
    ensures
        r matches Some(p) ==> pda_of(bridge_completion_seeds(*bridge_hash), program_id.bytes@)
            == Some((p.0.bytes@, p.1)),
        r is None ==> pda_of(bridge_completion_seeds(*bridge_hash), program_id.bytes@) is None,
{
    let mut seeds: Vec<Vec<u8>> = Vec::new();
    seeds.push(bridge_completion_tag_bytes());
    seeds.push(slice_to_vec(bridge_hash.as_slice()));
    proof {
        assert(seeds.deep_view() =~~= bridge_completion_seeds(*bridge_hash));
    }
    match find_program_address(&seeds, &program_id.bytes) {
        Some(p) => Some((Identity { bytes: p.0 }, p.1)),
        None => None,
    }
}

/// Derives a portfolio's address and bump from its owner.
pub fn derive_portfolio_address(owner: &Identity, program_id: &Identity) -> (r: Option<
    (Identity, u8),
>)
    ensures
        r matches Some(p) ==> pda_of(portfolio_seeds(*owner), program_id.bytes@) == Some(
            (p.0.bytes@, p.1),
        ),
        r is None ==> pda_of(portfolio_seeds(*owner), program_id.bytes@) is None,
{
    let mut seeds: Vec<Vec<u8>> = Vec::new();
    seeds.push(portfolio_tag_bytes());
    seeds.push(slice_to_vec(owner.bytes.as_slice()));
    proof {
        assert(seeds.deep_view() =~~= portfolio_seeds(*owner));
    }
    match find_program_address(&seeds, &program_id.bytes) {
        Some(p) => Some((Identity { bytes: p.0 }, p.1)),
        None => None,
    }
}

/// Derives a pact vault's address and bump from the pact's own address.
pub fn derive_vault_address(pact_address: &Identity, program_id: &Identity) -> (r: Option<
    (Identity, u8),
>)
    ensures
        r matches Some(p) ==> pda_of(vault_seeds(*pact_address), program_id.bytes@) == Some(
            (p.0.bytes@, p.1),
        ),
        r is None ==> pda_of(vault_seeds(*pact_address), program_id.bytes@) is None,
{
    let mut seeds: Vec<Vec<u8>> = Vec::new();
    seeds.push(vault_tag_bytes());
    seeds.push(slice_to_vec(pact_address.bytes.as_slice()));
    proof {
        assert(seeds.deep_view() =~~= vault_seeds(*pact_address));
    }
    match find_program_address(&seeds, &program_id.bytes) {
        Some(p) => Some((Identity { bytes: p.0 }, p.1)),
        None => None,
    }
}

/// Within the bridge-request family the seed layout is injective: two calls
/// that agree on the seed list agree on the user, the target chain and the
/// gross amount, so two logically distinct requests never share an address
/// derivation.
pub proof fn lemma_bridge_request_seeds_injective(
    u1: Identity,
    c1: u16,
    a1: u64,
    u2: Identity,
    c2: u16,
    a2: u64,
)
    requires
        bridge_request_seeds(u1, c1, a1) == bridge_request_seeds(u2, c2, a2),
    ensures
        u1 == u2,
        c1 == c2,
        a1 == a2,
{
    lemma_auto_spec_u16_to_from_le_bytes();
    lemma_auto_spec_u64_to_from_le_bytes();
    assert(bridge_request_seeds(u1, c1, a1)[1] == bridge_request_seeds(u2, c2, a2)[1]);
    assert(u1.bytes@ == u2.bytes@);
    assert(u1.bytes == u2.bytes);
    assert(bridge_request_seeds(u1, c1, a1)[2] == bridge_request_seeds(u2, c2, a2)[2]);
    assert(bridge_request_seeds(u1, c1, a1)[3] == bridge_request_seeds(u2, c2, a2)[3]);
    assert(spec_u16_to_le_bytes(c1).len() == 2);
    assert(spec_u16_to_le_bytes(c2).len() == 2);
    assert(spec_u64_to_le_bytes(a1).len() == 8);
    assert(spec_u64_to_le_bytes(a2).len() == 8);
    assert(spec_u16_from_le_bytes(spec_u16_to_le_bytes(c1)) == c1);
    assert(spec_u16_from_le_bytes(spec_u16_to_le_bytes(c2)) == c2);
    assert(spec_u64_from_le_bytes(spec_u64_to_le_bytes(a1)) == a1);
    assert(spec_u64_from_le_bytes(spec_u64_to_le_bytes(a2)) == a2);
}

/// Within the bridge-completion family the seed layout is injective in the
/// bridge hash.
pub proof fn lemma_bridge_completion_seeds_injective(h1: [u8; 32], h2: [u8; 32])
    requires
        bridge_completion_seeds(h1) == bridge_completion_seeds(h2),
    ensures
        h1 == h2,
{
    assert(bridge_completion_seeds(h1)[1] == bridge_completion_seeds(h2)[1]);
    assert(h1@ == h2@);
}

/// Within the portfolio family the seed layout is injective in the owner.
pub proof fn lemma_portfolio_seeds_injective(o1: Identity, o2: Identity)
    requires
        portfolio_seeds(o1) == portfolio_seeds(o2),
    ensures
        o1 == o2,
{
    assert(portfolio_seeds(o1)[1] == portfolio_seeds(o2)[1]);
    assert(o1.bytes@ == o2.bytes@);
    assert(o1.bytes == o2.bytes);
}

/// Within the vault family the seed layout is injective in the owning
/// pact's address.
pub proof fn lemma_vault_seeds_injective(p1: Identity, p2: Identity)
    requires
        vault_seeds(p1) == vault_seeds(p2),
    ensures
        p1 == p2,
{
    assert(vault_seeds(p1)[1] == vault_seeds(p2)[1]);
    assert(p1.bytes@ == p2.bytes@);
    assert(p1.bytes == p2.bytes);
}

/// The five record families reserve five distinct seed tags, so no two
/// families ever produce the same seed list, whatever their parameters.
pub proof fn lemma_seed_families_disjoint(
    user: Identity,
    target_chain: u16,
    amount: u64,
    bridge_hash: [u8; 32],
    owner: Identity,
    pact_address: Identity,
)
    ensures
        hub_state_seeds() != bridge_request_seeds(user, target_chain, amount),
        hub_state_seeds() != bridge_completion_seeds(bridge_hash),
        hub_state_seeds() != portfolio_seeds(owner),
        hub_state_seeds() != vault_seeds(pact_address),
        bridge_request_seeds(user, target_chain, amount) != bridge_completion_seeds(bridge_hash),
        bridge_request_seeds(user, target_chain, amount) != portfolio_seeds(owner),
        bridge_request_seeds(user, target_chain, amount) != vault_seeds(pact_address),
        bridge_completion_seeds(bridge_hash) != portfolio_seeds(owner),
        bridge_completion_seeds(bridge_hash) != vault_seeds(pact_address),
        portfolio_seeds(owner) != vault_seeds(pact_address),
{
    assert(hub_state_tag().len() == 9);
    assert(bridge_request_tag().len() == 14);
    assert(bridge_completion_tag().len() == 17);
    assert(portfolio_tag().len() == 9);
    assert(vault_tag().len() == 5);
    assert(hub_state_tag()[0] == 104);
    assert(portfolio_tag()[0] == 112);
    assert(bridge_request_tag()[7] == 114);
    assert(bridge_completion_tag()[7] == 99);
    assert(hub_state_seeds()[0] == hub_state_tag());
    assert(bridge_request_seeds(user, target_chain, amount)[0] == bridge_request_tag());
    assert(bridge_completion_seeds(bridge_hash)[0] == bridge_completion_tag());
    assert(portfolio_seeds(owner)[0] == portfolio_tag());
    assert(vault_seeds(pact_address)[0] == vault_tag());
}

} // verus!
