//! The escrow pact: a pooled-contribution campaign with a target amount and
//! a deadline, paired with a vault sub-account that holds the pooled value.
//!
//! The pact's lifecycle is `Open -> Settled` or `Open -> Refunded`; both end
//! states are terminal. The vault is drained in full exactly when the pact
//! leaves `Open`. Value movement itself is the host's transfer collaborator;
//! these operations decide it and book it, returning the amount to move.

use vstd::prelude::*;

use crate::errors::ErrorCode;
use crate::state::Identity;

verus! {

/// Lifecycle of a pact: `Open` until it is settled or refunded, both
/// terminal.
#[derive(Clone, Copy, Debug, PartialEq, Eq, Structural)]
pub enum PactStatus {
    Open,
    Settled,
    Refunded,
}

/// One pooled-contribution campaign.
#[derive(Clone, Copy, Debug)]
pub struct Pact {
    pub creator: Identity,
    pub payout_recipient: Identity,
    pub target_amount: u64,
    pub deadline: i64,
    pub total_raised: u64,
    pub status: PactStatus,
    pub vault_bump: u8,
}

/// The pact's value-holding sub-account: a balance and nothing else. It is
/// derived from the pact's own address plus a fixed salt, and only the
/// owning pact's derived signing capability may move value out of it.
#[derive(Clone, Copy, Debug)]
pub struct Vault {
    pub balance: u64,
}

/// Whether an open pact may settle now: the target is reached or the
/// deadline has passed.
pub open spec fn settle_ready(p: Pact, now: i64) -> bool {
    p.total_raised >= p.target_amount || now >= p.deadline
}

/// Whether an open pact must refund now: the deadline has passed with the
/// target missed.
pub open spec fn refund_ready(p: Pact, now: i64) -> bool {
    now >= p.deadline && p.total_raised < p.target_amount
}

/// Creates a pact in the `Open` state with nothing raised, alongside its
/// empty vault.
///
/// `vault_bump` is the vault's host-derived address discriminator, from
/// `derive_vault_address`; the pact persists it so later operations can
/// reconstruct the vault's address and signing capability.
pub fn initialize_pact(
    creator: Identity,
    payout_recipient: Identity,
    target_amount: u64,
    deadline: i64,
    vault_bump: u8,
) -> (r: (Pact, Vault))
    ensures
        r.0 == (Pact {
            creator,
            payout_recipient,
            target_amount,
            deadline,
            total_raised: 0,
            status: PactStatus::Open,
            vault_bump,
        }),
        r.1.balance == 0,
{
    let pact = Pact {
        creator,
        payout_recipient,
        target_amount,
        deadline,
        total_raised: 0,
        status: PactStatus::Open,
        vault_bump,
    };
    (pact, Vault { balance: 0 })
}

/// Moves a contribution into the vault and raises the pooled total.
///
/// Fails with `PactClosed` when the current time is past the deadline or
/// the pact already left `Open`, and with `InvalidContribution` for a zero
/// amount; a failure changes nothing. On success both the vault balance and
/// the raised total grow by the amount under saturating addition: at the
/// numeric ceiling the contribution is capped, never faulted, an explicit
/// availability-over-exactness choice.
pub fn join_and_contribute(pact: &mut Pact, vault: &mut Vault, amount: u64, now: i64) -> (r:
    Result<(), ErrorCode>)
    ensures
        r is Ok <==> now <= old(pact).deadline && old(pact).status is Open && amount > 0,
        now > old(pact).deadline ==> r == Err::<(), ErrorCode>(ErrorCode::PactClosed),
        now <= old(pact).deadline && !(old(pact).status is Open) ==> r == Err::<(), ErrorCode>(
            ErrorCode::PactClosed,
        ),
        now <= old(pact).deadline && old(pact).status is Open && amount == 0 ==> r == Err::<
            (),
            ErrorCode,
        >(ErrorCode::InvalidContribution),
        r is Err ==> *final(pact) == *old(pact) && *final(vault) == *old(vault),
        r is Ok ==> {
            &&& *final(pact) == (Pact {
                total_raised: old(pact).total_raised.saturating_add(amount),
                ..*old(pact)
            })
            &&& final(vault).balance == old(vault).balance.saturating_add(amount)
        },
{
    if now > pact.deadline {
        return Err(ErrorCode::PactClosed);
    }
    if !(pact.status == PactStatus::Open) {
        return Err(ErrorCode::PactClosed);
    }
    if amount == 0 {
        return Err(ErrorCode::InvalidContribution);
    }
    vault.balance = vault.balance.saturating_add(amount);
    pact.total_raised = pact.total_raised.saturating_add(amount);
    Ok(())
}

/// Settles an open pact: drains the vault's entire value to the stored
/// payout recipient and marks the pact `Settled`.
///
/// Fails with `PactClosed` when the pact already left `Open`, with
/// `PactNotReady` unless the target is reached or the deadline has passed,
/// and with `InvalidPayoutRecipient` when the supplied payout identity does
/// not match the stored one; a failure changes nothing. On success the
/// returned amount is the vault's whole balance before the call, not just
/// the raised total: it covers any value present, and the raised total stays
/// recorded on the settled pact.
pub fn withdraw_or_settle(pact: &mut Pact, vault: &mut Vault, payout_recipient: Identity, now: i64) -> (r:
    Result<u64, ErrorCode>)
    ensures
        r is Ok <==> old(pact).status is Open && settle_ready(*old(pact), now)
            && payout_recipient == old(pact).payout_recipient,
        !(old(pact).status is Open) ==> r == Err::<u64, ErrorCode>(ErrorCode::PactClosed),
        old(pact).status is Open && !settle_ready(*old(pact), now) ==> r == Err::<u64, ErrorCode>(
            ErrorCode::PactNotReady,
        ),
        old(pact).status is Open && settle_ready(*old(pact), now) && payout_recipient
            != old(pact).payout_recipient ==> r == Err::<u64, ErrorCode>(
            ErrorCode::InvalidPayoutRecipient,
        ),
        r is Err ==> *final(pact) == *old(pact) && *final(vault) == *old(vault),
        r matches Ok(paid) ==> {
            &&& paid == old(vault).balance
            &&& final(vault).balance == 0
            &&& *final(pact) == (Pact { status: PactStatus::Settled, ..*old(pact) })
        },
{
    if !(pact.status == PactStatus::Open) {
        return Err(ErrorCode::PactClosed);
    }
    if !(pact.total_raised >= pact.target_amount || now >= pact.deadline) {
        return Err(ErrorCode::PactNotReady);
    }
    if !(payout_recipient == pact.payout_recipient) {
        return Err(ErrorCode::InvalidPayoutRecipient);
    }
    let paid = vault.balance;
    vault.balance = 0;
    pact.status = PactStatus::Settled;
    Ok(paid)
}

/// Refunds an open pact whose deadline passed with the target missed:
/// drains the vault's entire value back to the creator as a single lump
/// sum, zeroes the raised total and marks the pact `Refunded`.
///
/// Fails with `PactClosed` when the pact already left `Open` and with
/// `PactNotReady` unless the deadline has passed and the target is missed;
/// a failure changes nothing. Per-contributor stakes are not tracked, so the
/// lump sum goes to the creator.
pub fn refund(pact: &mut Pact, vault: &mut Vault, now: i64) -> (r: Result<u64, ErrorCode>)
    ensures
        r is Ok <==> old(pact).status is Open && refund_ready(*old(pact), now),
        !(old(pact).status is Open) ==> r == Err::<u64, ErrorCode>(ErrorCode::PactClosed),
        old(pact).status is Open && !refund_ready(*old(pact), now) ==> r == Err::<u64, ErrorCode>(
            ErrorCode::PactNotReady,
        ),
        r is Err ==> *final(pact) == *old(pact) && *final(vault) == *old(vault),
        r matches Ok(refunded) ==> {
            &&& refunded == old(vault).balance
            &&& final(vault).balance == 0
            &&& *final(pact) == (Pact {
                status: PactStatus::Refunded,
                total_raised: 0,
                ..*old(pact)
            })
        },
{
    if !(pact.status == PactStatus::Open) {
        return Err(ErrorCode::PactClosed);
    }
    if !(now >= pact.deadline && pact.total_raised < pact.target_amount) {
        return Err(ErrorCode::PactNotReady);
    }
    let refunded = vault.balance;
    vault.balance = 0;
    pact.total_raised = 0;
    pact.status = PactStatus::Refunded;
    Ok(refunded)
}

} // verus!
