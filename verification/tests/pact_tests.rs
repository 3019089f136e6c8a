use cross_chain_contracts::errors::ErrorCode;
use cross_chain_contracts::pact::initialize_pact;
use cross_chain_contracts::pact::join_and_contribute;
use cross_chain_contracts::pact::refund;
use cross_chain_contracts::pact::withdraw_or_settle;
use cross_chain_contracts::pact::Pact;
use cross_chain_contracts::pact::PactStatus;
use cross_chain_contracts::pact::Vault;
use cross_chain_contracts::state::Identity;

fn id(tag: u8) -> Identity {
    Identity { bytes: [tag; 32] }
}

const DEADLINE: i64 = 100;

fn fresh_pact(target: u64) -> (Pact, Vault) {
    initialize_pact(id(1), id(2), target, DEADLINE, 3)
}

#[test]
fn initialize_pact_starts_open_and_empty() {
    let (pact, vault) = fresh_pact(1_000);
    assert_eq!(pact.creator, id(1));
    assert_eq!(pact.payout_recipient, id(2));
    assert_eq!(pact.target_amount, 1_000);
    assert_eq!(pact.deadline, DEADLINE);
    assert_eq!(pact.total_raised, 0);
    assert_eq!(pact.status, PactStatus::Open);
    assert_eq!(pact.vault_bump, 3);
    assert_eq!(vault.balance, 0);
}

#[test]
fn settles_when_target_reached_before_deadline() {
    let (mut pact, mut vault) = fresh_pact(1_000);
    join_and_contribute(&mut pact, &mut vault, 600, 50).unwrap();
    join_and_contribute(&mut pact, &mut vault, 400, 99).unwrap();
    assert_eq!(pact.total_raised, 1_000);
    assert_eq!(vault.balance, 1_000);

    let paid = withdraw_or_settle(&mut pact, &mut vault, id(2), 99).unwrap();
    assert_eq!(paid, 1_000);
    assert_eq!(vault.balance, 0);
    assert_eq!(pact.status, PactStatus::Settled);

    let after = refund(&mut pact, &mut vault, 200);
    assert_eq!(after.unwrap_err(), ErrorCode::PactClosed);
}

#[test]
fn refunds_when_deadline_passes_under_target() {
    let (mut pact, mut vault) = fresh_pact(1_000);
    join_and_contribute(&mut pact, &mut vault, 400, 50).unwrap();

    let early = refund(&mut pact, &mut vault, 99);
    assert_eq!(early.unwrap_err(), ErrorCode::PactNotReady);

    let refunded = refund(&mut pact, &mut vault, DEADLINE).unwrap();
    assert_eq!(refunded, 400);
    assert_eq!(vault.balance, 0);
    assert_eq!(pact.total_raised, 0);
    assert_eq!(pact.status, PactStatus::Refunded);

    let after = withdraw_or_settle(&mut pact, &mut vault, id(2), 150);
    assert_eq!(after.unwrap_err(), ErrorCode::PactClosed);
}

#[test]
fn contribution_after_deadline_fails_regardless_of_amount() {
    let (mut pact, mut vault) = fresh_pact(1_000);
    for amount in [0u64, 1, 400, u64::MAX] {
        let r = join_and_contribute(&mut pact, &mut vault, amount, DEADLINE + 1);
        assert_eq!(r.unwrap_err(), ErrorCode::PactClosed);
    }
    assert_eq!(pact.total_raised, 0);
    assert_eq!(vault.balance, 0);
}

#[test]
fn contribution_at_deadline_is_still_accepted() {
    let (mut pact, mut vault) = fresh_pact(1_000);
    join_and_contribute(&mut pact, &mut vault, 10, DEADLINE).unwrap();
    assert_eq!(pact.total_raised, 10);
}

#[test]
fn zero_contribution_is_rejected() {
    let (mut pact, mut vault) = fresh_pact(1_000);
    let r = join_and_contribute(&mut pact, &mut vault, 0, 50);
    assert_eq!(r.unwrap_err(), ErrorCode::InvalidContribution);
}

#[test]
fn contribution_to_closed_pact_is_rejected() {
    let (mut pact, mut vault) = fresh_pact(100);
    join_and_contribute(&mut pact, &mut vault, 100, 50).unwrap();
    withdraw_or_settle(&mut pact, &mut vault, id(2), 60).unwrap();
    let r = join_and_contribute(&mut pact, &mut vault, 5, 70);
    assert_eq!(r.unwrap_err(), ErrorCode::PactClosed);
}

#[test]
fn contribution_saturates_at_the_ceiling() {
    let (mut pact, mut vault) = fresh_pact(u64::MAX);
    join_and_contribute(&mut pact, &mut vault, u64::MAX - 5, 50).unwrap();
    join_and_contribute(&mut pact, &mut vault, 10, 51).unwrap();
    assert_eq!(pact.total_raised, u64::MAX);
    assert_eq!(vault.balance, u64::MAX);
}

#[test]
fn settle_requires_target_or_deadline() {
    let (mut pact, mut vault) = fresh_pact(1_000);
    join_and_contribute(&mut pact, &mut vault, 999, 50).unwrap();
    let r = withdraw_or_settle(&mut pact, &mut vault, id(2), 60);
    assert_eq!(r.unwrap_err(), ErrorCode::PactNotReady);
    assert_eq!(pact.status, PactStatus::Open);

    let paid = withdraw_or_settle(&mut pact, &mut vault, id(2), DEADLINE).unwrap();
    assert_eq!(paid, 999);
    assert_eq!(pact.status, PactStatus::Settled);
}

#[test]
fn settle_rejects_wrong_payout_recipient() {
    let (mut pact, mut vault) = fresh_pact(1_000);
    join_and_contribute(&mut pact, &mut vault, 1_000, 50).unwrap();
    let r = withdraw_or_settle(&mut pact, &mut vault, id(9), 60);
    assert_eq!(r.unwrap_err(), ErrorCode::InvalidPayoutRecipient);
    assert_eq!(pact.status, PactStatus::Open);
    assert_eq!(vault.balance, 1_000);
}

#[test]
fn settle_drains_entire_vault_value() {
    let (mut pact, mut vault) = fresh_pact(1_000);
    join_and_contribute(&mut pact, &mut vault, 1_000, 50).unwrap();
    vault.balance += 77;
    let paid = withdraw_or_settle(&mut pact, &mut vault, id(2), 60).unwrap();
    assert_eq!(paid, 1_077);
    assert_eq!(vault.balance, 0);
    assert_eq!(pact.total_raised, 1_000);
}

#[test]
fn refund_rejects_when_target_was_reached() {
    let (mut pact, mut vault) = fresh_pact(1_000);
    join_and_contribute(&mut pact, &mut vault, 1_000, 50).unwrap();
    let r = refund(&mut pact, &mut vault, DEADLINE + 10);
    assert_eq!(r.unwrap_err(), ErrorCode::PactNotReady);
    assert_eq!(pact.status, PactStatus::Open);
}
