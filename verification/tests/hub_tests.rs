use cross_chain_contracts::errors::HubError;
use cross_chain_contracts::instructions::bridge_assets;
use cross_chain_contracts::instructions::collect_fees;
use cross_chain_contracts::instructions::complete_bridge;
use cross_chain_contracts::instructions::compute_fee_split;
use cross_chain_contracts::instructions::create_portfolio;
use cross_chain_contracts::instructions::initialize_hub;
use cross_chain_contracts::instructions::set_pause_state;
use cross_chain_contracts::instructions::update_portfolio;
use cross_chain_contracts::state::BridgeStatus;
use cross_chain_contracts::state::Hub;
use cross_chain_contracts::state::Identity;

fn id(tag: u8) -> Identity {
    Identity { bytes: [tag; 32] }
}

fn fresh_hub(fee_bps: u16) -> Hub {
    let (hub, _) = initialize_hub(id(1), fee_bps, id(2), 255, 1_000).unwrap();
    hub
}

#[test]
fn fee_split_recomposes_exactly() {
    for (amount, bps) in [
        (10_000u64, 100u16),
        (1, 1000),
        (999, 999),
        (u64::MAX, 1000),
        (u64::MAX, 1),
        (12_345_678, 0),
    ] {
        let (fee, net) = compute_fee_split(amount, bps);
        assert_eq!(fee, ((amount as u128) * (bps as u128) / 10_000) as u64);
        assert_eq!(fee + net, amount);
    }
}

#[test]
fn fee_split_exact_values() {
    assert_eq!(compute_fee_split(10_000, 100), (100, 9_900));
    assert_eq!(compute_fee_split(10_000, 1000), (1_000, 9_000));
    assert_eq!(compute_fee_split(1, 1000), (0, 1));
    assert_eq!(compute_fee_split(u64::MAX, 1000), (1_844_674_407_370_955_161, 16_602_069_666_338_596_454));
}

#[test]
fn initialize_hub_rejects_fee_above_cap() {
    let r = initialize_hub(id(1), 1001, id(2), 255, 5);
    assert_eq!(r.unwrap_err(), HubError::InvalidFee);
    let r = initialize_hub(id(1), u16::MAX, id(2), 255, 5);
    assert_eq!(r.unwrap_err(), HubError::InvalidFee);
}

#[test]
fn initialize_hub_accepts_fee_at_cap() {
    let (hub, event) = initialize_hub(id(1), 1000, id(2), 7, 5).unwrap();
    assert_eq!(hub.state.bridge_fee_bps, 1000);
    assert_eq!(hub.state.authority, id(1));
    assert_eq!(hub.state.admin, id(2));
    assert!(!hub.state.is_paused);
    assert_eq!(hub.state.total_bridges, 0);
    assert_eq!(hub.state.total_volume, 0);
    assert_eq!(hub.state.bump, 7);
    assert_eq!(hub.requests.len(), 0);
    assert_eq!(hub.completions.len(), 0);
    assert_eq!(event.bridge_fee_bps, 1000);
    assert_eq!(event.timestamp, 5);
}

#[test]
fn set_pause_state_true_twice_is_idempotent() {
    let mut hub = fresh_hub(100);
    let first = set_pause_state(&mut hub, id(2), true, 10);
    assert!(first.is_ok());
    assert!(hub.state.is_paused);
    let second = set_pause_state(&mut hub, id(2), true, 11);
    assert!(second.is_ok());
    assert!(hub.state.is_paused);
}

#[test]
fn set_pause_state_rejects_non_admin() {
    let mut hub = fresh_hub(100);
    let r = set_pause_state(&mut hub, id(9), true, 10);
    assert_eq!(r.unwrap_err(), HubError::UnauthorizedAdmin);
    assert!(!hub.state.is_paused);
}

#[test]
fn bridge_assets_books_request_and_totals() {
    let mut hub = fresh_hub(100);
    let event = bridge_assets(
        &mut hub,
        id(3),
        2,
        10_000,
        [9u8; 32],
        id(4),
        id(5),
        254,
        77,
    )
    .unwrap();
    assert_eq!(event.amount, 9_900);
    assert_eq!(event.fee_amount, 100);
    assert_eq!(event.target_chain, 2);
    assert_eq!(event.recipient, [9u8; 32]);
    assert_eq!(event.bridge_id, id(5));
    assert_eq!(event.timestamp, 77);
    assert_eq!(hub.state.total_bridges, 1);
    assert_eq!(hub.state.total_volume, 10_000);
    assert_eq!(hub.requests.len(), 1);
    let request = &hub.requests[0];
    assert_eq!(request.user, id(3));
    assert_eq!(request.amount, 9_900);
    assert_eq!(request.fee_amount, 100);
    assert_eq!(request.status, BridgeStatus::Initiated);
    assert_eq!(request.bump, 254);
}

#[test]
fn bridge_assets_rejects_when_paused() {
    let mut hub = fresh_hub(100);
    set_pause_state(&mut hub, id(2), true, 10).unwrap();
    let r = bridge_assets(&mut hub, id(3), 2, 10_000, [0u8; 32], id(4), id(5), 254, 77);
    assert_eq!(r.unwrap_err(), HubError::HubPaused);
    assert_eq!(hub.state.total_bridges, 0);
    assert_eq!(hub.requests.len(), 0);
}

#[test]
fn bridge_assets_rejects_zero_amount() {
    let mut hub = fresh_hub(100);
    let r = bridge_assets(&mut hub, id(3), 2, 0, [0u8; 32], id(4), id(5), 254, 77);
    assert_eq!(r.unwrap_err(), HubError::InvalidAmount);
    assert_eq!(hub.state.total_volume, 0);
}

#[test]
fn bridge_assets_rejects_native_chain() {
    let mut hub = fresh_hub(100);
    let r = bridge_assets(&mut hub, id(3), 1, 10_000, [0u8; 32], id(4), id(5), 254, 77);
    assert_eq!(r.unwrap_err(), HubError::InvalidChain);
    assert_eq!(hub.state.total_volume, 0);
}

#[test]
fn bridge_assets_rejects_duplicate_key() {
    let mut hub = fresh_hub(100);
    bridge_assets(&mut hub, id(3), 2, 10_000, [0u8; 32], id(4), id(5), 254, 77).unwrap();
    let r = bridge_assets(&mut hub, id(3), 2, 10_000, [1u8; 32], id(4), id(5), 254, 78);
    assert_eq!(r.unwrap_err(), HubError::BridgeRequestNotFound);
    assert_eq!(hub.requests.len(), 1);
    let other_amount = bridge_assets(&mut hub, id(3), 2, 10_001, [0u8; 32], id(4), id(5), 254, 79);
    assert!(other_amount.is_ok());
    let other_user = bridge_assets(&mut hub, id(6), 2, 10_000, [0u8; 32], id(4), id(5), 254, 80);
    assert!(other_user.is_ok());
    assert_eq!(hub.requests.len(), 3);
}

#[test]
fn complete_bridge_records_once_and_rejects_replay() {
    let mut hub = fresh_hub(100);
    let hash = [42u8; 32];
    let event = complete_bridge(&mut hub, 3, 500, hash, id(6), id(4), id(7), 253, 90).unwrap();
    assert_eq!(event.source_chain, 3);
    assert_eq!(event.amount, 500);
    assert_eq!(event.bridge_hash, hash);
    assert_eq!(event.completion_id, id(7));
    assert_eq!(hub.completions.len(), 1);
    assert_eq!(hub.completions[0].status, BridgeStatus::Completed);

    let replay = complete_bridge(&mut hub, 3, 500, hash, id(6), id(4), id(7), 253, 91);
    assert_eq!(replay.unwrap_err(), HubError::BridgeAlreadyCompleted);
    let recorded = hub
        .completions
        .iter()
        .filter(|c| c.bridge_hash == hash)
        .count();
    assert_eq!(recorded, 1);

    let other = complete_bridge(&mut hub, 3, 500, [43u8; 32], id(6), id(4), id(7), 253, 92);
    assert!(other.is_ok());
    assert_eq!(hub.completions.len(), 2);
}

#[test]
fn complete_bridge_validates_inputs() {
    let mut hub = fresh_hub(100);
    let r = complete_bridge(&mut hub, 3, 0, [1u8; 32], id(6), id(4), id(7), 253, 90);
    assert_eq!(r.unwrap_err(), HubError::InvalidAmount);
    let r = complete_bridge(&mut hub, 1, 500, [1u8; 32], id(6), id(4), id(7), 253, 90);
    assert_eq!(r.unwrap_err(), HubError::InvalidChain);
    set_pause_state(&mut hub, id(2), true, 10).unwrap();
    let r = complete_bridge(&mut hub, 3, 500, [1u8; 32], id(6), id(4), id(7), 253, 90);
    assert_eq!(r.unwrap_err(), HubError::HubPaused);
    assert_eq!(hub.completions.len(), 0);
}

#[test]
fn create_portfolio_is_one_per_owner() {
    let mut hub = fresh_hub(100);
    let (portfolio, event) = create_portfolio(&mut hub, id(8), id(9), 252, 60).unwrap();
    assert_eq!(portfolio.owner, id(8));
    assert_eq!(portfolio.solana_balance, 0);
    assert_eq!(portfolio.ethereum_balance, 0);
    assert_eq!(portfolio.polygon_balance, 0);
    assert_eq!(portfolio.total_value_usd, 0);
    assert_eq!(portfolio.last_update, 60);
    assert_eq!(event.portfolio_id, id(9));
    let duplicate = create_portfolio(&mut hub, id(8), id(9), 252, 61);
    assert_eq!(duplicate.unwrap_err(), HubError::PortfolioNotFound);
    let other = create_portfolio(&mut hub, id(10), id(9), 252, 62);
    assert!(other.is_ok());
}

#[test]
fn update_portfolio_rejects_non_owner() {
    let mut hub = fresh_hub(100);
    let (mut portfolio, _) = create_portfolio(&mut hub, id(8), id(9), 252, 60).unwrap();
    let r = update_portfolio(&mut portfolio, id(11), 1, 2, 3, 70);
    assert_eq!(r.unwrap_err(), HubError::UnauthorizedPortfolioAccess);
    assert_eq!(portfolio.owner, id(8));
    assert_eq!(portfolio.solana_balance, 0);
    assert_eq!(portfolio.ethereum_balance, 0);
    assert_eq!(portfolio.polygon_balance, 0);
    assert_eq!(portfolio.total_value_usd, 0);
    assert_eq!(portfolio.last_update, 60);
}

#[test]
fn update_portfolio_recomputes_aggregate() {
    let mut hub = fresh_hub(100);
    let (mut portfolio, _) = create_portfolio(&mut hub, id(8), id(9), 252, 60).unwrap();
    let event = update_portfolio(&mut portfolio, id(8), 100, 250, 650, 70).unwrap();
    assert_eq!(portfolio.solana_balance, 100);
    assert_eq!(portfolio.ethereum_balance, 250);
    assert_eq!(portfolio.polygon_balance, 650);
    assert_eq!(portfolio.total_value_usd, 1_000);
    assert_eq!(portfolio.last_update, 70);
    assert_eq!(event.total_value_usd, 1_000);
    assert_eq!(event.user, id(8));
}

#[test]
fn collect_fees_is_admin_gated() {
    let hub = fresh_hub(100);
    let r = collect_fees(&hub, id(9), 10, 80);
    assert_eq!(r.unwrap_err(), HubError::UnauthorizedAdmin);
    let r = collect_fees(&hub, id(2), 0, 80);
    assert_eq!(r.unwrap_err(), HubError::InvalidAmount);
    let event = collect_fees(&hub, id(2), 10, 80).unwrap();
    assert_eq!(event.admin, id(2));
    assert_eq!(event.amount, 10);
    assert_eq!(event.timestamp, 80);
}
