use shadow_fund::campaign::{add_reward_tier, initialize_campaign, Campaign};
use shadow_fund::engine::{DonationKind, FundingEngine};
use shadow_fund::errors::ErrorCode;

fn proof_bytes() -> Vec<u8> {
    vec![0u8; 96]
}

fn hash(fill: u8) -> Vec<u8> {
    vec![fill; 32]
}

fn setup() -> (FundingEngine, Campaign) {
    let engine = FundingEngine::initialize_config(1, 2, 500);
    let campaign =
        initialize_campaign(10, 7, String::from("c"), String::new(), 1000, 100, 0).unwrap();
    (engine, campaign)
}

#[test]
fn donate_rejects_short_proof() {
    let (mut engine, mut c) = setup();
    // 64 proof bytes are not enough; 65 are.
    let r = engine.donate(&mut c, 100, 5, &vec![0u8; 64], hash(1), DonationKind::Untiered, true);
    assert_eq!(r, Err(ErrorCode::InvalidProof));
    assert_eq!(c.current_amount, 0);
    let r = engine.donate(&mut c, 100, 5, &vec![0u8; 65], hash(1), DonationKind::Untiered, true);
    assert_eq!(r, Ok(()));
}

#[test]
fn donate_rejects_malformed_nullifier() {
    let (mut engine, mut c) = setup();
    let r = engine.donate(&mut c, 100, 5, &proof_bytes(), vec![1u8; 31], DonationKind::Untiered, true);
    assert_eq!(r, Err(ErrorCode::InvalidNullifier));
    let r = engine.donate(&mut c, 100, 5, &proof_bytes(), vec![1u8; 33], DonationKind::Untiered, true);
    assert_eq!(r, Err(ErrorCode::InvalidNullifier));
    assert_eq!(c.current_amount, 0);
}

#[test]
fn donate_rejects_reused_nullifier_with_no_state_change() {
    let (mut engine, mut c) = setup();
    add_reward_tier(&mut c, 10, String::from("t"), String::new(), 5, 3).unwrap();
    engine
        .donate(&mut c, 100, 5, &proof_bytes(), hash(1), DonationKind::Tiered(0), true)
        .unwrap();
    assert_eq!(c.current_amount, 5);
    assert_eq!(c.tiers[0].claimed, 1);
    assert_eq!(c.receipts.len(), 1);

    // Same hash again — even from another donor, with another amount.
    let r = engine.donate(&mut c, 200, 9, &proof_bytes(), hash(1), DonationKind::Tiered(0), true);
    assert_eq!(r, Err(ErrorCode::NullifierReused));
    assert_eq!(c.current_amount, 5);
    assert_eq!(c.tiers[0].claimed, 1);
    assert_eq!(c.receipts.len(), 1);
    assert_eq!(c.receipts[0].amount_paid, 5);
}

#[test]
fn donate_rejects_bad_tier_index() {
    let (mut engine, mut c) = setup();
    let r = engine.donate(&mut c, 100, 5, &proof_bytes(), hash(1), DonationKind::Tiered(0), true);
    assert_eq!(r, Err(ErrorCode::InvalidTierIndex));
}

#[test]
fn donate_rejects_pledge_under_tier_minimum() {
    let (mut engine, mut c) = setup();
    add_reward_tier(&mut c, 10, String::from("t"), String::new(), 50, 0).unwrap();
    let r = engine.donate(&mut c, 100, 49, &proof_bytes(), hash(1), DonationKind::Tiered(0), true);
    assert_eq!(r, Err(ErrorCode::InsufficientAmountForTier));
    let r = engine.donate(&mut c, 100, 50, &proof_bytes(), hash(1), DonationKind::Tiered(0), true);
    assert_eq!(r, Ok(()));
}

#[test]
fn donate_sells_out_a_limited_tier() {
    let (mut engine, mut c) = setup();
    add_reward_tier(&mut c, 10, String::from("t"), String::new(), 5, 2).unwrap();
    engine
        .donate(&mut c, 100, 5, &proof_bytes(), hash(1), DonationKind::Tiered(0), true)
        .unwrap();
    engine
        .donate(&mut c, 200, 5, &proof_bytes(), hash(2), DonationKind::Tiered(0), true)
        .unwrap();
    assert_eq!(c.tiers[0].claimed, 2);

    // The third claim on a limit-2 tier fails with no state change.
    let r = engine.donate(&mut c, 300, 5, &proof_bytes(), hash(3), DonationKind::Tiered(0), true);
    assert_eq!(r, Err(ErrorCode::TierSoldOut));
    assert_eq!(c.tiers[0].claimed, 2);
    assert_eq!(c.current_amount, 10);
    assert_eq!(c.receipts.len(), 2);
}

#[test]
fn donate_accumulates_a_backers_receipt() {
    let (mut engine, mut c) = setup();
    add_reward_tier(&mut c, 10, String::from("bronze"), String::new(), 5, 0).unwrap();
    add_reward_tier(&mut c, 10, String::from("silver"), String::new(), 8, 0).unwrap();
    engine
        .donate(&mut c, 100, 5, &proof_bytes(), hash(1), DonationKind::Tiered(0), true)
        .unwrap();
    assert_eq!(c.receipts.len(), 1);
    assert_eq!(c.receipts[0].backer, 100);
    assert_eq!(c.receipts[0].tier_index, 0);
    assert_eq!(c.receipts[0].amount_paid, 5);

    // A second tiered donation by the same backer updates the one receipt.
    engine
        .donate(&mut c, 100, 9, &proof_bytes(), hash(2), DonationKind::Tiered(1), true)
        .unwrap();
    assert_eq!(c.receipts.len(), 1);
    assert_eq!(c.receipts[0].tier_index, 1);
    assert_eq!(c.receipts[0].amount_paid, 14);
    assert_eq!(c.receipts[0].campaign, 7);

    // An untiered donation leaves receipts alone.
    engine
        .donate(&mut c, 100, 3, &proof_bytes(), hash(3), DonationKind::Untiered, true)
        .unwrap();
    assert_eq!(c.receipts.len(), 1);
    assert_eq!(c.receipts[0].amount_paid, 14);
    assert_eq!(c.current_amount, 17);
}

#[test]
fn donate_commits_nothing_when_transfer_fails() {
    let (mut engine, mut c) = setup();
    add_reward_tier(&mut c, 10, String::from("t"), String::new(), 5, 0).unwrap();
    let r = engine.donate(&mut c, 100, 5, &proof_bytes(), hash(1), DonationKind::Tiered(0), false);
    assert_eq!(r, Err(ErrorCode::TransferFailed));
    assert_eq!(c.current_amount, 0);
    assert_eq!(c.tiers[0].claimed, 0);
    assert_eq!(c.receipts.len(), 0);

    // The nullifier was not spent either: the same hash still works.
    let r = engine.donate(&mut c, 100, 5, &proof_bytes(), hash(1), DonationKind::Tiered(0), true);
    assert_eq!(r, Ok(()));
}

#[test]
fn donate_refuses_overflowing_the_pledged_total() {
    let (mut engine, mut c) = setup();
    engine
        .donate(&mut c, 100, u64::MAX, &proof_bytes(), hash(1), DonationKind::Untiered, true)
        .unwrap();
    assert_eq!(c.current_amount, u64::MAX);
    let r = engine.donate(&mut c, 200, 1, &proof_bytes(), hash(2), DonationKind::Untiered, true);
    assert_eq!(r, Err(ErrorCode::ArithmeticOverflow));
    assert_eq!(c.current_amount, u64::MAX);
}

#[test]
fn donate_refuses_overflowing_a_receipt() {
    let (mut engine, mut c) = setup();
    add_reward_tier(&mut c, 10, String::from("t"), String::new(), 0, 0).unwrap();
    engine
        .donate(&mut c, 100, u64::MAX, &proof_bytes(), hash(1), DonationKind::Tiered(0), true)
        .unwrap();
    assert_eq!(c.receipts[0].amount_paid, u64::MAX);
    let r = engine.donate(&mut c, 100, 1, &proof_bytes(), hash(2), DonationKind::Tiered(0), true);
    assert_eq!(r, Err(ErrorCode::ArithmeticOverflow));
    assert_eq!(c.receipts[0].amount_paid, u64::MAX);
    assert_eq!(c.tiers[0].claimed, 1);
}

#[test]
fn donate_request_hands_back_the_exact_movement() {
    let (engine, c) = setup();
    let act = engine
        .donate_request(&c, 100, 42, &proof_bytes(), &hash(1), DonationKind::Untiered)
        .unwrap();
    assert_eq!(act.from, 100);
    assert_eq!(act.to_campaign, 7);
    assert_eq!(act.amount, 42);

    let r = engine.donate_request(&c, 100, 42, &vec![0u8; 10], &hash(1), DonationKind::Untiered);
    assert_eq!(r, Err(ErrorCode::InvalidProof));
}
