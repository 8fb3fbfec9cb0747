use shadow_fund::campaign::{add_reward_tier, initialize_campaign};
use shadow_fund::engine::{DonationKind, FundingEngine};
use shadow_fund::errors::ErrorCode;

fn proof_bytes() -> Vec<u8> {
    vec![0u8; 96]
}

fn hash(fill: u8) -> Vec<u8> {
    vec![fill; 32]
}

#[test]
fn scenario_two_donors_withdraw_then_refund_moot() {
    // Campaign target 1000, deadline T+100 with T = 0; fee 500 bps.
    let admin = 1u64;
    let treasury = 2u64;
    let owner = 10u64;
    let donor_a = 100u64;
    let donor_b = 200u64;
    let mut engine = FundingEngine::initialize_config(admin, treasury, 500);
    let mut campaign = initialize_campaign(
        owner,
        7,
        String::from("gadget"),
        String::from("a gadget worth funding"),
        1000,
        100,
        0,
    )
    .unwrap();

    // Donor A donates 600 at T+1 (no tier).
    let act = engine
        .donate_request(&campaign, donor_a, 600, &proof_bytes(), &hash(1), DonationKind::Untiered)
        .unwrap();
    assert_eq!(act.from, donor_a);
    assert_eq!(act.to_campaign, 7);
    assert_eq!(act.amount, 600);
    engine
        .donate(&mut campaign, donor_a, 600, &proof_bytes(), hash(1), DonationKind::Untiered, true)
        .unwrap();
    assert_eq!(campaign.current_amount, 600);

    // Donor B donates 500 at T+2.
    engine
        .donate(&mut campaign, donor_b, 500, &proof_bytes(), hash(2), DonationKind::Untiered, true)
        .unwrap();
    assert_eq!(campaign.current_amount, 1100);

    // Withdraw at T+3: fee = floor(1100 * 500 / 10000) = 55, creator gets 1045.
    let plan = engine.withdraw_request(&campaign, owner, treasury).unwrap();
    assert_eq!(plan.fee_to_treasury, 55);
    assert_eq!(plan.to_owner, 1045);
    assert_eq!(plan.fee_to_treasury + plan.to_owner, 1100);
    engine.withdraw(&mut campaign, owner, treasury, true).unwrap();
    assert_eq!(campaign.current_amount, 0);

    // A later refund attempt by A: untiered donations left no receipt, so it
    // fails for lack of funds to refund — untiered donations are
    // non-refundable by design.
    let r = engine.refund(&mut campaign, donor_a, 200, true);
    assert_eq!(r, Err(ErrorCode::NoFundsToRefund));
    assert_eq!(campaign.current_amount, 0);
}

#[test]
fn conservation_across_operations() {
    // current_amount always equals donations minus withdrawals and refunds.
    let mut engine = FundingEngine::initialize_config(1, 2, 250);
    let owner = 10u64;
    let mut campaign = initialize_campaign(
        owner,
        1,
        String::from("ledger"),
        String::new(),
        10_000,
        50,
        0,
    )
    .unwrap();
    engine
        .donate(&mut campaign, 100, 400, &proof_bytes(), hash(1), DonationKind::Untiered, true)
        .unwrap();
    add_reward_tier(&mut campaign, owner, String::from("tier"), String::new(), 100, 0).unwrap();
    engine
        .donate(&mut campaign, 101, 300, &proof_bytes(), hash(2), DonationKind::Tiered(0), true)
        .unwrap();
    let donated = 400 + 300;
    assert_eq!(campaign.current_amount, donated);

    // Past the deadline and under target: donor 101 gets its 300 back.
    engine.refund(&mut campaign, 101, 51, true).unwrap();
    assert_eq!(campaign.current_amount, donated - 300);
}

#[test]
fn withdraw_is_one_shot() {
    let mut engine = FundingEngine::initialize_config(1, 2, 0);
    let owner = 10u64;
    let mut campaign =
        initialize_campaign(owner, 1, String::from("c"), String::new(), 100, 50, 0).unwrap();
    engine
        .donate(&mut campaign, 100, 100, &proof_bytes(), hash(1), DonationKind::Untiered, true)
        .unwrap();
    engine.withdraw(&mut campaign, owner, 2, true).unwrap();
    assert_eq!(campaign.current_amount, 0);
    // With nothing pledged, a positive target is never met again.
    let again = engine.withdraw(&mut campaign, owner, 2, true);
    assert_eq!(again, Err(ErrorCode::TargetNotMet));
}
