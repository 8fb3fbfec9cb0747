use shadow_fund::campaign::{add_reward_tier, initialize_campaign};
use shadow_fund::engine::FundingEngine;
use shadow_fund::errors::ErrorCode;

#[test]
fn initialize_rejects_zero_target() {
    let r = initialize_campaign(1, 1, String::from("a"), String::from("b"), 0, 100, 0);
    assert_eq!(r.err(), Some(ErrorCode::InvalidTarget));
}

#[test]
fn initialize_rejects_non_future_deadline() {
    let r = initialize_campaign(1, 1, String::from("a"), String::from("b"), 10, 100, 100);
    assert_eq!(r.err(), Some(ErrorCode::InvalidDeadline));
    let r = initialize_campaign(1, 1, String::from("a"), String::from("b"), 10, 99, 100);
    assert_eq!(r.err(), Some(ErrorCode::InvalidDeadline));
}

#[test]
fn initialize_bounds_name_and_description() {
    let name_50: String = "n".repeat(50);
    let name_51: String = "n".repeat(51);
    let desc_280: String = "d".repeat(280);
    let desc_281: String = "d".repeat(281);

    let ok = initialize_campaign(1, 1, name_50.clone(), desc_280.clone(), 10, 100, 0).unwrap();
    assert_eq!(ok.name, name_50);
    assert_eq!(ok.description, desc_280);
    assert_eq!(ok.current_amount, 0);

    let r = initialize_campaign(1, 1, name_51, desc_280, 10, 100, 0);
    assert_eq!(r.err(), Some(ErrorCode::NameTooLong));
    let r = initialize_campaign(1, 1, name_50, desc_281, 10, 100, 0);
    assert_eq!(r.err(), Some(ErrorCode::DescriptionTooLong));
}

#[test]
fn add_reward_tier_appends_in_order() {
    let mut c = initialize_campaign(9, 1, String::from("c"), String::new(), 10, 100, 0).unwrap();
    add_reward_tier(&mut c, 9, String::from("bronze"), String::from("b"), 5, 0).unwrap();
    add_reward_tier(&mut c, 9, String::from("silver"), String::from("s"), 8, 3).unwrap();
    assert_eq!(c.tiers.len(), 2);
    assert_eq!(c.tiers[0].name, "bronze");
    assert_eq!(c.tiers[0].claimed, 0);
    assert_eq!(c.tiers[1].name, "silver");
    assert_eq!(c.tiers[1].limit, 3);
}

#[test]
fn add_reward_tier_requires_owner() {
    let mut c = initialize_campaign(9, 1, String::from("c"), String::new(), 10, 100, 0).unwrap();
    let r = add_reward_tier(&mut c, 8, String::from("t"), String::new(), 5, 0);
    assert_eq!(r, Err(ErrorCode::Unauthorized));
    assert_eq!(c.tiers.len(), 0);
}

#[test]
fn add_reward_tier_bounds_texts() {
    let mut c = initialize_campaign(9, 1, String::from("c"), String::new(), 10, 100, 0).unwrap();
    let r = add_reward_tier(&mut c, 9, "n".repeat(51), String::new(), 5, 0);
    assert_eq!(r, Err(ErrorCode::NameTooLong));
    let r = add_reward_tier(&mut c, 9, "n".repeat(50), "d".repeat(201), 5, 0);
    assert_eq!(r, Err(ErrorCode::DescriptionTooLong));
    add_reward_tier(&mut c, 9, "n".repeat(50), "d".repeat(200), 5, 0).unwrap();
}

#[test]
fn add_reward_tier_caps_tier_count() {
    let mut c = initialize_campaign(9, 1, String::from("c"), String::new(), 10, 100, 0).unwrap();
    for i in 0..10u64 {
        add_reward_tier(&mut c, 9, format!("t{i}"), String::new(), i, 0).unwrap();
    }
    let r = add_reward_tier(&mut c, 9, String::from("eleventh"), String::new(), 1, 0);
    assert_eq!(r, Err(ErrorCode::TooManyTiers));
    assert_eq!(c.tiers.len(), 10);
}

#[test]
fn cancel_requires_owner_and_empty() {
    let engine = FundingEngine::initialize_config(1, 2, 0);
    let c = initialize_campaign(9, 1, String::from("c"), String::new(), 10, 100, 0).unwrap();
    assert_eq!(engine.cancel_campaign(&c, 8), Err(ErrorCode::Unauthorized));
    assert_eq!(engine.cancel_campaign(&c, 9), Ok(()));

    let mut funded = c;
    funded.current_amount = 5;
    assert_eq!(engine.cancel_campaign(&funded, 9), Err(ErrorCode::CampaignNotEmpty));
}

#[test]
fn error_labels_are_stable() {
    assert_eq!(ErrorCode::TierSoldOut.label(), "tier sold out");
    assert_eq!(ErrorCode::NullifierReused.label(), "nullifier reused");
}
