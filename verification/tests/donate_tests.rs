use milestonex::event::RegistryEvent;
use milestonex::registry::CampaignsRegistry;
use milestonex::storage::{get_donor, RegistryEnv};
use milestonex::types::{
    Address, AddressKind, AssetInfo, CampaignMetadata, CampaignStatus, Error, StellarAsset,
};

fn addr(n: u128) -> Address {
    Address { kind: AddressKind::Account, key_hi: 3, key_lo: n }
}

fn default_metadata(env: &RegistryEnv, issuer: u128) -> CampaignMetadata {
    CampaignMetadata {
        goal_amount: 1_000,
        end_time: env.timestamp + 86_400,
        accepted_assets: vec![StellarAsset { asset_code: b"XLM".to_vec(), issuer: Some(addr(issuer)) }],
        min_donation_amount: 0,
    }
}

fn create_default_campaign(env: &mut RegistryEnv, creator: u128) -> u64 {
    let metadata = default_metadata(env, 1_000 + creator);
    CampaignsRegistry::create_campaign(env, addr(creator), metadata).unwrap()
}

#[test]
fn test_donate_updates_raised_amount_and_donation_count() {
    let mut env = RegistryEnv::new(0, 0);
    let campaign_id = create_default_campaign(&mut env, 1);
    let donor = addr(50);

    CampaignsRegistry::donate(&mut env, donor, campaign_id, 250, AssetInfo::Native).unwrap();

    let campaign = CampaignsRegistry::get_campaign(&env, campaign_id).expect("campaign should exist");
    assert_eq!(campaign.raised_amount, 250);
    assert_eq!(campaign.donation_count, 1);
}

#[test]
fn test_donate_transitions_to_goal_reached_when_goal_met() {
    let mut env = RegistryEnv::new(0, 0);
    let campaign_id = create_default_campaign(&mut env, 1); // goal_amount = 1_000
    let donor = addr(50);

    CampaignsRegistry::donate(&mut env, donor, campaign_id, 1_000, AssetInfo::Native).unwrap();

    let campaign = CampaignsRegistry::get_campaign(&env, campaign_id).expect("campaign should exist");
    assert_eq!(campaign.status, CampaignStatus::GoalReached);
}

#[test]
fn test_donate_unknown_campaign_id_panics() {
    let mut env = RegistryEnv::new(0, 0);
    let r = CampaignsRegistry::donate(&mut env, addr(50), 999, 100, AssetInfo::Native);
    assert_eq!(r, Err(Error::CampaignNotFound));
    assert_eq!(Error::CampaignNotFound.as_wire_code(), 27);
}

#[test]
fn test_donate_after_cancel_panics() {
    let mut env = RegistryEnv::new(0, 0);
    let campaign_id = create_default_campaign(&mut env, 1);
    CampaignsRegistry::cancel_campaign(&mut env, campaign_id).unwrap();

    let r = CampaignsRegistry::donate(&mut env, addr(50), campaign_id, 100, AssetInfo::Native);
    assert_eq!(r, Err(Error::CampaignNotActive));
    assert_eq!(Error::CampaignNotActive.as_wire_code(), 5);
}

#[test]
fn test_donate_after_deadline_panics() {
    let mut env = RegistryEnv::new(0, 0);
    let campaign_id = create_default_campaign(&mut env, 1);

    // default_metadata sets end_time = now + 86_400.
    env.timestamp = env.timestamp + 86_401;

    let r = CampaignsRegistry::donate(&mut env, addr(50), campaign_id, 100, AssetInfo::Native);
    assert_eq!(r, Err(Error::CampaignEnded));
    assert_eq!(Error::CampaignEnded.as_wire_code(), 4);
}

#[test]
fn test_donate_zero_amount_panics() {
    let mut env = RegistryEnv::new(0, 0);
    let campaign_id = create_default_campaign(&mut env, 1);
    let r = CampaignsRegistry::donate(&mut env, addr(50), campaign_id, 0, AssetInfo::Native);
    assert_eq!(r, Err(Error::DonationTooSmall));
    assert_eq!(Error::DonationTooSmall.as_wire_code(), 7);
}

#[test]
fn test_donate_unaccepted_stellar_asset_panics() {
    let mut env = RegistryEnv::new(0, 0);
    let campaign_id = create_default_campaign(&mut env, 1);
    let random_token = addr(777);

    let r = CampaignsRegistry::donate(
        &mut env,
        addr(50),
        campaign_id,
        100,
        AssetInfo::Stellar(random_token),
    );
    assert_eq!(r, Err(Error::AssetNotAccepted));
    assert_eq!(Error::AssetNotAccepted.as_wire_code(), 6);
}

#[test]
fn test_donate_scoped_to_one_campaign_leaves_sibling_campaign_untouched() {
    let mut env = RegistryEnv::new(0, 0);
    let campaign_a = create_default_campaign(&mut env, 1);
    let campaign_b = create_default_campaign(&mut env, 2);

    CampaignsRegistry::donate(&mut env, addr(50), campaign_a, 500, AssetInfo::Native).unwrap();

    let a = CampaignsRegistry::get_campaign(&env, campaign_a).unwrap();
    let b = CampaignsRegistry::get_campaign(&env, campaign_b).unwrap();

    assert_eq!(a.raised_amount, 500);
    assert_eq!(b.raised_amount, 0);
    assert_eq!(b.donation_count, 0);
}

#[test]
fn donate_with_accepted_issuer_is_accepted() {
    let mut env = RegistryEnv::new(0, 0);
    let campaign_id = create_default_campaign(&mut env, 1);
    // The default campaign's asset is issued by addr(1_001).
    let r = CampaignsRegistry::donate(
        &mut env,
        addr(50),
        campaign_id,
        10,
        AssetInfo::Stellar(addr(1_001)),
    );
    assert_eq!(r, Ok(()));
}

#[test]
fn native_donation_needs_an_xlm_asset() {
    let mut env = RegistryEnv::new(0, 0);
    let metadata = CampaignMetadata {
        goal_amount: 1_000,
        end_time: 86_400,
        accepted_assets: vec![StellarAsset { asset_code: b"USDC".to_vec(), issuer: Some(addr(8)) }],
        min_donation_amount: 0,
    };
    let id = CampaignsRegistry::create_campaign(&mut env, addr(1), metadata).unwrap();
    let r = CampaignsRegistry::donate(&mut env, addr(50), id, 10, AssetInfo::Native);
    assert_eq!(r, Err(Error::AssetNotAccepted));
}

#[test]
fn donation_below_minimum_is_too_small() {
    let mut env = RegistryEnv::new(0, 0);
    let mut metadata = default_metadata(&env, 8);
    metadata.min_donation_amount = 50;
    let id = CampaignsRegistry::create_campaign(&mut env, addr(1), metadata).unwrap();
    assert_eq!(
        CampaignsRegistry::donate(&mut env, addr(50), id, 49, AssetInfo::Native),
        Err(Error::DonationTooSmall)
    );
    assert_eq!(CampaignsRegistry::donate(&mut env, addr(50), id, 50, AssetInfo::Native), Ok(()));
}

#[test]
fn donation_at_deadline_is_rejected() {
    let mut env = RegistryEnv::new(0, 0);
    let id = create_default_campaign(&mut env, 1);
    env.timestamp = 86_400;
    assert_eq!(
        CampaignsRegistry::donate(&mut env, addr(50), id, 10, AssetInfo::Native),
        Err(Error::CampaignEnded)
    );
    env.timestamp = 86_399;
    assert_eq!(CampaignsRegistry::donate(&mut env, addr(50), id, 10, AssetInfo::Native), Ok(()));
}

#[test]
fn donations_accumulate_in_donor_record_and_events() {
    let mut env = RegistryEnv::new(10, 5);
    let id = create_default_campaign(&mut env, 1);
    let donor = addr(50);
    CampaignsRegistry::donate(&mut env, donor, id, 600, AssetInfo::Native).unwrap();
    env.timestamp = 20;
    env.sequence = 6;
    CampaignsRegistry::donate(&mut env, donor, id, 700, AssetInfo::Native).unwrap();

    let d = get_donor(&env, id, &donor).expect("donor record");
    assert_eq!(d.donor, donor);
    assert_eq!(d.total_donated, 1_300);
    assert_eq!(d.donation_count, 2);
    assert_eq!(d.last_donation_time, 20);
    assert_eq!(d.last_donation_ledger, 6);

    let c = CampaignsRegistry::get_campaign(&env, id).unwrap();
    assert_eq!(c.raised_amount, 1_300);
    assert_eq!(c.donation_count, 2);
    assert_eq!(c.status, CampaignStatus::GoalReached);

    assert_eq!(
        &env.events[1..],
        &[
            RegistryEvent::DonationReceived { campaign_id: id, donor, amount: 600, new_raised_total: 600 },
            RegistryEvent::CampaignStatusChanged {
                campaign_id: id,
                from: CampaignStatus::Active,
                to: CampaignStatus::GoalReached,
            },
            RegistryEvent::DonationReceived {
                campaign_id: id,
                donor,
                amount: 700,
                new_raised_total: 1_300,
            },
        ]
    );
}

#[test]
fn donation_overflowing_raised_amount_is_rejected() {
    let mut env = RegistryEnv::new(0, 0);
    let id = create_default_campaign(&mut env, 1);
    CampaignsRegistry::donate(&mut env, addr(50), id, i128::MAX, AssetInfo::Native).unwrap();
    let before = env.events.len();
    assert_eq!(
        CampaignsRegistry::donate(&mut env, addr(51), id, 1, AssetInfo::Native),
        Err(Error::Overflow)
    );
    assert_eq!(env.events.len(), before);
    assert_eq!(CampaignsRegistry::get_campaign(&env, id).unwrap().raised_amount, i128::MAX);
}
