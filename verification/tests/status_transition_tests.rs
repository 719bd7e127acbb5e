use milestonex::registry::CampaignsRegistry;
use milestonex::storage::RegistryEnv;
use milestonex::types::{
    Address, AddressKind, CampaignMetadata, CampaignStatus, CampaignStatusResponse, Error,
    StellarAsset,
};

fn addr(n: u128) -> Address {
    Address { kind: AddressKind::Contract, key_hi: 1, key_lo: n }
}

fn create_default_campaign(env: &mut RegistryEnv, creator: u128) -> u64 {
    let metadata = CampaignMetadata {
        goal_amount: 1_000,
        end_time: env.timestamp + 86_400,
        accepted_assets: vec![StellarAsset { asset_code: b"XLM".to_vec(), issuer: Some(addr(99)) }],
        min_donation_amount: 0,
    };
    CampaignsRegistry::create_campaign(env, addr(creator), metadata).unwrap()
}

#[test]
fn test_end_campaign_transitions_active_to_ended() {
    let mut env = RegistryEnv::new(0, 0);
    let campaign_id = create_default_campaign(&mut env, 1);

    CampaignsRegistry::end_campaign(&mut env, campaign_id).unwrap();

    let campaign = CampaignsRegistry::get_campaign(&env, campaign_id).unwrap();
    assert_eq!(campaign.status, CampaignStatus::Ended);
    assert!(campaign.concluded_at_ledger.is_some());
}

#[test]
fn test_cancel_after_end_is_allowed() {
    let mut env = RegistryEnv::new(0, 0);
    let campaign_id = create_default_campaign(&mut env, 1);

    CampaignsRegistry::end_campaign(&mut env, campaign_id).unwrap();
    CampaignsRegistry::cancel_campaign(&mut env, campaign_id).unwrap();

    let campaign = CampaignsRegistry::get_campaign(&env, campaign_id).unwrap();
    assert_eq!(campaign.status, CampaignStatus::Cancelled);
}

#[test]
fn test_cancel_after_cancel_panics() {
    let mut env = RegistryEnv::new(0, 0);
    let campaign_id = create_default_campaign(&mut env, 1);

    CampaignsRegistry::cancel_campaign(&mut env, campaign_id).unwrap();
    let r = CampaignsRegistry::cancel_campaign(&mut env, campaign_id);
    assert_eq!(r, Err(Error::InvalidCampaignTransition));
    assert_eq!(Error::InvalidCampaignTransition.as_wire_code(), 22);
}

#[test]
fn test_end_after_cancel_panics() {
    let mut env = RegistryEnv::new(0, 0);
    let campaign_id = create_default_campaign(&mut env, 1);

    CampaignsRegistry::cancel_campaign(&mut env, campaign_id).unwrap();
    let r = CampaignsRegistry::end_campaign(&mut env, campaign_id);
    assert_eq!(r, Err(Error::InvalidCampaignTransition));
    assert_eq!(Error::InvalidCampaignTransition.as_wire_code(), 22);
}

#[test]
fn test_end_campaign_unknown_id_panics() {
    let mut env = RegistryEnv::new(0, 0);
    let r = CampaignsRegistry::end_campaign(&mut env, 999);
    assert_eq!(r, Err(Error::CampaignNotFound));
    assert_eq!(Error::CampaignNotFound.as_wire_code(), 27);
}

#[test]
fn test_status_transition_on_one_campaign_does_not_affect_sibling() {
    let mut env = RegistryEnv::new(0, 0);
    let campaign_a = create_default_campaign(&mut env, 1);
    let campaign_b = create_default_campaign(&mut env, 2);

    CampaignsRegistry::cancel_campaign(&mut env, campaign_a).unwrap();

    let a = CampaignsRegistry::get_campaign(&env, campaign_a).unwrap();
    let b = CampaignsRegistry::get_campaign(&env, campaign_b).unwrap();

    assert_eq!(a.status, CampaignStatus::Cancelled);
    assert_eq!(b.status, CampaignStatus::Active);
}

#[test]
fn end_twice_is_an_invalid_transition() {
    let mut env = RegistryEnv::new(0, 0);
    let id = create_default_campaign(&mut env, 1);
    CampaignsRegistry::end_campaign(&mut env, id).unwrap();
    assert_eq!(CampaignsRegistry::end_campaign(&mut env, id), Err(Error::InvalidCampaignTransition));
}

#[test]
fn concluded_at_ledger_records_the_sequence() {
    let mut env = RegistryEnv::new(0, 31);
    let id = create_default_campaign(&mut env, 1);
    env.sequence = 77;
    CampaignsRegistry::cancel_campaign(&mut env, id).unwrap();
    assert_eq!(CampaignsRegistry::get_campaign(&env, id).unwrap().concluded_at_ledger, Some(77));
}

#[test]
fn status_reports_days_remaining_before_and_after_deadline() {
    let mut env = RegistryEnv::new(1_000, 0);
    let id = create_default_campaign(&mut env, 1); // end_time = 87_400
    assert_eq!(
        CampaignsRegistry::get_campaign_status(&env, id),
        Ok(CampaignStatusResponse { status: CampaignStatus::Active, days_remaining: 1 })
    );
    env.timestamp = 87_399;
    assert_eq!(CampaignsRegistry::get_campaign_status(&env, id).unwrap().days_remaining, 0);
    env.timestamp = 87_400 + 86_399;
    assert_eq!(CampaignsRegistry::get_campaign_status(&env, id).unwrap().days_remaining, 0);
    env.timestamp = 87_400 + 3 * 86_400 + 5;
    assert_eq!(CampaignsRegistry::get_campaign_status(&env, id).unwrap().days_remaining, -3);
    assert_eq!(CampaignsRegistry::get_campaign_status(&env, 5), Err(Error::CampaignNotFound));
}
