use milestonex::registry::CampaignsRegistry;
use milestonex::storage::RegistryEnv;
use milestonex::types::{
    Address, AddressKind, AssetInfo, CampaignMetadata, CampaignStatus, StellarAsset,
};

fn addr(n: u128) -> Address {
    Address { kind: AddressKind::Account, key_hi: 0, key_lo: n }
}

fn default_metadata(env: &RegistryEnv) -> CampaignMetadata {
    CampaignMetadata {
        goal_amount: 1_000,
        end_time: env.timestamp + 86_400,
        accepted_assets: vec![StellarAsset { asset_code: b"XLM".to_vec(), issuer: Some(addr(500)) }],
        min_donation_amount: 0,
    }
}

#[test]
fn test_five_concurrent_campaigns_get_distinct_sequential_ids() {
    let mut env = RegistryEnv::new(0, 0);
    let mut ids: [u64; 5] = [0; 5];
    for (n, id) in ids.iter_mut().enumerate() {
        let metadata = default_metadata(&env);
        *id = CampaignsRegistry::create_campaign(&mut env, addr(n as u128), metadata).unwrap();
    }

    assert_eq!(ids, [1, 2, 3, 4, 5]);
    assert_eq!(CampaignsRegistry::campaign_count(&env), 5);
}

#[test]
fn test_five_concurrent_campaigns_keep_distinct_creators_and_raised_counters() {
    let mut env = RegistryEnv::new(0, 0);
    let mut campaigns: Vec<(Address, u64)> = Vec::new();
    for n in 0..5u128 {
        let creator = addr(10 + n);
        let metadata = default_metadata(&env);
        let id = CampaignsRegistry::create_campaign(&mut env, creator, metadata).unwrap();
        campaigns.push((creator, id));
    }

    // Donate a distinct amount to each campaign.
    for (i, (_, campaign_id)) in campaigns.iter().enumerate() {
        let donor = addr(100 + i as u128);
        let amount: i128 = 100 * (i as i128 + 1);
        CampaignsRegistry::donate(&mut env, donor, *campaign_id, amount, AssetInfo::Native).unwrap();
    }

    for (i, (creator, campaign_id)) in campaigns.iter().enumerate() {
        let campaign =
            CampaignsRegistry::get_campaign(&env, *campaign_id).expect("campaign should exist");
        assert_eq!(campaign.raised_amount, 100 * (i as i128 + 1));
        assert_eq!(campaign.donation_count, 1);
        assert_eq!(&campaign.creator, creator);
    }
}

#[test]
fn test_five_concurrent_campaigns_have_independent_statuses() {
    let mut env = RegistryEnv::new(0, 0);
    let mut ids: [u64; 5] = [0; 5];
    for (n, id) in ids.iter_mut().enumerate() {
        let metadata = default_metadata(&env);
        *id = CampaignsRegistry::create_campaign(&mut env, addr(n as u128), metadata).unwrap();
    }

    // Campaign 0: fully funded -> GoalReached.
    CampaignsRegistry::donate(&mut env, addr(77), ids[0], 1_000, AssetInfo::Native).unwrap();
    // Campaign 1: ended early by its creator.
    CampaignsRegistry::end_campaign(&mut env, ids[1]).unwrap();
    // Campaign 2: cancelled by its creator.
    CampaignsRegistry::cancel_campaign(&mut env, ids[2]).unwrap();
    // Campaigns 3 and 4 are left untouched — still Active.

    let status_of = |id: u64| -> CampaignStatus {
        CampaignsRegistry::get_campaign(&env, id).expect("campaign should exist").status
    };

    assert_eq!(status_of(ids[0]), CampaignStatus::GoalReached);
    assert_eq!(status_of(ids[1]), CampaignStatus::Ended);
    assert_eq!(status_of(ids[2]), CampaignStatus::Cancelled);
    assert_eq!(status_of(ids[3]), CampaignStatus::Active);
    assert_eq!(status_of(ids[4]), CampaignStatus::Active);
}
