use milestonex::contract::{required_signer, SignedCall};
use milestonex::registry::CampaignsRegistry;
use milestonex::stellar_aid::{AidCall, StellarAidContract};
use milestonex::storage::{get_donor, RegistryEnv};
use milestonex::types::{Address, AddressKind, AssetInfo, CampaignMetadata, CampaignStatus, StellarAsset};

fn addr(n: u128) -> Address {
    Address { kind: AddressKind::Account, key_hi: 11, key_lo: n }
}

fn create(env: &mut RegistryEnv, creator: Address, goal: i128) -> u64 {
    let metadata = CampaignMetadata {
        goal_amount: goal,
        end_time: env.timestamp + 86_400,
        accepted_assets: vec![StellarAsset { asset_code: b"XLM".to_vec(), issuer: None }],
        min_donation_amount: 0,
    };
    CampaignsRegistry::create_campaign(env, creator, metadata).unwrap()
}

#[test]
fn registry_signers_are_creator_donor_and_stored_creator() {
    let mut env = RegistryEnv::new(0, 0);
    let creator = addr(1);
    let id = create(&mut env, creator, 1_000);
    assert_eq!(
        required_signer(&env, &SignedCall::CreateCampaign { creator: addr(5) }),
        Some(addr(5))
    );
    assert_eq!(
        required_signer(&env, &SignedCall::Donate { donor: addr(6), campaign_id: id }),
        Some(addr(6))
    );
    assert_eq!(required_signer(&env, &SignedCall::EndCampaign { campaign_id: id }), Some(creator));
    assert_eq!(required_signer(&env, &SignedCall::CancelCampaign { campaign_id: id }), Some(creator));
    assert_eq!(required_signer(&env, &SignedCall::EndCampaign { campaign_id: 99 }), None);
}

#[test]
fn aid_signers_are_the_acting_addresses() {
    assert_eq!(StellarAidContract::required_signer(&AidCall::Initialize { admin: addr(1) }), addr(1));
    assert_eq!(StellarAidContract::required_signer(&AidCall::CreateCampaign { creator: addr(2) }), addr(2));
    assert_eq!(
        StellarAidContract::required_signer(&AidCall::Donate { donor: addr(3), campaign_id: 1 }),
        addr(3)
    );
}

#[test]
fn raised_amount_and_count_equal_donor_sums() {
    let mut env = RegistryEnv::new(0, 0);
    let a = create(&mut env, addr(1), 1_000);
    let b = create(&mut env, addr(2), 1_000);
    let donors = [addr(10), addr(11), addr(12)];
    let gifts = [(0usize, a, 100i128), (1, a, 250), (0, a, 50), (2, b, 999), (1, b, 1), (2, a, 700)];
    for (d, id, amount) in gifts {
        CampaignsRegistry::donate(&mut env, donors[d], id, amount, AssetInfo::Native).unwrap();
    }
    for id in [a, b] {
        let c = CampaignsRegistry::get_campaign(&env, id).unwrap();
        let mut total = 0i128;
        let mut count = 0u64;
        for d in donors {
            if let Some(r) = get_donor(&env, id, &d) {
                assert_eq!(r.donor, d);
                total += r.total_donated;
                count += r.donation_count as u64;
            }
        }
        assert_eq!(c.raised_amount, total);
        assert_eq!(c.donation_count, count);
    }
    assert_eq!(CampaignsRegistry::get_campaign(&env, a).unwrap().raised_amount, 1_100);
    assert_eq!(CampaignsRegistry::get_campaign(&env, a).unwrap().status, CampaignStatus::GoalReached);
    assert_eq!(CampaignsRegistry::get_campaign(&env, b).unwrap().raised_amount, 1_000);
    assert_eq!(CampaignsRegistry::get_campaign(&env, b).unwrap().status, CampaignStatus::GoalReached);
}
