use milestonex::stellar_aid::{AidEnv, DonateError, StellarAidContract, Symbol};
use milestonex::types::{Address, AddressKind};

fn addr(n: u128) -> Address {
    Address { kind: AddressKind::Account, key_hi: 2, key_lo: n }
}

fn sym(s: &str) -> Symbol {
    Symbol { bytes: s.as_bytes().to_vec() }
}

#[test]
fn test_ping() {
    assert_eq!(StellarAidContract::ping(), 1);
}

#[test]
fn test_initialize() {
    let mut env = AidEnv::new(0);
    let admin = addr(1);
    StellarAidContract::initialize(&mut env, admin);
    assert_eq!(StellarAidContract::get_admin(&env), Some(admin));
}

#[test]
fn test_donate_multi_asset_fee_and_history() {
    let mut env = AidEnv::new(0);
    let admin = addr(1);
    StellarAidContract::initialize(&mut env, admin);

    let creator = addr(2);
    let cid = StellarAidContract::create_campaign(&mut env, creator, sym("test"), 10000, 9999999);

    let donor = addr(3);
    let xlm = sym("XLM");
    let usdc = sym("USDC");

    // fee deducted: net = 1000 - 100 = 900
    StellarAidContract::donate(&mut env, donor, cid, 1000, xlm.clone()).unwrap();
    // different asset
    StellarAidContract::donate(&mut env, donor, cid, 500, usdc.clone()).unwrap();

    // campaign.raised = 900 + 400 = 1300
    let campaign = StellarAidContract::get_campaign(&env, cid).unwrap();
    assert_eq!(campaign.raised, 1300);

    // per-asset totals
    assert_eq!(StellarAidContract::get_asset_raised(&env, cid, &xlm), 900);
    assert_eq!(StellarAidContract::get_asset_raised(&env, cid, &usdc), 400);

    // base fee constant
    assert_eq!(StellarAidContract::get_base_fee(), 100);

    // history has 2 records
    let page = StellarAidContract::get_donation_history(&env, cid, 0, 10);
    assert_eq!(page.len(), 2);

    // pagination: page_size=1 returns 1 record
    let p0 = StellarAidContract::get_donation_history(&env, cid, 0, 1);
    assert_eq!(p0.len(), 1);
    let p1 = StellarAidContract::get_donation_history(&env, cid, 1, 1);
    assert_eq!(p1.len(), 1);
}

#[test]
fn aid_donation_refusals_in_order() {
    let mut env = AidEnv::new(0);
    let cid = StellarAidContract::create_campaign(&mut env, addr(2), sym("t"), 10, 10);
    assert_eq!(
        StellarAidContract::donate(&mut env, addr(3), cid, 1000, sym("")),
        Err(DonateError::AssetNotSpecified)
    );
    assert_eq!(
        StellarAidContract::donate(&mut env, addr(3), cid, 100, sym("XLM")),
        Err(DonateError::AmountNotAboveFee)
    );
    assert_eq!(
        StellarAidContract::donate(&mut env, addr(3), 42, 101, sym("XLM")),
        Err(DonateError::CampaignNotFound)
    );
    let mut c = StellarAidContract::get_campaign(&env, cid).unwrap();
    c.active = false;
    env.campaigns.push(c);
    assert_eq!(
        StellarAidContract::donate(&mut env, addr(3), cid, 101, sym("XLM")),
        Err(DonateError::CampaignNotActive)
    );
    assert_eq!(StellarAidContract::get_donation_history(&env, cid, 0, 10).len(), 0);
}

#[test]
fn aid_history_records_net_amount_and_fee_in_order() {
    let mut env = AidEnv::new(1234);
    let cid = StellarAidContract::create_campaign(&mut env, addr(2), sym("t"), 10, 10);
    for i in 0..5i128 {
        StellarAidContract::donate(&mut env, addr(10 + i as u128), cid, 101 + i, sym("XLM")).unwrap();
    }
    let all = StellarAidContract::get_donation_history(&env, cid, 0, 100);
    assert_eq!(all.len(), 5);
    for (i, r) in all.iter().enumerate() {
        assert_eq!(r.amount, 1 + i as i128);
        assert_eq!(r.fee, 100);
        assert_eq!(r.donor, addr(10 + i as u128));
        assert_eq!(r.timestamp, 1234);
        assert_eq!(r.asset.bytes, b"XLM".to_vec());
    }
    // Pages of two: [0,1], [2,3], [4], [].
    let p1 = StellarAidContract::get_donation_history(&env, cid, 1, 2);
    assert_eq!(p1.iter().map(|r| r.amount).collect::<Vec<_>>(), vec![3, 4]);
    let p2 = StellarAidContract::get_donation_history(&env, cid, 2, 2);
    assert_eq!(p2.iter().map(|r| r.amount).collect::<Vec<_>>(), vec![5]);
    assert_eq!(StellarAidContract::get_donation_history(&env, cid, 3, 2).len(), 0);
    assert_eq!(StellarAidContract::get_donation_history(&env, cid, 0, 0).len(), 0);
    assert_eq!(StellarAidContract::get_asset_raised(&env, cid, &sym("XLM")), 15);
    assert_eq!(StellarAidContract::get_campaign(&env, cid).unwrap().raised, 15);
}

#[test]
fn aid_campaign_ids_follow_counter_and_initialize_resets_it() {
    let mut env = AidEnv::new(0);
    assert_eq!(StellarAidContract::get_admin(&env), None);
    assert_eq!(StellarAidContract::create_campaign(&mut env, addr(2), sym("a"), 1, 1), 1);
    assert_eq!(StellarAidContract::create_campaign(&mut env, addr(2), sym("b"), 1, 1), 2);
    StellarAidContract::initialize(&mut env, addr(9));
    assert_eq!(StellarAidContract::create_campaign(&mut env, addr(2), sym("c"), 5, 1), 1);
    let c = StellarAidContract::get_campaign(&env, 1).unwrap();
    assert_eq!(c.title.bytes, b"c".to_vec());
    assert_eq!(c.goal, 5);
    assert!(c.active);
    assert_eq!(c.raised, 0);
    assert_eq!(StellarAidContract::get_asset_raised(&env, 1, &sym("XLM")), 0);
}
