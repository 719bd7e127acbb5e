use milestonex::types::{
    validate_campaign_transition, wire_code_table, AssetInfo, CampaignStatus, Error, StellarAsset,
};

#[test]
fn error_discriminants_are_unique() {
    let codes = wire_code_table();
    for (index, (_, code)) in codes.iter().enumerate() {
        assert!(
            !codes[index + 1..].iter().any(|(_, c)| c == code),
            "Duplicate wire code {} at index {}",
            code,
            index,
        );
    }
}

#[test]
fn as_wire_code_matches_table() {
    for (variant, expected_code) in wire_code_table() {
        let actual = variant.as_wire_code();
        assert_eq!(
            actual, expected_code,
            "as_wire_code() mismatch for {:?}: expected {}, got {}",
            variant, expected_code, actual,
        );
    }
}

#[test]
fn wire_code_table_is_sorted() {
    let codes = wire_code_table();
    for i in 1..codes.len() {
        assert!(
            codes[i - 1].1 <= codes[i].1,
            "WIRE_CODE_TABLE not sorted at index {}: {} > {}",
            i,
            codes[i - 1].1,
            codes[i].1,
        );
    }
}

#[test]
fn wire_codes_have_documented_values() {
    assert_eq!(Error::CampaignEnded.as_wire_code(), 4);
    assert_eq!(Error::CampaignNotActive.as_wire_code(), 5);
    assert_eq!(Error::AssetNotAccepted.as_wire_code(), 6);
    assert_eq!(Error::DonationTooSmall.as_wire_code(), 7);
    assert_eq!(Error::InvalidGoalAmount.as_wire_code(), 13);
    assert_eq!(Error::InvalidEndTime.as_wire_code(), 14);
    assert_eq!(Error::Overflow.as_wire_code(), 17);
    assert_eq!(Error::InvalidAssets.as_wire_code(), 18);
    assert_eq!(Error::InvalidAssetCode.as_wire_code(), 19);
    assert_eq!(Error::InvalidCampaignTransition.as_wire_code(), 22);
    assert_eq!(Error::CampaignNotFound.as_wire_code(), 27);
    assert_eq!(Error::MaxCampaignsExceeded.as_wire_code(), 28);
    assert_eq!(wire_code_table().len(), 12);
}

#[test]
fn accepts_donations_only_while_open() {
    assert!(CampaignStatus::Active.accepts_donations());
    assert!(CampaignStatus::GoalReached.accepts_donations());
    assert!(!CampaignStatus::Ended.accepts_donations());
    assert!(!CampaignStatus::Cancelled.accepts_donations());
}

#[test]
fn transition_table_matches_lifecycle() {
    let (a, g, e, c) = (
        CampaignStatus::Active,
        CampaignStatus::GoalReached,
        CampaignStatus::Ended,
        CampaignStatus::Cancelled,
    );
    let all = [a, g, e, c];
    let allowed = [(a, g), (a, e), (a, c), (g, e), (g, c), (e, c)];
    for from in all {
        for to in all {
            let r = validate_campaign_transition(&from, &to);
            if allowed.contains(&(from, to)) {
                assert_eq!(r, Ok(()));
            } else {
                assert_eq!(r, Err(Error::InvalidCampaignTransition));
            }
        }
    }
}

#[test]
fn asset_code_validity_bounds() {
    let mk = |n: usize| StellarAsset { asset_code: vec![b'A'; n], issuer: None };
    assert!(!mk(0).has_valid_code());
    assert!(mk(1).has_valid_code());
    assert!(mk(12).has_valid_code());
    assert!(!mk(13).has_valid_code());
    let _ = AssetInfo::Native;
}
