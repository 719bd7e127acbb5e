use milestonex::cli::{arg_warning, invoke_arg_needs_warning, invoke_warnings};
use milestonex::common::{AssetInfo, CampaignStatus, ErrorCode, MilestoneStatus};
use milestonex::token_bridge::TokenBridgeContract;

#[test]
fn token_bridge_hello_and_version() {
    assert_eq!(TokenBridgeContract::hello().bytes, b"token_bridge".to_vec());
    assert_eq!(TokenBridgeContract::version(), 1);
}

#[test]
fn common_error_codes() {
    assert_eq!(ErrorCode::NotInitialized.code(), 1);
    assert_eq!(ErrorCode::AlreadyInitialized.code(), 2);
    assert_eq!(ErrorCode::Unauthorized.code(), 3);
    assert_eq!(ErrorCode::InvalidAmount.code(), 4);
    let a = AssetInfo { code: 1, issuer: 2 };
    assert_eq!(a, AssetInfo { code: 1, issuer: 2 });
    assert_ne!(CampaignStatus::Draft, CampaignStatus::Active);
    assert_ne!(MilestoneStatus::Pending, MilestoneStatus::Failed);
}

#[test]
fn invoke_arg_warnings_follow_json_parse() {
    assert!(!invoke_arg_needs_warning("1"));
    assert!(!invoke_arg_needs_warning("\"text\""));
    assert!(!invoke_arg_needs_warning("{\"a\": 1}"));
    assert!(!invoke_arg_needs_warning("[1, 2]"));
    assert!(invoke_arg_needs_warning("{not json"));
    assert!(invoke_arg_needs_warning("[1, 2"));
    assert!(!invoke_arg_needs_warning("plain words"));
    assert!(!invoke_arg_needs_warning("--arg"));
    assert!(!invoke_arg_needs_warning("-{"));
    assert!(!invoke_arg_needs_warning(""));
}

#[test]
fn arg_warning_takes_the_parse_outcome() {
    assert!(arg_warning("{x", false));
    assert!(!arg_warning("{x", true));
    assert!(!arg_warning("x", false));
    assert!(arg_warning("[", false));
}

#[test]
fn invoke_warnings_lists_positions() {
    let args: Vec<String> = vec!["--arg".into(), "{bad".into(), "1".into(), "[oops".into(), "{}".into()];
    assert_eq!(invoke_warnings(&args), vec![1, 3]);
}
