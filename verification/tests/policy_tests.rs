use csv_adapter::policy::RuntimePolicy;

#[test]
fn test_default_finality_depths() {
    let policy = RuntimePolicy::new();
    assert_eq!(policy.finality_depth_for_chain("bitcoin"), Some(6));
    assert_eq!(policy.finality_depth_for_chain("ethereum"), Some(15));
    assert_eq!(policy.finality_depth_for_chain("solana"), Some(32));
}

#[test]
fn test_set_custom_finality_depth() {
    let mut policy = RuntimePolicy::new();
    policy.set_finality_depth("bitcoin".to_string(), 12);
    assert_eq!(policy.finality_depth_for_chain("bitcoin"), Some(12));
}

#[test]
fn test_production_policy() {
    let policy = RuntimePolicy::production();
    assert!(!policy.allow_rpc_fallback);
    assert!(policy.enforce_strict_finality);
}

#[test]
fn test_development_policy() {
    let policy = RuntimePolicy::development();
    assert!(policy.allow_rpc_fallback);
    assert!(!policy.enforce_strict_finality);
}

#[test]
fn test_degraded_mode_policy() {
    let policy = RuntimePolicy::development();
    assert!(policy.allow_rpc_fallback);
    assert_eq!(policy.max_retries, 5);
    assert_eq!(policy.finality_depth_for_chain("bitcoin"), RuntimePolicy::new().finality_depth_for_chain("bitcoin"));
}

#[test]
fn unknown_chain_has_no_depth() {
    let policy = RuntimePolicy::new();
    assert_eq!(policy.finality_depth_for_chain("dogecoin"), None);
    assert_eq!(policy.finality_depth_for_chain("celestia"), Some(100));
}

#[test]
fn setting_a_new_chain_leaves_others() {
    let mut policy = RuntimePolicy::new();
    policy.set_finality_depth("dogecoin".to_string(), 40);
    assert_eq!(policy.finality_depth_for_chain("dogecoin"), Some(40));
    assert_eq!(policy.finality_depth_for_chain("bitcoin"), Some(6));
    assert_eq!(policy.finality_depths.len(), 7);
}
