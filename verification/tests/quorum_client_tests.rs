use csv_adapter::error::ProtocolError;
use csv_adapter::rpc::quorum_client::{
    response_from_body, FaultyRpcMode, QuorumClient, QuorumConfig, QuorumDecision, RpcProvider, RpcResponse,
};

fn response(provider: &str, data: &[u8], success: bool) -> RpcResponse {
    RpcResponse {
        provider: provider.to_string(),
        data: data.to_vec(),
        success,
        error: None,
        timestamp_ms: 0,
        latency_ms: 0,
    }
}

#[test]
fn test_rpc_provider_creation() {
    let provider = RpcProvider::new("http://localhost:8545".to_string())
        .with_weight(2000)
        .with_timeout(10000);
    assert_eq!(provider.url, "http://localhost:8545");
    assert_eq!(provider.weight, 2000);
    assert_eq!(provider.timeout_ms, 10000);
}

#[test]
fn test_quorum_config_default() {
    let config = QuorumConfig::default();
    assert_eq!(config.min_quorum, 2);
    assert_eq!(config.min_percentage, 510);
}

#[test]
fn test_quorum_client_creation() {
    let providers = vec![
        RpcProvider::new("http://provider1.com".to_string()),
        RpcProvider::new("http://provider2.com".to_string()),
    ];
    let client = QuorumClient::with_defaults(providers);
    assert_eq!(client.provider_count(), 2);
}

#[test]
fn test_faulty_rpc_mode_descriptions() {
    assert_eq!(FaultyRpcMode::InvalidProof.description(), "invalid proof");
    assert_eq!(FaultyRpcMode::WrongFinality.description(), "wrong finality");
    assert_eq!(FaultyRpcMode::PartialState.description(), "partial state");
    assert_eq!(FaultyRpcMode::EmptyResult.description(), "empty result");
    assert_eq!(FaultyRpcMode::Timeout.description(), "timeout");
    assert_eq!(FaultyRpcMode::Reorg.description(), "reorg");
    assert_eq!(FaultyRpcMode::FakeReceipt.description(), "fake receipt");
}

#[test]
fn test_faulty_rpc_mode_equality() {
    assert_eq!(FaultyRpcMode::InvalidProof, FaultyRpcMode::InvalidProof);
    assert_ne!(FaultyRpcMode::InvalidProof, FaultyRpcMode::WrongFinality);
}

#[test]
fn test_faulty_rpc_mode_clone() {
    let mode = FaultyRpcMode::Reorg;
    let cloned = mode.clone();
    assert_eq!(mode, cloned);
}

fn three_providers() -> QuorumClient {
    QuorumClient::with_defaults(vec![
        RpcProvider::new("a".to_string()),
        RpcProvider::new("b".to_string()),
        RpcProvider::new("c".to_string()),
    ])
}

#[test]
fn majority_of_responses_reaches_quorum() {
    let client = three_providers();
    let responses = vec![response("a", b"x", true), response("b", b"x", true), response("c", b"y", true)];
    match client.compute_quorum_decision(&responses) {
        QuorumDecision::Consensus { data, weight, supporting_providers } => {
            assert_eq!(data, b"x".to_vec());
            assert_eq!(weight, 2000);
            assert_eq!(supporting_providers, vec!["a".to_string(), "b".to_string()]);
        }
        other => panic!("unexpected {:?}", other),
    }
    assert_eq!(client.quorum_outcome(&responses).unwrap(), b"x".to_vec());
}

#[test]
fn failed_responses_do_not_count() {
    let client = three_providers();
    let responses = vec![response("a", b"x", true), response("b", b"x", false), response("c", b"y", false)];
    match client.quorum_outcome(&responses) {
        Err(ProtocolError::RpcQuorumFailed(m)) => {
            assert_eq!(m, "Quorum not reached. total_weight=3.00; group0 weight=1.00 count=1 providers=[a]");
        }
        other => panic!("unexpected {:?}", other),
    }
}

#[test]
fn heavier_provider_ranks_first() {
    let client = QuorumClient::new(
        vec![RpcProvider::new("a".to_string()).with_weight(500), RpcProvider::new("b".to_string())],
        QuorumConfig::new(1, 900),
    );
    let responses = vec![response("a", b"x", true), response("b", b"y", true)];
    match client.compute_quorum_decision(&responses) {
        QuorumDecision::NoConsensus { groups, total_weight } => {
            assert_eq!(total_weight, 1500);
            assert_eq!(groups.len(), 2);
            assert_eq!(groups[0].data, b"y".to_vec());
            assert_eq!(groups[1].data, b"x".to_vec());
        }
        other => panic!("unexpected {:?}", other),
    }
}

#[test]
fn no_responses_is_no_consensus() {
    let client = three_providers();
    match client.compute_quorum_decision(&vec![]) {
        QuorumDecision::NoConsensus { groups, total_weight } => {
            assert!(groups.is_empty());
            assert_eq!(total_weight, 3000);
        }
        other => panic!("unexpected {:?}", other),
    }
}

#[test]
fn remove_provider_drops_every_match() {
    let mut client = three_providers();
    client.add_provider(RpcProvider::new("a".to_string()));
    client.remove_provider("a");
    assert_eq!(client.provider_count(), 2);
    assert_eq!(client.providers[0].url, "b");
}

#[test]
fn consensus_check_requires_identical_data() {
    let client = three_providers();
    assert_eq!(client.verify_consensus(&vec![]), None);
    assert_eq!(
        client.verify_consensus(&vec![response("a", b"x", true), response("b", b"x", true)]),
        Some(b"x".to_vec())
    );
    assert_eq!(client.verify_consensus(&vec![response("a", b"x", true), response("b", b"y", true)]), None);
}

#[test]
fn reply_response_prefers_error_then_result() {
    let r = csv_adapter::rpc::quorum_client::reply_response(
        "http://a".to_string(),
        Some("execution reverted".to_string()),
        Some(Ok(vec![1, 2])),
        5,
        7,
    );
    assert!(!r.success);
    assert!(r.data.is_empty());
    assert_eq!(r.error, Some("execution reverted".to_string()));
    assert_eq!((r.timestamp_ms, r.latency_ms), (5, 7));
    let r = csv_adapter::rpc::quorum_client::reply_response("http://a".to_string(), None, Some(Ok(b"\"0x10\"".to_vec())), 1, 2);
    assert!(r.success);
    assert_eq!(r.data, b"\"0x10\"".to_vec());
    assert_eq!(r.error, None);
    let r = csv_adapter::rpc::quorum_client::reply_response("http://a".to_string(), None, Some(Err("bad".to_string())), 1, 2);
    assert_eq!(r.error, Some("Failed to serialize result: bad".to_string()));
    let r = csv_adapter::rpc::quorum_client::reply_response("http://a".to_string(), None, None, 1, 2);
    assert!(!r.success);
    assert_eq!(r.error, Some("No result in RPC response".to_string()));
}

#[test]
fn response_from_body_reads_the_reply() {
    let ok = response_from_body("http://a".to_string(), 200, "200 OK", r#"{"jsonrpc":"2.0","id":1,"result":{"n":"0x10"}}"#, 3, 4);
    assert!(ok.success);
    assert_eq!(ok.data, br#"{"n":"0x10"}"#.to_vec());
    assert_eq!((ok.provider.as_str(), ok.timestamp_ms, ok.latency_ms), ("http://a", 3, 4));

    let err = response_from_body("http://a".to_string(), 200, "200 OK", r#"{"jsonrpc":"2.0","id":1,"error":{"code":-32000,"message":"header not found"}}"#, 3, 4);
    assert!(!err.success);
    assert_eq!(err.error, Some("header not found".to_string()));

    let null = response_from_body("http://a".to_string(), 200, "200 OK", r#"{"jsonrpc":"2.0","id":1,"result":null}"#, 3, 4);
    assert_eq!(null.error, Some("No result in RPC response".to_string()));

    let garbage = response_from_body("http://a".to_string(), 200, "200 OK", "not json", 3, 4);
    assert!(!garbage.success);
    assert!(garbage.error.unwrap().starts_with("Failed to parse RPC response: "));

    let http = response_from_body("http://a".to_string(), 503, "503 Service Unavailable", "", 3, 4);
    assert_eq!(http.error, Some("HTTP 503: 503 Service Unavailable".to_string()));
    assert!(http.data.is_empty());
}
