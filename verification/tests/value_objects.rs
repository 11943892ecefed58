use std::time::Duration;

use swe_edge_egress_grpc::{
    check_transport_security, CompressionMode, GrpcChannelConfig, GrpcChannelConfigError,
    GrpcMetadata, GrpcRequest, GrpcResponse, KeepAliveConfig, MtlsConfig,
};

#[test]
fn test_default_is_none_compression() {
    assert_eq!(CompressionMode::default(), CompressionMode::Identity);
}

#[test]
fn test_header_value_for_none_returns_none() {
    assert_eq!(CompressionMode::Identity.header_value(), None);
}

#[test]
fn test_header_value_for_gzip_and_zstd_uses_canonical_names() {
    assert_eq!(CompressionMode::Gzip.header_value(), Some("gzip"));
    assert_eq!(CompressionMode::Zstd.header_value(), Some("zstd"));
}

#[test]
fn test_default_sets_tls_required_to_true() {
    let cfg = GrpcChannelConfig::default();
    assert!(cfg.tls_required, "TLS-by-default invariant broken");
}

#[test]
fn test_default_max_message_bytes_is_four_mib() {
    let cfg = GrpcChannelConfig::default();
    assert_eq!(cfg.max_message_bytes, 4 * 1024 * 1024);
}

#[test]
fn test_default_compression_is_none() {
    let cfg = GrpcChannelConfig::default();
    assert_eq!(cfg.compression, CompressionMode::Identity);
}

#[test]
fn test_new_sets_endpoint_and_keeps_tls_required() {
    let cfg = GrpcChannelConfig::new("https://x.example.com:443");
    assert_eq!(cfg.endpoint, "https://x.example.com:443");
    assert!(cfg.tls_required);
}

#[test]
fn test_allow_plaintext_relaxes_tls_requirement() {
    let cfg = GrpcChannelConfig::new("http://localhost:50051").allow_plaintext();
    assert!(!cfg.tls_required);
}

#[test]
fn test_with_mtls_stores_identity() {
    let cfg = GrpcChannelConfig::new("https://x").with_mtls(MtlsConfig::new("c.pem", "k.pem"));
    let mtls = cfg.mtls.expect("mtls must be Some");
    assert_eq!(mtls.cert_pem_path, "c.pem");
}

#[test]
fn test_with_compression_switches_mode() {
    let cfg = GrpcChannelConfig::new("https://x").with_compression(CompressionMode::Gzip);
    assert_eq!(cfg.compression, CompressionMode::Gzip);
}

#[test]
fn channel_config_builders_set_keep_alive_and_message_cap() {
    let cfg = GrpcChannelConfig::new("https://x")
        .with_keep_alive(KeepAliveConfig::default())
        .with_max_message_bytes(1024);
    assert_eq!(cfg.max_message_bytes, 1024);
    assert_eq!(cfg.keep_alive.map(|k| k.interval_ms), Some(10_000));
    assert!(cfg.tls_required);
}

#[test]
fn grpc_metadata_test_grpc_metadata_default_has_empty_headers() {
    let m = GrpcMetadata::default();
    assert!(m.is_empty());
}

#[test]
fn test_with_header_inserts_entry_into_headers_map() {
    let m = GrpcMetadata::default().with_header("x-request-id", "req-1");
    assert_eq!(m.get("x-request-id").map(String::as_str), Some("req-1"));
}

#[test]
fn test_with_header_chaining_accumulates_entries() {
    let m = GrpcMetadata::default().with_header("a", "1").with_header("b", "2");
    assert_eq!(m.len(), 2);
}

#[test]
fn metadata_with_header_replaces_an_existing_name() {
    let m = GrpcMetadata::default()
        .with_header("a", "1")
        .with_header("b", "2")
        .with_header("a", "3");
    assert_eq!(m.len(), 2);
    assert_eq!(m.get("a").map(String::as_str), Some("3"));
    assert!(m.contains_key("b"));
    assert!(!m.contains_key("c"));
    let names: Vec<&str> = m.pairs().iter().map(|(k, _)| k.as_str()).collect();
    assert_eq!(names, vec!["a", "b"]);
}

#[test]
fn test_default_uses_recommended_grpc_intervals() {
    let cfg = KeepAliveConfig::default();
    assert_eq!(Duration::from_millis(cfg.interval_ms), Duration::from_secs(10));
    assert_eq!(Duration::from_millis(cfg.timeout_ms), Duration::from_secs(20));
    assert!(!cfg.permit_without_calls);
}

#[test]
fn test_new_leaves_pinned_ca_unset() {
    let cfg = MtlsConfig::new("c.pem", "k.pem");
    assert!(cfg.ca_pem_path.is_none());
    assert_eq!(cfg.cert_pem_path, "c.pem");
    assert_eq!(cfg.key_pem_path, "k.pem");
}

#[test]
fn test_with_pinned_ca_stores_all_three_paths() {
    let cfg = MtlsConfig::with_pinned_ca("c.pem", "k.pem", "ca.pem");
    assert_eq!(cfg.cert_pem_path, "c.pem");
    assert_eq!(cfg.key_pem_path, "k.pem");
    assert_eq!(cfg.ca_pem_path.as_deref(), Some("ca.pem"));
}

#[test]
fn test_new_stores_method_body_and_deadline() {
    let d = Duration::from_secs(5);
    let req = GrpcRequest::new("pkg.Svc/Method", vec![0xAB], d.as_nanos());
    assert_eq!(req.method, "pkg.Svc/Method");
    assert_eq!(req.body, vec![0xAB]);
    assert_eq!(req.deadline_ns, d.as_nanos());
    assert!(req.metadata.is_empty());
    assert!(req.cancellation.is_none());
}

#[test]
fn test_with_header_inserts_single_metadata_entry() {
    let req = GrpcRequest::new("svc/M", vec![], Duration::from_secs(1).as_nanos()).with_header("authorization", "Bearer tok");
    assert_eq!(req.metadata.get("authorization").map(String::as_str), Some("Bearer tok"));
}

#[test]
fn test_with_metadata_replaces_metadata_entirely() {
    let meta = GrpcMetadata::default().with_header("k", "v");
    let req = GrpcRequest::new("svc/M", vec![], Duration::from_secs(1).as_nanos())
        .with_header("old", "x")
        .with_metadata(meta);
    assert_eq!(req.metadata.get("k").map(String::as_str), Some("v"));
    assert!(!req.metadata.contains_key("old"));
}

#[test]
fn test_with_cancellation_attaches_token() {
    let token = tokio_util::sync::CancellationToken::new();
    let req = GrpcRequest::new("svc/M", vec![], Duration::from_secs(1).as_nanos()).with_cancellation(token.clone());
    let stored = req.cancellation.as_ref().expect("token should be Some");
    assert!(!stored.is_cancelled());
    token.cancel();
    assert!(stored.is_cancelled(), "stored token must observe cancellation");
}

#[test]
fn test_grpc_request_holds_method_body_and_deadline_via_struct_init() {
    let req = GrpcRequest {
        method: "svc/Method".into(),
        body: vec![1, 2],
        metadata: GrpcMetadata::default(),
        deadline_ns: Duration::from_millis(250).as_nanos(),
        cancellation: None,
    };
    assert_eq!(req.method, "svc/Method");
    assert_eq!(req.body, vec![1, 2]);
    assert_eq!(req.deadline_ns, Duration::from_millis(250).as_nanos());
}

#[test]
fn test_grpc_request_holds_method_and_body() {
    let req = GrpcRequest::new("svc/Method", vec![1, 2, 3], Duration::from_secs(1).as_nanos());
    assert_eq!(req.method, "svc/Method");
    assert_eq!(req.body, vec![1, 2, 3]);
    assert_eq!(req.deadline_ns, Duration::from_secs(1).as_nanos());
}

#[test]
fn grpc_outbound_int_test_test_grpc_metadata_default_has_empty_headers() {
    let m = GrpcMetadata::default();
    assert!(m.is_empty());
}

#[test]
fn test_grpc_response_holds_body_bytes() {
    let resp = GrpcResponse { body: vec![0x08, 0x01], metadata: GrpcMetadata::default() };
    assert_eq!(resp.body, vec![0x08, 0x01]);
}

#[test]
fn grpc_channel_config_struct_default_requires_tls_int_test() {
    let cfg = GrpcChannelConfig::default();
    assert!(cfg.tls_required, "TLS-by-default invariant must hold");
}

#[test]
fn tonic_grpc_client_struct_from_config_rejects_plaintext_int_test() {
    let cfg = GrpcChannelConfig::new("http://localhost:50051");
    match check_transport_security(&cfg) {
        Err(GrpcChannelConfigError::PlaintextRejected(endpoint)) => {
            assert!(endpoint.contains("localhost"), "endpoint in error: {endpoint}");
        }
        Err(other) => panic!("unexpected error {other:?}"),
        Ok(_) => panic!("must reject plaintext when tls_required=true"),
    }
}

#[test]
fn tonic_grpc_client_struct_from_config_accepts_plaintext_with_opt_in_int_test() {
    let cfg = GrpcChannelConfig::new("http://localhost:50051").allow_plaintext();
    assert!(check_transport_security(&cfg).is_ok());
}

#[test]
fn tonic_grpc_client_struct_from_config_accepts_https_int_test() {
    let cfg = GrpcChannelConfig::new("https://example.com:443");
    assert!(check_transport_security(&cfg).is_ok());
}

#[test]
fn plaintext_scheme_is_refused_in_any_case() {
    let cfg = GrpcChannelConfig::new("HTTP://Example.com:80");
    assert!(matches!(
        check_transport_security(&cfg),
        Err(GrpcChannelConfigError::PlaintextRejected(e)) if e == "HTTP://Example.com:80"
    ));
    let msg = check_transport_security(&cfg).unwrap_err().to_message();
    assert!(msg.contains("HTTP://Example.com:80"));
}
