use swe_edge_egress_grpc::{GrpcMetadata, GrpcRequest, GrpcResponse, TraceContextInterceptor};

const TP: &str = "00-0af7651916cd43dd8448eb211c80319c-b7ad6b7169203331-01";

fn req() -> GrpcRequest {
    GrpcRequest::new("svc/M", vec![], 1_000_000_000)
}

#[test]
fn test_pass_through_does_not_inject_traceparent_when_absent() {
    let interceptor = TraceContextInterceptor::pass_through();
    let mut r = req();
    interceptor.before_call(&mut r).expect("before_call");
    assert!(r.metadata.get("traceparent").is_none());
}

#[test]
fn test_with_static_injects_traceparent_when_absent() {
    let interceptor = TraceContextInterceptor::with_static(TP, None);
    let mut r = req();
    interceptor.before_call(&mut r).expect("before_call");
    assert_eq!(r.metadata.get("traceparent").map(String::as_str), Some(TP));
    assert!(!r.metadata.contains_key("tracestate"));
}

#[test]
fn test_with_static_injects_tracestate_when_configured() {
    let interceptor = TraceContextInterceptor::with_static(TP, Some("v=1".to_string()));
    let mut r = req();
    interceptor.before_call(&mut r).expect("before_call");
    assert_eq!(r.metadata.get("tracestate").map(String::as_str), Some("v=1"));
}

#[test]
fn test_upstream_traceparent_is_preserved_and_not_overwritten() {
    let upstream = "00-aaaaaaaaaaaaaaaaaaaaaaaaaaaaaaaa-bbbbbbbbbbbbbbbb-01";
    let interceptor = TraceContextInterceptor::with_static(TP, Some("v=1".to_string()));
    let mut r = req();
    r.metadata.insert("traceparent", upstream);
    interceptor.before_call(&mut r).expect("before_call");
    assert_eq!(r.metadata.get("traceparent").map(String::as_str), Some(upstream));
    assert!(!r.metadata.contains_key("tracestate"));
}

#[test]
fn test_after_call_does_not_modify_response() {
    let interceptor = TraceContextInterceptor::pass_through();
    let mut resp = GrpcResponse { body: vec![], metadata: GrpcMetadata::default() };
    interceptor.after_call(&mut resp).expect("after_call");
    assert!(resp.metadata.is_empty());
}
