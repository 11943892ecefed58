//! The library's laws checked on concrete values.

use swe_edge_egress_grpc::frame::{encode_grpc_frame, unary_payload};
use swe_edge_egress_grpc::{
    check_grpc_status, encode_grpc_timeout, parse_retry_after_hint, to_wire, GrpcOutboundError,
    GrpcStatusCode, TraceContextInterceptor, GrpcRequest,
};

#[test]
fn law_retry_after_hint_reads_back_what_was_written() {
    for n in [0u64, 1, 30, 86_400, u64::MAX] {
        let msg = format!("rate limit exceeded [retry-after={n}s] (see docs)");
        assert_eq!(parse_retry_after_hint(&msg), Some(n));
    }
}

#[test]
fn law_status_written_as_wire_value_reads_back_as_the_code() {
    let codes = [
        GrpcStatusCode::Cancelled,
        GrpcStatusCode::NotFound,
        GrpcStatusCode::ResourceExhausted,
        GrpcStatusCode::Internal,
        GrpcStatusCode::Unauthenticated,
    ];
    for code in codes {
        let wire = to_wire(code).to_string();
        match check_grpc_status(Some(&wire), Some("m")) {
            Err(GrpcOutboundError::Status(c, m)) => {
                assert_eq!(c, code);
                assert_eq!(m, "m");
            }
            other => panic!("unexpected {other:?}"),
        }
    }
}

#[test]
fn law_timeout_value_fits_eight_digits() {
    let hour: u128 = 3_600_000_000_000;
    for nanos in [0u128, 1, 99_999_999, 100_000_000, 123_456_789_012, 99_999_998 * hour, 99_999_999 * hour - 1] {
        let s = encode_grpc_timeout(nanos);
        let digits = &s[..s.len() - 1];
        assert!(digits.len() <= 8, "{s}");
        assert!(digits.chars().all(|c| c.is_ascii_digit()));
    }
}

#[test]
fn law_unary_payload_of_a_frame_is_the_message() {
    for msg in [Vec::new(), b"x".to_vec(), vec![7u8; 1000]] {
        assert_eq!(unary_payload(&encode_grpc_frame(&msg)), msg);
    }
}

#[test]
fn law_static_source_always_leaves_a_traceparent() {
    let i = TraceContextInterceptor::with_static("tp", None);
    let mut fresh = GrpcRequest::new("svc/M", vec![], 10_000_000);
    i.before_call(&mut fresh).expect("never fails");
    assert_eq!(fresh.metadata.get("traceparent").map(String::as_str), Some("tp"));
    let mut upstream = GrpcRequest::new("svc/M", vec![], 10_000_000).with_header("traceparent", "up");
    i.before_call(&mut upstream).expect("never fails");
    assert_eq!(upstream.metadata.get("traceparent").map(String::as_str), Some("up"));
}
