use std::time::Duration;

use swe_edge_egress_grpc::frame::{decode_grpc_frames, encode_grpc_frame, encode_grpc_frames, unary_payload};
use swe_edge_egress_grpc::{encode_grpc_timeout, GrpcOutboundError};

#[test]
fn test_encode_grpc_frame_produces_5_byte_header() {
    let frame = encode_grpc_frame(b"hello");
    assert_eq!(frame.len(), 10);
    assert_eq!(frame[0], 0x00);
    assert_eq!(u32::from_be_bytes([frame[1], frame[2], frame[3], frame[4]]), 5);
    assert_eq!(&frame[5..], b"hello");
}

#[test]
fn test_decode_grpc_frames_round_trips_single_frame() {
    let encoded = encode_grpc_frame(b"world");
    let decoded = decode_grpc_frames(&encoded).expect("decode failed");
    assert_eq!(decoded.len(), 1);
    assert_eq!(decoded[0], b"world");
}

#[test]
fn test_decode_grpc_frames_round_trips_multiple_frames() {
    let mut buf = Vec::new();
    buf.extend(encode_grpc_frame(b"one"));
    buf.extend(encode_grpc_frame(b"two"));
    buf.extend(encode_grpc_frame(b"three"));
    let decoded = decode_grpc_frames(&buf).expect("decode failed");
    assert_eq!(decoded.len(), 3);
    assert_eq!(decoded[0], b"one");
    assert_eq!(decoded[1], b"two");
    assert_eq!(decoded[2], b"three");
}

#[test]
fn test_decode_grpc_frames_returns_internal_error_on_truncated_data() {
    let mut buf = vec![0x00];
    buf.extend(100_u32.to_be_bytes());
    buf.extend(b"abc");
    match decode_grpc_frames(&buf) {
        Err(GrpcOutboundError::Internal(msg)) => assert_eq!(msg, "internal client error"),
        other => panic!("expected Internal(sanitized), got {other:?}"),
    }
}

#[test]
fn encode_frames_concatenates_and_decodes_back() {
    let msgs = vec![b"frame1".to_vec(), Vec::new(), vec![0xFF; 300]];
    let body = encode_grpc_frames(&msgs);
    assert_eq!(body.len(), 5 * 3 + 6 + 300);
    assert_eq!(&body[0..5], &[0, 0, 0, 0, 6]);
    assert_eq!(decode_grpc_frames(&body).expect("decode"), msgs);
}

#[test]
fn decode_ignores_a_trailing_partial_header() {
    let mut buf = encode_grpc_frame(b"ok");
    buf.extend([0, 0, 0]);
    assert_eq!(decode_grpc_frames(&buf).expect("decode"), vec![b"ok".to_vec()]);
    assert_eq!(decode_grpc_frames(&[]).expect("decode"), Vec::<Vec<u8>>::new());
}

#[test]
fn unary_payload_strips_the_header_when_present() {
    assert_eq!(unary_payload(&encode_grpc_frame(b"hi")), b"hi".to_vec());
    assert_eq!(unary_payload(&[1, 2, 3]), vec![1, 2, 3]);
}

#[test]
fn test_encode_grpc_timeout_uses_nanos_for_small_values() {
    assert_eq!(encode_grpc_timeout(Duration::from_nanos(1).as_nanos()), "1n");
    assert_eq!(encode_grpc_timeout(Duration::from_micros(1).as_nanos()), "1000n");
}

#[test]
fn test_encode_grpc_timeout_uses_millis_or_higher_for_seconds() {
    let s = encode_grpc_timeout(Duration::from_secs(30).as_nanos());
    let last = s.chars().last().expect("non-empty timeout encoding");
    assert!("nuMSmH".contains(last), "unexpected unit suffix in {s}");
}

#[test]
fn test_encode_grpc_timeout_handles_zero_duration() {
    assert_eq!(encode_grpc_timeout(Duration::ZERO.as_nanos()), "0n");
}

#[test]
fn timeout_encoding_picks_the_finest_unit_that_fits() {
    assert_eq!(encode_grpc_timeout(99_999_999), "99999999n");
    assert_eq!(encode_grpc_timeout(100_000_000), "100000u");
    assert_eq!(encode_grpc_timeout(Duration::from_secs(30).as_nanos()), "30000000u");
    assert_eq!(encode_grpc_timeout(Duration::from_secs(100_000_000).as_nanos()), "1666666M");
    assert_eq!(encode_grpc_timeout(Duration::from_secs(200_000).as_nanos()), "200000S");
    assert_eq!(encode_grpc_timeout(Duration::from_secs(u64::MAX).as_nanos()), format!("{}H", u64::MAX / 3600));
}
