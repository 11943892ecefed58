use swe_edge_egress_grpc::{from_tonic_code, from_wire, to_tonic_code, to_wire, GrpcStatusCode};

const ALL_17: [GrpcStatusCode; 17] = [
    GrpcStatusCode::Success,
    GrpcStatusCode::Cancelled,
    GrpcStatusCode::Unknown,
    GrpcStatusCode::InvalidArgument,
    GrpcStatusCode::DeadlineExceeded,
    GrpcStatusCode::NotFound,
    GrpcStatusCode::AlreadyExists,
    GrpcStatusCode::PermissionDenied,
    GrpcStatusCode::ResourceExhausted,
    GrpcStatusCode::FailedPrecondition,
    GrpcStatusCode::Aborted,
    GrpcStatusCode::OutOfRange,
    GrpcStatusCode::Unimplemented,
    GrpcStatusCode::Internal,
    GrpcStatusCode::Unavailable,
    GrpcStatusCode::DataLoss,
    GrpcStatusCode::Unauthenticated,
];

#[test]
fn test_round_trip_through_tonic_code_preserves_all_17_variants() {
    for code in ALL_17 {
        let trip = from_tonic_code(to_tonic_code(code));
        assert_eq!(trip, code, "round-trip failed for {code:?}");
    }
}

#[test]
fn tonic_codes_match_by_name_and_number() {
    assert_eq!(to_tonic_code(GrpcStatusCode::Success), tonic::Code::Ok);
    assert_eq!(to_tonic_code(GrpcStatusCode::ResourceExhausted), tonic::Code::ResourceExhausted);
    assert_eq!(to_tonic_code(GrpcStatusCode::Unauthenticated), tonic::Code::Unauthenticated);
    assert_eq!(from_tonic_code(tonic::Code::Unavailable), GrpcStatusCode::Unavailable);
    assert_eq!(from_tonic_code(tonic::Code::Ok), GrpcStatusCode::Success);
    for code in ALL_17 {
        assert_eq!(i32::from(to_tonic_code(code)), to_wire(code));
        assert_eq!(from_wire(i32::from(to_tonic_code(code))), code);
    }
}
