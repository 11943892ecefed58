//! The seventeen canonical gRPC status codes and their wire integers.

use vstd::prelude::*;

verus! {

/// A canonical gRPC status code (see the gRPC status-code guide).
#[derive(Debug, Clone, Copy, PartialEq, Eq, Structural, Hash)]
pub enum GrpcStatusCode {
    /// Not an error; returned on success (`OK`, wire value 0).
    Success,
    Cancelled,
    Unknown,
    InvalidArgument,
    DeadlineExceeded,
    NotFound,
    AlreadyExists,
    PermissionDenied,
    ResourceExhausted,
    FailedPrecondition,
    Aborted,
    OutOfRange,
    Unimplemented,
    Internal,
    Unavailable,
    DataLoss,
    Unauthenticated,
}

/// The numeric `grpc-status` value of a code.
pub open spec fn wire_of(code: GrpcStatusCode) -> int {
    match code {
        GrpcStatusCode::Success => 0,
        GrpcStatusCode::Cancelled => 1,
        GrpcStatusCode::Unknown => 2,
        GrpcStatusCode::InvalidArgument => 3,
        GrpcStatusCode::DeadlineExceeded => 4,
        GrpcStatusCode::NotFound => 5,
        GrpcStatusCode::AlreadyExists => 6,
        GrpcStatusCode::PermissionDenied => 7,
        GrpcStatusCode::ResourceExhausted => 8,
        GrpcStatusCode::FailedPrecondition => 9,
        GrpcStatusCode::Aborted => 10,
        GrpcStatusCode::OutOfRange => 11,
        GrpcStatusCode::Unimplemented => 12,
        GrpcStatusCode::Internal => 13,
        GrpcStatusCode::Unavailable => 14,
        GrpcStatusCode::DataLoss => 15,
        GrpcStatusCode::Unauthenticated => 16,
    }
}

/// The code that a numeric `grpc-status` value denotes; values outside
/// `0..=16` denote `Unknown`, as the gRPC specification prescribes.
pub open spec fn code_of_wire(value: int) -> GrpcStatusCode {
    if value == 0 { GrpcStatusCode::Success }
    else if value == 1 { GrpcStatusCode::Cancelled }
    else if value == 2 { GrpcStatusCode::Unknown }
    else if value == 3 { GrpcStatusCode::InvalidArgument }
    else if value == 4 { GrpcStatusCode::DeadlineExceeded }
    else if value == 5 { GrpcStatusCode::NotFound }
    else if value == 6 { GrpcStatusCode::AlreadyExists }
    else if value == 7 { GrpcStatusCode::PermissionDenied }
    else if value == 8 { GrpcStatusCode::ResourceExhausted }
    else if value == 9 { GrpcStatusCode::FailedPrecondition }
    else if value == 10 { GrpcStatusCode::Aborted }
    else if value == 11 { GrpcStatusCode::OutOfRange }
    else if value == 12 { GrpcStatusCode::Unimplemented }
    else if value == 13 { GrpcStatusCode::Internal }
    else if value == 14 { GrpcStatusCode::Unavailable }
    else if value == 15 { GrpcStatusCode::DataLoss }
    else if value == 16 { GrpcStatusCode::Unauthenticated }
    else { GrpcStatusCode::Unknown }
}

/// Encode a code as its numeric `grpc-status` wire value.
pub fn to_wire(code: GrpcStatusCode) -> (value: i32)
    ensures
        value == wire_of(code),
{
    match code {
        GrpcStatusCode::Success => 0,
        GrpcStatusCode::Cancelled => 1,
        GrpcStatusCode::Unknown => 2,
        GrpcStatusCode::InvalidArgument => 3,
        GrpcStatusCode::DeadlineExceeded => 4,
        GrpcStatusCode::NotFound => 5,
        GrpcStatusCode::AlreadyExists => 6,
        GrpcStatusCode::PermissionDenied => 7,
        GrpcStatusCode::ResourceExhausted => 8,
        GrpcStatusCode::FailedPrecondition => 9,
        GrpcStatusCode::Aborted => 10,
        GrpcStatusCode::OutOfRange => 11,
        GrpcStatusCode::Unimplemented => 12,
        GrpcStatusCode::Internal => 13,
        GrpcStatusCode::Unavailable => 14,
        GrpcStatusCode::DataLoss => 15,
        GrpcStatusCode::Unauthenticated => 16,
    }
}

/// Parse a numeric `grpc-status` wire value; never fails, values outside
/// the standard range give `Unknown`.
pub fn from_wire(value: i32) -> (code: GrpcStatusCode)
    ensures
        code == code_of_wire(value as int),
{
    match value {
        0 => GrpcStatusCode::Success,
        1 => GrpcStatusCode::Cancelled,
        2 => GrpcStatusCode::Unknown,
        3 => GrpcStatusCode::InvalidArgument,
        4 => GrpcStatusCode::DeadlineExceeded,
        5 => GrpcStatusCode::NotFound,
        6 => GrpcStatusCode::AlreadyExists,
        7 => GrpcStatusCode::PermissionDenied,
        8 => GrpcStatusCode::ResourceExhausted,
        9 => GrpcStatusCode::FailedPrecondition,
        10 => GrpcStatusCode::Aborted,
        11 => GrpcStatusCode::OutOfRange,
        12 => GrpcStatusCode::Unimplemented,
        13 => GrpcStatusCode::Internal,
        14 => GrpcStatusCode::Unavailable,
        15 => GrpcStatusCode::DataLoss,
        16 => GrpcStatusCode::Unauthenticated,
        _ => GrpcStatusCode::Unknown,
    }
}

/// Every code encodes to a value in the standard range `0..=16`.
pub proof fn lemma_wire_in_range(code: GrpcStatusCode)
    ensures
        0 <= wire_of(code) <= 16,
{
}

/// Decoding the wire value of a code gives the code back: the wire
/// mapping loses no information on any of the seventeen codes.
pub proof fn lemma_wire_round_trip(code: GrpcStatusCode)
    ensures
        code_of_wire(wire_of(code)) == code,
{
}

/// Distinct codes have distinct wire values.
pub proof fn lemma_wire_injective(a: GrpcStatusCode, b: GrpcStatusCode)
    ensures
        wire_of(a) == wire_of(b) ==> a == b,
{
    lemma_wire_round_trip(a);
    lemma_wire_round_trip(b);
}

/// Every value in `0..=16` is the wire value of the code it decodes to;
/// every value outside that range decodes to `Unknown`.
pub proof fn lemma_decode_then_encode(value: int)
    ensures
        0 <= value <= 16 ==> wire_of(code_of_wire(value)) == value,
        !(0 <= value <= 16) ==> code_of_wire(value) == GrpcStatusCode::Unknown,
{
}

impl GrpcStatusCode {
    /// The canonical name of the code (`Ok` for success, else the variant name).
    pub fn name(&self) -> (s: &'static str)
        ensures
            s@ == code_name(*self),
    {
        match self {
            GrpcStatusCode::Success => "Ok",
            GrpcStatusCode::Cancelled => "Cancelled",
            GrpcStatusCode::Unknown => "Unknown",
            GrpcStatusCode::InvalidArgument => "InvalidArgument",
            GrpcStatusCode::DeadlineExceeded => "DeadlineExceeded",
            GrpcStatusCode::NotFound => "NotFound",
            GrpcStatusCode::AlreadyExists => "AlreadyExists",
            GrpcStatusCode::PermissionDenied => "PermissionDenied",
            GrpcStatusCode::ResourceExhausted => "ResourceExhausted",
            GrpcStatusCode::FailedPrecondition => "FailedPrecondition",
            GrpcStatusCode::Aborted => "Aborted",
            GrpcStatusCode::OutOfRange => "OutOfRange",
            GrpcStatusCode::Unimplemented => "Unimplemented",
            GrpcStatusCode::Internal => "Internal",
            GrpcStatusCode::Unavailable => "Unavailable",
            GrpcStatusCode::DataLoss => "DataLoss",
            GrpcStatusCode::Unauthenticated => "Unauthenticated",
        }
    }
}

/// The name of a code's variant.
pub open spec fn code_name(code: GrpcStatusCode) -> Seq<char> {
    match code {
        GrpcStatusCode::Success => "Ok"@,
        GrpcStatusCode::Cancelled => "Cancelled"@,
        GrpcStatusCode::Unknown => "Unknown"@,
        GrpcStatusCode::InvalidArgument => "InvalidArgument"@,
        GrpcStatusCode::DeadlineExceeded => "DeadlineExceeded"@,
        GrpcStatusCode::NotFound => "NotFound"@,
        GrpcStatusCode::AlreadyExists => "AlreadyExists"@,
        GrpcStatusCode::PermissionDenied => "PermissionDenied"@,
        GrpcStatusCode::ResourceExhausted => "ResourceExhausted"@,
        GrpcStatusCode::FailedPrecondition => "FailedPrecondition"@,
        GrpcStatusCode::Aborted => "Aborted"@,
        GrpcStatusCode::OutOfRange => "OutOfRange"@,
        GrpcStatusCode::Unimplemented => "Unimplemented"@,
        GrpcStatusCode::Internal => "Internal"@,
        GrpcStatusCode::Unavailable => "Unavailable"@,
        GrpcStatusCode::DataLoss => "DataLoss"@,
        GrpcStatusCode::Unauthenticated => "Unauthenticated"@,
    }
}

} // verus!
