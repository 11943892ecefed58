//! Conversions between the library's status codes and `tonic::Code`.
//!
//! Both sides number the seventeen codes the same way, so the conversions
//! go through the wire integer: tonic gives a code's number and the code
//! of a number, the library maps numbers to its own codes.

use vstd::prelude::*;

use crate::status_code::{
    from_wire, lemma_wire_in_range, lemma_wire_round_trip, to_wire, wire_of, GrpcStatusCode,
};

verus! {

/// `tonic`'s status code.
#[verifier::external_type_specification]
#[verifier::external_body]
pub struct ExTonicCode(tonic::Code);

/// The `tonic::Code` that tonic's `From<i32>` gives for a number.
pub uninterp spec fn tonic_code_of(value: i32) -> tonic::Code;

/// `<tonic::Code as From<i32>>::from`.  Claimed: the result is
/// `tonic_code_of` of the number, a function of the number alone.  Which
/// variant each number gives (tonic's table: `0..=16` in order, anything
/// else `Unknown`) is not restated here.
#[verifier::external_body]
fn tonic_code_from_i32(value: i32) -> (c: tonic::Code)
    ensures
        c == tonic_code_of(value),
{
    tonic::Code::from(value)
}

/// `<i32 as From<tonic::Code>>::from`, the variant's discriminant.
/// Claimed, as tonic's source shows (discriminants `0..=16`, and its
/// `From<i32>` maps each of them back to its own variant): the number lies
/// in `0..=16`, `tonic_code_of` maps it back to the code, and no other
/// number in `0..=16` maps to the code.
#[verifier::external_body]
fn tonic_code_to_i32(code: tonic::Code) -> (w: i32)
    ensures
        0 <= w <= 16,
        tonic_code_of(w) == code,
        forall|v: i32| 0 <= v <= 16 && #[trigger] tonic_code_of(v) == code ==> v == w,
{
    i32::from(code)
}

/// The `tonic::Code` of a library code: tonic's code for its wire value.
pub open spec fn tonic_code_spec(code: GrpcStatusCode) -> tonic::Code {
    tonic_code_of(wire_of(code) as i32)
}

/// Convert a `tonic::Code` into the library's status code: the one code
/// whose `tonic::Code` is `code`.
pub fn from_tonic_code(code: tonic::Code) -> (s: GrpcStatusCode)
    ensures
        tonic_code_spec(s) == code,
        forall|t: GrpcStatusCode| #[trigger] tonic_code_spec(t) == code ==> t == s,
{
    let w = tonic_code_to_i32(code);
    let s = from_wire(w);
    proof {
        assert(wire_of(s) == w as int);
        assert forall|t: GrpcStatusCode| #[trigger] tonic_code_spec(t) == code implies t == s by {
            lemma_wire_in_range(t);
            lemma_wire_round_trip(t);
            let v = wire_of(t) as i32;
            assert(0 <= v <= 16 && tonic_code_of(v) == code);
        }
    }
    s
}

/// Convert a library status code into a `tonic::Code`.
pub fn to_tonic_code(code: GrpcStatusCode) -> (c: tonic::Code)
    ensures
        c == tonic_code_spec(code),
{
    tonic_code_from_i32(to_wire(code))
}

} // verus!
