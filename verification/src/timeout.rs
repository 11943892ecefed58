//! The `grpc-timeout` request header: an integer of at most eight digits
//! followed by a unit (`n`, `u`, `m`, `S`, `M`, `H`).

use vstd::prelude::*;

use crate::text::{decimal, decimal_with_suffix, lemma_decimal_len, pow10};

verus! {

/// The largest value the header carries: eight decimal digits.
pub const MAX_TIMEOUT_VALUE: u128 = 99_999_999;

/// Value and unit chosen for a duration of `nanos` nanoseconds: the finest
/// of nanoseconds, microseconds, milliseconds, seconds and minutes whose
/// truncated count fits in eight digits, else hours.
pub open spec fn timeout_parts(nanos: nat) -> (nat, char) {
    let max: nat = 99_999_999;
    let secs = nanos / 1_000_000_000;
    if nanos <= max {
        (nanos, 'n')
    } else if nanos / 1000 <= max {
        (nanos / 1000, 'u')
    } else if nanos / 1_000_000 <= max {
        (nanos / 1_000_000, 'm')
    } else if secs <= max {
        (secs, 'S')
    } else if secs / 60 <= max {
        (secs / 60, 'M')
    } else {
        (secs / 3600, 'H')
    }
}

/// The nanoseconds in one unit.
pub open spec fn unit_nanos(unit: char) -> nat {
    if unit == 'n' { 1 }
    else if unit == 'u' { 1000 }
    else if unit == 'm' { 1_000_000 }
    else if unit == 'S' { 1_000_000_000 }
    else if unit == 'M' { 60_000_000_000 }
    else { 3_600_000_000_000 }
}

/// The header text for a duration of `nanos` nanoseconds.
pub open spec fn timeout_header_spec(nanos: nat) -> Seq<char> {
    decimal(timeout_parts(nanos).0).push(timeout_parts(nanos).1)
}

/// Encode a duration, given in nanoseconds, as a `grpc-timeout` value.
/// A zero duration is `0n`.
pub fn encode_grpc_timeout(nanos: u128) -> (s: String)
    ensures
        s@ == timeout_header_spec(nanos as nat),
{
    let max = MAX_TIMEOUT_VALUE;
    if nanos <= max {
        return decimal_with_suffix(nanos, 'n');
    }
    let micros = nanos / 1000;
    if micros <= max {
        return decimal_with_suffix(micros, 'u');
    }
    let millis = nanos / 1_000_000;
    if millis <= max {
        return decimal_with_suffix(millis, 'm');
    }
    let secs = nanos / 1_000_000_000;
    if secs <= max {
        return decimal_with_suffix(secs, 'S');
    }
    let mins = secs / 60;
    if mins <= max {
        return decimal_with_suffix(mins, 'M');
    }
    decimal_with_suffix(secs / 3600, 'H')
}

/// The chosen value is the duration truncated to whole units of the chosen
/// unit, and the unit is one of the six the protocol defines.
pub proof fn lemma_timeout_truncates(nanos: nat)
    ensures
        ({
            let (v, u) = timeout_parts(nanos);
            &&& (u == 'n' || u == 'u' || u == 'm' || u == 'S' || u == 'M' || u == 'H')
            &&& v * unit_nanos(u) <= nanos < (v + 1) * unit_nanos(u)
        }),
{
    let (v, u) = timeout_parts(nanos);
    let secs = nanos / 1_000_000_000;
    if u == 'M' {
        assert(secs / 60 * 60 <= secs < (secs / 60 + 1) * 60);
        assert(v * 60_000_000_000 == (secs / 60 * 60) * 1_000_000_000);
    } else if u == 'H' {
        assert(secs / 3600 * 3600 <= secs < (secs / 3600 + 1) * 3600);
        assert(v * 3_600_000_000_000 == (secs / 3600 * 3600) * 1_000_000_000);
    }
}

/// Below 99 999 999 hours the value never exceeds eight digits, as the
/// protocol requires; `0n` encodes a zero duration.
pub proof fn lemma_timeout_fits_eight_digits(nanos: nat)
    requires
        nanos < 99_999_999 * 3_600_000_000_000,
    ensures
        timeout_parts(nanos).0 <= 99_999_999,
        decimal(timeout_parts(nanos).0).len() <= 8,
        nanos == 0 ==> timeout_header_spec(nanos) == seq!['0', 'n'],
{
    let v = timeout_parts(nanos).0;
    reveal_with_fuel(pow10, 9);
    assert(pow10(8) == 100_000_000);
    lemma_decimal_len(v, 8);
    if nanos == 0 {
        assert(decimal(0) =~= seq!['0']);
        assert(timeout_header_spec(0) =~= seq!['0', 'n']);
    }
}

} // verus!
