//! The length and range rules of the `validator` crate, as the service applies
//! them to its configuration and to paste requests.

use validator::ValidateLength;
use validator::ValidateRange;
use vstd::prelude::*;

verus! {

/// Whether a length meets a length rule: with `equal` set, the length must
/// equal it and the other bounds are ignored; else it must lie within the
/// bounds that are set.
pub open spec fn length_ok(len: nat, min: Option<u64>, max: Option<u64>, equal: Option<u64>) -> bool {
    match equal {
        Some(e) => len == e,
        None => {
            &&& (min matches Some(m) ==> len >= m)
            &&& (max matches Some(m) ==> len <= m)
        },
    }
}

/// Whether a value meets a range rule: each bound that is set holds.
pub open spec fn range_ok(
    v: int,
    min: Option<int>,
    max: Option<int>,
    exclusive_min: Option<int>,
    exclusive_max: Option<int>,
) -> bool {
    &&& (max matches Some(m) ==> v <= m)
    &&& (min matches Some(m) ==> v >= m)
    &&& (exclusive_max matches Some(m) ==> v < m)
    &&& (exclusive_min matches Some(m) ==> v > m)
}

/// An optional `u16` bound, as an integer.
pub open spec fn bound_u16(b: Option<u16>) -> Option<int> {
    match b {
        Some(x) => Some(x as int),
        None => None,
    }
}

/// An optional `usize` bound, as an integer.
pub open spec fn bound_usize(b: Option<usize>) -> Option<int> {
    match b {
        Some(x) => Some(x as int),
        None => None,
    }
}

/// Calls `validator::ValidateLength::validate_length` on a `String`. Its
/// source measures a string by `chars().count()`, the length of the view, and
/// applies the rule that `length_ok` states.
#[verifier::external_body]
pub(crate) fn validate_length(
    value: &String,
    min: Option<u64>,
    max: Option<u64>,
    equal: Option<u64>,
) -> (ok: bool)
    ensures
        ok == length_ok(value@.len(), min, max, equal),
{
    value.validate_length(min, max, equal)
}

/// Calls `validator::ValidateRange::validate_range` on a `u16`; its source
/// compares the value with each bound that is set, as `range_ok` states.
#[verifier::external_body]
pub(crate) fn validate_range_u16(
    value: u16,
    min: Option<u16>,
    max: Option<u16>,
    exclusive_min: Option<u16>,
    exclusive_max: Option<u16>,
) -> (ok: bool)
    ensures
        ok == range_ok(
            value as int,
            bound_u16(min),
            bound_u16(max),
            bound_u16(exclusive_min),
            bound_u16(exclusive_max),
        ),
{
    value.validate_range(min, max, exclusive_min, exclusive_max)
}

/// Calls `validator::ValidateRange::validate_range` on a `usize`; its source
/// compares the value with each bound that is set, as `range_ok` states.
#[verifier::external_body]
pub(crate) fn validate_range_usize(
    value: usize,
    min: Option<usize>,
    max: Option<usize>,
    exclusive_min: Option<usize>,
    exclusive_max: Option<usize>,
) -> (ok: bool)
    ensures
        ok == range_ok(
            value as int,
            bound_usize(min),
            bound_usize(max),
            bound_usize(exclusive_min),
            bound_usize(exclusive_max),
        ),
{
    value.validate_range(min, max, exclusive_min, exclusive_max)
}

} // verus!
