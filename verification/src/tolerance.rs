//! Near-equality comparison for file sizes.
//!
//! Two byte counts are considered close enough when their difference is
//! strictly below one percent of the larger one. This absorbs the size drift
//! that container re-encoding or metadata stripping introduces between a
//! source file and its archived copy.

use vstd::prelude::*;

verus! {

/// The difference between the two values is strictly below 1% of the larger
/// value: `hi - lo < hi / 100`, stated exactly as `100 * (hi - lo) < hi`.
pub open spec fn within_tolerance_spec(a: u64, b: u64) -> bool {
    let hi: int = if a >= b { a as int } else { b as int };
    let lo: int = if a >= b { b as int } else { a as int };
    100 * (hi - lo) < hi
}

/// Decides whether two byte counts are within 1% of the larger one,
/// with a strict bound: a pair exactly at the 1% boundary does not pass.
pub fn within_tolerance(a: u64, b: u64) -> (r: bool)
    ensures
        r == within_tolerance_spec(a, b),
{
    let hi: u64 = if a >= b { a } else { b };
    let lo: u64 = if a >= b { b } else { a };
    ((hi - lo) as u128) * 100 < hi as u128
}

/// Two equal, non-zero byte counts are always within tolerance.
/// (Two zero-byte files are not: the strict bound `0 < 0` fails.)
pub proof fn lemma_within_tolerance_equal(a: u64, b: u64)
    requires
        a == b,
        a > 0,
    ensures
        within_tolerance_spec(a, b),
{
}

/// A value exactly 2% above another (`b == a * 1.02`, stated as
/// `50 * b == 51 * a`) is never within tolerance.
pub proof fn lemma_two_percent_drift_fails(a: u64, b: u64)
    requires
        b as int * 50 == a as int * 51,
    ensures
        !within_tolerance_spec(a, b),
{
}

/// A value exactly 0.5% above a non-zero value (`b == a * 1.005`, stated as
/// `200 * b == 201 * a`) is within tolerance.
pub proof fn lemma_half_percent_drift_passes(a: u64, b: u64)
    requires
        a > 0,
        b as int * 200 == a as int * 201,
    ensures
        within_tolerance_spec(a, b),
{
}

} // verus!
