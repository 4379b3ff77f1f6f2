//! Points in time. The tunnel never computes with them: it stores them, hands them on and asks which
//! of two is the later one.
use std::time::Instant;
use vstd::prelude::*;

verus! {

/// `std::time::Instant`, of which nothing is visible.
#[verifier::external_type_specification]
#[verifier::external_body]
pub struct ExInstant(std::time::Instant);

/// What `a > b` gives for two instants.
pub uninterp spec fn is_later(a: Instant, b: Instant) -> bool;

/// Compares two instants with the `>` of `std::time::Instant`. The result depends on the two
/// instants alone, and of two instants at most one is later than the other: instants are ordered.
#[verifier::external_body]
pub(crate) fn later(a: &Instant, b: &Instant) -> (r: bool)
    ensures
        r == is_later(*a, *b),
        r ==> !is_later(*b, *a),
{
    a > b
}

/// Reads the monotonic clock with `std::time::Instant::now`. Nothing is claimed of the reading.
#[verifier::external_body]
pub(crate) fn now() -> (at: Instant) {
    Instant::now()
}

} // verus!
