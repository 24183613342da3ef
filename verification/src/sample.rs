//! Rejection sampling of points in the unit disk and the unit ball.
//!
//! A point is drawn in the enclosing square or cube and drawn again as long
//! as it is rejected. A point is judged by its squared distance from the
//! centre, given by its order key (see `crate::param`).

use vstd::prelude::*;
use crate::param::ONE_KEY;

verus! {

/// Whether a point at the squared distance `squared_length` from the centre
/// is rejected: it is where that distance is one or more.
pub open spec fn rejected(squared_length: Option<u64>) -> bool {
    squared_length is Some && squared_length.unwrap() >= ONE_KEY
}

/// Decides whether a point that was drawn is rejected, so that another has to
/// be drawn.
pub fn is_rejected(squared_length: Option<u64>) -> (r: bool)
    ensures
        r == rejected(squared_length),
{
    match squared_length {
        Some(k) => k >= ONE_KEY,
        None => false,
    }
}

} // verus!
