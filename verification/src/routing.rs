//! The decision rule of the collision-aware routing selector.
//!
//! The selector runs the curve solver twice per edge, once bowing each way,
//! approximates each curve by two straight segments and counts how many node
//! rectangles each approximation crosses.  That geometry is floating point
//! and lives with the caller; the choice made from the two counts is exact
//! and is stated here.

use vstd::prelude::*;

verus! {

/// Picks the mirrored (flipped) curve only when it crosses strictly fewer
/// rectangles than the normal one, so that ties keep the normal curve.
pub fn choose_flip(collisions_normal: usize, collisions_flipped: usize) -> (flip: bool)
    ensures
        flip == (collisions_flipped < collisions_normal),
{
    collisions_flipped < collisions_normal
}

} // verus!
