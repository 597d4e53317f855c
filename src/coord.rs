use vstd::prelude::*;

verus! {

/// A grid cell, identified by its integer column `x` and row `y`.
///
/// Two positions are the same cell exactly when both axes agree, so equality
/// and hashing agree by construction.
#[derive(Clone, Copy, Debug, PartialEq, Eq, Structural, Hash)]
pub struct Coord {
    pub x: i64,
    pub y: i64,
}

impl Coord {
    /// Whether one step in any direction from this cell stays representable.
    pub open spec fn steppable(self) -> bool {
        i64::MIN < self.x < i64::MAX && i64::MIN < self.y < i64::MAX
    }
}

} // verus!
