use crate::random::random_below;
use vstd::prelude::*;

verus! {

/// What a living agent does on one of its ticks.
#[allow(non_camel_case_types)]
#[derive(Clone, Copy, Debug, PartialEq, Eq, Structural)]
pub enum Action {
    DIGEST,
    SEED,
    IDLE,
}

/// The action that a draw `n` from `0..3` stands for.
pub open spec fn action_of_draw(n: u32) -> Action {
    if n == 0 {
        Action::DIGEST
    } else if n == 1 {
        Action::SEED
    } else {
        Action::IDLE
    }
}

impl Action {
    /// Maps a draw to an action: `0` digests, `1` seeds, anything else idles.
    pub fn from_draw(n: u32) -> (r: Action)
        ensures
            r == action_of_draw(n),
    {
        match n {
            0 => Action::DIGEST,
            1 => Action::SEED,
            _ => Action::IDLE,
        }
    }

    /// Draws one of the three actions with equal probability.
    pub fn random() -> (r: Action)
        ensures
            exists|n: u32| n < 3 && r == action_of_draw(n),
    {
        let n = random_below(3);
        Action::from_draw(n)
    }
}

} // verus!
