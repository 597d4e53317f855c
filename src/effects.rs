use crate::coord::Coord;
use vstd::prelude::*;

verus! {

/// Kinds of effect of the vitality-only model, where an agent's vitality is
/// an opacity built up by repeated positive effects.
#[allow(non_camel_case_types)]
#[derive(Clone, Copy, Debug, PartialEq, Eq, Structural, Hash)]
pub enum EffectType {
    OPACITY,
}

/// An effect of the vitality-only model: where it goes (none: to every
/// agent), what kind it is, and its encoded value.
#[derive(Clone, Copy, Debug)]
pub struct Effect {
    pub pos: Option<Coord>,
    pub typ: Option<EffectType>,
    pub val: Option<[u8; 8]>,
}

} // verus!
