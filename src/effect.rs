use crate::coord::Coord;
use crate::dna::Dna;
use vstd::prelude::*;

verus! {

/// A message addressed to a cell.
#[allow(non_camel_case_types)]
#[derive(Clone, Copy, Debug)]
pub enum Effect {
    /// A transfer of vitality, in thousandths, to the addressed agent; the
    /// optional mask (each channel over `MASK_SCALE`) weighs the transfer
    /// against the agent's colour, and the optional origin receives the
    /// opposite of what was actually transferred.
    ENERGY(i32, Option<[u16; 3]>, Option<Coord>),
    /// An attempt to implant a genome in the addressed cell.
    SEED(Dna),
}

} // verus!
