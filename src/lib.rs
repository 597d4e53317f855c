//! Cell-bound agents ("dots") on a bounded grid: a bit-packed genome with a
//! derived phenotype, an agent lifecycle driven by periodic ticks and by
//! incoming effects, and a scene that routes effects to the addressed cell.
//!
//! Quantities that are fractions in `[0, 1]` are kept as integers over a
//! fixed denominator: vitality in thousandths, colour channels over 255 and
//! digestion-mask channels over 256.

mod random;

pub mod action;
pub mod coord;
pub mod direction;
pub mod dna;
pub mod dots;
pub mod effect;
pub mod effects;
pub mod scene;
