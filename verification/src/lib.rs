//! Clock-tree configuration for the L- and G-series microcontroller lines.
//!
//! The crate selects an oscillator source, configures the PLL divider and
//! multiplier chain, derives the system and peripheral bus frequencies,
//! validates them against the per-family ceilings, and computes the sequence
//! of control-register writes (with the required wait-for-ready polling) that
//! the silicon mandates for a safe transition.
//!
//! The control-register blocks are modelled as plain values (see
//! [`registers`]); the sequencer's contracts pin down exactly which fields
//! each operation leaves in which state.

use vstd::prelude::*;

pub mod config;
pub mod dividers;
pub mod laws;
pub mod registers;
pub mod sequence;
pub mod sources;

verus! {

/// The microcontroller family in effect. It decides which divider and
/// multiplier ranges are legal, the frequency ceilings, the flash wait-state
/// breakpoints, and which oscillators exist at all. It is injected once, at
/// construction of a [`config::Clocks`] value.
#[derive(Clone, Copy, PartialEq, Eq, Structural, Debug)]
pub enum Family {
    L4,
    L5,
    G0,
    G4,
}

/// Returned by [`config::Clocks::setup`] when a configuration fails
/// validation; in that case no register is touched.
#[derive(Clone, Copy, PartialEq, Eq, Structural, Debug)]
pub struct SpeedError {}

/// Result of validating a configuration against the family's limits.
#[derive(Clone, Copy, PartialEq, Eq, Structural, Debug)]
pub enum ClocksValid {
    Valid,
    NotValid,
}

} // verus!
