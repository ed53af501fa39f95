//! A fixed-step integrator for a single damped oscillator.
//!
//! The library keeps the append-only history of positions, velocities and
//! accelerations, decides for each tick whether the single-step bootstrap
//! update or the four-step multistep update applies, hands each update exactly
//! the samples it reads, and selects the rows that are written out. The sample
//! type is generic: the arithmetic on samples is supplied by the caller.
use vstd::prelude::*;

pub mod history;
pub mod simulation;
pub mod stepper;

verus! {

} // verus!
