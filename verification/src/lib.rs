//! Frame preparation for a fixed-step rigid-body simulation.
//!
//! The library keeps every simulated body's derived physical state complete
//! and consistent at the start of each step: defaulting passes fill any
//! missing kinematic, dynamic and mass fields of newly created bodies and
//! newly attached collider shapes, and maintenance passes incrementally
//! update each collider's world-space bounding box and each body's aggregate
//! mass properties, reacting only to the inputs that actually changed.
//!
//! All scalar quantities are fixed-point values in units of one millionth
//! (see [`fxp::FX_SCALE`]), so every formula in the contracts is exact
//! integer arithmetic.

pub mod fxp;
pub mod geom;
pub mod shape;
pub mod world;
pub mod passes;
pub mod step;
pub mod laws;

use vstd::prelude::*;

verus! {

} // verus!
