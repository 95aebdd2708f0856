//! Control core of a camera-guided pick-and-place arm.
//!
//! The library holds the decisions of the control tasks as verified state
//! machines: the single-slot detection cache and actuator mailbox, the shared
//! control state, the controller's event dispatch, the auto-grab supervisor,
//! and the actuator's command validation and motion planning.
//! Lengths are integers in micrometres, angles in millidegrees, and times in
//! milliseconds of a monotonic clock.
use vstd::prelude::*;

pub mod actuator;
pub mod config;
pub mod controller;
pub mod geometry;
pub mod message;
pub mod rate;
pub mod slot;
pub mod supervisor;
pub mod state;

verus! {

} // verus!
