//! Runtime coordination logic for a motion-sensing firmware.
//!
//! The crate models the decision-making core of a device that watches an
//! inertial sensor, streams timestamped samples to a wireless client, and
//! drives audible/visible feedback.  Everything here is pure logic on plain
//! values: the hardware drivers, the wireless transport and the async
//! executor live outside and hand these functions their inputs.

use vstd::prelude::*;

pub mod blink;
pub mod bus;
pub mod config;
pub mod detector;
pub mod intensity;
pub mod pipeline;
pub mod protocol;
pub mod sample;
pub mod tone;

verus! {

} // verus!
