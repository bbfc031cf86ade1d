//! Bridges a stream of avatar-parameter updates (OSC messages over UDP) to a
//! virtual game controller: a gesture detector watches one integer parameter
//! for the falling edge that means "radial menu closed after being opened",
//! and a macro player answers it with a fixed, timed sequence of stick-angle
//! clicks on the controller.
//!
//! The library holds everything that decides and computes: decoded-message
//! routing, the edge detector, the angle-to-stick mapping, and the macro
//! player, which turns one run into an ordered list of gamepad snapshots,
//! each with the settle delay owed after delivering it. Delivering the
//! snapshots to the virtual-controller service, the delays, the socket, and
//! the window-focus call are the caller's side.
use vstd::prelude::*;

pub mod dispatch;
pub mod gesture;
pub mod osc;
pub mod player;
pub mod stick;

verus! {

} // verus!
