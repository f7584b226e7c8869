//! Control logic for a wireless sensor-actuator node.
//!
//! The node keeps itself associated with a wireless network, brings up an
//! IP-layer lease on top of that link, and runs an edge-triggered reflex
//! loop that turns a distance measurement into a two-color indicator
//! decision. The hardware drivers and the cooperative scheduler live
//! outside this crate; what is here is every decision the node takes:
//! the connectivity retry state machine, the bootstrap readiness barrier,
//! the sensing cycle, and the indicator color pipeline.

use vstd::prelude::*;

pub mod connectivity;
pub mod indicator;
pub mod readiness;
pub mod sensor;

verus! {

/// A distance strictly below this many millimeters is classified as an alert.
pub const DISTANCE_THRESHOLD_MM: u32 = 200;

} // verus!
