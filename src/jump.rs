//! The one-shot jump request.

use vstd::prelude::*;
use crate::input::ActionEdge;

verus! {

/// A jump asked for on one tick.
#[derive(Clone, Copy, Debug, PartialEq, Eq, Structural)]
pub struct JumpRequest {
    /// Height in mm the jump should reach.
    pub requested_height: u32,
    /// Whether the jump action rose on the latest sample.
    pub requested_this_tick: bool,
}

/// The request that `evaluate` gives.
pub open spec fn request_of(edge: ActionEdge, configured_height: u32) -> JumpRequest {
    JumpRequest {
        requested_height: configured_height,
        requested_this_tick: edge.became_active_this_tick,
    }
}

/// The jump request of the jump action's edge: made on a rising edge only.
pub fn evaluate(edge: ActionEdge, configured_height: u32) -> (r: JumpRequest)
    ensures
        r == request_of(edge, configured_height),
{
    JumpRequest {
        requested_height: configured_height,
        requested_this_tick: edge.became_active_this_tick,
    }
}

} // verus!
