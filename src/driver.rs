//! The per-tick body driver and its grounded/airborne state machine.

use vstd::prelude::*;
use crate::arith::{ceil_sqrt, ceil_sqrt_spec, SQRT_DOMAIN};
use crate::grounding::GroundingResult;
use crate::input::ActionEdge;
use crate::jump::{request_of, JumpRequest};
use crate::locomotion::LocomotionBasis;
use crate::vector::Vector3;

verus! {

/// Whether the body has ground support.
#[derive(Clone, Copy, Debug, PartialEq, Eq, Structural)]
pub enum MotionState {
    Grounded,
    Airborne,
}

/// The body under control: its velocity in mm/s and its support state.
#[derive(Clone, Copy, Debug, PartialEq, Eq, Structural)]
pub struct ControlledBody {
    pub velocity: Vector3,
    pub state: MotionState,
}

/// What one tick of the driver did, for diagnostics.
#[derive(Clone, Copy, Debug, PartialEq, Eq, Structural)]
pub struct TickReport {
    /// A jump impulse was applied on this tick.
    pub jump_honored: bool,
    /// The new support state, when it changed on this tick.
    pub transition: Option<MotionState>,
}

/// The upward speed in mm/s that reaches `height` mm under `gravity` mm/s², rounded up.
pub open spec fn jump_speed_spec(height: u32, gravity: u32) -> int {
    ceil_sqrt_spec(2 * gravity * height)
}

/// The upward speed in mm/s that closes the gap to the float height within one tick.
pub open spec fn hover_speed(basis: LocomotionBasis, grounding: GroundingResult, tick_rate: u16) -> int {
    (basis.target_float_height - grounding.distance_to_surface) * tick_rate
}

/// Whether the tick applies a jump impulse.
pub open spec fn jumps(jump: JumpRequest, grounding: GroundingResult) -> bool {
    jump.requested_this_tick && grounding.is_grounded
}

/// The support state that the grounding result gives.
pub open spec fn state_of(grounding: GroundingResult) -> MotionState {
    if grounding.is_grounded {
        MotionState::Grounded
    } else {
        MotionState::Airborne
    }
}

/// The body's velocity after the tick.
pub open spec fn driven_velocity(
    velocity: Vector3,
    basis: LocomotionBasis,
    jump: JumpRequest,
    grounding: GroundingResult,
    gravity: u32,
    tick_rate: u16,
) -> Vector3 {
    Vector3 {
        x: basis.desired_velocity.x,
        y: if jumps(jump, grounding) {
            jump_speed_spec(jump.requested_height, gravity) as i64
        } else if grounding.is_grounded {
            hover_speed(basis, grounding, tick_rate) as i64
        } else {
            velocity.y
        },
        z: basis.desired_velocity.z,
    }
}

/// The report of the tick.
pub open spec fn report_of(prev: MotionState, jump: JumpRequest, grounding: GroundingResult) -> TickReport {
    TickReport {
        jump_honored: jumps(jump, grounding),
        transition: if state_of(grounding) == prev {
            None
        } else {
            Some(state_of(grounding))
        },
    }
}

/// The upward speed in mm/s that reaches `height` mm under `gravity` mm/s².
pub fn jump_speed(height: u32, gravity: u32) -> (r: i64)
    ensures
        r == jump_speed_spec(height, gravity),
        r >= 0,
        r * r >= 2 * gravity * height,
{
    let h: u128 = height as u128;
    let g: u128 = gravity as u128;
    assert(g * h <= 0xffffffff * 0xffffffff) by (nonlinear_arith)
        requires
            g <= 0xffffffff,
            h <= 0xffffffff,
    ;
    let gh: u128 = g * h;
    let v: u128 = 2 * gh;
    assert(v <= SQRT_DOMAIN);
    assert(v == 2 * gravity * height) by (nonlinear_arith)
        requires
            v == 2 * gh,
            gh == g * h,
            g == gravity,
            h == height,
    ;
    let n: u64 = ceil_sqrt(v);
    n as i64
}

/// Drives the body for one physics tick: holds the desired horizontal velocity, floats the body
/// toward its target height while grounded, and jumps on a fresh request while grounded.
/// Airborne, the vertical velocity is left to gravity.
pub fn advance(
    body: &mut ControlledBody,
    basis: LocomotionBasis,
    jump: JumpRequest,
    grounding: GroundingResult,
    gravity: u32,
    tick_rate: u16,
) -> (r: TickReport)
    ensures
        final(body).velocity == driven_velocity(old(body).velocity, basis, jump, grounding, gravity, tick_rate),
        final(body).state == state_of(grounding),
        r == report_of(old(body).state, jump, grounding),
{
    let jumped = jump.requested_this_tick && grounding.is_grounded;
    let vy: i64 = if jumped {
        jump_speed(jump.requested_height, gravity)
    } else if grounding.is_grounded {
        let gap: i64 = basis.target_float_height as i64 - grounding.distance_to_surface as i64;
        assert(-0xffffffff <= gap <= 0xffffffff);
        assert(-0xffffffff * 0xffff <= gap * tick_rate <= 0xffffffff * 0xffff) by (nonlinear_arith)
            requires
                -0xffffffff <= gap <= 0xffffffff,
                0 <= tick_rate <= 0xffff,
        ;
        gap * (tick_rate as i64)
    } else {
        body.velocity.y
    };
    body.velocity = Vector3 { x: basis.desired_velocity.x, y: vy, z: basis.desired_velocity.z };
    let next = if grounding.is_grounded {
        MotionState::Grounded
    } else {
        MotionState::Airborne
    };
    let transition = if next == body.state {
        None
    } else {
        Some(next)
    };
    body.state = next;
    TickReport { jump_honored: jumped, transition }
}

/// A jump request evaluated from any edge never jumps while the probe reports no ground: no
/// impulse is applied and the vertical velocity is left as it was.
pub proof fn lemma_no_jump_while_airborne(
    velocity: Vector3,
    prev: MotionState,
    basis: LocomotionBasis,
    edge: ActionEdge,
    jump_height: u32,
    grounding: GroundingResult,
    gravity: u32,
    tick_rate: u16,
)
    requires
        !grounding.is_grounded,
    ensures
        !report_of(prev, request_of(edge, jump_height), grounding).jump_honored,
        driven_velocity(velocity, basis, request_of(edge, jump_height), grounding, gravity, tick_rate).y
            == velocity.y,
        state_of(grounding) == MotionState::Airborne,
{
}

} // verus!
