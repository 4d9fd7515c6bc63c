//! One controller per body: samples input, and steers the body once per physics tick.

use vstd::prelude::*;
use crate::driver::{advance, driven_velocity, report_of, state_of, ControlledBody, MotionState, TickReport};
use crate::grounding::{grounding_of, probe, ProbeHit};
use crate::input::{next_edge, Action, ActionEdge, ActionState};
use crate::jump::{evaluate, request_of, JumpRequest};
use crate::locomotion::{axis_x, axis_z, basis_of, compute, intent_of_axes, MovementIntent};
use crate::vector::Vector3;

verus! {

/// How far in mm beyond the float height ground still counts as support.
pub const GROUND_TOLERANCE: u32 = 50;

/// The per-body settings.
#[derive(Clone, Copy, Debug, PartialEq, Eq, Structural)]
pub struct ControllerConfig {
    /// Walking speed in mm/s.
    pub max_speed: u32,
    /// Height in mm kept between the body's center and the ground.
    pub float_height: u32,
    /// Height in mm a jump reaches.
    pub jump_height: u32,
    /// Radius in mm of the ground probe's shape, for the physics engine's cast; a little wider
    /// than the body's collider.
    pub probe_shape_radius: u32,
}

impl Default for ControllerConfig {
    /// 10 m/s walking, 1.5 m float height, 4 m jumps, and a 0.51 m probe: slightly wider than
    /// a body of 0.5 m radius.
    fn default() -> (r: ControllerConfig)
        ensures
            r.max_speed == 10000,
            r.float_height == 1500,
            r.jump_height == 4000,
            r.probe_shape_radius == 510,
    {
        ControllerConfig { max_speed: 10000, float_height: 1500, jump_height: 4000, probe_shape_radius: 510 }
    }
}

/// The locomotion controller of one body.
#[derive(Clone, Copy, Debug, PartialEq, Eq, Structural)]
pub struct Controller {
    pub config: ControllerConfig,
    pub actions: ActionState,
    pub body: ControlledBody,
    /// A rising edge of the jump action was sampled and no tick has consumed it yet.
    pub jump_latched: bool,
}

/// The jump edge that the next tick sees.
pub open spec fn latched_edge(c: Controller) -> ActionEdge {
    ActionEdge { is_active: c.actions.jump.is_active, became_active_this_tick: c.jump_latched }
}

impl Controller {
    /// A controller at rest, airborne until the probe first finds ground, with nothing held.
    pub fn new(config: ControllerConfig) -> (r: Controller)
        ensures
            r.config == config,
            forall|a: Action| !(#[trigger] r.actions.edge_of(a)).is_active,
            forall|a: Action| !(#[trigger] r.actions.edge_of(a)).became_active_this_tick,
            r.body.velocity == (Vector3 { x: 0, y: 0, z: 0 }),
            r.body.state == MotionState::Airborne,
            !r.jump_latched,
    {
        Controller {
            config,
            actions: ActionState::new(),
            body: ControlledBody { velocity: Vector3::zero(), state: MotionState::Airborne },
            jump_latched: false,
        }
    }

    /// Takes one input sample; a rising edge of the jump action stays latched until a tick
    /// consumes it.
    pub fn sample_input(&mut self, active: &[Action])
        ensures
            forall|a: Action|
                #[trigger] final(self).actions.edge_of(a) == next_edge(
                    old(self).actions.edge_of(a),
                    active@.contains(a),
                ),
            final(self).jump_latched == (old(self).jump_latched
                || final(self).actions.jump.became_active_this_tick),
            final(self).config == old(self).config,
            final(self).body == old(self).body,
    {
        self.actions.sample(active);
        assert(self.actions.jump == self.actions.edge_of(Action::Jump));
        self.jump_latched = self.jump_latched || self.actions.jump.became_active_this_tick;
    }

    /// The jump request of this physics tick; a latched rising edge is consumed, so each press
    /// is honoured by one tick only.
    pub fn take_jump_request(&mut self) -> (r: JumpRequest)
        ensures
            r == request_of(latched_edge(*old(self)), old(self).config.jump_height),
            !final(self).jump_latched,
            final(self).actions == old(self).actions,
            final(self).config == old(self).config,
            final(self).body == old(self).body,
    {
        let edge = ActionEdge {
            is_active: self.actions.jump.is_active,
            became_active_this_tick: self.jump_latched,
        };
        self.jump_latched = false;
        evaluate(edge, self.config.jump_height)
    }

    /// Steers the body for one physics tick from the latest input sample and the probe's hit,
    /// under `gravity` mm/s² at `tick_rate` ticks per second.
    pub fn step(&mut self, hit: Option<ProbeHit>, gravity: u32, tick_rate: u16) -> (r: TickReport)
        ensures
            ({
                let c = *old(self);
                let basis = basis_of(
                    intent_of_axes(axis_x(c.actions), axis_z(c.actions)),
                    c.config.max_speed,
                    c.config.float_height,
                );
                let jump = request_of(latched_edge(c), c.config.jump_height);
                let grounding = grounding_of(hit, c.config.float_height, GROUND_TOLERANCE, u32::MAX);
                &&& final(self).body.velocity == driven_velocity(
                    c.body.velocity,
                    basis,
                    jump,
                    grounding,
                    gravity,
                    tick_rate,
                )
                &&& final(self).body.state == state_of(grounding)
                &&& r == report_of(c.body.state, jump, grounding)
            }),
            !final(self).jump_latched,
            final(self).actions == old(self).actions,
            final(self).config == old(self).config,
    {
        let intent = MovementIntent::from_actions(&self.actions);
        let basis = compute(intent, self.config.max_speed, self.config.float_height);
        let jump = self.take_jump_request();
        // The engine's cast already bounds how far it looks, so every reported hit is in range.
        let grounding = probe(hit, self.config.float_height, GROUND_TOLERANCE, u32::MAX);
        advance(&mut self.body, basis, jump, grounding, gravity, tick_rate)
    }
}

} // verus!
