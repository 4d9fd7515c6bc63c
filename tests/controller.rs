use locomotion::arith::{ceil_sqrt, SQRT_DOMAIN};
use locomotion::controller::{Controller, ControllerConfig, GROUND_TOLERANCE};
use locomotion::driver::{advance, jump_speed, ControlledBody, MotionState};
use locomotion::grounding::{probe, GroundingResult, ProbeHit};
use locomotion::input::{is_listed, Action, ActionEdge, ActionState};
use locomotion::jump::evaluate;
use locomotion::locomotion::{compute, LocomotionBasis, MovementIntent, DIRECTION_SCALE};
use locomotion::vector::Vector3;

const GRAVITY: u32 = 9810;
const TICK_RATE: u16 = 64;

fn ground_at(distance: u32) -> Option<ProbeHit> {
    Some(ProbeHit { distance, normal: Vector3::new(0, DIRECTION_SCALE, 0) })
}

fn magnitude_sq(i: MovementIntent) -> i128 {
    (i.dx as i128) * (i.dx as i128) + (i.dz as i128) * (i.dz as i128)
}

fn scale_sq() -> i128 {
    (DIRECTION_SCALE as i128) * (DIRECTION_SCALE as i128)
}

#[test]
fn ceil_sqrt_rounds_up() {
    assert_eq!(ceil_sqrt(0), 0);
    assert_eq!(ceil_sqrt(1), 1);
    assert_eq!(ceil_sqrt(2), 2);
    assert_eq!(ceil_sqrt(16), 4);
    assert_eq!(ceil_sqrt(17), 5);
    assert_eq!(ceil_sqrt(2_000_000), 1415);
    assert_eq!(ceil_sqrt(SQRT_DOMAIN), 1u64 << 43);
}

#[test]
fn axis_input_is_unit_length() {
    assert_eq!(MovementIntent::from_axes(0, 1), MovementIntent { dx: 0, dz: DIRECTION_SCALE });
    assert_eq!(MovementIntent::from_axes(0, -1), MovementIntent { dx: 0, dz: -DIRECTION_SCALE });
    assert_eq!(MovementIntent::from_axes(7, 0), MovementIntent { dx: DIRECTION_SCALE, dz: 0 });
}

#[test]
fn diagonal_input_is_not_faster() {
    let d = MovementIntent::from_axes(1, 1);
    assert_eq!(d, MovementIntent { dx: 7_071_067_811, dz: 7_071_067_811 });
    assert!(magnitude_sq(d) <= scale_sq());
    let e = MovementIntent::from_axes(-1, 1);
    assert_eq!(e, MovementIntent { dx: -7_071_067_811, dz: 7_071_067_811 });
    assert_eq!(MovementIntent::from_axes(3, -4), MovementIntent { dx: 6_000_000_000, dz: -8_000_000_000 });
    assert_eq!(MovementIntent::from_axes(1, 2), MovementIntent { dx: 4_472_135_954, dz: 8_944_271_909 });
    for (x, z) in [(5, 12), (-9, -9), (i16::MAX, i16::MIN), (1, i16::MAX), (-2, 3)] {
        let i = MovementIntent::from_axes(x, z);
        assert!(magnitude_sq(i) <= scale_sq());
    }
}

#[test]
fn velocity_is_within_one_of_exact() {
    for (x, z) in [(1, 1), (-1, 1), (1, 0), (3, -4), (-7, 2), (i16::MAX, i16::MIN), (1, i16::MAX)] {
        for m in [0u32, 1, 3, 10_000, 123_457, u32::MAX] {
            let b = compute(MovementIntent::from_axes(x, z), m, 1500);
            let r = ((x as f64).powi(2) + (z as f64).powi(2)).sqrt();
            let ex = x as f64 * m as f64 / r;
            let ez = z as f64 * m as f64 / r;
            assert!((b.desired_velocity.x as f64 - ex).abs() < 1.0, "{x} {z} {m}");
            assert!((b.desired_velocity.z as f64 - ez).abs() < 1.0, "{x} {z} {m}");
            assert_eq!(b.desired_velocity.y, 0);
        }
    }
}

#[test]
fn zero_input_gives_no_direction() {
    assert_eq!(MovementIntent::from_axes(0, 0), MovementIntent { dx: 0, dz: 0 });
    assert_eq!(MovementIntent::none(), MovementIntent { dx: 0, dz: 0 });
}

#[test]
fn intent_from_held_actions() {
    let mut s = ActionState::new();
    s.sample(&[Action::MoveForward, Action::MoveRight]);
    assert_eq!(MovementIntent::from_actions(&s), MovementIntent { dx: 7_071_067_811, dz: 7_071_067_811 });
    s.sample(&[Action::MoveForward, Action::MoveBack]);
    assert_eq!(MovementIntent::from_actions(&s), MovementIntent { dx: 0, dz: 0 });
    s.sample(&[Action::MoveLeft]);
    assert_eq!(MovementIntent::from_actions(&s), MovementIntent { dx: -DIRECTION_SCALE, dz: 0 });
}

#[test]
fn forward_intent_at_ten_metres_per_second() {
    let mut s = ActionState::new();
    s.sample(&[Action::MoveForward]);
    let intent = MovementIntent::from_actions(&s);
    let basis = compute(intent, 10_000, 1500);
    assert_eq!(basis.desired_velocity, Vector3::new(0, 0, 10_000));
    assert_eq!(basis.target_float_height, 1500);
}

#[test]
fn diagonal_speed_matches_axis_speed() {
    let mut s = ActionState::new();
    s.sample(&[Action::MoveForward, Action::MoveRight]);
    let diagonal = compute(MovementIntent::from_actions(&s), 10_000, 1500);
    assert_eq!(diagonal.desired_velocity, Vector3::new(7071, 0, 7071));
    let v = diagonal.desired_velocity;
    let speed = ((v.x * v.x + v.z * v.z) as f64).sqrt();
    assert!((speed - 10_000.0).abs() < 1.0);
    let slow = compute(MovementIntent::from_axes(-1, 1), 3, 1500);
    assert_eq!(slow.desired_velocity, Vector3::new(-2, 0, 2));
}

#[test]
fn speed_rounds_to_nearest() {
    let half = DIRECTION_SCALE / 2;
    let b = compute(MovementIntent { dx: half, dz: -half }, 3, 1500);
    assert_eq!(b.desired_velocity, Vector3::new(2, 0, -2));
    let c = compute(MovementIntent { dx: half - 1, dz: 0 }, 3, 1500);
    assert_eq!(c.desired_velocity, Vector3::new(1, 0, 0));
    let full = compute(MovementIntent { dx: 0, dz: -DIRECTION_SCALE }, u32::MAX, 1500);
    assert_eq!(full.desired_velocity, Vector3::new(0, 0, -(u32::MAX as i64)));
}

#[test]
fn compute_twice_gives_same_basis() {
    let intent = MovementIntent::from_axes(2, -5);
    let a = compute(intent, 7_500, 1200);
    let b = compute(intent, 7_500, 1200);
    assert_eq!(a, b);
}

#[test]
fn held_jump_rises_once() {
    let mut s = ActionState::new();
    for n in 0..6 {
        s.sample(&[Action::Jump]);
        assert!(s.pressed(Action::Jump));
        assert_eq!(s.just_pressed(Action::Jump), n == 0);
    }
    s.sample(&[]);
    assert_eq!(s.edge(Action::Jump), ActionEdge { is_active: false, became_active_this_tick: false });
    s.sample(&[Action::Jump, Action::MoveBack]);
    assert!(s.just_pressed(Action::Jump));
    assert!(s.just_pressed(Action::MoveBack));
    assert!(!s.just_pressed(Action::MoveForward));
}

#[test]
fn listed_actions() {
    assert!(is_listed(&[Action::MoveLeft, Action::Jump], Action::Jump));
    assert!(!is_listed(&[Action::MoveLeft, Action::Jump], Action::MoveRight));
    assert!(!is_listed(&[], Action::Jump));
}

#[test]
fn jump_request_follows_rising_edge() {
    let rising = ActionEdge { is_active: true, became_active_this_tick: true };
    let held = ActionEdge { is_active: true, became_active_this_tick: false };
    let r = evaluate(rising, 4000);
    assert!(r.requested_this_tick);
    assert_eq!(r.requested_height, 4000);
    assert!(!evaluate(held, 4000).requested_this_tick);
    assert!(!evaluate(ActionEdge::released(), 4000).requested_this_tick);
}

#[test]
fn band_edge_is_grounded() {
    let g = probe(ground_at(1550), 1500, 50, u32::MAX);
    assert!(g.is_grounded);
    assert_eq!(g.distance_to_surface, 1550);
    assert_eq!(g.surface_normal, Vector3::new(0, DIRECTION_SCALE, 0));
    assert!(!probe(ground_at(1551), 1500, 50, u32::MAX).is_grounded);
    assert!(probe(ground_at(900), 1500, 50, u32::MAX).is_grounded);
}

#[test]
fn no_hit_within_range_is_airborne() {
    let none = probe(None, 1500, 50, 3000);
    assert!(!none.is_grounded);
    assert_eq!(none.distance_to_surface, 3000);
    assert_eq!(none.surface_normal, Vector3::zero());
    let far = probe(ground_at(1000), 1500, 50, 800);
    assert!(!far.is_grounded);
    assert_eq!(far.distance_to_surface, 800);
}

#[test]
fn jump_speed_reaches_height() {
    assert_eq!(jump_speed(4000, GRAVITY), 8859);
    assert_eq!(jump_speed(0, GRAVITY), 0);
    assert_eq!(jump_speed(u32::MAX, u32::MAX), 6074000999);
}

#[test]
fn driver_floats_toward_target_height() {
    let mut body = ControlledBody { velocity: Vector3::new(300, -900, 40), state: MotionState::Airborne };
    let basis = LocomotionBasis { desired_velocity: Vector3::new(1000, 0, -2000), target_float_height: 1500 };
    let no_jump = evaluate(ActionEdge::released(), 4000);
    let low = GroundingResult { is_grounded: true, surface_normal: Vector3::new(0, DIRECTION_SCALE, 0), distance_to_surface: 1400 };
    let r = advance(&mut body, basis, no_jump, low, GRAVITY, TICK_RATE);
    assert_eq!(body.velocity, Vector3::new(1000, 6400, -2000));
    assert_eq!(body.state, MotionState::Grounded);
    assert!(!r.jump_honored);
    assert_eq!(r.transition, Some(MotionState::Grounded));
    let high = GroundingResult { distance_to_surface: 1550, ..low };
    let r2 = advance(&mut body, basis, no_jump, high, GRAVITY, TICK_RATE);
    assert_eq!(body.velocity, Vector3::new(1000, -3200, -2000));
    assert_eq!(r2.transition, None);
}

#[test]
fn grounded_jump_is_one_tick_impulse() {
    let mut c = Controller::new(ControllerConfig::default());
    c.sample_input(&[]);
    c.step(ground_at(1500), GRAVITY, TICK_RATE);
    assert_eq!(c.body.state, MotionState::Grounded);
    c.sample_input(&[Action::Jump]);
    let r = c.step(ground_at(1500), GRAVITY, TICK_RATE);
    assert!(r.jump_honored);
    assert_eq!(c.body.velocity.y, 8859);
    c.sample_input(&[Action::Jump]);
    let r2 = c.step(ground_at(1500), GRAVITY, TICK_RATE);
    assert!(!r2.jump_honored);
    assert_eq!(c.body.velocity.y, 0);
}

#[test]
fn airborne_jump_is_ignored() {
    let mut c = Controller::new(ControllerConfig::default());
    c.body.velocity = Vector3::new(0, -4000, 0);
    c.sample_input(&[Action::Jump]);
    let r = c.step(None, GRAVITY, TICK_RATE);
    assert!(!r.jump_honored);
    assert_eq!(r.transition, None);
    assert_eq!(c.body.state, MotionState::Airborne);
    assert_eq!(c.body.velocity.y, -4000);
}

#[test]
fn idle_grounded_body_does_not_drift() {
    let mut c = Controller::new(ControllerConfig::default());
    c.body.velocity = Vector3::new(250, 0, -125);
    for _ in 0..5 {
        c.sample_input(&[]);
        let intent = MovementIntent::from_actions(&c.actions);
        let basis = compute(intent, c.config.max_speed, c.config.float_height);
        assert_eq!(basis.desired_velocity, Vector3::zero());
        c.step(ground_at(1500), GRAVITY, TICK_RATE);
        assert_eq!(c.body.velocity, Vector3::zero());
        assert_eq!(c.body.state, MotionState::Grounded);
    }
}

#[test]
fn jump_edge_is_consumed_by_one_tick() {
    let mut c = Controller::new(ControllerConfig::default());
    c.sample_input(&[Action::Jump]);
    assert!(c.jump_latched);
    let first = c.step(ground_at(1500), GRAVITY, TICK_RATE);
    assert!(first.jump_honored);
    let second = c.step(ground_at(1500), GRAVITY, TICK_RATE);
    assert!(!second.jump_honored);
}

#[test]
fn jump_request_is_taken_once() {
    let mut c = Controller::new(ControllerConfig::default());
    c.sample_input(&[Action::Jump]);
    let first = c.take_jump_request();
    assert!(first.requested_this_tick);
    assert_eq!(first.requested_height, 4000);
    assert!(!c.take_jump_request().requested_this_tick);
    c.sample_input(&[Action::Jump]);
    assert!(!c.take_jump_request().requested_this_tick);
}

#[test]
fn jump_edge_survives_a_second_sample() {
    let mut c = Controller::new(ControllerConfig::default());
    c.sample_input(&[Action::Jump]);
    c.sample_input(&[Action::Jump]);
    assert!(!c.actions.just_pressed(Action::Jump));
    let r = c.step(ground_at(1500 + GROUND_TOLERANCE), GRAVITY, TICK_RATE);
    assert!(r.jump_honored);
}

#[test]
fn landing_and_leaving_ground_are_reported() {
    let mut c = Controller::new(ControllerConfig::default());
    let land = c.step(ground_at(1400), GRAVITY, TICK_RATE);
    assert_eq!(land.transition, Some(MotionState::Grounded));
    let stay = c.step(ground_at(1500), GRAVITY, TICK_RATE);
    assert_eq!(stay.transition, None);
    let leave = c.step(None, GRAVITY, TICK_RATE);
    assert_eq!(leave.transition, Some(MotionState::Airborne));
}

#[test]
fn default_config() {
    let d = ControllerConfig::default();
    assert_eq!(d.max_speed, 10_000);
    assert_eq!(d.float_height, 1500);
    assert_eq!(d.jump_height, 4000);
    assert_eq!(d.probe_shape_radius, 510);
    assert!(d.probe_shape_radius > 500);
}
