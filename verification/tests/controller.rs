//! Jump controller, movement, integrator, boundary and full-tick behaviour.

use jump_kinematics::frame::GravityFrame;
use jump_kinematics::motion::{
    apply_ground, clamp_horizontal, integrate, player_jump, player_move, respawn, tick,
};
use jump_kinematics::profile::{solve, DerivedConstants, JumpProfile};
use jump_kinematics::rat::Rat;
use jump_kinematics::state::{ContactState, InputSnapshot, PhysicsState};
use jump_kinematics::vec2::Vec2;

fn small_profile() -> (JumpProfile, DerivedConstants) {
    // v=1, d=2, h=1: jump_velocity = 2, jump_gravity = -2, fall = -4.
    let p = JumpProfile::new(
        Rat::from_int(1),
        Rat::from_int(2),
        Rat::from_int(1),
        Rat::from_int(2),
        2,
        Rat::from_int(100),
    )
    .unwrap();
    let c = solve(&p).unwrap();
    (p, c)
}

#[test]
fn jump_arc_reaches_designed_apex() {
    // Simulating the integrator from rest with jump_velocity and
    // jump_gravity reaches the apex (d/2, h) exactly: four quarter-steps of
    // the time-to-apex d/(2v).
    let (_p, c) = small_profile();
    let mut s = PhysicsState {
        position: Vec2::zero(),
        velocity: Vec2::new(Rat::from_int(1), c.jump_velocity),
        acceleration: Vec2::zero(),
        jumps_remaining: 1,
        gravity_scalar: c.jump_gravity,
        contact: ContactState::Airborne,
        frame: GravityFrame::identity(),
    };
    let dt = Rat::new(1, 4);
    for _ in 0..4 {
        assert!(integrate(&mut s, &dt));
    }
    // Horizontal displacement d/2 = 1, height h = 1, vertical velocity 0.
    assert_eq!(s.position.x.eqv(&Rat::from_int(1)), Some(true));
    assert_eq!(s.position.y.eqv(&Rat::from_int(1)), Some(true));
    assert_eq!(s.velocity.y.eqv(&Rat::zero()), Some(true));
}

#[test]
fn triple_jump_counter() {
    // max_jumps = 3: three jump triggers each preceded by landing leave the
    // counter at 3 after the third landing; triggers past zero are no-ops.
    let p = JumpProfile::new(
        Rat::from_int(1),
        Rat::from_int(2),
        Rat::from_int(1),
        Rat::from_int(2),
        3,
        Rat::from_int(100),
    )
    .unwrap();
    let c = solve(&p).unwrap();
    let floor = Rat::zero();
    let mut s = PhysicsState::spawn(&p, &c);
    for _ in 0..3 {
        assert!(player_jump(&mut s, &c, true, false));
        assert_eq!(s.jumps_remaining, 2);
        assert_eq!(s.contact, ContactState::Airborne);
        // Land again: the ground check resets the counter.
        s.position.y = Rat::from_int(-1);
        assert!(apply_ground(&mut s, &p, &c, &floor));
        assert_eq!(s.jumps_remaining, 3);
        assert_eq!(s.contact, ContactState::Grounded);
    }
    assert_eq!(s.jumps_remaining, 3);
    // Exhaust the counter without landing; the vertical speed must have
    // decayed below jump_velocity for a new trigger to take.
    for expected in [2u8, 1, 0] {
        s.velocity.y = Rat::zero();
        assert!(player_jump(&mut s, &c, true, false));
        assert_eq!(s.jumps_remaining, expected);
    }
    // A fourth trigger with no jumps left is a no-op, not an error.
    s.velocity.y = Rat::zero();
    assert!(player_jump(&mut s, &c, true, false));
    assert_eq!(s.jumps_remaining, 0);
    assert_eq!(s.velocity.y.eqv(&Rat::zero()), Some(true));
}

#[test]
fn jump_guard_and_release() {
    let (_p, c) = small_profile();
    let pr = JumpProfile::new(
        Rat::from_int(1),
        Rat::from_int(2),
        Rat::from_int(1),
        Rat::from_int(2),
        2,
        Rat::from_int(100),
    )
    .unwrap();
    let mut s = PhysicsState::spawn(&pr, &c);
    // Already moving up faster than jump_velocity: the trigger is refused.
    s.velocity.y = Rat::from_int(10);
    s.contact = ContactState::Airborne;
    assert!(player_jump(&mut s, &c, true, false));
    assert_eq!(s.jumps_remaining, 2);
    assert_eq!(s.velocity.y.eqv(&Rat::from_int(10)), Some(true));
    // Releasing the button while airborne switches to fall gravity at once.
    assert!(player_jump(&mut s, &c, false, true));
    assert_eq!(s.gravity_scalar.eqv(&c.fall_gravity), Some(true));
}

#[test]
fn movement_assigns_and_clamps() {
    let (p, c) = small_profile();
    let mut s = PhysicsState::spawn(&p, &c);
    // Holding right assigns +v.
    assert!(player_move(&mut s, &p, false, true));
    assert_eq!(s.velocity.x.eqv(&Rat::from_int(1)), Some(true));
    // Both held while already at +v: the right guard reads the entering
    // speed (+v is not below the limit) and fails, so the left assignment
    // stands -- the stale-guard quirk of the held-direction policy.
    assert!(player_move(&mut s, &p, true, true));
    assert_eq!(s.velocity.x.eqv(&Rat::from_int(-1)), Some(true));
    // Both held from rest: both guards pass and the right assignment,
    // applied second, wins.
    s.velocity.x = Rat::zero();
    assert!(player_move(&mut s, &p, true, true));
    assert_eq!(s.velocity.x.eqv(&Rat::from_int(1)), Some(true));
    // Holding left from rest assigns -v.
    s.velocity.x = Rat::zero();
    assert!(player_move(&mut s, &p, true, false));
    assert_eq!(s.velocity.x.eqv(&Rat::from_int(-1)), Some(true));
    // The guard never slows an entity already faster the other way.
    s.velocity.x = Rat::from_int(-5);
    assert!(player_move(&mut s, &p, true, false));
    assert_eq!(s.velocity.x.eqv(&Rat::from_int(-5)), Some(true));
    // The clamp pulls any excess back to the limit, in both directions.
    assert!(clamp_horizontal(&mut s, &p));
    assert_eq!(s.velocity.x.eqv(&Rat::from_int(-1)), Some(true));
    s.velocity.x = Rat::from_int(100);
    assert!(clamp_horizontal(&mut s, &p));
    assert_eq!(s.velocity.x.eqv(&Rat::from_int(1)), Some(true));
}

#[test]
fn boundary_respawns_to_origin() {
    let (p, c) = small_profile();
    let mut s = PhysicsState::spawn(&p, &c);
    // Exactly on the radius is inside: 3-4-5 with radius 5.
    let tight = JumpProfile::new(
        Rat::from_int(1),
        Rat::from_int(2),
        Rat::from_int(1),
        Rat::from_int(2),
        2,
        Rat::from_int(5),
    )
    .unwrap();
    s.position = Vec2::new(Rat::from_int(3), Rat::from_int(4));
    assert!(respawn(&mut s, &tight));
    assert_eq!(s.position.x.eqv(&Rat::from_int(3)), Some(true));
    // Beyond the radius resets the position and only the position.
    s.position = Vec2::new(Rat::from_int(101), Rat::from_int(0));
    s.velocity.x = Rat::from_int(1);
    assert!(respawn(&mut s, &p));
    assert_eq!(s.position.x.eqv(&Rat::zero()), Some(true));
    assert_eq!(s.position.y.eqv(&Rat::zero()), Some(true));
    assert_eq!(s.velocity.x.eqv(&Rat::from_int(1)), Some(true));
}

#[test]
fn ground_contact_resets_vertical_motion() {
    let (p, c) = small_profile();
    let mut s = PhysicsState::spawn(&p, &c);
    s.position = Vec2::new(Rat::from_int(2), Rat::from_int(-1));
    s.velocity = Vec2::new(Rat::from_int(1), Rat::from_int(-3));
    s.jumps_remaining = 0;
    s.contact = ContactState::Airborne;
    s.gravity_scalar = c.jump_gravity;
    let floor = Rat::zero();
    assert!(apply_ground(&mut s, &p, &c, &floor));
    assert_eq!(s.position.y.eqv(&Rat::zero()), Some(true));
    assert_eq!(s.velocity.y.eqv(&Rat::zero()), Some(true));
    assert_eq!(s.velocity.x.eqv(&Rat::from_int(1)), Some(true));
    assert_eq!(s.jumps_remaining, 2);
    assert_eq!(s.contact, ContactState::Grounded);
    assert_eq!(s.gravity_scalar.eqv(&c.fall_gravity), Some(true));
}

#[test]
fn full_tick_jump_and_land() {
    // A jump through the whole pipeline: up on the press, back on the ground
    // after the designed flight time 2 * d/(2v) = 2, at half-unit steps.
    let (p, c) = small_profile();
    let dt = Rat::new(1, 2);
    let floor = Rat::zero();
    let mut s = PhysicsState::spawn(&p, &c);
    let jump = InputSnapshot { jump_pressed: true, ..InputSnapshot::none() };
    s = tick(&s, &p, &c, &jump, &dt, &floor).unwrap();
    assert_eq!(s.contact, ContactState::Airborne);
    assert_eq!(s.jumps_remaining, 1);
    let coast = InputSnapshot::none();
    for _ in 0..2 {
        s = tick(&s, &p, &c, &coast, &dt, &floor).unwrap();
        assert_eq!(s.contact, ContactState::Airborne);
    }
    s = tick(&s, &p, &c, &coast, &dt, &floor).unwrap();
    assert_eq!(s.contact, ContactState::Grounded);
    assert_eq!(s.jumps_remaining, 2);
    assert_eq!(s.position.y.eqv(&Rat::zero()), Some(true));
    assert_eq!(s.gravity_scalar.eqv(&c.fall_gravity), Some(true));
}

#[test]
fn reduced_state_denotes_the_same_state() {
    let (p, c) = small_profile();
    let dt = Rat::new(1, 2);
    let floor = Rat::from_int(-100);
    let mut s = PhysicsState::spawn(&p, &c);
    let jump = InputSnapshot { jump_pressed: true, ..InputSnapshot::none() };
    s = tick(&s, &p, &c, &jump, &dt, &floor).unwrap();
    let r = s.reduced();
    assert_eq!(r.position.x.eqv(&s.position.x), Some(true));
    assert_eq!(r.position.y.eqv(&s.position.y), Some(true));
    assert_eq!(r.velocity.x.eqv(&s.velocity.x), Some(true));
    assert_eq!(r.velocity.y.eqv(&s.velocity.y), Some(true));
    assert_eq!(r.gravity_scalar.eqv(&s.gravity_scalar), Some(true));
    assert_eq!(r.jumps_remaining, s.jumps_remaining);
    assert_eq!(r.contact, s.contact);
    assert_eq!(r.frame, s.frame);
    assert!(r.position.y.den() <= s.position.y.den());
}

#[test]
fn world_getters_follow_the_frame() {
    let (p, c) = small_profile();
    let dt = Rat::new(1, 2);
    let floor = Rat::from_int(-100);
    let mut s = PhysicsState::spawn(&p, &c);
    s.position = Vec2::new(Rat::from_int(1), Rat::from_int(2));
    // A quarter turn counter-clockwise sends local (1, 2) to world (-2, 1).
    let turn = InputSnapshot { rotate_right_pressed: true, ..InputSnapshot::none() };
    s = tick(&s, &p, &c, &turn, &dt, &floor).unwrap();
    let w = s.world_position().unwrap();
    // One no-input tick at fall gravity moved the local position too; read
    // the frame mapping through a fresh still state instead.
    let mut still = PhysicsState::spawn(&p, &c);
    still.position = Vec2::new(Rat::from_int(1), Rat::from_int(2));
    still.frame = s.frame;
    let w2 = still.world_position().unwrap();
    assert_eq!(w2.x.eqv(&Rat::from_int(-2)), Some(true));
    assert_eq!(w2.y.eqv(&Rat::from_int(1)), Some(true));
    // The gravity force the physics collaborator consumes follows the frame:
    // grounded fall gravity -4 down the rotated vertical is world (4, 0).
    let g = still.get_gravity().unwrap();
    assert_eq!(g.x.eqv(&Rat::from_int(4)), Some(true));
    assert_eq!(g.y.eqv(&Rat::zero()), Some(true));
    let _ = w;
}
