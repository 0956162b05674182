//! The per-tick motion pipeline.
//!
//! Fixed order, once per tick: rotation input, jump controller, movement
//! controller, horizontal speed clamp, gravity written into the acceleration,
//! semi-implicit Euler integration, ground contact, boundary monitor. Each
//! stage has an exact specification-level model; the executable stages return
//! false (and change nothing) exactly when an exact intermediate product
//! leaves the machine integer range, and otherwise land precisely on the
//! model.

use vstd::prelude::*;

use crate::frame::{rot_compose, rot_compose_fits, RotView, Rotation};
use crate::profile::{DerivedConstants, JumpProfile};
use crate::rat::{
    fits, lemma_q_le_congruence, q_add, q_add_fits, q_cmp_fits, q_eq, q_half, q_le, q_lt,
    q_mul, q_mul_fits, q_neg, q_wf, q_zero, Rat, RatView,
};
use crate::state::{jumps_bounded, state_wf, ContactState, InputSnapshot, PhysicsState, StateView};
use crate::vec2::{v_norm_sq, v_norm_sq_fits, v_zero, Vec2, Vec2View};

verus! {

/// A quarter turn clockwise, the rotate-left increment.
pub open spec fn quarter_cw_view() -> RotView {
    RotView { c: 0, s: -1, d: 1 }
}

/// A quarter turn counter-clockwise, the rotate-right increment.
pub open spec fn quarter_ccw_view() -> RotView {
    RotView { c: 0, s: 1, d: 1 }
}

/// Rotation input: a quarter turn per edge, left then right.
pub open spec fn rotate_step(s: StateView, rl: bool, rr: bool) -> StateView {
    let f1 = if rl {
        rot_compose(s.frame, quarter_cw_view())
    } else {
        s.frame
    };
    let f2 = if rr {
        rot_compose(f1, quarter_ccw_view())
    } else {
        f1
    };
    StateView { frame: f2, ..s }
}

pub open spec fn rotate_fits(s: StateView, rl: bool, rr: bool) -> bool {
    let f1 = if rl {
        rot_compose(s.frame, quarter_cw_view())
    } else {
        s.frame
    };
    &&& (rl ==> rot_compose_fits(s.frame, quarter_cw_view()))
    &&& (rr ==> rot_compose_fits(f1, quarter_ccw_view()))
}

/// A jump may trigger while jumps remain and the local vertical speed is
/// still below the jump speed (the guard keeps a jump from slowing an entity
/// already moving up faster).
pub open spec fn jump_trigger_allowed(s: StateView, jv: RatView) -> bool {
    s.jumps_remaining > 0 && q_lt(s.velocity.y, jv)
}

/// Rising-edge jump: set the local vertical speed to `jump_velocity`, spend
/// one jump, switch to jump gravity, leave the ground. A press with no jumps
/// left is a no-op, not an error.
pub open spec fn jump_step(s: StateView, jv: RatView, jg: RatView, pressed: bool) -> StateView {
    if pressed && jump_trigger_allowed(s, jv) {
        StateView {
            velocity: Vec2View { x: s.velocity.x, y: jv },
            jumps_remaining: s.jumps_remaining - 1,
            gravity_scalar: jg,
            contact: ContactState::Airborne,
            ..s
        }
    } else {
        s
    }
}

/// Falling-edge jump while airborne: switch to fall gravity immediately,
/// which gives the floaty rise and snappy fall.
pub open spec fn release_step(s: StateView, fall: RatView, released: bool) -> StateView {
    if released && s.contact is Airborne {
        StateView { gravity_scalar: fall, ..s }
    } else {
        s
    }
}

/// Held-direction movement: assign the full horizontal speed along the held
/// local axis, guarded so it never slows an entity already moving faster the
/// other way. Both guards read the horizontal speed the tick entered with,
/// so with both directions held the outcome depends on that entering speed:
/// right wins below the limit, but at or above `+vmax` the right guard fails
/// and the left assignment stands. This stale-guard behaviour is a deliberate
/// quirk of the held-direction policy, kept rather than special-cased.
pub open spec fn move_step(s: StateView, vmax: RatView, left: bool, right: bool) -> StateView {
    let s1 = if left && q_lt(q_neg(vmax), s.velocity.x) {
        StateView { velocity: Vec2View { x: q_neg(vmax), y: s.velocity.y }, ..s }
    } else {
        s
    };
    if right && q_lt(s.velocity.x, vmax) {
        StateView { velocity: Vec2View { x: vmax, y: s1.velocity.y }, ..s1 }
    } else {
        s1
    }
}

pub open spec fn move_fits(s: StateView, vmax: RatView, left: bool, right: bool) -> bool {
    &&& fits(-vmax.n)
    &&& (left ==> q_cmp_fits(q_neg(vmax), s.velocity.x))
    &&& (right ==> q_cmp_fits(s.velocity.x, vmax))
}

/// The post-movement invariant: the local horizontal speed never exceeds the
/// configured maximum; clamp to the limit, keeping direction.
pub open spec fn clamp_step(s: StateView, vmax: RatView) -> StateView {
    if q_lt(vmax, s.velocity.x) {
        StateView { velocity: Vec2View { x: vmax, y: s.velocity.y }, ..s }
    } else if q_lt(s.velocity.x, q_neg(vmax)) {
        StateView { velocity: Vec2View { x: q_neg(vmax), y: s.velocity.y }, ..s }
    } else {
        s
    }
}

pub open spec fn clamp_fits(s: StateView, vmax: RatView) -> bool {
    &&& fits(-vmax.n)
    &&& q_cmp_fits(vmax, s.velocity.x)
    &&& q_cmp_fits(s.velocity.x, q_neg(vmax))
}

/// Gravity is the only force: the local acceleration is the current gravity
/// scalar down the local vertical.
pub open spec fn accel_step(s: StateView) -> StateView {
    StateView { acceleration: Vec2View { x: q_zero(), y: s.gravity_scalar }, ..s }
}

/// One semi-implicit Euler component: `v + a * dt`.
pub open spec fn step_vel(v: RatView, a: RatView, dt: RatView) -> RatView {
    q_add(v, q_mul(a, dt))
}

/// One integration component: `p + v * dt + (1/2) * a * dt^2`.
pub open spec fn step_pos(p: RatView, v: RatView, a: RatView, dt: RatView) -> RatView {
    q_add(q_add(p, q_mul(v, dt)), q_mul(q_half(), q_mul(a, q_mul(dt, dt))))
}

pub open spec fn step_fits(p: RatView, v: RatView, a: RatView, dt: RatView) -> bool {
    &&& q_mul_fits(v, dt)
    &&& q_add_fits(p, q_mul(v, dt))
    &&& q_mul_fits(dt, dt)
    &&& q_mul_fits(a, q_mul(dt, dt))
    &&& q_mul_fits(q_half(), q_mul(a, q_mul(dt, dt)))
    &&& q_add_fits(q_add(p, q_mul(v, dt)), q_mul(q_half(), q_mul(a, q_mul(dt, dt))))
    &&& q_mul_fits(a, dt)
    &&& q_add_fits(v, q_mul(a, dt))
}

/// Advances position and velocity by one timestep under the acceleration.
pub open spec fn integrate_step(s: StateView, dt: RatView) -> StateView {
    StateView {
        position: Vec2View {
            x: step_pos(s.position.x, s.velocity.x, s.acceleration.x, dt),
            y: step_pos(s.position.y, s.velocity.y, s.acceleration.y, dt),
        },
        velocity: Vec2View {
            x: step_vel(s.velocity.x, s.acceleration.x, dt),
            y: step_vel(s.velocity.y, s.acceleration.y, dt),
        },
        ..s
    }
}

pub open spec fn integrate_fits(s: StateView, dt: RatView) -> bool {
    &&& step_fits(s.position.x, s.velocity.x, s.acceleration.x, dt)
    &&& step_fits(s.position.y, s.velocity.y, s.acceleration.y, dt)
}

/// Ground contact: if the local vertical position is at or below the floor
/// plane, clamp to the floor, zero vertical velocity and acceleration, reset
/// the jump counter, restore grounded gravity. The floor plane is
/// perpendicular to the local vertical, so it rides with the frame: rotating
/// the frame re-orients the ground along with gravity.
pub open spec fn ground_step(
    s: StateView,
    floor: RatView,
    max_jumps: int,
    fall: RatView,
) -> StateView {
    if q_le(s.position.y, floor) {
        StateView {
            position: Vec2View { x: s.position.x, y: floor },
            velocity: Vec2View { x: s.velocity.x, y: q_zero() },
            acceleration: Vec2View { x: s.acceleration.x, y: q_zero() },
            jumps_remaining: max_jumps,
            gravity_scalar: fall,
            contact: ContactState::Grounded,
            ..s
        }
    } else {
        s
    }
}

/// Boundary monitor: outside the playable radius the position resets to the
/// origin. Velocity, orientation and jump state are intentionally untouched.
pub open spec fn boundary_step(s: StateView, radius: RatView) -> StateView {
    if q_lt(q_mul(radius, radius), v_norm_sq(s.position)) {
        StateView { position: v_zero(), ..s }
    } else {
        s
    }
}

pub open spec fn boundary_fits(s: StateView, radius: RatView) -> bool {
    &&& v_norm_sq_fits(s.position)
    &&& q_mul_fits(radius, radius)
    &&& q_cmp_fits(q_mul(radius, radius), v_norm_sq(s.position))
}

/// The whole tick, in the fixed pipeline order.
pub open spec fn tick_model(
    s: StateView,
    p: JumpProfile,
    c: DerivedConstants,
    input: InputSnapshot,
    dt: RatView,
    floor: RatView,
) -> StateView {
    let s1 = rotate_step(s, input.rotate_left_pressed, input.rotate_right_pressed);
    let s2 = jump_step(s1, c.jump_velocity@, c.jump_gravity@, input.jump_pressed);
    let s3 = release_step(s2, c.fall_gravity@, input.jump_released);
    let s4 = move_step(s3, p.max_horizontal_speed@, input.left_held, input.right_held);
    let s5 = clamp_step(s4, p.max_horizontal_speed@);
    let s6 = accel_step(s5);
    let s7 = integrate_step(s6, dt);
    let s8 = ground_step(s7, floor, p.max_jumps as int, c.fall_gravity@);
    boundary_step(s8, p.boundary_radius@)
}

/// The success condition of `tick`: every stage's exact arithmetic fits.
pub open spec fn tick_fits(
    s: StateView,
    p: JumpProfile,
    c: DerivedConstants,
    input: InputSnapshot,
    dt: RatView,
    floor: RatView,
) -> bool {
    let s1 = rotate_step(s, input.rotate_left_pressed, input.rotate_right_pressed);
    let s2 = jump_step(s1, c.jump_velocity@, c.jump_gravity@, input.jump_pressed);
    let s3 = release_step(s2, c.fall_gravity@, input.jump_released);
    let s4 = move_step(s3, p.max_horizontal_speed@, input.left_held, input.right_held);
    let s5 = clamp_step(s4, p.max_horizontal_speed@);
    let s6 = accel_step(s5);
    let s7 = integrate_step(s6, dt);
    let s8 = ground_step(s7, floor, p.max_jumps as int, c.fall_gravity@);
    &&& rotate_fits(s, input.rotate_left_pressed, input.rotate_right_pressed)
    &&& (input.jump_pressed ==> q_cmp_fits(s1.velocity.y, c.jump_velocity@))
    &&& move_fits(s3, p.max_horizontal_speed@, input.left_held, input.right_held)
    &&& clamp_fits(s4, p.max_horizontal_speed@)
    &&& integrate_fits(s6, dt)
    &&& q_cmp_fits(s7.position.y, floor)
    &&& boundary_fits(s8, p.boundary_radius@)
}

/// Applies rotation input to the frame: rotate-left is a quarter turn
/// clockwise, rotate-right a quarter turn counter-clockwise, as both may
/// arrive in one tick. Returns false and changes nothing exactly on
/// machine-range exhaustion.
pub fn rotate(state: &mut PhysicsState, rotate_left: bool, rotate_right: bool) -> (ok: bool)
    requires
        old(state).wf(),
    ensures
        ok <==> rotate_fits(old(state)@, rotate_left, rotate_right),
        ok ==> final(state)@ == rotate_step(old(state)@, rotate_left, rotate_right) && final(state).wf(),
        !ok ==> *final(state) == *old(state),
{
    let mut f = state.frame;
    if rotate_left {
        if !f.rotate(&Rotation::quarter_turn_cw()) {
            return false;
        }
    }
    if rotate_right {
        if !f.rotate(&Rotation::quarter_turn_ccw()) {
            return false;
        }
    }
    state.frame = f;
    true
}

/// Applies an arbitrary rotation to the frame in place; composable, with no
/// bound on the accumulated angle.
pub fn rotate_by(state: &mut PhysicsState, rot: &Rotation) -> (ok: bool)
    requires
        old(state).wf(),
        rot.wf(),
    ensures
        ok <==> rot_compose_fits(old(state)@.frame, rot@),
        ok ==> final(state)@ == (StateView {
            frame: rot_compose(old(state)@.frame, rot@),
            ..old(state)@
        }) && final(state).wf(),
        !ok ==> *final(state) == *old(state),
{
    let mut f = state.frame;
    if !f.rotate(rot) {
        return false;
    }
    state.frame = f;
    true
}

/// The jump controller's per-tick update: the rising edge may trigger a jump,
/// the falling edge switches to fall gravity while airborne.
pub fn player_jump(
    state: &mut PhysicsState,
    constants: &DerivedConstants,
    pressed: bool,
    released: bool,
) -> (ok: bool)
    requires
        old(state).wf(),
        constants.jump_velocity.wf(),
        constants.jump_gravity.wf(),
        constants.fall_gravity.wf(),
    ensures
        ok <==> (pressed ==> q_cmp_fits(old(state)@.velocity.y, constants.jump_velocity@)),
        ok ==> final(state)@ == release_step(
            jump_step(old(state)@, constants.jump_velocity@, constants.jump_gravity@, pressed),
            constants.fall_gravity@,
            released,
        ) && final(state).wf(),
        !ok ==> *final(state) == *old(state),
{
    if pressed {
        match state.velocity.y.lt(&constants.jump_velocity) {
            Some(below_jump_speed) => {
                if state.jumps_remaining > 0 && below_jump_speed {
                    state.velocity.y = constants.jump_velocity;
                    state.jumps_remaining = state.jumps_remaining - 1;
                    state.gravity_scalar = constants.jump_gravity;
                    state.contact = ContactState::Airborne;
                }
            },
            None => {
                return false;
            },
        }
    }
    if released && state.contact == ContactState::Airborne {
        state.gravity_scalar = constants.fall_gravity;
    }
    true
}

/// The movement controller: assign the configured horizontal speed along a
/// held direction, left before right.
pub fn player_move(
    state: &mut PhysicsState,
    profile: &JumpProfile,
    left: bool,
    right: bool,
) -> (ok: bool)
    requires
        old(state).wf(),
        profile.wf(),
    ensures
        ok <==> move_fits(old(state)@, profile.max_horizontal_speed@, left, right),
        ok ==> final(state)@ == move_step(
            old(state)@,
            profile.max_horizontal_speed@,
            left,
            right,
        ) && final(state).wf(),
        !ok ==> *final(state) == *old(state),
{
    let vmax = &profile.max_horizontal_speed;
    let nv = match vmax.neg() {
        Some(v) => v,
        None => {
            return false;
        },
    };
    let entry_x = state.velocity.x;
    let mut new_x = entry_x;
    if left {
        match nv.lt(&entry_x) {
            Some(can_go_left) => {
                if can_go_left {
                    new_x = nv;
                }
            },
            None => {
                return false;
            },
        }
    }
    if right {
        match entry_x.lt(vmax) {
            Some(can_go_right) => {
                if can_go_right {
                    new_x = *vmax;
                }
            },
            None => {
                return false;
            },
        }
    }
    state.velocity.x = new_x;
    true
}

/// Clamps the local horizontal speed to the configured maximum.
pub fn clamp_horizontal(state: &mut PhysicsState, profile: &JumpProfile) -> (ok: bool)
    requires
        old(state).wf(),
        profile.wf(),
    ensures
        ok <==> clamp_fits(old(state)@, profile.max_horizontal_speed@),
        ok ==> final(state)@ == clamp_step(old(state)@, profile.max_horizontal_speed@) && final(state).wf(),
        !ok ==> *final(state) == *old(state),
{
    let vmax = &profile.max_horizontal_speed;
    let nv = match vmax.neg() {
        Some(v) => v,
        None => {
            return false;
        },
    };
    let above = match vmax.lt(&state.velocity.x) {
        Some(b) => b,
        None => {
            return false;
        },
    };
    let below = match state.velocity.x.lt(&nv) {
        Some(b) => b,
        None => {
            return false;
        },
    };
    if above {
        state.velocity.x = *vmax;
    } else if below {
        state.velocity.x = nv;
    }
    true
}

/// Computes one integration step's new position and velocity.
fn integrate_parts(position: &Vec2, velocity: &Vec2, accel: &Vec2, dt: &Rat) -> (r: Option<
    (Vec2, Vec2),
>)
    requires
        position.wf(),
        velocity.wf(),
        accel.wf(),
        dt.wf(),
    ensures
        r is Some <==> step_fits(position@.x, velocity@.x, accel@.x, dt@) && step_fits(
            position@.y,
            velocity@.y,
            accel@.y,
            dt@,
        ),
        r matches Some(pv) ==> {
            &&& pv.0@ == (Vec2View {
                x: step_pos(position@.x, velocity@.x, accel@.x, dt@),
                y: step_pos(position@.y, velocity@.y, accel@.y, dt@),
            })
            &&& pv.1@ == (Vec2View {
                x: step_vel(velocity@.x, accel@.x, dt@),
                y: step_vel(velocity@.y, accel@.y, dt@),
            })
            &&& pv.0.wf()
            &&& pv.1.wf()
        },
{
    let half = Rat::new(1, 2);
    let vdt_x = velocity.x.mul(dt)?;
    let p1_x = position.x.add(&vdt_x)?;
    let dt2 = dt.mul(dt)?;
    let adt2_x = accel.x.mul(&dt2)?;
    let h_x = half.mul(&adt2_x)?;
    let px = p1_x.add(&h_x)?;
    let vdt_y = velocity.y.mul(dt)?;
    let p1_y = position.y.add(&vdt_y)?;
    let adt2_y = accel.y.mul(&dt2)?;
    let h_y = half.mul(&adt2_y)?;
    let py = p1_y.add(&h_y)?;
    let adt_x = accel.x.mul(dt)?;
    let vx = velocity.x.add(&adt_x)?;
    let adt_y = accel.y.mul(dt)?;
    let vy = velocity.y.add(&adt_y)?;
    Some((Vec2::new(px, py), Vec2::new(vx, vy)))
}

/// The kinematic integrator: writes gravity into the acceleration, then
/// advances position and velocity by one semi-implicit Euler step.
pub fn integrate(state: &mut PhysicsState, dt: &Rat) -> (ok: bool)
    requires
        old(state).wf(),
        dt.wf(),
    ensures
        ok <==> integrate_fits(accel_step(old(state)@), dt@),
        ok ==> final(state)@ == integrate_step(accel_step(old(state)@), dt@) && final(state).wf(),
        !ok ==> *final(state) == *old(state),
{
    let accel = Vec2::new(Rat::zero(), state.gravity_scalar);
    match integrate_parts(&state.position, &state.velocity, &accel, dt) {
        Some(pv) => {
            state.position = pv.0;
            state.velocity = pv.1;
            state.acceleration = accel;
            true
        },
        None => false,
    }
}

/// Ground contact, re-checked defensively after integration so a large step
/// cannot tunnel through the floor: clamp to the floor plane, zero the
/// vertical motion, reset the jump counter, restore grounded gravity.
pub fn apply_ground(
    state: &mut PhysicsState,
    profile: &JumpProfile,
    constants: &DerivedConstants,
    floor_y: &Rat,
) -> (ok: bool)
    requires
        old(state).wf(),
        profile.wf(),
        constants.fall_gravity.wf(),
        floor_y.wf(),
    ensures
        ok <==> q_cmp_fits(old(state)@.position.y, floor_y@),
        ok ==> final(state)@ == ground_step(
            old(state)@,
            floor_y@,
            profile.max_jumps as int,
            constants.fall_gravity@,
        ) && final(state).wf(),
        !ok ==> *final(state) == *old(state),
{
    match state.position.y.le(floor_y) {
        Some(on_or_below) => {
            if on_or_below {
                state.position.y = *floor_y;
                state.velocity.y = Rat::zero();
                state.acceleration.y = Rat::zero();
                state.jumps_remaining = profile.max_jumps;
                state.gravity_scalar = constants.fall_gravity;
                state.contact = ContactState::Grounded;
            }
            true
        },
        None => false,
    }
}

/// The boundary monitor: an entity beyond the playable radius respawns at
/// the origin; everything else about it is intentionally left untouched.
pub fn respawn(state: &mut PhysicsState, profile: &JumpProfile) -> (ok: bool)
    requires
        old(state).wf(),
        profile.wf(),
    ensures
        ok <==> boundary_fits(old(state)@, profile.boundary_radius@),
        ok ==> final(state)@ == boundary_step(old(state)@, profile.boundary_radius@) && final(state).wf(),
        !ok ==> *final(state) == *old(state),
{
    let nsq = match state.position.norm_sq() {
        Some(v) => v,
        None => {
            return false;
        },
    };
    let r2 = match profile.boundary_radius.mul(&profile.boundary_radius) {
        Some(v) => v,
        None => {
            return false;
        },
    };
    match r2.lt(&nsq) {
        Some(outside) => {
            if outside {
                state.position = Vec2::zero();
            }
            true
        },
        None => false,
    }
}

/// One full simulation tick over a copy of the state: input is applied, the
/// controllers and the integrator run in the fixed pipeline order, and the
/// resulting state is exactly the specification model. `None` marks
/// machine-range exhaustion of an exact intermediate, nothing else.
pub fn tick(
    state: &PhysicsState,
    profile: &JumpProfile,
    constants: &DerivedConstants,
    input: &InputSnapshot,
    dt: &Rat,
    floor_y: &Rat,
) -> (r: Option<PhysicsState>)
    requires
        state.wf(),
        profile.wf(),
        constants.jump_velocity.wf(),
        constants.jump_gravity.wf(),
        constants.fall_gravity.wf(),
        dt.wf(),
        floor_y.wf(),
    ensures
        r is Some <==> tick_fits(state@, *profile, *constants, *input, dt@, floor_y@),
        r matches Some(s2) ==> s2@ == tick_model(
            state@,
            *profile,
            *constants,
            *input,
            dt@,
            floor_y@,
        ) && s2.wf(),
    r matches Some(s2) ==> (jumps_bounded(state@, profile.max_jumps as int)
            ==> jumps_bounded(s2@, profile.max_jumps as int)),
{
    let mut s = *state;
    if !rotate(&mut s, input.rotate_left_pressed, input.rotate_right_pressed) {
        return None;
    }
    if !player_jump(&mut s, constants, input.jump_pressed, input.jump_released) {
        return None;
    }
    if !player_move(&mut s, profile, input.left_held, input.right_held) {
        return None;
    }
    if !clamp_horizontal(&mut s, profile) {
        return None;
    }
    if !integrate(&mut s, dt) {
        return None;
    }
    if !apply_ground(&mut s, profile, constants, floor_y) {
        return None;
    }
    if !respawn(&mut s, profile) {
        return None;
    }
    proof {
        if jumps_bounded(state@, profile.max_jumps as int) {
            lemma_jump_counter(state@, *profile, *constants, *input, dt@, floor_y@);
        }
    }
    Some(s)
}

/// The jump counter stays in `[0, max_jumps]` across a tick; it decrements by
/// exactly one per successful jump trigger, resets to `max_jumps` exactly on
/// ground contact, and never changes otherwise.
pub proof fn lemma_jump_counter(
    s: StateView,
    p: JumpProfile,
    c: DerivedConstants,
    input: InputSnapshot,
    dt: RatView,
    floor: RatView,
)
    requires
        jumps_bounded(s, p.max_jumps as int),
    ensures
        ({
            let s1 = rotate_step(s, input.rotate_left_pressed, input.rotate_right_pressed);
            let triggered = input.jump_pressed && jump_trigger_allowed(s1, c.jump_velocity@);
            let s2 = jump_step(s1, c.jump_velocity@, c.jump_gravity@, input.jump_pressed);
            let s3 = release_step(s2, c.fall_gravity@, input.jump_released);
            let s4 = move_step(s3, p.max_horizontal_speed@, input.left_held, input.right_held);
            let s5 = clamp_step(s4, p.max_horizontal_speed@);
            let s7 = integrate_step(accel_step(s5), dt);
            let landed = q_le(s7.position.y, floor);
            let s9 = tick_model(s, p, c, input, dt, floor);
            &&& jumps_bounded(s9, p.max_jumps as int)
            &&& landed ==> s9.jumps_remaining == p.max_jumps as int
            &&& !landed && triggered ==> s9.jumps_remaining == s.jumps_remaining - 1
            &&& !landed && !triggered ==> s9.jumps_remaining == s.jumps_remaining
        }),
{
}

/// After any tick on any input, the local horizontal speed lies within the
/// configured maximum in both directions.
pub proof fn lemma_speed_clamped(
    s: StateView,
    p: JumpProfile,
    c: DerivedConstants,
    input: InputSnapshot,
    dt: RatView,
    floor: RatView,
)
    requires
        state_wf(s),
        p.wf(),
        q_wf(dt),
    ensures
        ({
            let s9 = tick_model(s, p, c, input, dt, floor);
            let vmax = p.max_horizontal_speed@;
            q_le(q_neg(vmax), s9.velocity.x) && q_le(s9.velocity.x, vmax)
        }),
{
    let vmax = p.max_horizontal_speed@;
    let s1 = rotate_step(s, input.rotate_left_pressed, input.rotate_right_pressed);
    let s2 = jump_step(s1, c.jump_velocity@, c.jump_gravity@, input.jump_pressed);
    let s3 = release_step(s2, c.fall_gravity@, input.jump_released);
    let s4 = move_step(s3, vmax, input.left_held, input.right_held);
    let s5 = clamp_step(s4, vmax);
    let vx = s5.velocity.x;
    assert(0 < vmax.n) by (nonlinear_arith)
        requires
            0 * vmax.d < vmax.n * 1,
    ;
    assert((-vmax.n) * vmax.d <= vmax.n * vmax.d) by (nonlinear_arith)
        requires
            0 < vmax.n,
            0 < vmax.d,
    ;
    assert(q_le(q_neg(vmax), vx) && q_le(vx, vmax));
    let s7 = integrate_step(accel_step(s5), dt);
    let vx7 = s7.velocity.x;
    assert((vx.n * (1 * dt.d) + (0 * dt.n) * vx.d) * vx.d == vx.n * (vx.d * (1 * dt.d)))
        by (nonlinear_arith);
    assert(q_eq(vx7, vx));
    assert(q_wf(vx)) by {
        vstd::arithmetic::mul::lemma_mul_strictly_positive(s.velocity.x.d, 1 * dt.d);
    }
    assert(q_wf(vx7)) by {
        vstd::arithmetic::mul::lemma_mul_strictly_positive(vx.d, 1 * dt.d);
    }
    lemma_q_le_congruence(q_neg(vmax), q_neg(vmax), vx, vx7);
    lemma_q_le_congruence(vx, vx7, vmax, vmax);
}

/// After any tick, the position lies within the boundary radius: a violation
/// is respawned to the origin before the tick ends.
pub proof fn lemma_boundary_respawn(
    s: StateView,
    p: JumpProfile,
    c: DerivedConstants,
    input: InputSnapshot,
    dt: RatView,
    floor: RatView,
)
    ensures
        ({
            let s9 = tick_model(s, p, c, input, dt, floor);
            let r = p.boundary_radius@;
            q_le(v_norm_sq(s9.position), q_mul(r, r))
        }),
{
    let r = p.boundary_radius@;
    assert(((0 * 0) * (1 * 1) + (0 * 0) * (1 * 1)) * (r.d * r.d) <= (r.n * r.n) * ((1 * 1) * (1
        * 1))) by (nonlinear_arith);
}

} // verus!
