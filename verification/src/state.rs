//! Per-entity simulation state.
//!
//! `PhysicsState` is exclusively owned by its entity and mutated once per
//! tick by the fixed pipeline in `motion`. Position, velocity and
//! acceleration are stored in the entity's own frame-local coordinates (the
//! frame maps local to world); world-space values for the rendering edge come
//! from the getters.

use vstd::prelude::*;

use crate::frame::{
    frame_apply, frame_apply_fits, gravity_vec, rot_identity, rot_wf, GravityFrame, RotView,
};
use crate::profile::{DerivedConstants, JumpProfile};
use crate::rat::{q_eq, q_wf, q_zero, Rat, RatView};
use crate::vec2::{v_wf, v_zero, Vec2, Vec2View};

verus! {

/// The jump controller's contact state.
#[derive(Clone, Copy, Debug, PartialEq, Eq, Structural)]
pub enum ContactState {
    Grounded,
    Airborne,
}

/// One tick's input snapshot: held state and edge-triggered events for the
/// fixed set of logical actions. The core only reads this.
#[derive(Clone, Copy, Debug, PartialEq, Eq, Structural)]
pub struct InputSnapshot {
    /// Rising edge of the jump action this tick.
    pub jump_pressed: bool,
    /// Falling edge of the jump action this tick.
    pub jump_released: bool,
    /// The move-left action is currently held.
    pub left_held: bool,
    /// The move-right action is currently held.
    pub right_held: bool,
    /// Rising edge of the rotate-left action this tick.
    pub rotate_left_pressed: bool,
    /// Rising edge of the rotate-right action this tick.
    pub rotate_right_pressed: bool,
}

impl InputSnapshot {
    /// A tick with no input at all.
    pub fn none() -> (r: InputSnapshot)
        ensures
            r == (InputSnapshot {
                jump_pressed: false,
                jump_released: false,
                left_held: false,
                right_held: false,
                rotate_left_pressed: false,
                rotate_right_pressed: false,
            }),
    {
        InputSnapshot {
            jump_pressed: false,
            jump_released: false,
            left_held: false,
            right_held: false,
            rotate_left_pressed: false,
            rotate_right_pressed: false,
        }
    }
}

/// The state at the specification level.
pub struct StateView {
    pub position: Vec2View,
    pub velocity: Vec2View,
    pub acceleration: Vec2View,
    pub jumps_remaining: int,
    pub gravity_scalar: RatView,
    pub contact: ContactState,
    pub frame: RotView,
}

/// The jump-counter invariant: within `[0, max_jumps]` at all times.
pub open spec fn jumps_bounded(s: StateView, max_jumps: int) -> bool {
    0 <= s.jumps_remaining <= max_jumps
}

pub open spec fn state_wf(s: StateView) -> bool {
    &&& v_wf(s.position)
    &&& v_wf(s.velocity)
    &&& v_wf(s.acceleration)
    &&& q_wf(s.gravity_scalar)
    &&& rot_wf(s.frame)
    &&& s.jumps_remaining >= 0
}

/// Per-entity dynamic state, owned exclusively by the entity. Vectors are in
/// frame-local coordinates.
#[derive(Clone, Copy, Debug, PartialEq, Eq, Structural)]
pub struct PhysicsState {
    /// Frame-local position.
    pub position: Vec2,
    /// Frame-local velocity.
    pub velocity: Vec2,
    /// Frame-local acceleration, rewritten each tick from the gravity scalar.
    pub acceleration: Vec2,
    /// Jumps still available before the next ground contact.
    pub jumps_remaining: u8,
    /// The gravity scalar currently in effect (jump, fall, or zero).
    pub gravity_scalar: Rat,
    /// The jump controller's contact state.
    pub contact: ContactState,
    /// The orientable basis mapping local to world coordinates.
    pub frame: GravityFrame,
}

impl View for PhysicsState {
    type V = StateView;

    open spec fn view(&self) -> StateView {
        StateView {
            position: self.position@,
            velocity: self.velocity@,
            acceleration: self.acceleration@,
            jumps_remaining: self.jumps_remaining as int,
            gravity_scalar: self.gravity_scalar@,
            contact: self.contact,
            frame: self.frame@,
        }
    }
}

/// The state an entity spawns with: at rest at the origin, grounded, all
/// jumps available, fall gravity in effect, identity orientation.
pub open spec fn spawn_model(max_jumps: int, fall: RatView) -> StateView {
    StateView {
        position: v_zero(),
        velocity: v_zero(),
        acceleration: v_zero(),
        jumps_remaining: max_jumps,
        gravity_scalar: fall,
        contact: ContactState::Grounded,
        frame: rot_identity(),
    }
}

impl PhysicsState {
    pub open spec fn wf(self) -> bool {
        state_wf(self@)
    }

    /// The spawn-time state for a validated profile and its constants.
    pub fn spawn(profile: &JumpProfile, constants: &DerivedConstants) -> (s: PhysicsState)
        requires
            profile.wf(),
            constants.fall_gravity.wf(),
        ensures
            s@ == spawn_model(profile.max_jumps as int, constants.fall_gravity@),
            s.wf(),
            s@.jumps_remaining == profile.max_jumps as int,
            jumps_bounded(s@, profile.max_jumps as int),
    {
        PhysicsState {
            position: Vec2::zero(),
            velocity: Vec2::zero(),
            acceleration: Vec2::zero(),
            jumps_remaining: profile.max_jumps,
            gravity_scalar: constants.fall_gravity,
            contact: ContactState::Grounded,
            frame: GravityFrame::identity(),
        }
    }

    /// The same state with every rational brought to smaller terms, so a
    /// long-running caller keeps the exact arithmetic inside the machine
    /// range. Every component denotes the same value; nothing else changes.
    pub fn reduced(&self) -> (r: PhysicsState)
        requires
            self.wf(),
        ensures
            r.wf(),
            q_eq(r@.position.x, self@.position.x),
            q_eq(r@.position.y, self@.position.y),
            q_eq(r@.velocity.x, self@.velocity.x),
            q_eq(r@.velocity.y, self@.velocity.y),
            q_eq(r@.acceleration.x, self@.acceleration.x),
            q_eq(r@.acceleration.y, self@.acceleration.y),
            q_eq(r@.gravity_scalar, self@.gravity_scalar),
            r@.jumps_remaining == self@.jumps_remaining,
            r@.contact == self@.contact,
            r@.frame == self@.frame,
    {
        PhysicsState {
            position: Vec2::new(self.position.x.reduced(), self.position.y.reduced()),
            velocity: Vec2::new(self.velocity.x.reduced(), self.velocity.y.reduced()),
            acceleration: Vec2::new(
                self.acceleration.x.reduced(),
                self.acceleration.y.reduced(),
            ),
            jumps_remaining: self.jumps_remaining,
            gravity_scalar: self.gravity_scalar.reduced(),
            contact: self.contact,
            frame: self.frame,
        }
    }

    /// The position in world coordinates, for the rendering collaborator.
    pub fn world_position(&self) -> (r: Option<Vec2>)
        requires
            self.wf(),
        ensures
            r is Some <==> frame_apply_fits(self@.frame, self@.position),
            r matches Some(w) ==> w@ == frame_apply(self@.frame, self@.position) && w.wf(),
    {
        self.frame.apply(&self.position)
    }

    /// The velocity in world coordinates.
    pub fn world_velocity(&self) -> (r: Option<Vec2>)
        requires
            self.wf(),
        ensures
            r is Some <==> frame_apply_fits(self@.frame, self@.velocity),
            r matches Some(w) ==> w@ == frame_apply(self@.frame, self@.velocity) && w.wf(),
    {
        self.frame.apply(&self.velocity)
    }

    /// The gravity force vector in world coordinates: the current gravity
    /// scalar pointed down the local vertical, expressed through the frame.
    /// This is what a delegated rigid-body collaborator consumes each tick.
    pub fn get_gravity(&self) -> (r: Option<Vec2>)
        requires
            self.wf(),
        ensures
            r is Some <==> frame_apply_fits(
                self@.frame,
                Vec2View { x: q_zero(), y: self@.gravity_scalar },
            ),
            r matches Some(w) ==> w@ == gravity_vec(self@.frame, self@.gravity_scalar)
                && w.wf(),
    {
        self.frame.gravity_vector(&self.gravity_scalar)
    }
}

} // verus!
