//! Solver, rational arithmetic and gravity-frame behaviour.

use jump_kinematics::errors::ValidationError;
use jump_kinematics::frame::{GravityFrame, Rotation};
use jump_kinematics::profile::{solve, JumpProfile};
use jump_kinematics::rat::Rat;
use jump_kinematics::vec2::Vec2;

fn profile(v: i64, d: i64, h: i64, heavy_num: i64, heavy_den: i64, jumps: u8, r: i64) -> JumpProfile {
    JumpProfile::new(
        Rat::from_int(v),
        Rat::from_int(d),
        Rat::from_int(h),
        Rat::new(heavy_num, heavy_den),
        jumps,
        Rat::from_int(r),
    )
    .unwrap()
}

#[test]
fn rational_arithmetic_is_exact() {
    let a = Rat::new(1, 3);
    let b = Rat::new(1, 6);
    let sum = a.add(&b).unwrap();
    assert_eq!(sum.eqv(&Rat::new(1, 2)), Some(true));
    let prod = a.mul(&b).unwrap();
    assert_eq!(prod.eqv(&Rat::new(1, 18)), Some(true));
    let diff = a.sub(&b).unwrap();
    assert_eq!(diff.eqv(&Rat::new(1, 6)), Some(true));
    let neg = a.neg().unwrap();
    assert_eq!(neg.eqv(&Rat::new(-1, 3)), Some(true));
    // A negative denominator moves the sign to the numerator.
    let c = Rat::new(-6, -4);
    assert_eq!(c.num(), 6);
    assert_eq!(c.den(), 4);
    assert_eq!(c.eqv(&Rat::new(3, 2)), Some(true));
    assert_eq!(a.lt(&b), Some(false));
    assert_eq!(b.lt(&a), Some(true));
    assert_eq!(a.le(&a), Some(true));
    assert!(Rat::new(5, 7).is_pos());
    assert!(Rat::new(-5, 7).is_neg());
    assert!(Rat::zero().is_zero());
}

#[test]
fn reduction_keeps_the_value() {
    // 1/3 + 1/6 is carried as 9/18; reduction brings it to 1/2 exactly.
    let sum = Rat::new(1, 3).add(&Rat::new(1, 6)).unwrap();
    assert_eq!(sum.den(), 18);
    let small = sum.reduced();
    assert_eq!(small.num(), 1);
    assert_eq!(small.den(), 2);
    assert_eq!(small.eqv(&sum), Some(true));
    let neg = Rat::new(-10, 4).reduced();
    assert_eq!(neg.num(), -5);
    assert_eq!(neg.den(), 2);
    assert_eq!(Rat::zero().reduced().eqv(&Rat::zero()), Some(true));
}

#[test]
fn solver_concrete_values() {
    // Profile v=20, d=7, h=5: jump_gravity = -16000/49 (about -326.53) and
    // jump_velocity = 400/7 (about 57.14), pinning the derivation formulas.
    let p = profile(20, 7, 5, 2, 1, 1, 100);
    let c = solve(&p).unwrap();
    assert_eq!(c.jump_velocity.num(), 400);
    assert_eq!(c.jump_velocity.den(), 7);
    assert_eq!(c.jump_gravity.num(), -16000);
    assert_eq!(c.jump_gravity.den(), 49);
    // fall_gravity = heavy_scalar * jump_gravity = -32000/49
    assert_eq!(c.fall_gravity.eqv(&Rat::new(-32000, 49)), Some(true));
    let jv = c.jump_velocity.num() as f64 / c.jump_velocity.den() as f64;
    let jg = c.jump_gravity.num() as f64 / c.jump_gravity.den() as f64;
    assert!((jv - 57.14).abs() < 0.01);
    assert!((jg + 326.53).abs() < 0.01);
}

#[test]
fn solver_rejects_invalid_profiles() {
    let v = Rat::from_int(20);
    let d = Rat::from_int(7);
    let h = Rat::from_int(5);
    let heavy = Rat::from_int(2);
    let r = Rat::from_int(100);
    assert_eq!(
        JumpProfile::new(Rat::zero(), d, h, heavy, 1, r),
        Err(ValidationError::NonPositiveSpeed)
    );
    assert_eq!(
        JumpProfile::new(v, Rat::from_int(-3), h, heavy, 1, r),
        Err(ValidationError::NonPositiveDistance)
    );
    assert_eq!(
        JumpProfile::new(v, d, Rat::zero(), heavy, 1, r),
        Err(ValidationError::NonPositiveHeight)
    );
    assert_eq!(
        JumpProfile::new(v, d, h, Rat::new(1, 2), 1, r),
        Err(ValidationError::HeavyScalarBelowOne)
    );
    assert_eq!(JumpProfile::new(v, d, h, heavy, 0, r), Err(ValidationError::ZeroMaxJumps));
    assert_eq!(
        JumpProfile::new(v, d, h, heavy, 1, Rat::from_int(-1)),
        Err(ValidationError::NegativeBoundaryRadius)
    );
}

#[test]
fn rotation_must_lie_on_unit_circle() {
    // 3-4-5 is a point of the unit circle; 1/2, 1/2 is not.
    assert!(Rotation::from_ratios(&Rat::new(3, 5), &Rat::new(4, 5)).is_ok());
    assert_eq!(
        Rotation::from_ratios(&Rat::new(1, 2), &Rat::new(1, 2)),
        Err(ValidationError::NotARotation)
    );
    // Exact cross products far past the machine range are rejected as such.
    let huge = Rat::new(i64::MAX, i64::MAX);
    assert_eq!(
        Rotation::from_ratios(&huge, &huge),
        Err(ValidationError::OutOfRange)
    );
}

#[test]
fn rotate_zero_is_identity() {
    let mut f = GravityFrame::from_rotation(
        Rotation::from_ratios(&Rat::new(3, 5), &Rat::new(4, 5)).unwrap(),
    );
    let before = f;
    assert!(f.rotate(&Rotation::identity()));
    assert_eq!(f, before);
}

#[test]
fn rotate_then_inverse_restores_basis() {
    let mut f = GravityFrame::identity();
    let rot = Rotation::from_ratios(&Rat::new(3, 5), &Rat::new(4, 5)).unwrap();
    assert!(f.rotate(&rot));
    assert!(f.rotate(&rot.inverse()));
    // The orientation denotes the same angle as the identity, exactly.
    let o = f.orientation();
    assert_eq!(o.cos().eqv(&Rat::one()), Some(true));
    assert_eq!(o.sin().eqv(&Rat::zero()), Some(true));
}

#[test]
fn quarter_turns_cancel() {
    let mut f = GravityFrame::identity();
    assert!(f.rotate(&Rotation::quarter_turn_ccw()));
    assert!(f.rotate(&Rotation::quarter_turn_cw()));
    assert_eq!(f, GravityFrame::identity());
}

#[test]
fn decompose_recovers_gravity_scalar() {
    // decompose(gravity_vector(s)) == (0, s) for a rotated frame.
    let mut f = GravityFrame::identity();
    assert!(f.rotate(&Rotation::from_ratios(&Rat::new(3, 5), &Rat::new(4, 5)).unwrap()));
    let s = Rat::new(-326, 1);
    let world = f.gravity_vector(&s).unwrap();
    let local = f.decompose(&world).unwrap();
    assert_eq!(local.x.eqv(&Rat::zero()), Some(true));
    assert_eq!(local.y.eqv(&s), Some(true));
}

#[test]
fn decompose_inverts_apply() {
    let mut f = GravityFrame::identity();
    assert!(f.rotate(&Rotation::from_ratios(&Rat::new(-4, 5), &Rat::new(3, 5)).unwrap()));
    let v = Vec2::new(Rat::new(7, 3), Rat::new(-2, 9));
    let w = f.apply(&v).unwrap();
    let back = f.decompose(&w).unwrap();
    assert_eq!(back.x.eqv(&v.x), Some(true));
    assert_eq!(back.y.eqv(&v.y), Some(true));
}
