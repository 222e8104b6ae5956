use bevy_math::Dir3;
use bevy_math::FloatOrd;
use bevy_math::Quat;
use bevy_math::Vec3;
use local_up::align::align_up;
use local_up::align::converge;
use local_up::align::preserve_attitude;
use local_up::align::target_rotation;
use local_up::AlignMode;
use local_up::LocalUp;
use local_up::OldUp;
use std::f32::consts::FRAC_PI_2;

const DT: FloatOrd = FloatOrd(0.5);

/// A level frame stays level: forward (0,0,-1), up (0,1,0), no delayed-up,
/// snap policy. The right vector is (1,0,0), the rebuilt up (0,1,0), and the
/// resulting orientation is the identity.
#[test]
fn snap_keeps_level_frame_at_identity() {
    let r = align_up(Quat::IDENTITY, &LocalUp(Dir3::Y), None, None, DT);
    assert_eq!(r.rotation, Quat::IDENTITY);
    assert_eq!(r.old_up.0, Dir3::Y);
}

/// A frame rolled a quarter turn about its look axis snaps back to the
/// horizon in one pass: the target orientation is reached exactly.
#[test]
fn snap_removes_roll_in_one_pass() {
    let rolled = Quat::from_rotation_z(FRAC_PI_2);
    let r = align_up(rolled, &LocalUp(Dir3::Y), None, None, DT);
    assert_eq!(r.rotation, Quat::IDENTITY);
}

/// The target orientation only rolls: its forward direction is the current
/// one, and its right vector is perpendicular to the up direction.
#[test]
fn target_keeps_forward_and_levels_right() {
    let rolled = Quat::from_rotation_z(FRAC_PI_2);
    let target = target_rotation(&rolled, Dir3::Y).unwrap();
    let fwd_before = rolled * Vec3::NEG_Z;
    let fwd_after = target * Vec3::NEG_Z;
    assert!((fwd_after - fwd_before).length() < 1e-6);
    let right_after = target * Vec3::X;
    assert!(right_after.dot(Vec3::Y).abs() < 1e-6);
}

/// Attitude preservation applies exactly the minimal-angle rotation carrying
/// the previous up direction onto the current one.
#[test]
fn attitude_preservation_applies_the_arc() {
    let r = preserve_attitude(Quat::IDENTITY, Dir3::Y, Dir3::X);
    assert_eq!(r, Quat::from_rotation_arc(Vec3::Y, Vec3::X));
    assert!(r.angle_between(Quat::IDENTITY) > 1.0);

    let start = Quat::from_rotation_x(0.5);
    let r = preserve_attitude(start, Dir3::Y, Dir3::X);
    assert_eq!(r, Quat::from_rotation_arc(Vec3::Y, Vec3::X) * start);
}

/// A linear step large enough to reach the target lands exactly on the
/// target and does not overshoot.
#[test]
fn linear_clamps_at_target() {
    let rolled = Quat::from_rotation_z(FRAC_PI_2);
    let mode = AlignMode::Linear { rate: FloatOrd(10.0) };
    let r = align_up(rolled, &LocalUp(Dir3::Y), None, Some(mode), FloatOrd(1.0));
    assert_eq!(r.rotation, Quat::IDENTITY);
}

/// A linear step covers exactly `rate * dt` radians: no more, and the
/// remaining angle to the target shrinks by just that much.
#[test]
fn linear_steps_at_its_rate() {
    let rolled = Quat::from_rotation_z(FRAC_PI_2);
    let mode = AlignMode::Linear { rate: FloatOrd(1.0) };
    let r = align_up(rolled, &LocalUp(Dir3::Y), None, Some(mode), DT);
    assert!((rolled.angle_between(r.rotation) - 0.5).abs() < 1e-4);
    assert!((r.rotation.angle_between(Quat::IDENTITY) - (FRAC_PI_2 - 0.5)).abs() < 1e-4);
}

/// With the orientation already at the target, the linear policy returns the
/// target itself (the zero angle is never divided by).
#[test]
fn linear_zero_angle_returns_target() {
    let mode = AlignMode::Linear { rate: FloatOrd(1.0) };
    let r = converge(Quat::IDENTITY, Quat::IDENTITY, Some(mode), DT);
    assert_eq!(r, Quat::IDENTITY);
}

/// An exponential step removes the fraction `factor * dt` of the remaining
/// angle: first-order decay of the angle to the target.
#[test]
fn exponential_decays_remaining_angle() {
    let rolled = Quat::from_rotation_z(FRAC_PI_2);
    let mode = AlignMode::Exponential { factor: FloatOrd(0.5) };
    let r = align_up(rolled, &LocalUp(Dir3::Y), None, Some(mode), FloatOrd(0.2));
    let expected = 0.9 * FRAC_PI_2;
    assert!((r.rotation.angle_between(Quat::IDENTITY) - expected).abs() < 1e-4);
}

/// With `factor * dt` at 2, the exponential policy overshoots past the
/// target by the starting angle — expected behavior, the fraction is
/// deliberately unclamped.
#[test]
fn exponential_overshoots_past_target() {
    let rolled = Quat::from_rotation_z(FRAC_PI_2);
    let mode = AlignMode::Exponential { factor: FloatOrd(4.0) };
    let r = align_up(rolled, &LocalUp(Dir3::Y), None, Some(mode), FloatOrd(0.5));
    assert!((r.rotation - Quat::from_rotation_z(-FRAC_PI_2)).length() < 1e-6);
}

/// A step fraction of absurd magnitude — from a malformed factor or rate —
/// is rejected: the orientation is left unchanged for the tick, whether the
/// fraction is merely huge or has overflowed to infinity.
#[test]
fn absurd_step_fraction_is_rejected() {
    let rolled = Quat::from_rotation_z(FRAC_PI_2);
    let huge = AlignMode::Exponential { factor: FloatOrd(4096.0) };
    let r = align_up(rolled, &LocalUp(Dir3::Y), None, Some(huge), FloatOrd(1.0));
    assert_eq!(r.rotation, rolled);
    let overflowing = AlignMode::Exponential { factor: FloatOrd(1.0e30) };
    let r = align_up(rolled, &LocalUp(Dir3::Y), None, Some(overflowing), FloatOrd(1.0e30));
    assert_eq!(r.rotation, rolled);
}

/// Looking straight along the up direction (forward equal to up, or to its
/// negation) is the degenerate case: the pass leaves the orientation exactly
/// unchanged and raises no failure.
#[test]
fn degenerate_forward_along_up_is_untouched() {
    let r = align_up(Quat::IDENTITY, &LocalUp(Dir3::NEG_Z), None, None, DT);
    assert_eq!(r.rotation, Quat::IDENTITY);
    let r = align_up(Quat::IDENTITY, &LocalUp(Dir3::Z), None, None, DT);
    assert_eq!(r.rotation, Quat::IDENTITY);
    let mode = AlignMode::Linear { rate: FloatOrd(1.0) };
    let r = align_up(Quat::IDENTITY, &LocalUp(Dir3::NEG_Z), None, Some(mode), DT);
    assert_eq!(r.rotation, Quat::IDENTITY);
}

/// Repeated snap passes with an unchanged up direction hold the orientation
/// fixed at the target.
#[test]
fn snap_is_idempotent() {
    let rolled = Quat::from_rotation_z(FRAC_PI_2);
    let first = align_up(rolled, &LocalUp(Dir3::Y), None, None, DT);
    let second = align_up(
        first.rotation,
        &LocalUp(Dir3::Y),
        Some(OldUp(Dir3::Y)),
        None,
        DT,
    );
    assert_eq!(second.rotation, first.rotation);
    let third = align_up(
        second.rotation,
        &LocalUp(Dir3::Y),
        Some(OldUp(Dir3::Y)),
        None,
        DT,
    );
    assert_eq!(third.rotation, second.rotation);
}

/// A pass with a delayed-up on record first applies the arc from the old up
/// direction onto the new one. With the up direction swung from +Y to +X and
/// a level starting frame, the arc is a quarter roll, the rolled frame is
/// already horizon-aligned for +X, and the pass returns just that roll.
#[test]
fn up_change_premultiplies_arc() {
    let arc = Quat::from_rotation_arc(Vec3::Y, Vec3::X);
    let r = align_up(
        Quat::IDENTITY,
        &LocalUp(Dir3::X),
        Some(OldUp(Dir3::Y)),
        None,
        DT,
    );
    // A quaternion and its negation describe the same rotation; the matrix
    // path may return either representative.
    let distance = (r.rotation - arc).length().min((r.rotation + arc).length());
    assert!(distance < 1e-6);
    assert_eq!(r.old_up.0, Dir3::X);
}
