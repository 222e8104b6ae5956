//! The alignment engine: one tick of orientation alignment for one entity.
//!
//! Given an entity's orientation, its current up direction, the previous
//! tick's up direction (if any) and an interpolation policy, the engine
//! produces the entity's orientation for this tick and the delayed-up value
//! to record for the next one.

use vstd::prelude::*;
use bevy_math::Dir3;
use bevy_math::FloatOrd;
use bevy_math::Quat;
use bevy_math::Vec3;
use crate::math::angle_of;
use crate::math::arc_of;
use crate::math::back_of;
use crate::math::cols_of;
use crate::math::cross_of;
use crate::math::dir_as_vec;
use crate::math::dir_vec_of;
use crate::math::fdiv_of;
use crate::math::float_bits;
use crate::math::float_div;
use crate::math::float_finite;
use crate::math::float_is_zero;
use crate::math::float_min;
use crate::math::float_moderate;
use crate::math::float_mul;
use crate::math::lemma_finite_not_inf;
use crate::math::lemma_finite_not_nan;
use crate::math::fmin_of;
use crate::math::fmul_of;
use crate::math::forward_of;
use crate::math::mat_from_cols;
use crate::math::qmul_of;
use crate::math::quat_angle_between;
use crate::math::quat_back;
use crate::math::quat_bounded;
use crate::math::quat_unit;
use crate::math::quat_forward;
use crate::math::quat_from_mat;
use crate::math::quat_from_mat_of;
use crate::math::quat_mul;
use crate::math::quat_slerp;
use crate::math::rotation_arc;
use crate::math::slerp_of;
use crate::math::try_normalize_of;
use crate::math::vec_cross;
use crate::math::vec_try_normalize;
use crate::AlignMode;
use crate::LocalUp;
use crate::OldUp;

verus! {

/// What one engine pass yields for one entity: the orientation for this
/// tick, and the delayed-up value to write for the next tick's pass. The
/// host applies both after the computation.
pub struct AlignOutcome {
    /// The entity's orientation after this tick's alignment.
    pub rotation: Quat,
    /// The delayed-up record to store: always the current up direction.
    pub old_up: OldUp,
}

/// The orientation after attitude preservation: when a previous up direction
/// is on record, the minimal-angle rotation carrying it onto the current one
/// is applied on top of `rotation`; otherwise `rotation` stands as it is.
pub open spec fn arc_adjusted(rotation: Quat, previous: Option<OldUp>, up: Dir3) -> Quat {
    match previous {
        Option::None => rotation,
        Option::Some(o) => qmul_of(arc_of(dir_vec_of(o.0), dir_vec_of(up)), rotation),
    }
}

/// The horizon-aligned target orientation for an orientation `base` and an
/// up vector `up`: the right vector is the normalized cross product of
/// `base`'s forward direction with `up`, the new up completes the basis, and
/// the look direction is kept. `None` when forward and `up` are parallel, so
/// no horizon direction exists (the degenerate case).
pub open spec fn target_of(base: Quat, up: Vec3) -> Option<Quat> {
    match try_normalize_of(cross_of(forward_of(base), up)) {
        Option::None => Option::None,
        Option::Some(right) => Option::Some(
            quat_from_mat_of(cols_of(right, cross_of(right, forward_of(base)), back_of(base))),
        ),
    }
}

/// The slerp fraction of one linear step: the angle to cover this tick is
/// the angle to the target, capped at `rate * dt`.
pub open spec fn linear_fraction(angle: FloatOrd, rate: FloatOrd, dt: FloatOrd) -> FloatOrd {
    fdiv_of(fmin_of(angle, fmul_of(rate, dt)), angle)
}

/// The orientation one convergence step leaves: the target itself under the
/// snap policy (no mode), a step of at most `rate * dt` radians toward the
/// target under the linear policy, and a step by fraction `factor * dt` of
/// the remaining angle under the exponential policy (unclamped by design: a
/// large `factor * dt` may overshoot past the target). A step fraction of
/// absurd magnitude — not finite, or a thousand and more, reachable only
/// through malformed rates or factors — is rejected and leaves the
/// orientation unchanged for the tick.
pub open spec fn converge_spec(current: Quat, target: Quat, mode: Option<AlignMode>, dt: FloatOrd) -> Quat {
    match mode {
        Option::None => target,
        Option::Some(AlignMode::Linear { rate }) => if float_is_zero(angle_of(current, target)) {
            target
        } else {
            let fraction = linear_fraction(angle_of(current, target), rate, dt);
            if float_moderate(fraction) {
                slerp_of(current, target, fraction)
            } else {
                current
            }
        },
        Option::Some(AlignMode::Exponential { factor }) => if float_moderate(fmul_of(factor, dt)) {
            slerp_of(current, target, fmul_of(factor, dt))
        } else {
            current
        },
    }
}

/// The orientation one full engine pass leaves: attitude preservation, then
/// convergence toward the horizon-aligned target, or the attitude-preserved
/// orientation alone when the target is undefined.
pub open spec fn align_spec(
    rotation: Quat,
    up: Dir3,
    previous: Option<OldUp>,
    mode: Option<AlignMode>,
    dt: FloatOrd,
) -> Quat {
    let base = arc_adjusted(rotation, previous, up);
    match target_of(base, dir_vec_of(up)) {
        Option::None => base,
        Option::Some(t) => converge_spec(base, t, mode, dt),
    }
}

/// The policy's scalar and the tick duration are finite, as the host's
/// configuration contract demands of a rate or factor (a positive real) and
/// of an elapsed time (a non-negative real number of seconds).
pub open spec fn mode_finite(mode: Option<AlignMode>, dt: FloatOrd) -> bool {
    match mode {
        Option::None => true,
        Option::Some(AlignMode::Linear { rate }) => float_finite(rate) && float_finite(dt),
        Option::Some(AlignMode::Exponential { factor }) => float_finite(factor) && float_finite(dt),
    }
}

/// Attitude preservation. Applies, on top of `rotation`, the minimal-angle
/// rotation that maps the previous up direction onto the current one, so
/// that an entity whose up vector moved keeps its apparent attitude
/// relative to the horizon.
pub fn preserve_attitude(rotation: Quat, previous: Dir3, current: Dir3) -> (r: Quat)
    requires
        quat_unit(rotation),
    ensures
        r == qmul_of(arc_of(dir_vec_of(previous), dir_vec_of(current)), rotation),
        quat_unit(r),
{
    let arc = rotation_arc(dir_as_vec(previous), dir_as_vec(current));
    quat_mul(arc, rotation)
}

/// The horizon-aligned target orientation for `base` and `up`, or `None` in
/// the degenerate case where `base`'s forward direction is parallel to `up`
/// and the cross product cannot be normalized.
pub fn target_rotation(base: &Quat, up: Dir3) -> (r: Option<Quat>)
    requires
        quat_unit(*base),
    ensures
        r == target_of(*base, dir_vec_of(up)),
        (r matches Some(t) ==> quat_bounded(t)),
{
    let fwd = quat_forward(base);
    match vec_try_normalize(vec_cross(fwd, dir_as_vec(up))) {
        Option::None => Option::None,
        Option::Some(right) => {
            let new_up = vec_cross(right, fwd);
            Option::Some(quat_from_mat(&mat_from_cols(right, new_up, quat_back(base))))
        },
    }
}

/// One convergence step from `current` toward `target` under `mode`: snap
/// when no mode is attached; otherwise step as [`converge_spec`] says. Under
/// the linear policy a zero angle to the target short-circuits to the target
/// itself, and a step fraction of absurd magnitude — possible only with a
/// malformed rate or factor — leaves the orientation unchanged.
pub fn converge(current: Quat, target: Quat, mode: Option<AlignMode>, dt: FloatOrd) -> (r: Quat)
    requires
        mode_finite(mode, dt),
        quat_unit(current),
        quat_bounded(target),
    ensures
        r == converge_spec(current, target, mode, dt),
{
    match mode {
        Option::None => target,
        Option::Some(AlignMode::Linear { rate }) => {
            let angle = quat_angle_between(&current, &target);
            let bits = float_bits(angle);
            if bits == 0u32 || bits == 0x8000_0000u32 {
                target
            } else {
                proof {
                    lemma_finite_not_nan(angle);
                    lemma_finite_not_inf(angle);
                }
                let step = float_min(angle, float_mul(rate, dt));
                let fraction = float_div(step, angle);
                let fraction_bits = float_bits(fraction);
                if fraction_bits & 0x7fff_ffffu32 < 0x4480_0000u32 {
                    quat_slerp(current, target, fraction)
                } else {
                    current
                }
            }
        },
        Option::Some(AlignMode::Exponential { factor }) => {
            let fraction = float_mul(factor, dt);
            let fraction_bits = float_bits(fraction);
            if fraction_bits & 0x7fff_ffffu32 < 0x4480_0000u32 {
                quat_slerp(current, target, fraction)
            } else {
                current
            }
        },
    }
}

/// One engine pass for one entity with a current up direction: preserve the
/// attitude across a moved up vector, compute the horizon-aligned target,
/// and converge toward it per `mode` — or leave the attitude-preserved
/// orientation alone in the degenerate case. Also yields the delayed-up
/// value to record for the next tick, which is always the current up.
pub fn align_up(
    rotation: Quat,
    local_up: &LocalUp,
    previous: Option<OldUp>,
    mode: Option<AlignMode>,
    dt: FloatOrd,
) -> (r: AlignOutcome)
    requires
        quat_unit(rotation),
        mode_finite(mode, dt),
    ensures
        r.rotation == align_spec(rotation, local_up.0, previous, mode, dt),
        r.old_up.0 == local_up.0,
{
    let base = match previous {
        Option::None => rotation,
        Option::Some(o) => preserve_attitude(rotation, o.0, local_up.0),
    };
    let new_rotation = match target_rotation(&base, local_up.0) {
        Option::None => base,
        Option::Some(t) => converge(base, t, mode, dt),
    };
    AlignOutcome { rotation: new_rotation, old_up: OldUp(local_up.0) }
}

/// Attitude preservation law: with a previous up direction `u_old` on
/// record and a current one `u_new`, the orientation the engine proceeds
/// from is exactly the minimal-angle rotation carrying `u_old` onto `u_new`,
/// applied on top of the incoming orientation.
pub proof fn lemma_attitude_preservation(rotation: Quat, u_old: Dir3, u_new: Dir3)
    ensures
        arc_adjusted(rotation, Option::Some(OldUp(u_old)), u_new) == qmul_of(
            arc_of(dir_vec_of(u_old), dir_vec_of(u_new)),
            rotation,
        ),
{
}

/// Snap law: when the target orientation is defined, one engine pass with no
/// interpolation policy leaves the orientation exactly at the target.
pub proof fn lemma_snap_hits_target(rotation: Quat, up: Dir3, previous: Option<OldUp>, dt: FloatOrd)
    ensures
        (match target_of(arc_adjusted(rotation, previous, up), dir_vec_of(up)) {
            Option::Some(t) => align_spec(rotation, up, previous, Option::None, dt) == t,
            Option::None => true,
        }),
{
}

/// Degenerate-input law: when the entity's forward direction is parallel to
/// its up direction, so the cross product cannot be normalized and no
/// horizon-aligned target exists, an engine pass with no previous up on
/// record leaves the orientation exactly unchanged, under every policy.
pub proof fn lemma_degenerate_keeps_rotation(
    rotation: Quat,
    up: Dir3,
    mode: Option<AlignMode>,
    dt: FloatOrd,
)
    requires
        try_normalize_of(cross_of(forward_of(rotation), dir_vec_of(up))) is None,
    ensures
        align_spec(rotation, up, Option::None, mode, dt) == rotation,
{
}

/// Linear zero-angle law: when the angle to the target compares equal to
/// zero, a linear step leaves the orientation at the target itself rather
/// than dividing by the zero angle.
pub proof fn lemma_linear_zero_angle(current: Quat, target: Quat, rate: FloatOrd, dt: FloatOrd)
    requires
        float_is_zero(angle_of(current, target)),
    ensures
        converge_spec(current, target, Option::Some(AlignMode::Linear { rate }), dt) == target,
{
}

} // verus!
