//! Trusted boundary around `bevy_math`.
//!
//! The alignment logic works on `bevy_math`'s vector and quaternion values.
//! Those values are opaque here: each operation the logic needs is wrapped in
//! a small trusted function, and what the operation returns is given a name
//! (an uninterpreted spec function of the arguments). The verified code's
//! contracts are stated over those names, so every caller sees exactly which
//! operation produced each value and from which arguments.
//!
//! A name claims that the operation is a function of its arguments. IEEE-754
//! arithmetic is exactly that — except where an operation forms a fresh NaN,
//! whose bit pattern the machine chooses. Each wrapper whose operation could
//! do so therefore `requires` a domain on which it cannot: well-formed
//! (finite, unit-scale) vectors and quaternions, named by the `..._unit`,
//! `..._bounded` and `mat_wf` predicates, and scalars screened by bit-level
//! conditions on `bits_of`. The rest are total.

use vstd::prelude::*;
use bevy_math::Dir3;
use bevy_math::FloatOrd;
use bevy_math::Mat3;
use bevy_math::Quat;
use bevy_math::Vec3;

verus! {

#[verifier::external_type_specification]
#[verifier::external_body]
pub struct ExQuat(Quat);

#[verifier::external_type_specification]
#[verifier::external_body]
pub struct ExVec3(Vec3);

#[verifier::external_type_specification]
#[verifier::external_body]
pub struct ExMat3(Mat3);

#[verifier::external_type_specification]
#[verifier::external_body]
pub struct ExDir3(Dir3);

#[verifier::external_type_specification]
#[verifier::external_body]
pub struct ExFloatOrd(FloatOrd);

/// The unit vector a `Dir3` holds.
pub uninterp spec fn dir_vec_of(d: Dir3) -> Vec3;

/// The minimal-angle rotation mapping `from` onto `to`, for unit vectors.
pub uninterp spec fn arc_of(from: Vec3, to: Vec3) -> Quat;

/// The quaternion (Hamilton) product `a * b`: the rotation `b` followed by `a`.
pub uninterp spec fn qmul_of(a: Quat, b: Quat) -> Quat;

/// The negative z axis rotated by `q`: the forward direction of an
/// orientation `q`.
pub uninterp spec fn forward_of(q: Quat) -> Vec3;

/// The positive z axis rotated by `q`: the backward direction of an
/// orientation `q`.
pub uninterp spec fn back_of(q: Quat) -> Vec3;

/// The cross product of two vectors.
pub uninterp spec fn cross_of(a: Vec3, b: Vec3) -> Vec3;

/// The unit vector in the direction of `v`, or `None` when the length of `v`
/// is zero, infinite, or too small to normalize.
pub uninterp spec fn try_normalize_of(v: Vec3) -> Option<Vec3>;

/// The matrix with columns `x`, `y`, `z`.
pub uninterp spec fn cols_of(x: Vec3, y: Vec3, z: Vec3) -> Mat3;

/// The rotation whose basis vectors are the columns of `m`, for an
/// orthonormal `m`.
pub uninterp spec fn quat_from_mat_of(m: Mat3) -> Quat;

/// The angle, in radians, between the orientations `a` and `b`.
pub uninterp spec fn angle_of(a: Quat, b: Quat) -> FloatOrd;

/// The IEEE-754 bit pattern of the single-precision value a `FloatOrd` holds.
pub uninterp spec fn bits_of(a: FloatOrd) -> u32;

/// The IEEE-754 product `a * b`.
pub uninterp spec fn fmul_of(a: FloatOrd, b: FloatOrd) -> FloatOrd;

/// The lesser of `a` and `b`.
pub uninterp spec fn fmin_of(a: FloatOrd, b: FloatOrd) -> FloatOrd;

/// The IEEE-754 quotient `a / b`.
pub uninterp spec fn fdiv_of(a: FloatOrd, b: FloatOrd) -> FloatOrd;

/// The spherical interpolation from `a` toward `b` by fraction `t`.
pub uninterp spec fn slerp_of(a: Quat, b: Quat, t: FloatOrd) -> Quat;

/// The vector is finite and of unit length, within the tolerance
/// `bevy_math`'s own normalization checks accept.
pub uninterp spec fn vec_unit(v: Vec3) -> bool;

/// Every component of the vector is finite and of magnitude at most a few:
/// the scale on which this pipeline's vectors live. A unit vector is such,
/// and so is a cross product of two such vectors.
pub uninterp spec fn vec_bounded(v: Vec3) -> bool;

/// The quaternion is finite and of unit length, within the tolerance
/// `bevy_math`'s own normalization checks accept.
pub uninterp spec fn quat_unit(q: Quat) -> bool;

/// Every component of the quaternion is finite and of magnitude at most a
/// few. A unit quaternion is such; so is one assembled from a matrix with
/// bounded entries.
pub uninterp spec fn quat_bounded(q: Quat) -> bool;

/// Every entry of the matrix is finite and of magnitude at most a few.
pub uninterp spec fn mat_wf(m: Mat3) -> bool;

/// An IEEE-754 single is infinite or NaN exactly when the eight exponent
/// bits are all ones; it is finite when they are not.
pub open spec fn float_finite(a: FloatOrd) -> bool {
    bits_of(a) & 0x7f80_0000u32 != 0x7f80_0000u32
}

/// An IEEE-754 single compares equal to `0.0` exactly when its bits are one
/// of the two zero patterns (positive and negative zero).
pub open spec fn float_is_zero(a: FloatOrd) -> bool {
    bits_of(a) == 0u32 || bits_of(a) == 0x8000_0000u32
}

/// An IEEE-754 single is a NaN exactly when its magnitude bits lie above the
/// infinity pattern; it is not a NaN when they do not.
pub open spec fn float_not_nan(a: FloatOrd) -> bool {
    bits_of(a) & 0x7fff_ffffu32 <= 0x7f80_0000u32
}

/// An IEEE-754 single is an infinity exactly when its magnitude bits equal
/// the infinity pattern.
pub open spec fn float_is_inf(a: FloatOrd) -> bool {
    bits_of(a) & 0x7fff_ffffu32 == 0x7f80_0000u32
}

/// The value's magnitude is below 1024. Every meaningful interpolation
/// fraction is far below this; the bound keeps the trigonometric
/// intermediates of a spherical interpolation in range, so no step of it can
/// form a NaN.
pub open spec fn float_moderate(a: FloatOrd) -> bool {
    bits_of(a) & 0x7fff_ffffu32 < 0x4480_0000u32
}

/// A finite value is not a NaN: when the exponent bits are not all ones, the
/// magnitude bits stay below the infinity pattern.
pub proof fn lemma_finite_not_nan(a: FloatOrd)
    requires
        float_finite(a),
    ensures
        float_not_nan(a),
{
    let x = bits_of(a);
    assert((x & 0x7f80_0000u32 != 0x7f80_0000u32) ==> ((x & 0x7fff_ffffu32)
        <= 0x7f80_0000u32)) by (bit_vector);
}

/// A finite value is not an infinity: when the exponent bits are not all
/// ones, the magnitude bits differ from the infinity pattern.
pub proof fn lemma_finite_not_inf(a: FloatOrd)
    requires
        float_finite(a),
    ensures
        !float_is_inf(a),
{
    let x = bits_of(a);
    assert((x & 0x7f80_0000u32 != 0x7f80_0000u32) ==> ((x & 0x7fff_ffffu32)
        != 0x7f80_0000u32)) by (bit_vector);
}

/// Relies on `Dir3::as_vec3`: returns the unit vector the direction holds.
/// A `Dir3` is by its documented invariant a normalized (finite, unit)
/// vector.
#[verifier::external_body]
pub(crate) fn dir_as_vec(d: Dir3) -> (r: Vec3)
    ensures
        r == dir_vec_of(d),
        vec_unit(r),
        vec_bounded(r),
{
    d.as_vec3()
}

/// Relies on `Quat::from_rotation_arc`: the minimal-angle rotation mapping
/// `from` onto `to` (the identity when they nearly coincide). Its contract
/// demands unit vectors; on those every branch — identity, the
/// half-turn about an orthonormal axis, and the normalized cross-and-dot
/// quaternion, whose squared length is at least twice the branch threshold —
/// is NaN-free and returns a unit quaternion. Never panics.
#[verifier::external_body]
pub(crate) fn rotation_arc(from: Vec3, to: Vec3) -> (r: Quat)
    requires
        vec_unit(from),
        vec_unit(to),
    ensures
        r == arc_of(from, to),
        quat_unit(r),
{
    Quat::from_rotation_arc(from, to)
}

/// Relies on `Mul<Quat> for Quat`: the Hamilton product, composing `b`'s
/// rotation with `a`'s. Its contract demands unit quaternions; products and
/// sums of unit-scale components stay finite, and the product of unit
/// quaternions is unit up to rounding.
#[verifier::external_body]
pub(crate) fn quat_mul(a: Quat, b: Quat) -> (r: Quat)
    requires
        quat_unit(a),
        quat_unit(b),
    ensures
        r == qmul_of(a, b),
        quat_unit(r),
{
    a * b
}

/// Relies on `Quat::mul_vec3`: rotates `Vec3::NEG_Z`, the conventional
/// forward axis, by `q`. Its contract demands a unit quaternion; rotating a
/// unit axis by one is NaN-free and yields a unit vector.
#[verifier::external_body]
pub(crate) fn quat_forward(q: &Quat) -> (r: Vec3)
    requires
        quat_unit(*q),
    ensures
        r == forward_of(*q),
        vec_unit(r),
        vec_bounded(r),
{
    q.mul_vec3(Vec3::NEG_Z)
}

/// Relies on `Quat::mul_vec3`: rotates `Vec3::Z`, the conventional backward
/// axis, by `q`. Same domain as the forward direction.
#[verifier::external_body]
pub(crate) fn quat_back(q: &Quat) -> (r: Vec3)
    requires
        quat_unit(*q),
    ensures
        r == back_of(*q),
        vec_unit(r),
        vec_bounded(r),
{
    q.mul_vec3(Vec3::Z)
}

/// Relies on `Vec3::cross`: the cross product of `a` and `b`. On vectors of
/// unit scale the component products and differences stay finite (no NaN can
/// form), and the result is again of unit scale — though possibly of any
/// length down to zero, so nothing more is claimed of it.
#[verifier::external_body]
pub(crate) fn vec_cross(a: Vec3, b: Vec3) -> (r: Vec3)
    requires
        vec_bounded(a),
        vec_bounded(b),
    ensures
        r == cross_of(a, b),
        vec_bounded(r),
{
    a.cross(b)
}

/// Relies on `Vec3::try_normalize`: `Some` of the unit vector in `v`'s
/// direction, or `None` when `v`'s length is zero, infinite, or too small.
/// Every degenerate or non-finite input lands in `None`; a `Some` value is
/// normalized.
#[verifier::external_body]
pub(crate) fn vec_try_normalize(v: Vec3) -> (r: Option<Vec3>)
    ensures
        r == try_normalize_of(v),
        (r matches Some(n) ==> vec_unit(n) && vec_bounded(n)),
{
    v.try_normalize()
}

/// Relies on `Mat3::from_cols`: the matrix with the given columns — a pure
/// constructor, so bounded columns give a matrix with bounded entries.
#[verifier::external_body]
pub(crate) fn mat_from_cols(x: Vec3, y: Vec3, z: Vec3) -> (r: Mat3)
    ensures
        r == cols_of(x, y, z),
        (vec_bounded(x) && vec_bounded(y) && vec_bounded(z)) ==> mat_wf(r),
{
    Mat3::from_cols(x, y, z)
}

/// Relies on `Quat::from_mat3`: the rotation whose basis vectors are the
/// columns of `m`. Its contract demands bounded entries: each branch of the
/// conversion takes the square root of a sum its own branch condition keeps
/// at one or above, then scales entry pairs by at most a quarter — NaN-free,
/// with every result component of unit scale. Never panics.
#[verifier::external_body]
pub(crate) fn quat_from_mat(m: &Mat3) -> (r: Quat)
    requires
        mat_wf(*m),
    ensures
        r == quat_from_mat_of(*m),
        quat_bounded(r),
{
    Quat::from_mat3(m)
}

/// Relies on `Quat::angle_between`: the angle, in radians, between the two
/// orientations. On a unit and a bounded quaternion the dot product is
/// finite, and the arccosine is clamped to its domain before evaluation, so
/// the angle is finite.
#[verifier::external_body]
pub(crate) fn quat_angle_between(a: &Quat, b: &Quat) -> (r: FloatOrd)
    requires
        quat_unit(*a),
        quat_bounded(*b),
    ensures
        r == angle_of(*a, *b),
        float_finite(r),
{
    FloatOrd(a.angle_between(*b))
}

/// Relies on `f32::to_bits`: the IEEE-754 bit pattern of the value.
#[verifier::external_body]
pub(crate) fn float_bits(a: FloatOrd) -> (r: u32)
    ensures
        r == bits_of(a),
{
    a.0.to_bits()
}

/// Relies on IEEE-754 `f32` multiplication, which is a function of its
/// operands; finite operands are required so that the result never depends
/// on how the machine forms a NaN, and the product of finite operands is
/// itself never a NaN (though it may overflow to an infinity).
#[verifier::external_body]
pub(crate) fn float_mul(a: FloatOrd, b: FloatOrd) -> (r: FloatOrd)
    requires
        float_finite(a),
        float_finite(b),
    ensures
        r == fmul_of(a, b),
        float_not_nan(r),
{
    FloatOrd(a.0 * b.0)
}

/// Relies on `f32::min`: the lesser of the two values. NaN operands are
/// excluded, as is the pair of zeroes, of which `min` may return either
/// sign; on the remaining domain the result is determined, and is one of
/// the two operands.
#[verifier::external_body]
pub(crate) fn float_min(a: FloatOrd, b: FloatOrd) -> (r: FloatOrd)
    requires
        float_not_nan(a),
        float_not_nan(b),
        !(float_is_zero(a) && float_is_zero(b)),
    ensures
        r == fmin_of(a, b),
        r == a || r == b,
{
    FloatOrd(a.0.min(b.0))
}

/// Relies on IEEE-754 `f32` division, which forms a NaN only for zero over
/// zero and infinity over infinity; with those and NaN operands excluded,
/// the quotient is a function of the operands.
#[verifier::external_body]
pub(crate) fn float_div(a: FloatOrd, b: FloatOrd) -> (r: FloatOrd)
    requires
        float_not_nan(a),
        float_not_nan(b),
        !(float_is_zero(a) && float_is_zero(b)),
        !(float_is_inf(a) && float_is_inf(b)),
    ensures
        r == fdiv_of(a, b),
{
    FloatOrd(a.0 / b.0)
}

/// Relies on `Quat::slerp`: the spherical interpolation from `a` toward `b`
/// by fraction `t`. Its contract demands normalized endpoints; `b` may be of
/// unit scale without being unit. The fraction must be of moderate
/// magnitude: both paths scale unit-scale components by factors built from
/// `t` and from sines of angles at most a right angle times `1 + t`, all
/// finite below the bound; the near-parallel path's renormalization divides
/// by a blend length that full cancellation could bring to zero only with a
/// fraction of twice the bound and more. So no step can form a NaN.
#[verifier::external_body]
pub(crate) fn quat_slerp(a: Quat, b: Quat, t: FloatOrd) -> (r: Quat)
    requires
        quat_unit(a),
        quat_bounded(b),
        float_moderate(t),
    ensures
        r == slerp_of(a, b, t),
{
    a.slerp(b, t.0)
}

} // verus!
