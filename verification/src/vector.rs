//! The vector arithmetic the controller is built on, taken from `glam`.
//!
//! To the verifier a vector is an opaque value. In a contract it stands for
//! the numbers it holds: every NaN counts as the same number, and so do the
//! two zeros. Each operation used by the controller gets a name for its
//! result, and the function that calls `glam` is believed to return exactly
//! that result. Division is the one operation that tells the two zeros
//! apart, so its result is named for divisors without a zero only.

use bevy::math::Vec2;
use bevy::math::Vec3;
use vstd::prelude::*;

verus! {

/// `glam::Vec2`: two single-precision components, `x` and `y`.
#[verifier::external_type_specification]
#[verifier::external_body]
pub struct ExVec2(Vec2);

/// `glam::Vec3`: three single-precision components, `x`, `y` and `z`.
#[verifier::external_type_specification]
#[verifier::external_body]
pub struct ExVec3(Vec3);

/// The vector whose two components both equal the whole number `n`.
pub uninterp spec fn splat(n: u8) -> Vec2;

/// The component-wise sum `a + b`.
pub uninterp spec fn sum(a: Vec2, b: Vec2) -> Vec2;

/// The component-wise difference `a - b`.
pub uninterp spec fn difference(a: Vec2, b: Vec2) -> Vec2;

/// The component-wise product `a * b`.
pub uninterp spec fn product(a: Vec2, b: Vec2) -> Vec2;

/// The component-wise quotient `a / b`, for a `b` without a zero component.
pub uninterp spec fn quotient(a: Vec2, b: Vec2) -> Vec2;

/// `v` with each component raised to at least that of `lower` and then
/// lowered to at most that of `upper`.
pub uninterp spec fn clamped(v: Vec2, lower: Vec2, upper: Vec2) -> Vec2;

/// Whether `x` of `a` is at most `x` of `b` and `y` of `a` at most `y` of
/// `b`. A NaN is at most nothing, and nothing is at most a NaN.
pub uninterp spec fn all_le(a: Vec2, b: Vec2) -> bool;

/// Which components of `v` compare equal to zero: first `x`, then `y`.
pub uninterp spec fn zero_mask(v: Vec2) -> (bool, bool);

/// Whether the `y` component of `v` compares equal to zero.
pub open spec fn vertical_is_zero(v: Vec2) -> bool {
    zero_mask(v).1
}

/// Whether `x` or `y` of `v` compares equal to zero.
pub open spec fn has_zero_component(v: Vec2) -> bool {
    zero_mask(v).0 || zero_mask(v).1
}

/// The `x` and `y` components of `t`, without its `z`.
pub uninterp spec fn planar(t: Vec3) -> Vec2;

/// The vector with the `x` and `y` of `xy` and the `z` of `t`.
pub uninterp spec fn with_planar(t: Vec3, xy: Vec2) -> Vec3;

/// Calls `Vec2::splat` on `n` converted to single precision, a conversion
/// that is exact for every `u8`. Believed: the result is `splat(n)`, and its
/// components compare equal to zero exactly when `n` is zero.
#[verifier::external_body]
pub(crate) fn vec_splat(n: u8) -> (r: Vec2)
    ensures
        r == splat(n),
        zero_mask(r) == (n == 0, n == 0),
{
    Vec2::splat(n.into())
}

/// Calls `glam`'s `Add<Vec2> for Vec2`, which adds `x` to `x` and `y` to `y`.
/// Believed: the result is the same for the same two vectors.
#[verifier::external_body]
pub(crate) fn vec_sum(a: Vec2, b: Vec2) -> (r: Vec2)
    ensures
        r == sum(a, b),
{
    a + b
}

/// Calls `glam`'s `Sub<Vec2> for Vec2`, which subtracts `x` from `x` and `y`
/// from `y`. Believed: the result is the same for the same two vectors.
#[verifier::external_body]
pub(crate) fn vec_difference(a: Vec2, b: Vec2) -> (r: Vec2)
    ensures
        r == difference(a, b),
{
    a - b
}

/// Calls `glam`'s `Mul<Vec2> for Vec2`, which multiplies `x` by `x` and `y`
/// by `y`. Believed: the result is the same for the same two vectors.
#[verifier::external_body]
pub(crate) fn vec_product(a: Vec2, b: Vec2) -> (r: Vec2)
    ensures
        r == product(a, b),
{
    a * b
}

/// Calls `glam`'s `Div<Vec2> for Vec2`, which divides `x` by `x` and `y` by
/// `y`. Believed: where no component of `b` is zero, the result is the same
/// for the same two vectors. A zero divisor gives no panic but an infinity
/// with the sign of that zero, or a NaN; nothing is claimed of it.
#[verifier::external_body]
pub(crate) fn vec_quotient(a: Vec2, b: Vec2) -> (r: Vec2)
    ensures
        !has_zero_component(b) ==> r == quotient(a, b),
{
    a / b
}

/// Calls `Vec2::clamp`, which is `self.max(min).min(max)` on each component,
/// with the `max` and `min` of single precision, which pass over a NaN.
/// `glam` checks `min <= max` only when built with one of its assertion
/// features, which this crate does not enable, so the call returns for every
/// input. Believed: the result is the same for the same three vectors, and
/// where `lower` is at most `upper` on both axes it lies between the two,
/// whatever `v` holds.
#[verifier::external_body]
pub(crate) fn vec_clamped(v: Vec2, lower: Vec2, upper: Vec2) -> (r: Vec2)
    ensures
        r == clamped(v, lower, upper),
        all_le(lower, upper) ==> all_le(lower, r) && all_le(r, upper),
{
    v.clamp(lower, upper)
}

/// Calls `Vec2::cmple`, which compares `x` with `x` and `y` with `y` by
/// `<=`, and `BVec2::all` on the mask. Believed: the result is `true`
/// exactly when both comparisons hold.
#[verifier::external_body]
pub(crate) fn vec_all_le(a: Vec2, b: Vec2) -> (r: bool)
    ensures
        r == all_le(a, b),
{
    a.cmple(b).all()
}

/// Calls `Vec2::cmpeq` against `Vec2::ZERO` and hands out the two fields of
/// the mask. Believed: each is `true` exactly when that component of `v`
/// compares equal to zero, whatever the sign of the zero.
#[verifier::external_body]
pub(crate) fn vec_zero_mask(v: Vec2) -> (r: (bool, bool))
    ensures
        r == zero_mask(v),
{
    let mask = v.cmpeq(Vec2::ZERO);
    (mask.x, mask.y)
}

/// Calls `Vec3::truncate`, which copies `x` and `y`. Believed: the result is
/// `planar(t)`, and `t` with this `x` and `y` put back into it is `t`.
#[verifier::external_body]
pub(crate) fn vec_planar(t: Vec3) -> (r: Vec2)
    ensures
        r == planar(t),
        with_planar(t, r) == t,
{
    t.truncate()
}

/// Calls `Vec2::extend` on `xy` with the `z` of `t`, which builds a vector
/// of the three. Believed: the result is `with_planar(t, xy)`; its `x` and
/// `y` are those of `xy`; and its `z` is that of `t`, so that putting any
/// `x` and `y` into it gives what putting them into `t` gives.
#[verifier::external_body]
pub(crate) fn vec_with_planar(t: Vec3, xy: Vec2) -> (r: Vec3)
    ensures
        r == with_planar(t, xy),
        planar(r) == xy,
        forall|other: Vec2| #[trigger] with_planar(r, other) == with_planar(t, other),
{
    xy.extend(t.z)
}

} // verus!
