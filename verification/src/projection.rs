//! What the controller reads from and writes to an orthographic projection.
//!
//! The projection is `bevy`'s own type and stays opaque to the verifier: its
//! extents and its zoom scale are single-precision numbers. The controller
//! reads the extents as two corner vectors, multiplies a vector by the zoom
//! scale, and stores a new zoom scale.

use bevy::math::Vec2;
use bevy::render::camera::OrthographicProjection;
use vstd::prelude::*;

verus! {

/// `bevy_render::camera::OrthographicProjection`: the extents `left`,
/// `right`, `bottom` and `top` in projection units, the zoom `scale`, and
/// settings that the controller never touches.
#[verifier::external_type_specification]
#[verifier::external_body]
pub struct ExOrthographicProjection(OrthographicProjection);

/// The two corners of the extents of `p`: `(left, bottom)`, then
/// `(right, top)`.
pub uninterp spec fn extent_corners(p: OrthographicProjection) -> (Vec2, Vec2);

/// `v` with both components multiplied by the zoom scale of `p`.
pub uninterp spec fn zoomed(v: Vec2, p: OrthographicProjection) -> Vec2;

/// `p` with the `y` of `v` as its zoom scale and every other field as it
/// was.
pub uninterp spec fn with_scale(p: OrthographicProjection, v: Vec2) -> OrthographicProjection;

/// Calls `Vec2::new` on the fields `left` and `bottom`, and again on `right`
/// and `top`. Believed: the two results are `extent_corners(*p)`.
#[verifier::external_body]
pub(crate) fn projection_extent_corners(p: &OrthographicProjection) -> (r: (Vec2, Vec2))
    ensures
        r == extent_corners(*p),
{
    (Vec2::new(p.left, p.bottom), Vec2::new(p.right, p.top))
}

/// Calls `glam`'s `Mul` of a `Vec2` by a single-precision scalar with the
/// field `scale`, which multiplies `x` and `y` by it. Believed: the result is
/// the same for the same vector and projection.
#[verifier::external_body]
pub(crate) fn projection_zoomed(v: Vec2, p: &OrthographicProjection) -> (r: Vec2)
    ensures
        r == zoomed(v, *p),
{
    v * p.scale
}

/// Calls `OrthographicProjection::clone` and stores the `y` of `v` in the
/// field `scale` of the copy. Believed: the result is `with_scale(*p, v)`,
/// whose extents are those of `p`.
#[verifier::external_body]
pub(crate) fn projection_with_scale(p: &OrthographicProjection, v: Vec2) -> (r:
    OrthographicProjection)
    ensures
        r == with_scale(*p, v),
        extent_corners(r) == extent_corners(*p),
{
    OrthographicProjection { scale: v.y, ..p.clone() }
}

} // verus!
