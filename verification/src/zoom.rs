//! Scroll to zoom: the net vertical scroll of a frame multiplies the zoom
//! scale of every active camera.

use crate::camera::Camera;
use crate::camera::FrameInput;
use crate::projection::extent_corners;
use crate::projection::projection_with_scale;
use crate::projection::projection_zoomed;
use crate::projection::with_scale;
use crate::projection::zoomed;
use crate::vector::difference;
use crate::vector::has_zero_component;
use crate::vector::product;
use crate::vector::quotient;
use crate::vector::splat;
use crate::vector::sum;
use crate::vector::vec_difference;
use crate::vector::vec_product;
use crate::vector::vec_quotient;
use crate::vector::vec_splat;
use crate::vector::vec_sum;
use crate::vector::vec_zero_mask;
use crate::vector::vertical_is_zero;
use bevy::math::Vec2;
use vstd::prelude::*;

verus! {

/// The scroll events of a frame added up from zero in the order they
/// arrived.
pub open spec fn spec_net_scroll(events: Seq<Vec2>) -> Vec2
    decreases events.len(),
{
    if events.len() == 0 {
        splat(0)
    } else {
        sum(spec_net_scroll(events.drop_last()), events.last())
    }
}

/// The factor for the zoom scale: one minus a tenth of the net scroll. Its
/// `y` is the factor for the vertical scroll, the one that is applied.
pub open spec fn spec_zoom_factor(net: Vec2) -> Vec2 {
    difference(splat(1), product(net, quotient(splat(1), splat(10))))
}

/// `camera` with its zoom scale multiplied by the `y` of `factor`.
pub open spec fn spec_rescaled(camera: Camera, factor: Vec2) -> Camera {
    Camera {
        projection: with_scale(camera.projection, zoomed(factor, camera.projection)),
        ..camera
    }
}

/// Whether the zoom pass of a frame touches any camera at all: it needs a
/// pointer in the viewport and a net vertical scroll other than zero.
pub open spec fn spec_zoom_applies(input: FrameInput) -> bool {
    input.pointer is Some && !vertical_is_zero(spec_net_scroll(input.scroll@))
}

/// What a zoom pass that applies does to one camera.
pub open spec fn spec_zoom_camera(camera: Camera, factor: Vec2) -> Camera {
    if camera.control.active {
        spec_rescaled(camera, factor)
    } else {
        camera
    }
}

/// What the zoom pass of a frame does to the cameras.
pub open spec fn spec_zoom(cameras: Seq<Camera>, input: FrameInput) -> Seq<Camera> {
    if spec_zoom_applies(input) {
        Seq::new(
            cameras.len(),
            |i: int| spec_zoom_camera(cameras[i], spec_zoom_factor(spec_net_scroll(input.scroll@))),
        )
    } else {
        cameras
    }
}

/// The pointer position mapped from viewport pixels to the square from -1
/// to 1 on both axes, for a viewport with a width and a height other than
/// zero.
pub open spec fn spec_normalized_pointer(pointer: Vec2, viewport: Vec2) -> Vec2 {
    difference(product(quotient(pointer, viewport), splat(2)), splat(1))
}

/// Adds up the scroll events of a frame.
pub fn net_scroll(events: &Vec<Vec2>) -> (net: Vec2)
    ensures
        net == spec_net_scroll(events@),
        events@.len() == 0 ==> vertical_is_zero(net),
{
    let mut net = vec_splat(0);
    let mut i: usize = 0;
    while i < events.len()
        invariant
            i <= events.len(),
            net == spec_net_scroll(events@.take(i as int)),
        decreases events.len() - i,
    {
        proof {
            let next = events@.take(i + 1);
            assert(next.drop_last() == events@.take(i as int));
            assert(next.last() == events@[i as int]);
        }
        net = vec_sum(net, events[i]);
        i += 1;
    }
    proof {
        assert(events@.take(i as int) == events@);
    }
    net
}

/// The factor by which a net scroll of `net` changes the zoom scale.
/// Scrolling up by one shrinks the scale by a tenth.
pub fn zoom_factor(net: Vec2) -> (factor: Vec2)
    ensures
        factor == spec_zoom_factor(net),
{
    let tenth = vec_quotient(vec_splat(1), vec_splat(10));
    vec_difference(vec_splat(1), vec_product(net, tenth))
}

/// Maps a pointer position in viewport pixels to the square from -1 to 1.
/// The zoom pass zooms about the centre of the camera and does not use this
/// position; it is here for hosts that want to zoom about the pointer. For a
/// viewport without area the division yields infinities or NaNs, of which
/// nothing is stated.
pub fn normalized_pointer(pointer: Vec2, viewport: Vec2) -> (normalized: Vec2)
    ensures
        !has_zero_component(viewport) ==> normalized == spec_normalized_pointer(
            pointer,
            viewport,
        ),
{
    vec_difference(vec_product(vec_quotient(pointer, viewport), vec_splat(2)), vec_splat(1))
}

impl Camera {
    /// Multiplies the zoom scale by the `y` of `factor`, whether or not the
    /// camera is active. No lower or upper limit is applied to the scale.
    pub fn rescale(&mut self, factor: Vec2)
        ensures
            *final(self) == spec_rescaled(*old(self), factor),
            extent_corners(final(self).projection) == extent_corners(old(self).projection),
    {
        let scale = projection_zoomed(factor, &self.projection);
        self.projection = projection_with_scale(&self.projection, scale);
    }
}

/// The zoom pass of one frame. Without a pointer in the viewport, or with a
/// net vertical scroll of zero, nothing changes; a frame without scroll
/// events is such a frame. Otherwise the zoom scale of every active camera
/// is multiplied by the zoom factor of the net scroll. The extents of a
/// projection are never written.
pub fn zoom(input: &FrameInput, cameras: &mut Vec<Camera>)
    ensures
        final(cameras)@ == spec_zoom(old(cameras)@, *input),
        input.scroll@.len() == 0 ==> final(cameras)@ == old(cameras)@,
        forall|i: int|
            0 <= i < old(cameras)@.len() ==> extent_corners(
                (#[trigger] final(cameras)@[i]).projection,
            ) == extent_corners(old(cameras)@[i].projection),
{
    match input.pointer {
        Some(_) => {},
        None => {
            return ;
        },
    }
    let net = net_scroll(&input.scroll);
    let (_, vertical_zero) = vec_zero_mask(net);
    if vertical_zero {
        return ;
    }
    let factor = zoom_factor(net);
    let count = cameras.len();
    let mut i: usize = 0;
    while i < count
        invariant
            i <= count,
            cameras.len() == count,
            old(cameras).len() == count,
            forall|j: int|
                0 <= j < i ==> cameras@[j] == spec_zoom_camera(#[trigger] old(cameras)@[j], factor),
            forall|j: int| i <= j < count ==> cameras@[j] == #[trigger] old(cameras)@[j],
            forall|j: int|
                0 <= j < count ==> extent_corners((#[trigger] cameras@[j]).projection)
                    == extent_corners(old(cameras)@[j].projection),
        decreases count - i,
    {
        if cameras[i].control.active {
            cameras[i].rescale(factor);
        }
        i += 1;
    }
}

} // verus!
