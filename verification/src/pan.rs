//! Drag to pan: pointer movement while the drag input is held moves every
//! active camera, and a boundary keeps the visible rectangle inside it.

use crate::camera::Camera;
use crate::camera::FrameInput;
use crate::projection::extent_corners;
use crate::projection::projection_extent_corners;
use crate::projection::projection_zoomed;
use crate::projection::zoomed;
use crate::vector::all_le;
use crate::vector::clamped;
use crate::vector::difference;
use crate::vector::has_zero_component;
use crate::vector::planar;
use crate::vector::product;
use crate::vector::quotient;
use crate::vector::splat;
use crate::vector::sum;
use crate::vector::vec_all_le;
use crate::vector::vec_clamped;
use crate::vector::vec_difference;
use crate::vector::vec_planar;
use crate::vector::vec_product;
use crate::vector::vec_quotient;
use crate::vector::vec_splat;
use crate::vector::vec_sum;
use crate::vector::vec_with_planar;
use crate::vector::vec_zero_mask;
use crate::vector::with_planar;
use bevy::math::Vec2;
use bevy::math::Vec3;
use bevy::render::camera::OrthographicProjection;
use vstd::prelude::*;

verus! {

/// The pointer position that this frame's movement is measured from: the
/// remembered one, or the current one where nothing is remembered.
pub open spec fn spec_pointer_origin(last: Option<Vec2>, current: Vec2) -> Vec2 {
    match last {
        Some(previous) => previous,
        None => current,
    }
}

/// The pointer movement of this frame in pixels.
pub open spec fn spec_pointer_delta(last: Option<Vec2>, current: Vec2) -> Vec2 {
    difference(current, spec_pointer_origin(last, current))
}

/// What the controller remembers after a frame: the pointer of the frame,
/// or what it remembered before where the frame had no pointer.
pub open spec fn spec_next_memory(last: Option<Vec2>, pointer: Option<Vec2>) -> Option<Vec2> {
    match pointer {
        Some(current) => Some(current),
        None => last,
    }
}

/// Width and height of the projection extents: `right - left` and
/// `top - bottom`.
pub open spec fn spec_extent_size(projection: OrthographicProjection) -> Vec2 {
    let (lower, upper) = extent_corners(projection);
    difference(upper, lower)
}

/// Whether the projection extents have a width and a height other than
/// zero. The host owes the controller such extents; a pan divides by them.
pub open spec fn spec_has_area(projection: OrthographicProjection) -> bool {
    !has_zero_component(spec_extent_size(projection))
}

/// World units per pixel on each axis: the viewport size over the size of
/// the projection extents, times the zoom scale.
pub open spec fn spec_pixel_scale(viewport: Vec2, projection: OrthographicProjection) -> Vec2 {
    zoomed(quotient(viewport, spec_extent_size(projection)), projection)
}

/// Where a pointer movement of `delta` pixels would put a camera at
/// `position`: the world moves with the pointer, so the camera moves against
/// it.
pub open spec fn spec_pan_candidate(position: Vec2, delta: Vec2, scale: Vec2) -> Vec2 {
    difference(position, product(delta, scale))
}

/// Half the width and height of the visible rectangle in world units.
pub open spec fn spec_half_extent(viewport: Vec2, scale: Vec2) -> Vec2 {
    product(quotient(viewport, splat(2)), scale)
}

/// `candidate` held inside `boundary` shrunk by `half_extent` on every side.
/// Where the visible rectangle is larger than the boundary the two clamp
/// bounds cross; they are handed to the clamp as they are.
pub open spec fn spec_clamp_to_boundary(
    candidate: Vec2,
    boundary: (Vec2, Vec2),
    half_extent: Vec2,
) -> Vec2 {
    clamped(candidate, sum(boundary.0, half_extent), difference(boundary.1, half_extent))
}

/// Whether a visible rectangle of half size `half_extent` fits into
/// `boundary` on both axes, so that the two clamp bounds do not cross.
pub open spec fn spec_boundary_fits(boundary: (Vec2, Vec2), half_extent: Vec2) -> bool {
    all_le(sum(boundary.0, half_extent), difference(boundary.1, half_extent))
}

/// Whether a visible rectangle of half size `half_extent` around `position`
/// lies inside `boundary` on both axes.
pub open spec fn spec_inside_boundary(
    position: Vec2,
    boundary: (Vec2, Vec2),
    half_extent: Vec2,
) -> bool {
    all_le(sum(boundary.0, half_extent), position) && all_le(
        position,
        difference(boundary.1, half_extent),
    )
}

/// The boundary of `camera` together with the half size of its visible
/// rectangle in a viewport of `viewport` pixels.
pub open spec fn spec_confinement(camera: Camera, viewport: Vec2) -> Option<
    ((Vec2, Vec2), Vec2),
> {
    match camera.control.boundary {
        Some(boundary) => Some(
            (boundary, spec_half_extent(viewport, spec_pixel_scale(viewport, camera.projection))),
        ),
        None => None,
    }
}

/// Whether `position` respects the boundary of `camera`: where the camera
/// has a boundary that its visible rectangle fits into, the rectangle around
/// `position` lies inside it.
pub open spec fn spec_respects_boundary(camera: Camera, viewport: Vec2, position: Vec2) -> bool {
    match spec_confinement(camera, viewport) {
        Some((boundary, half_extent)) => spec_boundary_fits(boundary, half_extent)
            ==> spec_inside_boundary(position, boundary, half_extent),
        None => true,
    }
}

/// The planar position of `camera` after a pointer movement of `delta`.
pub open spec fn spec_pan_target(camera: Camera, viewport: Vec2, delta: Vec2) -> Vec2 {
    let scale = spec_pixel_scale(viewport, camera.projection);
    let candidate = spec_pan_candidate(planar(camera.position), delta, scale);
    match camera.control.boundary {
        Some(boundary) => spec_clamp_to_boundary(
            candidate,
            boundary,
            spec_half_extent(viewport, scale),
        ),
        None => candidate,
    }
}

/// Whether `a` has the depth of `b`: with the planar part of `b` put into
/// `a`, it is `b`.
pub open spec fn spec_same_depth(a: Vec3, b: Vec3) -> bool {
    with_planar(a, planar(b)) == b
}

/// `camera` after a pan: the planar position is the pan target, the depth
/// and everything else stay.
pub open spec fn spec_panned(camera: Camera, viewport: Vec2, delta: Vec2) -> Camera {
    Camera {
        position: with_planar(camera.position, spec_pan_target(camera, viewport, delta)),
        ..camera
    }
}

/// What a frame with a pointer does to one camera: an active camera is
/// panned while the drag input is held, any other camera is left as it is.
pub open spec fn spec_drag_camera(
    camera: Camera,
    viewport: Vec2,
    drag_held: bool,
    delta: Vec2,
) -> Camera {
    if camera.control.active && drag_held {
        spec_panned(camera, viewport, delta)
    } else {
        camera
    }
}

/// Whether the pan pass of a frame pans `camera`: the frame has a pointer,
/// the camera is active and the drag input is held.
pub open spec fn spec_drag_pans(camera: Camera, input: FrameInput) -> bool {
    input.pointer is Some && camera.control.active && input.drag_held
}

/// What the pan pass of a frame does to the cameras, given what the
/// controller remembered when the frame began.
pub open spec fn spec_drag(cameras: Seq<Camera>, last: Option<Vec2>, input: FrameInput) -> Seq<
    Camera,
> {
    match input.pointer {
        Some(current) => Seq::new(
            cameras.len(),
            |i: int|
                spec_drag_camera(
                    cameras[i],
                    input.viewport,
                    input.drag_held,
                    spec_pointer_delta(last, current),
                ),
        ),
        None => cameras,
    }
}

/// What the pan pass of a frame owes for one camera, `before` the pass and
/// `after` it. Control settings and projection stay. A camera that is not
/// panned stays as a whole. A panned camera keeps its depth, and where its
/// extents have area it is panned by the pointer movement of the frame and
/// respects its boundary.
pub open spec fn spec_drag_outcome(
    before: Camera,
    after: Camera,
    last: Option<Vec2>,
    input: FrameInput,
) -> bool {
    &&& after.control == before.control
    &&& after.projection == before.projection
    &&& !spec_drag_pans(before, input) ==> after == before
    &&& spec_drag_pans(before, input) ==> spec_same_depth(after.position, before.position)
    &&& spec_drag_pans(before, input) && spec_has_area(before.projection) ==> {
        &&& after == spec_panned(
            before,
            input.viewport,
            spec_pointer_delta(last, input.pointer.unwrap()),
        )
        &&& spec_respects_boundary(before, input.viewport, planar(after.position))
    }
}

/// The pointer movement since the remembered position. With nothing
/// remembered the movement is measured from the current position itself.
pub fn pointer_delta(last: Option<Vec2>, current: Vec2) -> (delta: Vec2)
    ensures
        delta == spec_pointer_delta(last, current),
{
    let origin = match last {
        Some(previous) => previous,
        None => current,
    };
    vec_difference(current, origin)
}

/// Whether the extents of `projection` have a width and a height other than
/// zero.
pub fn has_area(projection: &OrthographicProjection) -> (area: bool)
    ensures
        area == spec_has_area(*projection),
{
    let (lower, upper) = projection_extent_corners(projection);
    let (flat_x, flat_y) = vec_zero_mask(vec_difference(upper, lower));
    !flat_x && !flat_y
}

/// World units per pixel on each axis for a camera with `projection` shown
/// in a viewport of `viewport` pixels. For extents without area the division
/// yields infinities or NaNs, of which nothing is stated.
pub fn pixel_scale(viewport: Vec2, projection: &OrthographicProjection) -> (scale: Vec2)
    ensures
        spec_has_area(*projection) ==> scale == spec_pixel_scale(viewport, *projection),
{
    let (lower, upper) = projection_extent_corners(projection);
    projection_zoomed(vec_quotient(viewport, vec_difference(upper, lower)), projection)
}

/// Half the size of the visible rectangle in world units.
pub fn half_extent(viewport: Vec2, scale: Vec2) -> (half: Vec2)
    ensures
        half == spec_half_extent(viewport, scale),
{
    vec_product(vec_quotient(viewport, vec_splat(2)), scale)
}

/// Whether a visible rectangle of half size `half_extent` fits into
/// `boundary`. Where it does not, the clamp bounds cross and
/// `clamp_to_boundary` pins every position to its upper bound.
pub fn boundary_fits(boundary: (Vec2, Vec2), half_extent: Vec2) -> (fits: bool)
    ensures
        fits == spec_boundary_fits(boundary, half_extent),
{
    vec_all_le(vec_sum(boundary.0, half_extent), vec_difference(boundary.1, half_extent))
}

/// Keeps `candidate` far enough inside `boundary` that a visible rectangle
/// of half size `half_extent` around it does not reach over the edge. Where
/// the rectangle fits into the boundary at all, the result is inside for
/// every `candidate`.
pub fn clamp_to_boundary(candidate: Vec2, boundary: (Vec2, Vec2), half_extent: Vec2) -> (held:
    Vec2)
    ensures
        held == spec_clamp_to_boundary(candidate, boundary, half_extent),
        spec_boundary_fits(boundary, half_extent) ==> spec_inside_boundary(
            held,
            boundary,
            half_extent,
        ),
{
    let lower = vec_sum(boundary.0, half_extent);
    let upper = vec_difference(boundary.1, half_extent);
    vec_clamped(candidate, lower, upper)
}

impl Camera {
    /// Moves the camera against a pointer movement of `delta` pixels and
    /// holds it inside its boundary, whether or not the camera is active.
    /// Only the planar position is written, the depth is kept, and the
    /// camera ends inside a boundary that the visible rectangle fits into,
    /// wherever it was before.
    /// For extents without area the position is written from infinities or
    /// NaNs, and nothing is stated of it.
    pub fn pan(&mut self, viewport: Vec2, delta: Vec2)
        ensures
            final(self).control == old(self).control,
            final(self).projection == old(self).projection,
            spec_same_depth(final(self).position, old(self).position),
            spec_has_area(old(self).projection) ==> *final(self) == spec_panned(
                *old(self),
                viewport,
                delta,
            ),
            spec_has_area(old(self).projection) ==> planar(final(self).position)
                == spec_pan_target(*old(self), viewport, delta),
            spec_has_area(old(self).projection) ==> spec_respects_boundary(
                *old(self),
                viewport,
                planar(final(self).position),
            ),
    {
        let scale = pixel_scale(viewport, &self.projection);
        let candidate = vec_difference(vec_planar(self.position), vec_product(delta, scale));
        let target = match self.control.boundary {
            Some(boundary) => clamp_to_boundary(candidate, boundary, half_extent(viewport, scale)),
            None => candidate,
        };
        self.position = vec_with_planar(self.position, target);
    }
}

/// The pan controller and the one thing it carries from frame to frame.
pub struct PanController {
    last_pointer_position: Option<Vec2>,
}

impl View for PanController {
    type V = Option<Vec2>;

    /// The pointer position of the latest frame that had one.
    closed spec fn view(&self) -> Option<Vec2> {
        self.last_pointer_position
    }
}

impl Default for PanController {
    fn default() -> (controller: Self)
        ensures
            controller@ is None,
    {
        PanController::new()
    }
}

impl PanController {
    /// A controller that has not seen a pointer yet.
    pub fn new() -> (controller: Self)
        ensures
            controller@ is None,
    {
        PanController { last_pointer_position: None }
    }

    /// The pointer position of the latest frame that had one.
    pub fn last_pointer_position(&self) -> (last: Option<Vec2>)
        ensures
            last == self@,
    {
        self.last_pointer_position
    }

    /// The pan pass of one frame. Without a pointer nothing changes. With
    /// one, every active camera is panned by the movement since the
    /// remembered position if the drag input is held, and the pointer is
    /// remembered for the next frame whether or not anything was panned.
    ///
    /// Each camera comes out as `spec_drag_outcome` says. Where the extents
    /// of every panned camera have area, that settles all of them, and they
    /// come out as `spec_drag` says. Of a panned camera without such extents
    /// only the planar position is open.
    pub fn drag(&mut self, input: &FrameInput, cameras: &mut Vec<Camera>)
        ensures
            final(self)@ == spec_next_memory(old(self)@, input.pointer),
            final(cameras)@.len() == old(cameras)@.len(),
            forall|i: int|
                0 <= i < old(cameras)@.len() ==> spec_drag_outcome(
                    old(cameras)@[i],
                    #[trigger] final(cameras)@[i],
                    old(self)@,
                    *input,
                ),
            (forall|i: int|
                0 <= i < old(cameras)@.len() && spec_drag_pans(#[trigger] old(cameras)@[i], *input)
                    ==> spec_has_area(old(cameras)@[i].projection)) ==> final(cameras)@
                == spec_drag(old(cameras)@, old(self)@, *input),
    {
        let current = match input.pointer {
            Some(current) => current,
            None => {
                return ;
            },
        };
        let delta = pointer_delta(self.last_pointer_position, current);
        let count = cameras.len();
        let mut i: usize = 0;
        while i < count
            invariant
                i <= count,
                cameras.len() == count,
                old(cameras).len() == count,
                input.pointer == Some(current),
                delta == spec_pointer_delta(old(self)@, current),
                forall|j: int|
                    0 <= j < i ==> spec_drag_outcome(
                        old(cameras)@[j],
                        #[trigger] cameras@[j],
                        old(self)@,
                        *input,
                    ),
                forall|j: int| i <= j < count ==> cameras@[j] == #[trigger] old(cameras)@[j],
            decreases count - i,
        {
            if cameras[i].control.active && input.drag_held {
                cameras[i].pan(input.viewport, delta);
            }
            i += 1;
        }
        self.last_pointer_position = Some(current);
    }
}

} // verus!
