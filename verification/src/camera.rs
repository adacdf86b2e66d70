//! The records that the host hands to the controller each frame.

use crate::vector::all_le;
use crate::vector::vec_all_le;
use bevy::math::Vec2;
use bevy::math::Vec3;
use bevy::render::camera::OrthographicProjection;
use vstd::prelude::*;

verus! {

/// How one camera takes part in panning and zooming.
#[derive(Clone, Copy)]
pub struct CameraControl {
    /// An inactive camera is passed over by both the pan and the zoom.
    pub active: bool,
    /// The world rectangle `(min, max)` that the visible region has to stay
    /// in; `None` leaves the pan unconstrained. The host keeps `min` at or
    /// below `max` on both axes.
    pub boundary: Option<(Vec2, Vec2)>,
}

impl Default for CameraControl {
    /// An active camera without a boundary.
    fn default() -> (control: Self)
        ensures
            control.active,
            control.boundary is None,
            control.spec_is_well_formed(),
    {
        CameraControl { active: true, boundary: None }
    }
}

impl CameraControl {
    /// What the host owes the controller: a boundary, where there is one,
    /// has its `min` at or below its `max` on both axes.
    pub open spec fn spec_is_well_formed(self) -> bool {
        match self.boundary {
            Some((min, max)) => all_le(min, max),
            None => true,
        }
    }

    /// Whether the boundary, where there is one, has its `min` at or below
    /// its `max` on both axes.
    pub fn is_well_formed(&self) -> (well_formed: bool)
        ensures
            well_formed == self.spec_is_well_formed(),
    {
        match self.boundary {
            Some((min, max)) => vec_all_le(min, max),
            None => true,
        }
    }
}

/// One camera as the controller sees it: its control settings and its pose.
pub struct Camera {
    pub control: CameraControl,
    /// World position of the centre of the view. A pan moves `x` and `y` and
    /// keeps the depth `z`.
    pub position: Vec3,
    /// Extents and zoom scale. A pan reads them; a zoom stores a new scale.
    pub projection: OrthographicProjection,
}

/// What the host has observed for one frame.
pub struct FrameInput {
    /// Width and height of the viewport in pixels.
    pub viewport: Vec2,
    /// Pointer position in viewport pixels, `None` while the pointer is
    /// outside the viewport.
    pub pointer: Option<Vec2>,
    /// Whether the input that triggers a drag is held down.
    pub drag_held: bool,
    /// The scroll events of the frame in the order they arrived, each as its
    /// horizontal and vertical amount.
    pub scroll: Vec<Vec2>,
}

} // verus!
