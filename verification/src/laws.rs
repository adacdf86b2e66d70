//! What holds of the controller over whole runs of frames.
//!
//! A run is modelled as the pan pass followed by the zoom pass, frame after
//! frame, on the pointer memory and the cameras.

use crate::camera::Camera;
use crate::camera::FrameInput;
use crate::pan::spec_drag;
use crate::pan::spec_next_memory;
use crate::projection::with_scale;
use crate::projection::zoomed;
use crate::vector::vertical_is_zero;
use crate::zoom::spec_net_scroll;
use crate::zoom::spec_zoom;
use crate::zoom::spec_zoom_factor;
use bevy::math::Vec2;
use vstd::prelude::*;

verus! {

/// The pointer memory and the cameras after one frame: the pan pass, then
/// the zoom pass.
pub open spec fn spec_frame(state: (Option<Vec2>, Seq<Camera>), input: FrameInput) -> (
    Option<Vec2>,
    Seq<Camera>,
) {
    (spec_next_memory(state.0, input.pointer), spec_zoom(spec_drag(state.1, state.0, input), input))
}

/// The pointer memory and the cameras after the frames `inputs`, first to
/// last.
pub open spec fn spec_frames(state: (Option<Vec2>, Seq<Camera>), inputs: Seq<FrameInput>) -> (
    Option<Vec2>,
    Seq<Camera>,
)
    decreases inputs.len(),
{
    if inputs.len() == 0 {
        state
    } else {
        spec_frame(spec_frames(state, inputs.drop_last()), inputs.last())
    }
}

/// Neither pass adds or removes a camera.
pub proof fn law_frames_keep_the_camera_count(
    last: Option<Vec2>,
    cameras: Seq<Camera>,
    inputs: Seq<FrameInput>,
)
    ensures
        spec_frames((last, cameras), inputs).1.len() == cameras.len(),
    decreases inputs.len(),
{
    if inputs.len() > 0 {
        law_frames_keep_the_camera_count(last, cameras, inputs.drop_last());
    }
}

/// Frames without a pointer and without scroll events, however many, leave
/// every camera and the pointer memory exactly as they were.
pub proof fn law_idle_frames_change_nothing(
    last: Option<Vec2>,
    cameras: Seq<Camera>,
    inputs: Seq<FrameInput>,
)
    requires
        forall|k: int|
            0 <= k < inputs.len() ==> (#[trigger] inputs[k]).pointer is None
                && inputs[k].scroll@.len() == 0,
    ensures
        spec_frames((last, cameras), inputs) == (last, cameras),
    decreases inputs.len(),
{
    if inputs.len() > 0 {
        law_idle_frames_change_nothing(last, cameras, inputs.drop_last());
        assert(inputs.last() == inputs[inputs.len() - 1]);
    }
}

/// An inactive camera comes out of any run of frames with the pose, the
/// projection and the control settings it went in with, whatever the
/// pointer and the scroll wheel did.
pub proof fn law_inactive_camera_is_never_changed(
    last: Option<Vec2>,
    cameras: Seq<Camera>,
    inputs: Seq<FrameInput>,
    i: int,
)
    requires
        0 <= i < cameras.len(),
        !cameras[i].control.active,
    ensures
        spec_frames((last, cameras), inputs).1.len() == cameras.len(),
        spec_frames((last, cameras), inputs).1[i] == cameras[i],
    decreases inputs.len(),
{
    if inputs.len() > 0 {
        law_inactive_camera_is_never_changed(last, cameras, inputs.drop_last(), i);
    }
}

/// The two passes write different parts of a camera: the pan pass leaves
/// the projection, and with it the zoom scale, as it was; the zoom pass
/// leaves the position as it was; neither touches the control settings.
pub proof fn law_passes_write_different_parts(
    last: Option<Vec2>,
    cameras: Seq<Camera>,
    input: FrameInput,
    i: int,
)
    requires
        0 <= i < cameras.len(),
    ensures
        spec_drag(cameras, last, input).len() == cameras.len(),
        spec_drag(cameras, last, input)[i].projection == cameras[i].projection,
        spec_drag(cameras, last, input)[i].control == cameras[i].control,
        spec_zoom(cameras, input).len() == cameras.len(),
        spec_zoom(cameras, input)[i].position == cameras[i].position,
        spec_zoom(cameras, input)[i].control == cameras[i].control,
{
}

/// The zoom law: where the zoom pass applies, the zoom scale of an active
/// camera is multiplied by one minus a tenth of the net scroll, and its
/// position and control settings stay.
pub proof fn law_zoom_multiplies_the_scale(cameras: Seq<Camera>, input: FrameInput, i: int)
    requires
        0 <= i < cameras.len(),
        cameras[i].control.active,
        input.pointer is Some,
        !vertical_is_zero(spec_net_scroll(input.scroll@)),
    ensures
        spec_zoom(cameras, input)[i].projection == with_scale(
            cameras[i].projection,
            zoomed(spec_zoom_factor(spec_net_scroll(input.scroll@)), cameras[i].projection),
        ),
        spec_zoom(cameras, input)[i].position == cameras[i].position,
        spec_zoom(cameras, input)[i].control == cameras[i].control,
{
}

/// Scroll events whose vertical amounts cancel leave every camera exactly
/// as it was.
pub proof fn law_zero_net_scroll_changes_nothing(cameras: Seq<Camera>, input: FrameInput)
    requires
        vertical_is_zero(spec_net_scroll(input.scroll@)),
    ensures
        spec_zoom(cameras, input) == cameras,
{
}

/// The pointer memory lives through frames in which nothing is dragged: a
/// frame with the pointer at `first_pointer` and the drag input released,
/// followed by any second frame, pans the cameras exactly as the second
/// frame alone would with `first_pointer` remembered.
pub proof fn law_pointer_memory_outlives_idle_frames(
    last: Option<Vec2>,
    cameras: Seq<Camera>,
    first: FrameInput,
    first_pointer: Vec2,
    second: FrameInput,
)
    requires
        first.pointer == Some(first_pointer),
        !first.drag_held,
    ensures
        spec_drag(cameras, last, first) == cameras,
        spec_next_memory(last, first.pointer) == Some(first_pointer),
        spec_drag(
            spec_drag(cameras, last, first),
            spec_next_memory(last, first.pointer),
            second,
        ) == spec_drag(cameras, Some(first_pointer), second),
{
    assert(spec_drag(cameras, last, first) =~= cameras);
}

} // verus!
