use bevy::math::Vec2;
use bevy::math::Vec3;
use bevy::render::camera::OrthographicProjection;
use camera_control::camera::Camera;
use camera_control::camera::CameraControl;
use camera_control::camera::FrameInput;
use camera_control::pan::PanController;
use camera_control::zoom::net_scroll;
use camera_control::zoom::normalized_pointer;
use camera_control::zoom::zoom;
use camera_control::zoom::zoom_factor;

fn scaled_camera(active: bool, scale: f32) -> Camera {
    Camera {
        control: CameraControl { active, boundary: None },
        position: Vec3::new(1.0, 2.0, 3.0),
        projection: OrthographicProjection {
            left: -4.0,
            right: 4.0,
            bottom: -3.0,
            top: 3.0,
            scale,
            ..OrthographicProjection::default()
        },
    }
}

fn scroll_frame(pointer: Option<Vec2>, vertical: &[f32]) -> FrameInput {
    FrameInput {
        viewport: Vec2::new(800.0, 600.0),
        pointer,
        drag_held: false,
        scroll: vertical.iter().map(|y| Vec2::new(0.0, *y)).collect(),
    }
}

fn pointer() -> Option<Vec2> {
    Some(Vec2::new(400.0, 300.0))
}

#[test]
fn net_scroll_of_no_events_is_zero() {
    assert_eq!(net_scroll(&Vec::new()), Vec2::ZERO);
}

#[test]
fn net_scroll_adds_every_event() {
    let events = vec![Vec2::new(1.0, 2.0), Vec2::new(0.5, -3.0), Vec2::new(-4.0, 0.25)];
    assert_eq!(net_scroll(&events), Vec2::new(-2.5, -0.75));
}

#[test]
fn zoom_factor_is_one_minus_a_tenth_of_the_scroll() {
    assert_eq!(zoom_factor(Vec2::new(0.0, 1.0)).y, 1.0 - 1.0 * 0.1);
    assert_eq!(zoom_factor(Vec2::new(0.0, 1.0)).y, 0.9);
    assert_eq!(zoom_factor(Vec2::new(0.0, -2.0)).y, 1.0 - -2.0 * 0.1);
    assert_eq!(zoom_factor(Vec2::new(0.0, -2.0)).y, 1.2);
    assert_eq!(zoom_factor(Vec2::new(0.0, 0.0)).y, 1.0);
    assert_eq!(zoom_factor(Vec2::new(3.0, 0.37)), Vec2::new(1.0 - 3.0 * 0.1, 1.0 - 0.37 * 0.1));
}

#[test]
fn normalized_pointer_maps_the_viewport_to_the_unit_square() {
    let viewport = Vec2::new(800.0, 600.0);
    assert_eq!(normalized_pointer(Vec2::new(400.0, 300.0), viewport), Vec2::new(0.0, 0.0));
    assert_eq!(normalized_pointer(Vec2::new(0.0, 0.0), viewport), Vec2::new(-1.0, -1.0));
    assert_eq!(normalized_pointer(Vec2::new(800.0, 600.0), viewport), Vec2::new(1.0, 1.0));
    assert_eq!(normalized_pointer(Vec2::new(600.0, 150.0), viewport), Vec2::new(0.5, -0.5));
}

#[test]
fn rescale_multiplies_the_scale_and_keeps_the_rest() {
    let mut cam = scaled_camera(false, 4.0);
    cam.rescale(Vec2::new(100.0, 0.25));
    assert_eq!(cam.projection.scale, 1.0);
    assert_eq!(cam.projection.left, -4.0);
    assert_eq!(cam.projection.right, 4.0);
    assert_eq!(cam.projection.bottom, -3.0);
    assert_eq!(cam.projection.top, 3.0);
    assert_eq!(cam.projection.near, OrthographicProjection::default().near);
    assert_eq!(cam.projection.far, OrthographicProjection::default().far);
    assert_eq!(cam.position, Vec3::new(1.0, 2.0, 3.0));
}

#[test]
fn zoom_multiplicative_law_scroll_up_by_one() {
    for old_scale in [1.0_f32, 2.0, 0.35, 17.5] {
        let mut cameras = vec![scaled_camera(true, old_scale)];
        zoom(&scroll_frame(pointer(), &[1.0]), &mut cameras);
        assert_eq!(cameras[0].projection.scale, old_scale * (1.0 - 1.0 * 0.1));
    }
    let mut cameras = vec![scaled_camera(true, 1.0)];
    zoom(&scroll_frame(pointer(), &[1.0]), &mut cameras);
    assert_eq!(cameras[0].projection.scale, 0.9);
}

#[test]
fn zoom_multiplicative_law_scroll_down_by_two() {
    for old_scale in [1.0_f32, 2.0, 0.35, 17.5] {
        let mut cameras = vec![scaled_camera(true, old_scale)];
        zoom(&scroll_frame(pointer(), &[-2.0]), &mut cameras);
        assert_eq!(cameras[0].projection.scale, old_scale * (1.0 - -2.0 * 0.1));
    }
    let mut cameras = vec![scaled_camera(true, 1.0)];
    zoom(&scroll_frame(pointer(), &[-2.0]), &mut cameras);
    assert_eq!(cameras[0].projection.scale, 1.2);
    let mut cameras = vec![scaled_camera(true, 5.0)];
    zoom(&scroll_frame(pointer(), &[-1.0, -1.0]), &mut cameras);
    assert_eq!(cameras[0].projection.scale, 5.0 * 1.2);
}

#[test]
fn zoom_uses_the_vertical_scroll_only() {
    let mut cameras = vec![scaled_camera(true, 2.0)];
    let input = FrameInput {
        viewport: Vec2::new(800.0, 600.0),
        pointer: pointer(),
        drag_held: false,
        scroll: vec![Vec2::new(7.0, 0.0), Vec2::new(-3.0, 0.0)],
    };
    zoom(&input, &mut cameras);
    assert_eq!(cameras[0].projection.scale, 2.0);
    let input = FrameInput {
        viewport: Vec2::new(800.0, 600.0),
        pointer: pointer(),
        drag_held: false,
        scroll: vec![Vec2::new(7.0, 1.0)],
    };
    zoom(&input, &mut cameras);
    assert_eq!(cameras[0].projection.scale, 2.0 * 0.9);
}

#[test]
fn zoom_no_op_on_zero_net_scroll() {
    let mut cameras = vec![scaled_camera(true, 1.75)];
    zoom(&scroll_frame(pointer(), &[1.0, -1.0]), &mut cameras);
    assert_eq!(cameras[0].projection.scale, 1.75);
    zoom(&scroll_frame(pointer(), &[0.0]), &mut cameras);
    assert_eq!(cameras[0].projection.scale, 1.75);
    zoom(&scroll_frame(pointer(), &[-0.0]), &mut cameras);
    assert_eq!(cameras[0].projection.scale, 1.75);
}

#[test]
fn zoom_without_scroll_events_changes_nothing() {
    let mut cameras = vec![scaled_camera(true, 1.75)];
    zoom(&scroll_frame(pointer(), &[]), &mut cameras);
    assert_eq!(cameras[0].projection.scale, 1.75);
}

#[test]
fn zoom_without_pointer_is_skipped() {
    let mut cameras = vec![scaled_camera(true, 1.75)];
    zoom(&scroll_frame(None, &[1.0]), &mut cameras);
    assert_eq!(cameras[0].projection.scale, 1.75);
    zoom(&scroll_frame(None, &[-2.0, 5.0]), &mut cameras);
    assert_eq!(cameras[0].projection.scale, 1.75);
}

#[test]
fn zoom_skips_inactive_cameras() {
    let mut cameras =
        vec![scaled_camera(true, 1.0), scaled_camera(false, 1.0), scaled_camera(true, 3.0)];
    zoom(&scroll_frame(pointer(), &[1.0]), &mut cameras);
    assert_eq!(cameras[0].projection.scale, 0.9);
    assert_eq!(cameras[1].projection.scale, 1.0);
    assert_eq!(cameras[2].projection.scale, 3.0 * 0.9);
    assert!(!cameras[1].control.active);
}

#[test]
fn zoom_keeps_position_extents_and_control() {
    let mut cameras = vec![scaled_camera(true, 1.0)];
    zoom(&scroll_frame(pointer(), &[3.0]), &mut cameras);
    assert_eq!(cameras[0].position, Vec3::new(1.0, 2.0, 3.0));
    assert_eq!(cameras[0].projection.left, -4.0);
    assert_eq!(cameras[0].projection.right, 4.0);
    assert_eq!(cameras[0].projection.bottom, -3.0);
    assert_eq!(cameras[0].projection.top, 3.0);
    assert!(cameras[0].control.active);
    assert!(cameras[0].control.boundary.is_none());
}

#[test]
fn zoom_does_not_limit_the_scale() {
    let mut cameras = vec![scaled_camera(true, 2.0)];
    zoom(&scroll_frame(pointer(), &[10.0]), &mut cameras);
    assert_eq!(cameras[0].projection.scale, 0.0);
    let mut cameras = vec![scaled_camera(true, 2.0)];
    zoom(&scroll_frame(pointer(), &[20.0]), &mut cameras);
    assert_eq!(cameras[0].projection.scale, -2.0);
    let mut cameras = vec![scaled_camera(true, 2.0)];
    zoom(&scroll_frame(pointer(), &[-1.0e6]), &mut cameras);
    assert_eq!(cameras[0].projection.scale, 2.0 * (1.0 - -1.0e6 * 0.1));
}

#[test]
fn idle_frames_change_nothing() {
    let mut cameras = vec![scaled_camera(true, 1.25), scaled_camera(false, 0.5)];
    let mut controller = PanController::new();
    let idle = scroll_frame(None, &[]);
    for _ in 0..10 {
        controller.drag(&idle, &mut cameras);
        zoom(&idle, &mut cameras);
    }
    assert_eq!(cameras[0].position, Vec3::new(1.0, 2.0, 3.0));
    assert_eq!(cameras[0].projection.scale, 1.25);
    assert_eq!(cameras[1].position, Vec3::new(1.0, 2.0, 3.0));
    assert_eq!(cameras[1].projection.scale, 0.5);
    assert_eq!(controller.last_pointer_position(), None);
}

#[test]
fn inactive_camera_is_never_changed() {
    let mut cameras = vec![scaled_camera(false, 1.25)];
    let mut controller = PanController::new();
    let frames = [
        (Some(Vec2::new(0.0, 0.0)), true, vec![1.0_f32]),
        (Some(Vec2::new(90.0, -40.0)), true, vec![-2.0, -2.0]),
        (None, true, vec![5.0]),
        (Some(Vec2::new(700.0, 10.0)), false, vec![]),
        (Some(Vec2::new(1.0, 599.0)), true, vec![0.5]),
    ];
    for (pointer, drag_held, vertical) in frames.iter() {
        let mut input = scroll_frame(*pointer, vertical);
        input.drag_held = *drag_held;
        controller.drag(&input, &mut cameras);
        zoom(&input, &mut cameras);
        assert_eq!(cameras[0].position, Vec3::new(1.0, 2.0, 3.0));
        assert_eq!(cameras[0].projection.scale, 1.25);
    }
}

#[test]
fn pan_after_zoom_uses_the_new_scale() {
    let mut cameras = vec![scaled_camera(true, 1.0)];
    let mut controller = PanController::new();
    let mut first = scroll_frame(Some(Vec2::new(0.0, 0.0)), &[-10.0]);
    first.drag_held = true;
    controller.drag(&first, &mut cameras);
    zoom(&first, &mut cameras);
    assert_eq!(cameras[0].projection.scale, 2.0);
    let mut second = scroll_frame(Some(Vec2::new(1.0, 0.0)), &[]);
    second.drag_held = true;
    controller.drag(&second, &mut cameras);
    zoom(&second, &mut cameras);
    assert_eq!(cameras[0].position, Vec3::new(1.0 - 200.0, 2.0, 3.0));
}
