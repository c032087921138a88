use orbit_viewer::camera::Action;
use orbit_viewer::camera::Camera;
use orbit_viewer::camera::MouseButton;

use std::f32::consts::PI;

type Orbit = Camera<[f32; 3], f32, f64>;

fn orbit(radius: f32) -> Orbit {
    Camera::new([0.0, 0.0, 0.0], radius, 0.0, PI / 2.0, 0.01, 1.0, 0.0, 0.0)
}

fn clamp_elevation(e: f32) -> f32 {
    if e < 0.01 {
        0.01
    } else if e > PI - 0.01 {
        PI - 0.01
    } else {
        e
    }
}

// Moves the pointer and turns the camera by the distance it travelled.
fn drag_to(cam: &mut Orbit, x: f64, y: f64) -> bool {
    let dx = x - cam.last_x;
    let dy = y - cam.last_y;
    let azimuth = cam.azimuth + dx as f32 * cam.orbit_speed;
    let elevation = clamp_elevation(cam.elevation - dy as f32 * cam.orbit_speed);
    cam.process_mouse_move(x, y, azimuth, elevation)
}

fn position(cam: &Orbit) -> [f32; 3] {
    let e = clamp_elevation(cam.elevation);
    [
        cam.radius * e.sin() * cam.azimuth.cos(),
        cam.radius * e.cos(),
        cam.radius * e.sin() * cam.azimuth.sin(),
    ]
}

#[test]
fn new_camera_is_idle_and_keeps_its_arguments() {
    let cam: Camera<u8, i32, i64> = Camera::new(9, 5, 0, 90, 2, 3, -7, 11);
    assert_eq!(cam.target, 9);
    assert_eq!(cam.radius, 5);
    assert_eq!(cam.azimuth, 0);
    assert_eq!(cam.elevation, 90);
    assert_eq!(cam.orbit_speed, 2);
    assert_eq!(cam.zoom_speed, 3);
    assert!(!cam.dragging);
    assert_eq!(cam.last_x, -7);
    assert_eq!(cam.last_y, 11);
}

#[test]
fn new_camera_at_radius_five_sits_on_the_x_axis() {
    let cam = orbit(5.0);
    let p = position(&cam);
    assert!((p[0] - 5.0).abs() < 1e-5);
    assert!(p[1].abs() < 1e-5);
    assert!(p[2].abs() < 1e-5);
}

#[test]
fn left_press_starts_a_drag_at_the_pointer() {
    let mut cam = orbit(5.0);
    cam.process_mouse_button(MouseButton::Left, Action::Press, 100.0, 120.0);
    assert!(cam.dragging);
    assert_eq!(cam.last_x, 100.0);
    assert_eq!(cam.last_y, 120.0);
    assert_eq!(cam.azimuth, 0.0);
    assert_eq!(cam.elevation, PI / 2.0);
    assert_eq!(cam.radius, 5.0);
}

#[test]
fn left_release_ends_the_drag_and_keeps_the_position() {
    let mut cam = orbit(5.0);
    cam.process_mouse_button(MouseButton::Left, Action::Press, 100.0, 120.0);
    cam.process_mouse_button(MouseButton::Left, Action::Release, 300.0, 400.0);
    assert!(!cam.dragging);
    assert_eq!(cam.last_x, 100.0);
    assert_eq!(cam.last_y, 120.0);
}

#[test]
fn left_repeat_changes_nothing() {
    let mut cam = orbit(5.0);
    cam.process_mouse_button(MouseButton::Left, Action::Repeat, 1.0, 2.0);
    assert!(!cam.dragging);
    assert_eq!(cam.last_x, 0.0);
    assert_eq!(cam.last_y, 0.0);
    cam.process_mouse_button(MouseButton::Left, Action::Press, 3.0, 4.0);
    cam.process_mouse_button(MouseButton::Left, Action::Repeat, 5.0, 6.0);
    assert!(cam.dragging);
    assert_eq!(cam.last_x, 3.0);
    assert_eq!(cam.last_y, 4.0);
}

#[test]
fn other_buttons_change_nothing() {
    let buttons = [
        MouseButton::Right,
        MouseButton::Middle,
        MouseButton::Button4,
        MouseButton::Button5,
        MouseButton::Button6,
        MouseButton::Button7,
        MouseButton::Button8,
    ];
    let actions = [Action::Press, Action::Release, Action::Repeat];
    for button in buttons {
        for action in actions {
            let mut idle = orbit(5.0);
            idle.process_mouse_button(button, action, 50.0, 60.0);
            assert!(!idle.dragging);
            assert_eq!(idle.last_x, 0.0);
            assert_eq!(idle.last_y, 0.0);

            let mut dragging = orbit(5.0);
            dragging.process_mouse_button(MouseButton::Left, Action::Press, 1.0, 2.0);
            dragging.process_mouse_button(button, action, 50.0, 60.0);
            assert!(dragging.dragging);
            assert_eq!(dragging.last_x, 1.0);
            assert_eq!(dragging.last_y, 2.0);
        }
    }
}

#[test]
fn idle_move_keeps_the_angles_and_records_the_pointer() {
    let mut cam = orbit(5.0);
    let turned = cam.process_mouse_move(40.0, 30.0, 1.25, 0.5);
    assert!(!turned);
    assert_eq!(cam.azimuth, 0.0);
    assert_eq!(cam.elevation, PI / 2.0);
    assert_eq!(cam.last_x, 40.0);
    assert_eq!(cam.last_y, 30.0);
    assert!(!cam.dragging);
}

#[test]
fn dragging_move_takes_the_angles_and_records_the_pointer() {
    let mut cam = orbit(5.0);
    cam.process_mouse_button(MouseButton::Left, Action::Press, 0.0, 0.0);
    let turned = cam.process_mouse_move(40.0, 30.0, 1.25, 0.5);
    assert!(turned);
    assert_eq!(cam.azimuth, 1.25);
    assert_eq!(cam.elevation, 0.5);
    assert_eq!(cam.last_x, 40.0);
    assert_eq!(cam.last_y, 30.0);
    assert!(cam.dragging);
    assert_eq!(cam.radius, 5.0);
    assert_eq!(cam.orbit_speed, 0.01);
    assert_eq!(cam.zoom_speed, 1.0);
    assert_eq!(cam.target, [0.0, 0.0, 0.0]);
}

#[test]
fn drag_of_ten_units_turns_the_azimuth_by_a_tenth() {
    let mut cam = orbit(5.0);
    cam.process_mouse_button(MouseButton::Left, Action::Press, 100.0, 100.0);
    assert!(drag_to(&mut cam, 110.0, 100.0));
    assert!((cam.azimuth - 0.1).abs() < 1e-6);
    assert_eq!(cam.elevation, PI / 2.0);
    assert_eq!(cam.last_x, 110.0);
    assert_eq!(cam.last_y, 100.0);
}

#[test]
fn press_far_from_the_last_position_does_not_jump() {
    let mut cam = orbit(5.0);
    assert!(!drag_to(&mut cam, 900.0, 700.0));
    assert!(!drag_to(&mut cam, 5.0, 5.0));
    cam.process_mouse_button(MouseButton::Left, Action::Press, 400.0, 300.0);
    assert!(drag_to(&mut cam, 400.0, 300.0));
    assert_eq!(cam.azimuth, 0.0);
    assert_eq!(cam.elevation, PI / 2.0);
}

#[test]
fn move_after_release_no_longer_turns() {
    let mut cam = orbit(5.0);
    cam.process_mouse_button(MouseButton::Left, Action::Press, 0.0, 0.0);
    assert!(drag_to(&mut cam, 20.0, 0.0));
    let azimuth = cam.azimuth;
    cam.process_mouse_button(MouseButton::Left, Action::Release, 20.0, 0.0);
    assert!(!drag_to(&mut cam, 80.0, 50.0));
    assert_eq!(cam.azimuth, azimuth);
    assert_eq!(cam.elevation, PI / 2.0);
    assert_eq!(cam.last_x, 80.0);
    assert_eq!(cam.last_y, 50.0);
}

#[test]
fn long_vertical_drag_stays_off_the_poles() {
    let mut cam = orbit(5.0);
    cam.process_mouse_button(MouseButton::Left, Action::Press, 0.0, 0.0);
    assert!(drag_to(&mut cam, 0.0, 10_000.0));
    assert_eq!(cam.elevation, 0.01);
    assert!(drag_to(&mut cam, 0.0, -10_000.0));
    assert_eq!(cam.elevation, PI - 0.01);
}
