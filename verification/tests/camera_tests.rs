use gloom::camera::{Camera, MOVEMENT_SPEED, PITCH_MAX, SENSITIVITY, YAW_MAX};
use gloom::fixed::{HALF_PI_FX, ONE};

#[test]
fn yaw_wraps_past_the_maximum() {
    let mut cam = Camera::new();
    // start just short of the maximum heading
    cam.yaw = YAW_MAX - 66;
    // a delta of 131072 raw pixels turns by 131072 * 66 / 65536 = 132
    cam.move_mouse(131072, 0);
    assert_eq!(cam.yaw, -YAW_MAX + 66);
    assert!(-YAW_MAX <= cam.yaw && cam.yaw <= YAW_MAX);
}

#[test]
fn pitch_clamps_at_the_pole() {
    let mut cam = Camera::new();
    cam.move_mouse(0, -0x800_0000);
    assert_eq!(cam.pitch, -PITCH_MAX);
    // further negative input does not push past the pole
    cam.move_mouse(0, -0x800_0000);
    assert_eq!(cam.pitch, -PITCH_MAX);
    assert_eq!(cam.pitch, -HALF_PI_FX);
}

#[test]
fn small_mouse_delta_scales_by_sensitivity() {
    let mut cam = Camera::new();
    cam.move_mouse(65536, 65536);
    assert_eq!(cam.yaw, SENSITIVITY);
    assert_eq!(cam.pitch, SENSITIVITY);
}

#[test]
fn movement_follows_the_heading() {
    let mut cam = Camera::new();
    // looking straight ahead: forward is along negative z
    cam.move_forward(ONE);
    assert_eq!(cam.x, 0);
    assert_eq!(cam.z, -MOVEMENT_SPEED);
    cam.move_backward(ONE);
    assert_eq!(cam.z, 0);
    cam.move_right(ONE);
    assert_eq!(cam.x, MOVEMENT_SPEED);
    assert_eq!(cam.z, 0);
    cam.move_left(ONE);
    assert_eq!(cam.x, 0);
    cam.move_up(ONE);
    assert_eq!(cam.y, MOVEMENT_SPEED);
    cam.move_down(ONE);
    assert_eq!(cam.y, 0);
}

#[test]
fn view_transform_exists_for_a_sane_setup() {
    let cam = Camera::new();
    let m = cam.make_view_transform(HALF_PI_FX, 3 * ONE / 4);
    assert!(m.is_some());
    let m = m.unwrap();
    // the projection's homogeneous row survives the chain
    assert_eq!(m.m32, -ONE);
}

#[test]
fn degenerate_field_of_view_is_refused() {
    let cam = Camera::new();
    assert!(cam.make_view_transform(0, ONE).is_none());
    assert!(cam.make_view_transform(HALF_PI_FX, 0).is_none());
}
