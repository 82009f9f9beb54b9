use softrender::camera::{Camera, check_collision, COLLISION_MARGIN};
use softrender::input::{handle_input, InputState, ViewToggle, ZOOM_SPEED, MIN_ZOOM_DISTANCE,
    BIRD_HEIGHT};
use softrender::vecmat::V3;
use softrender::fixed::FX_ONE;

const F: i64 = 65536;

fn home_camera() -> Camera {
    Camera::new(
        V3 { x: 0, y: 0, z: -400 * F },
        V3 { x: 0, y: 0, z: 0 },
        V3 { x: 0, y: F, z: 0 },
    )
}

fn dist_sq(a: V3, b: V3) -> i128 {
    let dx = (a.x - b.x) as i128;
    let dy = (a.y - b.y) as i128;
    let dz = (a.z - b.z) as i128;
    dx * dx + dy * dy + dz * dz
}

fn idle_input() -> InputState {
    InputState {
        scroll_y: None,
        orbit_left: false,
        orbit_right: false,
        orbit_up: false,
        orbit_down: false,
        pan_left: false,
        pan_right: false,
        pan_up: false,
        pan_down: false,
        zoom_in: false,
        zoom_out: false,
        bird_toggle_down: false,
    }
}

#[test]
fn zoom_moves_along_the_axis() {
    let mut cam = home_camera();
    cam.zoom(100 * F, 100 * F);
    assert_eq!(cam.eye, V3 { x: 0, y: 0, z: -300 * F });
    assert_eq!(cam.center, V3 { x: 0, y: 0, z: 0 });
    assert!(cam.has_changed);
}

#[test]
fn zoom_clamps_at_the_minimum_distance() {
    let mut cam = home_camera();
    // asks to move 1000 units inward from 400: clamped at 100
    cam.zoom(1000 * F, 100 * F);
    assert_eq!(cam.eye, V3 { x: 0, y: 0, z: -100 * F });
}

#[test]
fn repeated_zoom_never_goes_below_the_minimum() {
    let mut cam = home_camera();
    let min = 100 * F;
    for _ in 0..20 {
        cam.zoom(5000 * F, min);
        let d2 = dist_sq(cam.eye, cam.center);
        assert!(d2 >= (min as i128) * (min as i128));
    }
}

#[test]
fn zoom_out_moves_away() {
    let mut cam = home_camera();
    cam.zoom(-50 * F, 100 * F);
    assert_eq!(cam.eye, V3 { x: 0, y: 0, z: -450 * F });
}

#[test]
fn zoom_from_degenerate_eye_at_center_restores_the_minimum() {
    let mut cam = Camera::new(
        V3 { x: 0, y: 0, z: 0 },
        V3 { x: 0, y: 0, z: 0 },
        V3 { x: 0, y: F, z: 0 },
    );
    cam.zoom(10 * F, 100 * F);
    let d2 = dist_sq(cam.eye, cam.center);
    assert!(d2 >= (100 * F as i128) * (100 * F as i128));
}

#[test]
fn orbit_quarter_turn_around_the_vertical_axis() {
    let mut cam = Camera::new(
        V3 { x: 100 * F, y: 0, z: 0 },
        V3 { x: 0, y: 0, z: 0 },
        V3 { x: 0, y: F, z: 0 },
    );
    // azimuth 90 degrees: cos 0, sin 1; no elevation change
    cam.orbit(0, F, F, 0);
    assert_eq!(cam.eye, V3 { x: 0, y: 0, z: 100 * F });
    assert!(cam.has_changed);
}

#[test]
fn move_center_pans_eye_and_center_together() {
    let mut cam = home_camera();
    cam.move_center(V3 { x: 2 * F, y: -3 * F, z: 0 });
    assert_eq!(cam.eye, V3 { x: 2 * F, y: -3 * F, z: -400 * F });
    assert_eq!(cam.center, V3 { x: 2 * F, y: -3 * F, z: 0 });
    // a zero offset is ignored
    let before = (cam.eye, cam.center);
    cam.move_center(V3 { x: 0, y: 0, z: 0 });
    assert_eq!((cam.eye, cam.center), before);
}

#[test]
fn bird_eye_view_snaps_above_the_target() {
    let mut cam = home_camera();
    let target = V3 { x: 5 * F, y: 0, z: 7 * F };
    cam.bird_eye_view(target, 150 * F);
    assert_eq!(cam.eye, V3 { x: 5 * F, y: 150 * F, z: 7 * F });
    assert_eq!(cam.center, target);
    assert_eq!(cam.up, V3 { x: 0, y: 0, z: FX_ONE });
}

#[test]
fn collision_check_uses_the_safety_margin() {
    let eye = V3 { x: 30 * F, y: 0, z: 0 };
    let body = V3 { x: 0, y: 0, z: 0 };
    // margin is 25 units: 30 < 10 + 25 collides, 30 > 4 + 25 does not
    assert!(check_collision(eye, body, 10 * F));
    assert!(!check_collision(eye, body, 4 * F));
    assert_eq!(COLLISION_MARGIN, 25 * F);
}

#[test]
fn prevent_collision_pushes_the_eye_out() {
    let mut cam = Camera::new(
        V3 { x: 30 * F, y: 0, z: 0 },
        V3 { x: 0, y: 0, z: 0 },
        V3 { x: 0, y: F, z: 0 },
    );
    cam.prevent_collision(V3 { x: 0, y: 0, z: 0 }, 10 * F);
    assert_eq!(cam.eye, V3 { x: 35 * F, y: 0, z: 0 });
    // already clear of the margin: untouched
    let before = cam.eye;
    cam.prevent_collision(V3 { x: 0, y: 0, z: 0 }, 10 * F);
    assert_eq!(cam.eye, before);
}

#[test]
fn idle_input_leaves_the_camera_alone() {
    let mut cam = home_camera();
    let before = (cam.eye, cam.center, cam.up);
    let mut toggle = ViewToggle { bird_eye_active: false, bird_was_down: false };
    handle_input(&idle_input(), &mut cam, V3 { x: 0, y: 0, z: 0 }, &mut toggle);
    assert_eq!((cam.eye, cam.center, cam.up), before);
    assert!(!toggle.bird_eye_active);
}

#[test]
fn zoom_key_respects_the_minimum_distance() {
    let mut cam = home_camera();
    let mut toggle = ViewToggle { bird_eye_active: false, bird_was_down: false };
    let mut input = idle_input();
    input.zoom_in = true;
    handle_input(&input, &mut cam, V3 { x: 0, y: 0, z: 0 }, &mut toggle);
    assert_eq!(cam.eye, V3 { x: 0, y: 0, z: -(400 * F - ZOOM_SPEED) });
    for _ in 0..100 {
        handle_input(&input, &mut cam, V3 { x: 0, y: 0, z: 0 }, &mut toggle);
        let d2 = dist_sq(cam.eye, cam.center);
        assert!(d2 >= (MIN_ZOOM_DISTANCE as i128) * (MIN_ZOOM_DISTANCE as i128));
    }
}

#[test]
fn bird_toggle_fires_on_the_press_edge_only() {
    let mut cam = home_camera();
    let mut toggle = ViewToggle { bird_eye_active: false, bird_was_down: false };
    let center = V3 { x: 0, y: 0, z: 0 };
    let mut input = idle_input();
    input.bird_toggle_down = true;
    handle_input(&input, &mut cam, center, &mut toggle);
    assert!(toggle.bird_eye_active);
    assert_eq!(cam.eye, V3 { x: 0, y: BIRD_HEIGHT, z: 0 });
    assert_eq!(cam.up, V3 { x: 0, y: 0, z: FX_ONE });
    // holding the key does not re-trigger
    let eye_held = cam.eye;
    handle_input(&input, &mut cam, center, &mut toggle);
    assert!(toggle.bird_eye_active);
    assert_eq!(cam.eye, eye_held);
    // release, then press again: restores the home view
    input.bird_toggle_down = false;
    handle_input(&input, &mut cam, center, &mut toggle);
    input.bird_toggle_down = true;
    handle_input(&input, &mut cam, center, &mut toggle);
    assert!(!toggle.bird_eye_active);
    assert_eq!(cam.eye, V3 { x: 0, y: 80 * F, z: -200 * F });
    assert_eq!(cam.up, V3 { x: 0, y: F, z: 0 });
}
