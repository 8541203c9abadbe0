use voxel_orbit::camera::CameraState;
use voxel_orbit::camera::PointerPos;

#[test]
fn initial_state_matches_defaults() {
    let s = CameraState::new();
    assert_eq!(s.yaw_mrad, 800);
    assert_eq!(s.pitch_mrad, 600);
    assert_eq!(s.distance_milli, 50000);
    assert!(s.last_pointer.is_none());
    assert!(!s.show_camera_model);
}

#[test]
fn first_drag_sample_only_records_pointer() {
    let mut s = CameraState::new();
    s.drag_update(true, 320, 240);
    assert_eq!(s.yaw_mrad, 800);
    assert_eq!(s.pitch_mrad, 600);
    assert_eq!(s.last_pointer, Some(PointerPos { x: 320, y: 240 }));
}

#[test]
fn drag_turns_yaw_and_pitch_by_pixel_delta() {
    let mut s = CameraState::new();
    s.drag_update(true, 100, 100);
    s.drag_update(true, 110, 90);
    // 10 pixels right: yaw grows by 50 mrad; 10 pixels up: pitch grows by 50.
    assert_eq!(s.yaw_mrad, 850);
    assert_eq!(s.pitch_mrad, 650);
}

#[test]
fn pitch_clamps_under_extreme_drag() {
    let mut s = CameraState::new();
    s.drag_update(true, 0, 0);
    s.drag_update(true, 0, -1000000);
    assert_eq!(s.pitch_mrad, 1500);
    s.drag_update(true, 0, 1000000);
    assert_eq!(s.pitch_mrad, -1500);
}

#[test]
fn yaw_is_unbounded_and_wraps() {
    let mut s = CameraState::new();
    s.yaw_mrad = i64::MAX;
    s.last_pointer = Some(PointerPos { x: 0, y: 0 });
    s.drag_update(true, 1, 0);
    assert_eq!(s.yaw_mrad, i64::MIN + 4);
}

#[test]
fn release_empties_tracked_pointer() {
    let mut s = CameraState::new();
    s.drag_update(true, 10, 10);
    s.drag_update(false, 99, 99);
    assert!(s.last_pointer.is_none());
}

#[test]
fn no_jump_on_repress() {
    let mut s = CameraState::new();
    s.drag_update(true, 100, 100);
    s.drag_update(true, 150, 120);
    let yaw = s.yaw_mrad;
    let pitch = s.pitch_mrad;
    // Release anywhere, then press again very far away: the first sample
    // after the re-press must turn the camera by nothing.
    s.drag_update(false, 0, 0);
    s.drag_update(true, -30000, 30000);
    assert_eq!(s.yaw_mrad, yaw);
    assert_eq!(s.pitch_mrad, pitch);
}

#[test]
fn scroll_zooms_by_twice_the_wheel() {
    let mut s = CameraState::new();
    // One unit of wheel (1000 milli-notches) zooms in by two units.
    s.scroll_update(1000);
    assert_eq!(s.distance_milli, 48000);
    s.scroll_update(-1000);
    assert_eq!(s.distance_milli, 50000);
}

#[test]
fn distance_clamps_under_extreme_scroll() {
    let mut s = CameraState::new();
    s.scroll_update(i64::MAX);
    assert_eq!(s.distance_milli, 10000);
    s.scroll_update(i64::MIN);
    assert_eq!(s.distance_milli, 150000);
    s.scroll_update(1000000000);
    assert_eq!(s.distance_milli, 10000);
}

#[test]
fn distance_stays_in_band_over_many_scrolls() {
    let mut s = CameraState::new();
    let inputs: Vec<i64> = vec![500, -4000, 70000, -70000, 3, -3, i64::MAX, i64::MIN, 12345];
    for w in inputs {
        s.scroll_update(w);
        assert!(10000 <= s.distance_milli && s.distance_milli <= 150000);
    }
}

#[test]
fn pitch_stays_in_band_over_many_drags() {
    let mut s = CameraState::new();
    let inputs: Vec<(bool, i32, i32)> = vec![
        (true, 0, 0),
        (true, 5000, -90000),
        (true, -200, 70000),
        (false, 0, 0),
        (true, i32::MAX, i32::MIN),
        (true, i32::MIN, i32::MAX),
    ];
    for (down, x, y) in inputs {
        s.drag_update(down, x, y);
        assert!(-1500 <= s.pitch_mrad && s.pitch_mrad <= 1500);
    }
}

#[test]
fn toggle_once_shows_debug_model() {
    let mut s = CameraState::new();
    s.debug_key_update(true);
    assert!(s.show_camera_model);
    s.debug_key_update(false);
    assert!(s.show_camera_model);
}

#[test]
fn toggle_twice_restores_visibility() {
    let mut s = CameraState::new();
    let before = s.show_camera_model;
    s.debug_key_update(true);
    s.debug_key_update(true);
    assert_eq!(s.show_camera_model, before);
    // Any even number of presses restores the flag.
    for _ in 0..10 {
        s.debug_key_update(true);
    }
    assert_eq!(s.show_camera_model, before);
}
