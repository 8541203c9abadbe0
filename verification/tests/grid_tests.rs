use voxel_orbit::grid::count_visible;
use voxel_orbit::grid::visible_cells;
use voxel_orbit::space::Vec3Milli;

/// Reference count written straight from the prose rule: a cell is rendered
/// when its center's Euclidean distance from the camera is at most the
/// render distance (boundary included).
fn reference_count(cam: Vec3Milli) -> usize {
    let mut n: usize = 0;
    for x in 0..100i64 {
        for z in 0..50i64 {
            let px = x * 2000 - 100000;
            let pz = z * 2000 - 50000;
            let dx = (px - cam.x) as f64;
            let dy = (0 - cam.y) as f64;
            let dz = (pz - cam.z) as f64;
            let dist = (dx * dx + dy * dy + dz * dz).sqrt();
            if dist <= 50000.0 {
                n += 1;
            }
        }
    }
    n
}

#[test]
fn count_at_origin_matches_reference() {
    let cam = Vec3Milli { x: 0, y: 0, z: 0 };
    assert_eq!(count_visible(cam), reference_count(cam));
}

#[test]
fn count_at_offset_camera_matches_reference() {
    let cam = Vec3Milli { x: 31415, y: 9265, z: -35897 };
    assert_eq!(count_visible(cam), reference_count(cam));
}

#[test]
fn count_never_exceeds_total_cells() {
    let cams = vec![
        Vec3Milli { x: 0, y: 0, z: 0 },
        Vec3Milli { x: -100000, y: 0, z: -50000 },
        Vec3Milli { x: 800000000, y: -800000000, z: 0 },
        Vec3Milli { x: 12345, y: 67890, z: -4242 },
    ];
    for cam in cams {
        assert!(count_visible(cam) <= 5000);
    }
}

#[test]
fn far_camera_sees_nothing() {
    let cam = Vec3Milli { x: 800000000, y: 800000000, z: 800000000 };
    assert_eq!(count_visible(cam), 0);
    assert!(visible_cells(cam).is_empty());
}

#[test]
fn camera_on_a_cell_center_sees_it() {
    let cam = Vec3Milli { x: -100000, y: 0, z: -50000 };
    let cells = visible_cells(cam);
    assert!(cells.contains(&Vec3Milli { x: -100000, y: 0, z: -50000 }));
}

#[test]
fn boundary_distance_is_included() {
    // The first cell's center is (-100000, 0, -50000); this camera stands
    // exactly the render distance (50000 milli) away from it along x.
    let cam = Vec3Milli { x: -50000, y: 0, z: -50000 };
    let cells = visible_cells(cam);
    assert!(cells.contains(&Vec3Milli { x: -100000, y: 0, z: -50000 }));
}

#[test]
fn cells_are_exactly_the_near_ones_in_scan_order() {
    let cam = Vec3Milli { x: 20000, y: 30000, z: 10000 };
    let cells = visible_cells(cam);
    let mut expected: Vec<Vec3Milli> = Vec::new();
    for x in 0..100i64 {
        for z in 0..50i64 {
            let px = x * 2000 - 100000;
            let pz = z * 2000 - 50000;
            let dx = px - cam.x;
            let dy = 0 - cam.y;
            let dz = pz - cam.z;
            if dx * dx + dy * dy + dz * dz <= 50000i64 * 50000 {
                expected.push(Vec3Milli { x: px, y: 0, z: pz });
            }
        }
    }
    assert_eq!(cells, expected);
}

#[test]
fn default_pose_scenario_renders_some_but_not_all() {
    // Camera at distance 50 units with the default yaw 0.8 and pitch 0.6,
    // derived the way the renderer derives its pose.
    let yaw = 0.8f32;
    let pitch = 0.6f32;
    let distance = 50.0f32;
    let cam_x = yaw.sin() * pitch.cos() * distance;
    let cam_y = pitch.sin() * distance;
    let cam_z = yaw.cos() * pitch.cos() * distance;
    let cam = Vec3Milli {
        x: (cam_x * 1000.0) as i64,
        y: (cam_y * 1000.0) as i64,
        z: (cam_z * 1000.0) as i64,
    };
    let n = count_visible(cam);
    assert!(n > 0);
    assert!(n < 5000);
}
