use voxel_orbit::grid::visible_cells;
use voxel_orbit::mesh::cube_faces;
use voxel_orbit::mesh::FaceTexture;
use voxel_orbit::scene::visible_cube_faces;
use voxel_orbit::space::Vec3Milli;

#[test]
fn frame_geometry_is_six_faces_per_visible_cell() {
    let cam = Vec3Milli { x: 0, y: 40000, z: 0 };
    let cells = visible_cells(cam);
    let faces = visible_cube_faces(cam);
    assert!(!cells.is_empty());
    assert_eq!(faces.len(), 6 * cells.len());
    for (i, cell) in cells.iter().enumerate() {
        let expected = cube_faces(*cell);
        for f in 0..6 {
            assert_eq!(faces[6 * i + f], expected[f]);
            let texture = if f == 0 { FaceTexture::Grass } else { FaceTexture::Dirt };
            assert_eq!(faces[6 * i + f].texture, texture);
        }
    }
}

#[test]
fn frame_geometry_is_empty_for_a_far_camera() {
    let cam = Vec3Milli { x: 700000000, y: 0, z: 0 };
    assert!(visible_cube_faces(cam).is_empty());
}
