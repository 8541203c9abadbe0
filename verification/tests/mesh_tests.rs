use voxel_orbit::mesh::cube_faces;
use voxel_orbit::mesh::face_vertices;
use voxel_orbit::mesh::Face;
use voxel_orbit::mesh::FaceTexture;
use voxel_orbit::mesh::VertexUv;
use voxel_orbit::space::Vec3Milli;

fn p(x: i64, y: i64, z: i64) -> Vec3Milli {
    Vec3Milli { x, y, z }
}

#[test]
fn cube_faces_at_origin_are_exact() {
    let faces = cube_faces(p(0, 0, 0));
    let v0 = p(-1000, -1000, -1000);
    let v1 = p(1000, -1000, -1000);
    let v2 = p(1000, 1000, -1000);
    let v3 = p(-1000, 1000, -1000);
    let v4 = p(-1000, -1000, 1000);
    let v5 = p(1000, -1000, 1000);
    let v6 = p(1000, 1000, 1000);
    let v7 = p(-1000, 1000, 1000);
    let expected = vec![
        Face { c0: v3, c1: v2, c2: v6, c3: v7, texture: FaceTexture::Grass },
        Face { c0: v0, c1: v1, c2: v5, c3: v4, texture: FaceTexture::Dirt },
        Face { c0: v4, c1: v5, c2: v6, c3: v7, texture: FaceTexture::Dirt },
        Face { c0: v1, c1: v0, c2: v3, c3: v2, texture: FaceTexture::Dirt },
        Face { c0: v0, c1: v4, c2: v7, c3: v3, texture: FaceTexture::Dirt },
        Face { c0: v5, c1: v1, c2: v2, c3: v6, texture: FaceTexture::Dirt },
    ];
    assert_eq!(faces, expected);
}

#[test]
fn only_the_top_face_is_grass() {
    let faces = cube_faces(p(4000, 0, -2000));
    assert_eq!(faces.len(), 6);
    assert_eq!(faces[0].texture, FaceTexture::Grass);
    for f in 1..6 {
        assert_eq!(faces[f].texture, FaceTexture::Dirt);
    }
}

#[test]
fn cube_faces_follow_the_center() {
    let faces = cube_faces(p(2000, 0, -6000));
    // The top face lies one half-edge above the center's height.
    assert_eq!(faces[0].c0, p(1000, 1000, -7000));
    assert_eq!(faces[0].c1, p(3000, 1000, -7000));
    assert_eq!(faces[0].c2, p(3000, 1000, -5000));
    assert_eq!(faces[0].c3, p(1000, 1000, -5000));
    // The bottom face lies one half-edge below it.
    assert_eq!(faces[1].c0, p(1000, -1000, -7000));
}

#[test]
fn face_vertices_triangulate_with_fixed_uv() {
    let face = Face {
        c0: p(0, 0, 0),
        c1: p(2000, 0, 0),
        c2: p(2000, 2000, 0),
        c3: p(0, 2000, 0),
        texture: FaceTexture::Dirt,
    };
    let vs = face_vertices(&face);
    let expected = vec![
        VertexUv { pos: p(0, 0, 0), u: 0, v: 0 },
        VertexUv { pos: p(2000, 0, 0), u: 1, v: 0 },
        VertexUv { pos: p(2000, 2000, 0), u: 1, v: 1 },
        VertexUv { pos: p(0, 0, 0), u: 0, v: 0 },
        VertexUv { pos: p(2000, 2000, 0), u: 1, v: 1 },
        VertexUv { pos: p(0, 2000, 0), u: 0, v: 1 },
    ];
    assert_eq!(vs, expected);
}
