//! Cube geometry for the renderer: the six quadrilateral faces of an
//! axis-aligned cube around a center point, and the fixed two-triangle
//! expansion of one face with its corner-to-texture-coordinate mapping.
//! The top face carries the grass texture; the other five carry dirt.

use vstd::prelude::*;
use crate::grid::CUBE_HALF_MILLI;
use crate::space::{coord_in_range, Vec3Milli};

verus! {

/// Which of the two generated textures a face carries.
#[derive(Clone, Copy, Debug, PartialEq, Eq, Structural)]
pub enum FaceTexture {
    Grass,
    Dirt,
}

/// One quadrilateral cube face: four corners in draw order and the texture
/// it carries. Texture coordinates are fixed per corner: `c0` maps to (0,0),
/// `c1` to (1,0), `c2` to (1,1) and `c3` to (0,1).
#[derive(Clone, Copy, Debug, PartialEq, Eq, Structural)]
pub struct Face {
    pub c0: Vec3Milli,
    pub c1: Vec3Milli,
    pub c2: Vec3Milli,
    pub c3: Vec3Milli,
    pub texture: FaceTexture,
}

/// One vertex of a triangulated face: a position and its texture
/// coordinates, each 0 or 1.
#[derive(Clone, Copy, Debug, PartialEq, Eq, Structural)]
pub struct VertexUv {
    pub pos: Vec3Milli,
    pub u: u8,
    pub v: u8,
}

/// Corner `i` (0 ..= 7) of the cube centered at `c`, in the fixed numbering
/// the faces are built from: bit patterns of (x high, y high, z high) in the
/// order 0:(-,-,-) 1:(+,-,-) 2:(+,+,-) 3:(-,+,-) 4:(-,-,+) 5:(+,-,+)
/// 6:(+,+,+) 7:(-,+,+).
pub open spec fn corner_spec(c: Vec3Milli, i: int) -> (int, int, int) {
    let lo_x = c.x - CUBE_HALF_MILLI;
    let hi_x = c.x + CUBE_HALF_MILLI;
    let lo_y = c.y - CUBE_HALF_MILLI;
    let hi_y = c.y + CUBE_HALF_MILLI;
    let lo_z = c.z - CUBE_HALF_MILLI;
    let hi_z = c.z + CUBE_HALF_MILLI;
    if i == 0 {
        (lo_x, lo_y, lo_z)
    } else if i == 1 {
        (hi_x, lo_y, lo_z)
    } else if i == 2 {
        (hi_x, hi_y, lo_z)
    } else if i == 3 {
        (lo_x, hi_y, lo_z)
    } else if i == 4 {
        (lo_x, lo_y, hi_z)
    } else if i == 5 {
        (hi_x, lo_y, hi_z)
    } else if i == 6 {
        (hi_x, hi_y, hi_z)
    } else {
        (lo_x, hi_y, hi_z)
    }
}

/// Which cube corner stands at slot `k` (0 ..= 3) of face `f` (0 ..= 5), in
/// the fixed face order 0: top, 1: bottom, 2: front, 3: back, 4: left,
/// 5: right.
pub open spec fn face_corner_index(f: int, k: int) -> int {
    if f == 0 {
        if k == 0 { 3 } else if k == 1 { 2 } else if k == 2 { 6 } else { 7 }
    } else if f == 1 {
        if k == 0 { 0 } else if k == 1 { 1 } else if k == 2 { 5 } else { 4 }
    } else if f == 2 {
        if k == 0 { 4 } else if k == 1 { 5 } else if k == 2 { 6 } else { 7 }
    } else if f == 3 {
        if k == 0 { 1 } else if k == 1 { 0 } else if k == 2 { 3 } else { 2 }
    } else if f == 4 {
        if k == 0 { 0 } else if k == 1 { 4 } else if k == 2 { 7 } else { 3 }
    } else {
        if k == 0 { 5 } else if k == 1 { 1 } else if k == 2 { 2 } else { 6 }
    }
}

/// The texture face `f` carries: grass on the top face, dirt on the rest.
pub open spec fn face_texture_spec(f: int) -> FaceTexture {
    if f == 0 {
        FaceTexture::Grass
    } else {
        FaceTexture::Dirt
    }
}

/// The point equals the given coordinate triple.
pub open spec fn pos_matches(p: Vec3Milli, t: (int, int, int)) -> bool {
    p.x == t.0 && p.y == t.1 && p.z == t.2
}

/// `face` is face `f` of the cube centered at `c`: its four corners stand at
/// the right cube corners and it carries the right texture.
pub open spec fn face_matches(face: Face, c: Vec3Milli, f: int) -> bool {
    &&& pos_matches(face.c0, corner_spec(c, face_corner_index(f, 0)))
    &&& pos_matches(face.c1, corner_spec(c, face_corner_index(f, 1)))
    &&& pos_matches(face.c2, corner_spec(c, face_corner_index(f, 2)))
    &&& pos_matches(face.c3, corner_spec(c, face_corner_index(f, 3)))
    &&& face.texture == face_texture_spec(f)
}

/// Build the six faces of the cube centered at `center`, in the fixed draw
/// order top, bottom, front, back, left, right; the top face carries grass
/// and the five others dirt.
pub fn cube_faces(center: Vec3Milli) -> (faces: Vec<Face>)
    requires
        coord_in_range(center.x),
        coord_in_range(center.y),
        coord_in_range(center.z),
    ensures
        faces@.len() == 6,
        forall|f: int| 0 <= f < 6 ==> face_matches(#[trigger] faces@[f], center, f),
{
    let lo_x: i64 = center.x - CUBE_HALF_MILLI;
    let hi_x: i64 = center.x + CUBE_HALF_MILLI;
    let lo_y: i64 = center.y - CUBE_HALF_MILLI;
    let hi_y: i64 = center.y + CUBE_HALF_MILLI;
    let lo_z: i64 = center.z - CUBE_HALF_MILLI;
    let hi_z: i64 = center.z + CUBE_HALF_MILLI;
    let v0: Vec3Milli = Vec3Milli { x: lo_x, y: lo_y, z: lo_z };
    let v1: Vec3Milli = Vec3Milli { x: hi_x, y: lo_y, z: lo_z };
    let v2: Vec3Milli = Vec3Milli { x: hi_x, y: hi_y, z: lo_z };
    let v3: Vec3Milli = Vec3Milli { x: lo_x, y: hi_y, z: lo_z };
    let v4: Vec3Milli = Vec3Milli { x: lo_x, y: lo_y, z: hi_z };
    let v5: Vec3Milli = Vec3Milli { x: hi_x, y: lo_y, z: hi_z };
    let v6: Vec3Milli = Vec3Milli { x: hi_x, y: hi_y, z: hi_z };
    let v7: Vec3Milli = Vec3Milli { x: lo_x, y: hi_y, z: hi_z };
    let mut faces: Vec<Face> = Vec::new();
    faces.push(Face { c0: v3, c1: v2, c2: v6, c3: v7, texture: FaceTexture::Grass });
    faces.push(Face { c0: v0, c1: v1, c2: v5, c3: v4, texture: FaceTexture::Dirt });
    faces.push(Face { c0: v4, c1: v5, c2: v6, c3: v7, texture: FaceTexture::Dirt });
    faces.push(Face { c0: v1, c1: v0, c2: v3, c3: v2, texture: FaceTexture::Dirt });
    faces.push(Face { c0: v0, c1: v4, c2: v7, c3: v3, texture: FaceTexture::Dirt });
    faces.push(Face { c0: v5, c1: v1, c2: v2, c3: v6, texture: FaceTexture::Dirt });
    faces
}

/// Expand one face into the six vertices of its two triangles, in the fixed
/// order corners 0, 1, 2 then 0, 2, 3, each with its texture coordinates.
pub fn face_vertices(face: &Face) -> (vs: Vec<VertexUv>)
    ensures
        vs@.len() == 6,
        vs@[0] == (VertexUv { pos: face.c0, u: 0, v: 0 }),
        vs@[1] == (VertexUv { pos: face.c1, u: 1, v: 0 }),
        vs@[2] == (VertexUv { pos: face.c2, u: 1, v: 1 }),
        vs@[3] == (VertexUv { pos: face.c0, u: 0, v: 0 }),
        vs@[4] == (VertexUv { pos: face.c2, u: 1, v: 1 }),
        vs@[5] == (VertexUv { pos: face.c3, u: 0, v: 1 }),
{
    let mut vs: Vec<VertexUv> = Vec::new();
    vs.push(VertexUv { pos: face.c0, u: 0, v: 0 });
    vs.push(VertexUv { pos: face.c1, u: 1, v: 0 });
    vs.push(VertexUv { pos: face.c2, u: 1, v: 1 });
    vs.push(VertexUv { pos: face.c0, u: 0, v: 0 });
    vs.push(VertexUv { pos: face.c2, u: 1, v: 1 });
    vs.push(VertexUv { pos: face.c3, u: 0, v: 1 });
    vs
}

} // verus!
