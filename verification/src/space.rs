//! Fixed-point 3D points. One scene unit is 1000 milli; a cube edge of two
//! scene units is 2000 milli. Coordinates live in `i64` and are kept within a
//! generous band so that squared distances never overflow.

use vstd::prelude::*;

verus! {

/// How many milli make one scene unit.
pub const MILLI_PER_UNIT: i64 = 1000;

/// Band within which every coordinate handed to the distance and mesh
/// functions must lie; squared differences of two in-band coordinates
/// (plus the grid's own extent) always fit in `i64`.
pub const COORD_LIMIT_MILLI: i64 = 800000000;

/// A point of the scene, in milli-units on each axis.
#[derive(Clone, Copy, Debug, PartialEq, Eq, Structural)]
pub struct Vec3Milli {
    pub x: i64,
    pub y: i64,
    pub z: i64,
}

/// A single coordinate lies in the accepted band.
pub open spec fn coord_in_range(v: i64) -> bool {
    -COORD_LIMIT_MILLI <= v <= COORD_LIMIT_MILLI
}

/// All three coordinates of a point lie in the accepted band.
pub open spec fn point_in_range(p: Vec3Milli) -> bool {
    coord_in_range(p.x) && coord_in_range(p.y) && coord_in_range(p.z)
}

/// The square of an integer.
pub open spec fn square(v: int) -> int {
    v * v
}

/// Squared Euclidean distance between two points, in squared milli.
pub open spec fn dist_sq_spec(a: Vec3Milli, b: Vec3Milli) -> int {
    square(a.x - b.x) + square(a.y - b.y) + square(a.z - b.z)
}

/// Squared Euclidean distance of two in-band points, computed exactly.
pub fn dist_sq(a: Vec3Milli, b: Vec3Milli) -> (d: i64)
    requires
        point_in_range(a),
        point_in_range(b),
    ensures
        d == dist_sq_spec(a, b),
        d >= 0,
{
    let dx: i64 = a.x - b.x;
    let dy: i64 = a.y - b.y;
    let dz: i64 = a.z - b.z;
    assert(dx * dx <= 1600000000 * 1600000000 && dx * dx >= 0) by (nonlinear_arith)
        requires
            -1600000000 <= dx <= 1600000000,
    ;
    assert(dy * dy <= 1600000000 * 1600000000 && dy * dy >= 0) by (nonlinear_arith)
        requires
            -1600000000 <= dy <= 1600000000,
    ;
    assert(dz * dz <= 1600000000 * 1600000000 && dz * dz >= 0) by (nonlinear_arith)
        requires
            -1600000000 <= dz <= 1600000000,
    ;
    dx * dx + dy * dy + dz * dz
}

} // verus!
