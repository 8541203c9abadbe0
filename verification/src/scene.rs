//! One frame's worth of scene geometry: the faces of every cube within
//! render distance of the camera, exactly six per visible cell and cell by
//! cell in scan order. This is the whole per-frame drawing decision as one
//! verified function; the host only converts the result and submits it.

use vstd::prelude::*;
use crate::grid::{visible_cells, visible_count, visible_positions};
use crate::mesh::{cube_faces, face_matches, Face};
use crate::space::{point_in_range, Vec3Milli};

verus! {

/// Build the faces of all cubes within render distance of `cam`: six faces
/// for each visible cell, in the cells' scan order, so face `k` is face
/// `k % 6` of the cube at the `k / 6`-th visible cell's center.
pub fn visible_cube_faces(cam: Vec3Milli) -> (faces: Vec<Face>)
    requires
        point_in_range(cam),
    ensures
        faces@.len() == 6 * visible_count(cam),
        forall|k: int|
            0 <= k < faces@.len() ==> face_matches(
                #[trigger] faces@[k],
                visible_positions(cam)[k / 6],
                k % 6,
            ),
{
    let cells: Vec<Vec3Milli> = visible_cells(cam);
    let mut faces: Vec<Face> = Vec::new();
    let mut j: usize = 0;
    while j < cells.len()
        invariant
            j <= cells@.len(),
            cells@ == visible_positions(cam),
            cells@.len() == visible_count(cam),
            forall|i: int| 0 <= i < cells@.len() ==> point_in_range(#[trigger] cells@[i]),
            faces@.len() == 6 * j,
            forall|k: int|
                0 <= k < faces@.len() ==> face_matches(
                    #[trigger] faces@[k],
                    cells@[k / 6],
                    k % 6,
                ),
        decreases cells@.len() - j,
    {
        let center: Vec3Milli = cells[j];
        let mut six: Vec<Face> = cube_faces(center);
        let ghost faces_before = faces@;
        faces.append(&mut six);
        proof {
            assert forall|k: int| 0 <= k < faces@.len() implies face_matches(
                #[trigger] faces@[k],
                cells@[k / 6],
                k % 6,
            ) by {
                if k < faces_before.len() {
                    assert(faces@[k] == faces_before[k]);
                } else {
                    let r = k - 6 * (j as int);
                    assert(0 <= r < 6);
                    assert(k / 6 == j as int && k % 6 == r) by (nonlinear_arith)
                        requires
                            k == 6 * (j as int) + r,
                            0 <= r < 6,
                    ;
                    assert(face_matches(faces@[k], center, r));
                }
            }
        }
        j = j + 1;
    }
    faces
}

} // verus!
