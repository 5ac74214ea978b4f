//! The ambient-occlusion rule: how dark a corner of a face is, given which
//! of the three cells that touch the corner from outside the face are solid.

use vstd::prelude::*;
use crate::face::{corner_offset, corner_position, Face};

verus! {

/// Occlusion of a corner that no solid cell touches.
pub const MIN_OCCLUSION: u8 = 0;

/// Occlusion of a corner that is closed in.
pub const MAX_OCCLUSION: u8 = 3;

/// Occlusion of a corner from its three samples: the number of solid
/// samples, except that two solid edge samples close the corner in whatever
/// the diagonal sample holds.
pub open spec fn corner_occlusion(side1: bool, side2: bool, corner: bool) -> u8 {
    if side1 && side2 {
        3u8
    } else {
        ((if side1 { 1int } else { 0int }) + (if side2 { 1int } else { 0int }) + (if corner {
            1int
        } else {
            0int
        })) as u8
    }
}

/// Occlusion of a corner from its two edge samples and its diagonal sample.
pub fn vertex_ao(side1: bool, side2: bool, corner: bool) -> (ao: u8)
    ensures
        ao == corner_occlusion(side1, side2, corner),
        MIN_OCCLUSION <= ao <= MAX_OCCLUSION,
        !side1 && !side2 && !corner ==> ao == MIN_OCCLUSION,
        side1 && side2 ==> ao == MAX_OCCLUSION,
{
    if side1 && side2 {
        MAX_OCCLUSION
    } else {
        let a: u8 = if side1 { 1 } else { 0 };
        let b: u8 = if side2 { 1 } else { 0 };
        let c: u8 = if corner { 1 } else { 0 };
        a + b + c
    }
}

/// A corner with no solid sample has the least occlusion; a corner with
/// both edge samples solid has the greatest, and the same one whether its
/// diagonal sample is solid or not. Occlusion never falls when a sample
/// turns solid, and the two edge samples count alike.
pub proof fn lemma_corner_occlusion(side1: bool, side2: bool, corner: bool)
    ensures
        corner_occlusion(false, false, false) == MIN_OCCLUSION,
        corner_occlusion(true, true, corner) == MAX_OCCLUSION,
        corner_occlusion(true, true, true) == corner_occlusion(true, true, false),
        MIN_OCCLUSION <= corner_occlusion(side1, side2, corner) <= MAX_OCCLUSION,
        corner_occlusion(side1, side2, corner) == corner_occlusion(side2, side1, corner),
        corner_occlusion(side1, side2, false) <= corner_occlusion(side1, side2, true),
        corner_occlusion(false, side2, corner) <= corner_occlusion(true, side2, corner),
        corner_occlusion(side1, false, corner) <= corner_occlusion(side1, true, corner),
{
}

/// Step from a cell to the diagonal sample of corner `corner` of `face`:
/// one cell outward through the corner along all three axes.
pub open spec fn diagonal_sample(face: Face, corner: int) -> (int, int, int) {
    let p = corner_position(face, corner);
    (2 * p.0 - 1, 2 * p.1 - 1, 2 * p.2 - 1)
}

/// Steps from a cell to the two edge samples of corner `corner` of `face`:
/// one cell along the face's normal, and one cell toward the corner along
/// one of the two axes that span the face.
pub open spec fn edge_samples(face: Face, corner: int) -> ((int, int, int), (int, int, int)) {
    let d = diagonal_sample(face, corner);
    match face {
        Face::Right | Face::Left => ((d.0, d.1, 0), (d.0, 0, d.2)),
        Face::Top | Face::Bottom => ((d.0, d.1, 0), (0, d.1, d.2)),
        Face::Front | Face::Back => ((d.0, 0, d.2), (0, d.1, d.2)),
    }
}

/// The three sample steps of corner `corner` of `face`: first edge, second
/// edge, diagonal.
pub fn sample_offsets(face: Face, corner: usize) -> (s: ((i8, i8, i8), (i8, i8, i8), (i8, i8, i8)))
    requires
        corner < 4,
    ensures
        (s.0.0 as int, s.0.1 as int, s.0.2 as int) == edge_samples(face, corner as int).0,
        (s.1.0 as int, s.1.1 as int, s.1.2 as int) == edge_samples(face, corner as int).1,
        (s.2.0 as int, s.2.1 as int, s.2.2 as int) == diagonal_sample(face, corner as int),
{
    let p = corner_offset(face, corner);
    let d: (i8, i8, i8) = (2 * p.0 - 1, 2 * p.1 - 1, 2 * p.2 - 1);
    match face {
        Face::Right | Face::Left => ((d.0, d.1, 0), (d.0, 0, d.2), d),
        Face::Top | Face::Bottom => ((d.0, d.1, 0), (0, d.1, d.2), d),
        Face::Front | Face::Back => ((d.0, 0, d.2), (0, d.1, d.2), d),
    }
}

/// All three samples of a corner lie one cell out along the face's normal,
/// so none of them is the cell itself or lies behind the face; each is at
/// most one cell away along every axis, and no two of them coincide.
pub proof fn lemma_samples_outside_face(face: Face, corner: int)
    requires
        0 <= corner < 4,
    ensures
        ({
            let n = face.normal();
            let e = edge_samples(face, corner);
            let d = diagonal_sample(face, corner);
            &&& n.0 != 0 ==> e.0.0 == n.0 && e.1.0 == n.0 && d.0 == n.0
            &&& n.1 != 0 ==> e.0.1 == n.1 && e.1.1 == n.1 && d.1 == n.1
            &&& n.2 != 0 ==> e.0.2 == n.2 && e.1.2 == n.2 && d.2 == n.2
            &&& -1 <= e.0.0 <= 1 && -1 <= e.0.1 <= 1 && -1 <= e.0.2 <= 1
            &&& -1 <= e.1.0 <= 1 && -1 <= e.1.1 <= 1 && -1 <= e.1.2 <= 1
            &&& -1 <= d.0 <= 1 && -1 <= d.1 <= 1 && -1 <= d.2 <= 1
            &&& e.0 != e.1 && e.0 != d && e.1 != d
        }),
{
}

} // verus!
