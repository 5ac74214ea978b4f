use voxel_core::face::{corner_offset, Face};
use voxel_core::occlusion::{sample_offsets, vertex_ao, MAX_OCCLUSION, MIN_OCCLUSION};

const FACES: [Face; 6] = [Face::Right, Face::Left, Face::Top, Face::Bottom, Face::Front, Face::Back];

#[test]
fn faces_are_numbered_in_order() {
    for (i, face) in FACES.iter().enumerate() {
        assert_eq!(face.index(), i);
        assert_eq!(Face::from_index(i), *face);
    }
}

#[test]
fn face_normals() {
    assert_eq!(Face::Right.offset(), (1, 0, 0));
    assert_eq!(Face::Left.offset(), (-1, 0, 0));
    assert_eq!(Face::Top.offset(), (0, 1, 0));
    assert_eq!(Face::Bottom.offset(), (0, -1, 0));
    assert_eq!(Face::Front.offset(), (0, 0, 1));
    assert_eq!(Face::Back.offset(), (0, 0, -1));
}

#[test]
fn corners_of_the_front_face() {
    assert_eq!(corner_offset(Face::Front, 0), (0, 0, 1));
    assert_eq!(corner_offset(Face::Front, 1), (1, 0, 1));
    assert_eq!(corner_offset(Face::Front, 2), (1, 1, 1));
    assert_eq!(corner_offset(Face::Front, 3), (0, 1, 1));
}

#[test]
fn corners_lie_on_their_face() {
    for face in FACES {
        let n = face.offset();
        for corner in 0..4 {
            let p = corner_offset(face, corner);
            if n.0 != 0 {
                assert_eq!(2 * p.0 - 1, n.0);
            }
            if n.1 != 0 {
                assert_eq!(2 * p.1 - 1, n.1);
            }
            if n.2 != 0 {
                assert_eq!(2 * p.2 - 1, n.2);
            }
        }
    }
}

#[test]
fn occlusion_counts_solid_samples() {
    assert_eq!(vertex_ao(false, false, false), 0);
    assert_eq!(vertex_ao(true, false, false), 1);
    assert_eq!(vertex_ao(false, true, false), 1);
    assert_eq!(vertex_ao(false, false, true), 1);
    assert_eq!(vertex_ao(true, false, true), 2);
    assert_eq!(vertex_ao(false, true, true), 2);
}

#[test]
fn no_solid_sample_gives_least_occlusion() {
    assert_eq!(MIN_OCCLUSION, 0);
    assert_eq!(vertex_ao(false, false, false), MIN_OCCLUSION);
}

#[test]
fn two_solid_edges_give_greatest_occlusion_whatever_the_diagonal() {
    assert_eq!(MAX_OCCLUSION, 3);
    assert_eq!(vertex_ao(true, true, false), MAX_OCCLUSION);
    assert_eq!(vertex_ao(true, true, true), MAX_OCCLUSION);
    assert_eq!(vertex_ao(true, true, false), vertex_ao(true, true, true));
}

#[test]
fn samples_of_a_top_corner() {
    let (edge1, edge2, diagonal) = sample_offsets(Face::Top, 1);
    assert_eq!(diagonal, (1, 1, 1));
    assert_eq!(edge1, (1, 1, 0));
    assert_eq!(edge2, (0, 1, 1));
    let (edge1, edge2, diagonal) = sample_offsets(Face::Top, 3);
    assert_eq!(diagonal, (-1, 1, -1));
    assert_eq!(edge1, (-1, 1, 0));
    assert_eq!(edge2, (0, 1, -1));
}

#[test]
fn samples_lie_one_step_out_along_the_normal() {
    for face in FACES {
        let n = face.offset();
        for corner in 0..4 {
            let (e1, e2, d) = sample_offsets(face, corner);
            for s in [e1, e2, d] {
                assert_eq!(s.0 * n.0 + s.1 * n.1 + s.2 * n.2, 1);
            }
            assert_ne!(e1, e2);
            assert_ne!(e1, d);
            assert_ne!(e2, d);
            assert_eq!(d.0.abs() + d.1.abs() + d.2.abs(), 3);
            assert_eq!(e1.0.abs() + e1.1.abs() + e1.2.abs(), 2);
            assert_eq!(e2.0.abs() + e2.1.abs() + e2.2.abs(), 2);
        }
    }
}
