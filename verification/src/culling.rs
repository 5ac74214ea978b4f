//! What face culling guarantees: faces between two opaque blocks are never
//! drawn, and a block that stands alone shows all six.

use vstd::prelude::*;
use crate::block::BlockID;
use crate::coords::{cell_at, cell_index, in_chunk, lemma_cell_at_in_chunk, lemma_cell_index_in_range};
use crate::face::{face_at, Face};
use crate::mesh::{
    baked_faces,
    block_around,
    block_vertices,
    emitted,
    face_visible,
    side_block,
    visible_at,
};
use crate::neighbors::NeighborsView;
use crate::shapes::{active_count, lemma_cube_vertices_len, UVFaces};

verus! {

/// A block shows a face exactly where it is opaque and its neighbour is
/// not. So a face between two opaque blocks is hidden on both sides, a face
/// between two transparent blocks is hidden on both sides, and a face
/// between an opaque and a transparent block is shown on the opaque side
/// alone.
pub proof fn lemma_face_rule(a: BlockID, b: BlockID)
    ensures
        face_visible(a, b) <==> !a.is_transparent() && b.is_transparent(),
        !a.is_transparent() && !b.is_transparent() ==> !face_visible(a, b) && !face_visible(b, a),
        a.is_transparent() && b.is_transparent() ==> !face_visible(a, b) && !face_visible(b, a),
        !a.is_transparent() && b.is_transparent() ==> face_visible(a, b) && !face_visible(b, a),
        a.is_air() ==> !face_visible(a, b),
{
}

/// Two opaque blocks that lie next to each other in one chunk hide the
/// face that they share, on both sides, whatever surrounds the chunk.
pub proof fn lemma_shared_face_hidden(
    blocks: Seq<BlockID>,
    around: NeighborsView,
    i: int,
    face: Face,
)
    requires
        blocks.len() == 4096,
        0 <= i < 4096,
        in_chunk(
            cell_at(i).0 + face.normal().0,
            cell_at(i).1 + face.normal().1,
            cell_at(i).2 + face.normal().2,
        ),
        !blocks[i].is_transparent(),
        !blocks[cell_index(
            cell_at(i).0 + face.normal().0,
            cell_at(i).1 + face.normal().1,
            cell_at(i).2 + face.normal().2,
        )].is_transparent(),
    ensures
        !visible_at(blocks, around, i, face),
        !visible_at(
            blocks,
            around,
            cell_index(
                cell_at(i).0 + face.normal().0,
                cell_at(i).1 + face.normal().1,
                cell_at(i).2 + face.normal().2,
            ),
            face.opposite(),
        ),
{
    reveal(visible_at);
    let c = cell_at(i);
    let n = face.normal();
    let j = cell_index(c.0 + n.0, c.1 + n.1, c.2 + n.2);
    lemma_cell_at_in_chunk(i);
    lemma_cell_index_in_range(c.0 + n.0, c.1 + n.1, c.2 + n.2);
    let m = face.opposite().normal();
    assert(cell_at(j).0 + m.0 == c.0 && cell_at(j).1 + m.1 == c.1 && cell_at(j).2 + m.2 == c.2);
    assert(block_around(blocks, around, c.0 as int, c.1 as int, c.2 as int) == blocks[i]);
}

/// Two opaque blocks that lie next to each other across the border of two
/// chunks hide the face that they share, on both sides: `near` holds the
/// cell at storage index `i`, `far` is the chunk beyond `face`, and each of
/// the two chunks is the other's neighbour.
pub proof fn lemma_shared_face_hidden_across(
    near: Seq<BlockID>,
    around_near: NeighborsView,
    far: Seq<BlockID>,
    around_far: NeighborsView,
    i: int,
    face: Face,
)
    requires
        near.len() == 4096,
        far.len() == 4096,
        0 <= i < 4096,
        around_near.side(face) == Some(far),
        around_far.side(face.opposite()) == Some(near),
        !in_chunk(
            cell_at(i).0 + face.normal().0,
            cell_at(i).1 + face.normal().1,
            cell_at(i).2 + face.normal().2,
        ),
        !near[i].is_transparent(),
        !far[cell_index(
            cell_at(i).0 + face.normal().0 - 16 * face.normal().0,
            cell_at(i).1 + face.normal().1 - 16 * face.normal().1,
            cell_at(i).2 + face.normal().2 - 16 * face.normal().2,
        )].is_transparent(),
    ensures
        !visible_at(near, around_near, i, face),
        !visible_at(
            far,
            around_far,
            cell_index(
                cell_at(i).0 + face.normal().0 - 16 * face.normal().0,
                cell_at(i).1 + face.normal().1 - 16 * face.normal().1,
                cell_at(i).2 + face.normal().2 - 16 * face.normal().2,
            ),
            face.opposite(),
        ),
{
    reveal(visible_at);
    let c = cell_at(i);
    let n = face.normal();
    lemma_cell_at_in_chunk(i);
    let j = cell_index(c.0 + n.0 - 16 * n.0, c.1 + n.1 - 16 * n.1, c.2 + n.2 - 16 * n.2);
    lemma_cell_index_in_range(c.0 + n.0 - 16 * n.0, c.1 + n.1 - 16 * n.1, c.2 + n.2 - 16 * n.2);
    let m = face.opposite().normal();
    assert(block_around(near, around_near, c.0 + n.0, c.1 + n.1, c.2 + n.2) == far[j]);
    assert(block_around(far, around_far, cell_at(j).0 + m.0, cell_at(j).1 + m.1, cell_at(j).2 + m.2)
        == near[i]);
}

/// A chunk that is full of one opaque block kind, with a chunk full of the
/// same kind on every side, has no visible face and an empty mesh.
pub proof fn lemma_buried_chunk_has_no_faces(
    blocks: Seq<BlockID>,
    around: NeighborsView,
    block: BlockID,
    ao: Seq<Seq<Seq<u8>>>,
    textures: Seq<UVFaces>,
)
    requires
        blocks.len() == 4096,
        !block.is_transparent(),
        forall|i: int| 0 <= i < 4096 ==> blocks[i] == block,
        forall|face: Face|
            (#[trigger] around.side(face)).is_some() && around.side(face).unwrap().len() == 4096,
        forall|face: Face, i: int|
            0 <= i < 4096 ==> #[trigger] around.side(face).unwrap()[i] == block,
    ensures
        forall|i: int, face: Face| 0 <= i < 4096 ==> !#[trigger] visible_at(blocks, around, i, face),
        forall|k: int| 0 <= k < 6 * 4096 ==> !baked_faces(blocks, around)[k],
        emitted(blocks, baked_faces(blocks, around), ao, textures, 4096).len() == 0,
{
    assert forall|i: int, face: Face| 0 <= i < 4096 implies !#[trigger] visible_at(
        blocks,
        around,
        i,
        face,
    ) by {
        reveal(visible_at);
        lemma_cell_at_in_chunk(i);
        let c = cell_at(i);
        let n = face.normal();
        let (x, y, z) = (c.0 + n.0, c.1 + n.1, c.2 + n.2);
        if in_chunk(x, y, z) {
            lemma_cell_index_in_range(x, y, z);
        } else {
            assert(around.side(face).is_some());
            let far = around.side(face).unwrap();
            lemma_cell_index_in_range(x - 16 * n.0, y - 16 * n.1, z - 16 * n.2);
            assert(far[cell_index(x - 16 * n.0, y - 16 * n.1, z - 16 * n.2)] == block);
            assert(block_around(blocks, around, x, y, z) == side_block(
                around,
                face,
                x - 16 * n.0,
                y - 16 * n.1,
                z - 16 * n.2,
            ));
        }
    }
    let faces = baked_faces(blocks, around);
    lemma_no_faces_no_vertices(blocks, faces, ao, textures, 4096);
}

/// Cells without an active face contribute no vertex.
pub proof fn lemma_no_faces_no_vertices(
    blocks: Seq<BlockID>,
    faces: Seq<bool>,
    ao: Seq<Seq<Seq<u8>>>,
    textures: Seq<UVFaces>,
    n: nat,
)
    requires
        n <= 4096,
        faces.len() == 6 * 4096,
        forall|k: int| 0 <= k < 6 * n ==> !faces[k],
    ensures
        emitted(blocks, faces, ao, textures, n).len() == 0,
    decreases n,
{
    if n > 0 {
        lemma_no_faces_no_vertices(blocks, faces, ao, textures, (n - 1) as nat);
        lemma_block_vertices_len(blocks, faces, ao, textures, n - 1);
        let part = faces.subrange(6 * (n - 1), 6 * (n - 1) + 6);
        reveal_with_fuel(active_count, 7);
        assert(!part[0] && !part[1] && !part[2] && !part[3] && !part[4] && !part[5]);
    }
}

/// A cell contributes six vertices for each of its active faces, and none
/// where it holds air.
pub proof fn lemma_block_vertices_len(
    blocks: Seq<BlockID>,
    faces: Seq<bool>,
    ao: Seq<Seq<Seq<u8>>>,
    textures: Seq<UVFaces>,
    i: int,
)
    ensures
        block_vertices(blocks, faces, ao, textures, i).len() == if blocks[i].is_air() {
            0
        } else {
            6 * active_count(faces.subrange(6 * i, 6 * i + 6), 6)
        },
{
    let c = cell_at(i);
    lemma_cube_vertices_len(
        c.0 as int,
        c.1 as int,
        c.2 as int,
        textures[blocks[i].ordinal() as int],
        faces.subrange(6 * i, 6 * i + 6),
        ao[i],
    );
}

/// The six flags of the cell at storage index `i` add their count to that
/// of the cells before it.
proof fn lemma_active_count_step(faces: Seq<bool>, i: int)
    requires
        0 <= i,
        6 * i + 6 <= faces.len(),
    ensures
        active_count(faces, (6 * i + 6) as nat) == active_count(faces, (6 * i) as nat)
            + active_count(faces.subrange(6 * i, 6 * i + 6), 6),
{
    let part = faces.subrange(6 * i, 6 * i + 6);
    assert(part[0] == faces[6 * i] && part[1] == faces[6 * i + 1] && part[2] == faces[6 * i + 2]
        && part[3] == faces[6 * i + 3] && part[4] == faces[6 * i + 4] && part[5] == faces[6 * i
        + 5]);
    reveal_with_fuel(active_count, 7);
}

/// Where no cell of air has an active face, the mesh of the first `n`
/// cells has six vertices for each active face of those cells.
pub proof fn lemma_six_vertices_per_active_face(
    blocks: Seq<BlockID>,
    faces: Seq<bool>,
    ao: Seq<Seq<Seq<u8>>>,
    textures: Seq<UVFaces>,
    n: nat,
)
    requires
        n <= 4096,
        faces.len() == 6 * 4096,
        forall|k: int| 0 <= k < 6 * n && blocks[k / 6].is_air() ==> !faces[k],
    ensures
        emitted(blocks, faces, ao, textures, n).len() == 6 * active_count(faces, 6 * n),
    decreases n,
{
    if n > 0 {
        let i = n - 1;
        lemma_six_vertices_per_active_face(blocks, faces, ao, textures, i as nat);
        lemma_block_vertices_len(blocks, faces, ao, textures, i);
        lemma_active_count_step(faces, i);
        if blocks[i].is_air() {
            let part = faces.subrange(6 * i, 6 * i + 6);
            assert forall|f: int| 0 <= f < 6 implies !part[f] by {
                assert((6 * i + f) / 6 == i);
                assert(part[f] == faces[6 * i + f]);
            }
            reveal_with_fuel(active_count, 7);
            assert(active_count(part, 6) == 0);
        }
    }
}

/// The mesh of a chunk that was rebuilt has six vertices for each face
/// that the rebuild found visible.
pub proof fn lemma_rebuilt_mesh_len(
    blocks: Seq<BlockID>,
    around: NeighborsView,
    ao: Seq<Seq<Seq<u8>>>,
    textures: Seq<UVFaces>,
)
    requires
        blocks.len() == 4096,
    ensures
        emitted(blocks, baked_faces(blocks, around), ao, textures, 4096).len() == 6 * active_count(
            baked_faces(blocks, around),
            6 * 4096,
        ),
{
    let faces = baked_faces(blocks, around);
    assert forall|k: int| 0 <= k < 6 * 4096 && blocks[k / 6].is_air() implies !faces[k] by {
        reveal(visible_at);
    }
    lemma_six_vertices_per_active_face(blocks, faces, ao, textures, 4096);
}

/// A single opaque block in a chunk of air, with nothing but air around
/// the chunk, shows all six faces; no other cell shows any; and the mesh
/// has exactly 36 vertices.
pub proof fn lemma_lone_block_shows_six_faces(
    blocks: Seq<BlockID>,
    around: NeighborsView,
    p: int,
    ao: Seq<Seq<Seq<u8>>>,
    textures: Seq<UVFaces>,
)
    requires
        blocks.len() == 4096,
        0 <= p < 4096,
        !blocks[p].is_transparent(),
        forall|i: int| 0 <= i < 4096 && i != p ==> blocks[i] == BlockID::Air,
        around.wf(),
        forall|face: Face, i: int|
            0 <= i < 4096 && around.side(face).is_some() ==> #[trigger] around.side(
                face,
            ).unwrap()[i] == BlockID::Air,
    ensures
        forall|face: Face| #[trigger] visible_at(blocks, around, p, face),
        forall|i: int, face: Face|
            0 <= i < 4096 && i != p ==> !#[trigger] visible_at(blocks, around, i, face),
        emitted(blocks, baked_faces(blocks, around), ao, textures, 4096).len() == 36,
{
    assert forall|face: Face| #[trigger] visible_at(blocks, around, p, face) by {
        reveal(visible_at);
        lemma_cell_at_in_chunk(p);
        let c = cell_at(p);
        let n = face.normal();
        let (x, y, z) = (c.0 + n.0, c.1 + n.1, c.2 + n.2);
        if in_chunk(x, y, z) {
            lemma_cell_index_in_range(x, y, z);
            assert(cell_index(x, y, z) != p);
        } else {
            lemma_cell_index_in_range(x - 16 * n.0, y - 16 * n.1, z - 16 * n.2);
            assert(block_around(blocks, around, x, y, z) == side_block(
                around,
                face,
                x - 16 * n.0,
                y - 16 * n.1,
                z - 16 * n.2,
            ));
        }
    }
    assert forall|i: int, face: Face| 0 <= i < 4096 && i != p implies !#[trigger] visible_at(
        blocks,
        around,
        i,
        face,
    ) by {
        reveal(visible_at);
    }
    lemma_lone_block_prefix(blocks, around, p, ao, textures, 4096);
}

/// With a single block at storage index `p`, the mesh of the first `n`
/// cells is empty up to that block and has 36 vertices from it on.
proof fn lemma_lone_block_prefix(
    blocks: Seq<BlockID>,
    around: NeighborsView,
    p: int,
    ao: Seq<Seq<Seq<u8>>>,
    textures: Seq<UVFaces>,
    n: nat,
)
    requires
        blocks.len() == 4096,
        0 <= p < 4096,
        n <= 4096,
        !blocks[p].is_transparent(),
        forall|i: int| 0 <= i < 4096 && i != p ==> blocks[i] == BlockID::Air,
        forall|face: Face| #[trigger] visible_at(blocks, around, p, face),
    ensures
        emitted(blocks, baked_faces(blocks, around), ao, textures, n).len() == if n > p {
            36int
        } else {
            0int
        },
    decreases n,
{
    if n > 0 {
        let faces = baked_faces(blocks, around);
        lemma_lone_block_prefix(blocks, around, p, ao, textures, (n - 1) as nat);
        lemma_block_vertices_len(blocks, faces, ao, textures, n - 1);
        if n - 1 == p {
            let part = faces.subrange(6 * p, 6 * p + 6);
            assert forall|f: int| 0 <= f < 6 implies part[f] by {
                assert(part[f] == faces[6 * p + f]);
                assert((6 * p + f) / 6 == p && (6 * p + f) % 6 == f);
                assert(visible_at(blocks, around, p, face_at(f)));
            }
            reveal_with_fuel(active_count, 7);
            assert(active_count(part, 6) == 6);
        }
    }
}

} // verus!
