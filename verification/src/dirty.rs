//! Which neighbouring chunks a write makes stale.
//!
//! A chunk's caches depend on the cells of a neighbour only through the
//! layer of the neighbour that touches the chunk. So a write makes the mesh
//! of a neighbour stale only where the written cell lies in that layer.

use vstd::prelude::*;
use crate::block::BlockID;
use crate::coords::{cell_index, in_chunk, lemma_cell_index_in_range};
use crate::face::Face;
use crate::mesh::{
    baked_faces,
    baked_occlusion,
    block_around,
    occlusion_at,
    side_block,
    visible_at,
};
use crate::neighbors::NeighborsView;

verus! {

/// Whether the cell `(x, y, z)` lies in the layer of its chunk that touches
/// the chunk beyond `face`.
pub open spec fn touches_side(x: int, y: int, z: int, face: Face) -> bool {
    match face {
        Face::Right => x == 15,
        Face::Left => x == 0,
        Face::Top => y == 15,
        Face::Bottom => y == 0,
        Face::Front => z == 15,
        Face::Back => z == 0,
    }
}

/// The neighbours that a write to the cell `(x, y, z)` of a chunk makes
/// stale, by face: the chunk beyond a face has to be marked dirty exactly
/// where the cell lies in the layer that touches it.
pub fn stale_neighbors(x: u32, y: u32, z: u32) -> (stale: [bool; 6])
    requires
        in_chunk(x as int, y as int, z as int),
    ensures
        stale[0] == touches_side(x as int, y as int, z as int, Face::Right),
        stale[1] == touches_side(x as int, y as int, z as int, Face::Left),
        stale[2] == touches_side(x as int, y as int, z as int, Face::Top),
        stale[3] == touches_side(x as int, y as int, z as int, Face::Bottom),
        stale[4] == touches_side(x as int, y as int, z as int, Face::Front),
        stale[5] == touches_side(x as int, y as int, z as int, Face::Back),
        forall|face: Face|
            stale[face.ordinal() as int] == #[trigger] touches_side(
                x as int,
                y as int,
                z as int,
                face,
            ),
{
    [x == 15, x == 0, y == 15, y == 0, z == 15, z == 0]
}

/// A write to a cell away from the chunk's border makes no neighbour
/// stale. A write to a cell of the border makes stale at most one
/// neighbour along each axis, and along an axis on which the cell lies
/// inside, none.
pub proof fn lemma_stale_neighbors(x: int, y: int, z: int)
    requires
        in_chunk(x, y, z),
    ensures
        1 <= x <= 14 && 1 <= y <= 14 && 1 <= z <= 14 ==> forall|face: Face|
            !#[trigger] touches_side(x, y, z, face),
        forall|face: Face|
            !(#[trigger] touches_side(x, y, z, face) && touches_side(x, y, z, face.opposite())),
        1 <= x <= 14 ==> !touches_side(x, y, z, Face::Right) && !touches_side(x, y, z, Face::Left),
        1 <= y <= 14 ==> !touches_side(x, y, z, Face::Top) && !touches_side(x, y, z, Face::Bottom),
        1 <= z <= 14 ==> !touches_side(x, y, z, Face::Front) && !touches_side(x, y, z, Face::Back),
{
}

/// A write to a cell that lies on one side of the chunk only makes exactly
/// the neighbour beyond that side stale: with `x` at 0 and `y` and `z`
/// inside, the chunk to the left and no other; and so on each side.
pub proof fn lemma_side_write_marks_one(x: int, y: int, z: int, side: Face)
    requires
        in_chunk(x, y, z),
        touches_side(x, y, z, side),
        side.normal().0 == 0 ==> 1 <= x <= 14,
        side.normal().1 == 0 ==> 1 <= y <= 14,
        side.normal().2 == 0 ==> 1 <= z <= 14,
    ensures
        forall|face: Face| #[trigger] touches_side(x, y, z, face) <==> face == side,
{
}

/// What a chunk sees around it does not change when a neighbour is written
/// to away from the layer that touches the chunk.
proof fn lemma_view_unchanged(
    far: Seq<BlockID>,
    before: NeighborsView,
    after: NeighborsView,
    face: Face,
    near: Seq<BlockID>,
    x: int,
    y: int,
    z: int,
    block: BlockID,
    px: int,
    py: int,
    pz: int,
)
    requires
        near.len() == 4096,
        in_chunk(x, y, z),
        !touches_side(x, y, z, face),
        before.side(face.opposite()) == Some(near),
        after.side(face.opposite()) == Some(near.update(cell_index(x, y, z), block)),
        forall|f: Face| f != face.opposite() ==> after.side(f) == before.side(f),
    ensures
        block_around(far, after, px, py, pz) == block_around(far, before, px, py, pz),
{
    lemma_cell_index_in_range(x, y, z);
    let back = face.opposite();
    assert forall|qx: int, qy: int, qz: int|
        in_chunk(qx, qy, qz) && touches_side(qx, qy, qz, face) implies side_block(
        after,
        back,
        qx,
        qy,
        qz,
    ) == side_block(before, back, qx, qy, qz) by {
        lemma_cell_index_in_range(qx, qy, qz);
    }
    assert forall|f: Face, qx: int, qy: int, qz: int| f != back implies side_block(
        after,
        f,
        qx,
        qy,
        qz,
    ) == side_block(before, f, qx, qy, qz) by {
        assert(after.side(f) == before.side(f));
    }
    if in_chunk(px, py, pz) {
    } else if px == 16 && in_chunk(0, py, pz) {
        assert(touches_side(0, py, pz, Face::Left));
    } else if px == -1 && in_chunk(0, py, pz) {
        assert(touches_side(15, py, pz, Face::Right));
    } else if py == 16 && in_chunk(px, 0, pz) {
        assert(touches_side(px, 0, pz, Face::Bottom));
    } else if py == -1 && in_chunk(px, 0, pz) {
        assert(touches_side(px, 15, pz, Face::Top));
    } else if pz == 16 && in_chunk(px, py, 0) {
        assert(touches_side(px, py, 0, Face::Back));
    } else if pz == -1 && in_chunk(px, py, 0) {
        assert(touches_side(px, py, 15, Face::Front));
    }
}

/// A write to the cell `(x, y, z)` of the chunk `near` that makes the
/// neighbour beyond `face` not stale leaves that neighbour's visibility
/// and occlusion as they were: a rebuild of the neighbour `far` after the
/// write would fill its caches with what they hold already.
pub proof fn lemma_unmarked_neighbor_unchanged(
    far: Seq<BlockID>,
    before: NeighborsView,
    after: NeighborsView,
    face: Face,
    near: Seq<BlockID>,
    x: int,
    y: int,
    z: int,
    block: BlockID,
)
    requires
        near.len() == 4096,
        in_chunk(x, y, z),
        !touches_side(x, y, z, face),
        before.side(face.opposite()) == Some(near),
        after.side(face.opposite()) == Some(near.update(cell_index(x, y, z), block)),
        forall|f: Face| f != face.opposite() ==> after.side(f) == before.side(f),
    ensures
        baked_faces(far, after) == baked_faces(far, before),
        baked_occlusion(far, after) == baked_occlusion(far, before),
{
    assert forall|px: int, py: int, pz: int|
        #[trigger] block_around(far, after, px, py, pz) == block_around(
            far,
            before,
            px,
            py,
            pz,
        ) by {
        lemma_view_unchanged(far, before, after, face, near, x, y, z, block, px, py, pz);
    }
    assert forall|i: int, f: Face|
        #[trigger] visible_at(far, after, i, f) == visible_at(far, before, i, f) by {
        reveal(visible_at);
    }
    assert forall|i: int, f: Face, c: int|
        #[trigger] occlusion_at(far, after, i, f, c) == occlusion_at(far, before, i, f, c) by {
        reveal(occlusion_at);
    }
    assert(baked_faces(far, after) =~= baked_faces(far, before));
    assert(baked_occlusion(far, after) =~~= baked_occlusion(far, before));
}

} // verus!
