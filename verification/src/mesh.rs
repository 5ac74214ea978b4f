//! Building a chunk's mesh: which faces are visible, how dark their corners
//! are, and the vertices that come of it.

use vstd::prelude::*;
use bit_vec::BitVec;
use crate::bits::{bits_get, bits_of, bits_set};
use crate::block::BlockID;
use crate::coords::{
    cell_at,
    cell_index,
    chunk_coords_to_array_index,
    in_chunk,
    lemma_cell_at_in_chunk,
    lemma_cell_index_in_range,
    BlockIterator,
};
use crate::face::{face_at, Face};
use crate::neighbors::{Neighbors, NeighborsView};
use crate::occlusion::{corner_occlusion, diagonal_sample, edge_samples, sample_offsets, vertex_ao};
use crate::shapes::{
    ao_table,
    cube_vertices,
    lemma_cube_vertices_len,
    write_unit_cube_to_ptr,
    UVFaces,
    Vertex,
};
use crate::texture::TexturePack;

verus! {

/// The block kind of the cell `(x, y, z)` of the chunk beyond `face`; air
/// where no chunk is loaded there.
pub open spec fn side_block(around: NeighborsView, face: Face, x: int, y: int, z: int) -> BlockID {
    match around.side(face) {
        Some(blocks) => blocks[cell_index(x, y, z)],
        None => BlockID::Air,
    }
}

/// The block kind at `(x, y, z)` as seen from a chunk, in the chunk's own
/// coordinates: a cell of the chunk itself, or, one step out through a
/// side, the facing cell of the chunk beyond that side. Everywhere else,
/// and where no chunk is loaded, there is air.
pub open spec fn block_around(
    blocks: Seq<BlockID>,
    around: NeighborsView,
    x: int,
    y: int,
    z: int,
) -> BlockID {
    if in_chunk(x, y, z) {
        blocks[cell_index(x, y, z)]
    } else if x == 16 && in_chunk(0, y, z) {
        side_block(around, Face::Right, 0, y, z)
    } else if x == -1 && in_chunk(0, y, z) {
        side_block(around, Face::Left, 15, y, z)
    } else if y == 16 && in_chunk(x, 0, z) {
        side_block(around, Face::Top, x, 0, z)
    } else if y == -1 && in_chunk(x, 0, z) {
        side_block(around, Face::Bottom, x, 15, z)
    } else if z == 16 && in_chunk(x, y, 0) {
        side_block(around, Face::Front, x, y, 0)
    } else if z == -1 && in_chunk(x, y, 0) {
        side_block(around, Face::Back, x, y, 15)
    } else {
        BlockID::Air
    }
}

/// Whether a block shows the face that it turns to `neighbor`: the block
/// is not air, light passes through the neighbour, and the block itself
/// lets no light through.
pub open spec fn face_visible(block: BlockID, neighbor: BlockID) -> bool {
    !block.is_air() && neighbor.is_transparent() && !block.is_transparent()
}

/// Whether a block counts as solid when occlusion is sampled. Foliage does.
pub open spec fn casts_shadow(block: BlockID) -> bool {
    !block.is_transparent_no_leaves()
}

/// Whether `face` of the cell at storage index `i` is visible.
#[verifier::opaque]
pub open spec fn visible_at(blocks: Seq<BlockID>, around: NeighborsView, i: int, face: Face) -> bool {
    let c = cell_at(i);
    let n = face.normal();
    face_visible(blocks[i], block_around(blocks, around, c.0 + n.0, c.1 + n.1, c.2 + n.2))
}

/// Whether the cell that lies `step` away from the cell at storage index
/// `i` counts as solid when occlusion is sampled.
pub open spec fn shadow_at(
    blocks: Seq<BlockID>,
    around: NeighborsView,
    i: int,
    step: (int, int, int),
) -> bool {
    let c = cell_at(i);
    casts_shadow(block_around(blocks, around, c.0 + step.0, c.1 + step.1, c.2 + step.2))
}

/// The occlusion at corner `corner` of `face` of the cell at storage index
/// `i`.
#[verifier::opaque]
pub open spec fn occlusion_at(
    blocks: Seq<BlockID>,
    around: NeighborsView,
    i: int,
    face: Face,
    corner: int,
) -> u8 {
    let e = edge_samples(face, corner);
    corner_occlusion(
        shadow_at(blocks, around, i, e.0),
        shadow_at(blocks, around, i, e.1),
        shadow_at(blocks, around, i, diagonal_sample(face, corner)),
    )
}

/// The visibility flags of a whole chunk: six per cell, by storage index
/// and then by face.
pub open spec fn baked_faces(blocks: Seq<BlockID>, around: NeighborsView) -> Seq<bool> {
    Seq::new(6 * 4096, |k: int| visible_at(blocks, around, k / 6, face_at(k % 6)))
}

/// The occlusion table of a whole chunk, by storage index, face and corner.
pub open spec fn baked_occlusion(blocks: Seq<BlockID>, around: NeighborsView) -> Seq<Seq<Seq<u8>>> {
    Seq::new(
        4096,
        |i: int| Seq::new(6, |f: int| Seq::new(4, |c: int| occlusion_at(blocks, around, i, face_at(f), c))),
    )
}

/// The occlusion tables of a run of cells as nested sequences.
pub open spec fn ao_tables(ao: Seq<[[u8; 4]; 6]>) -> Seq<Seq<Seq<u8>>> {
    Seq::new(ao.len(), |i: int| ao_table(ao[i]))
}

/// The vertices of the cell at storage index `i`: none for air; else those
/// of the faces that `faces` marks active, shaded by `ao` and textured by
/// the entry that `textures` holds for the cell's block kind.
pub open spec fn block_vertices(
    blocks: Seq<BlockID>,
    faces: Seq<bool>,
    ao: Seq<Seq<Seq<u8>>>,
    textures: Seq<UVFaces>,
    i: int,
) -> Seq<Vertex> {
    if blocks[i].is_air() {
        Seq::empty()
    } else {
        let c = cell_at(i);
        cube_vertices(
            c.0 as int,
            c.1 as int,
            c.2 as int,
            textures[blocks[i].ordinal() as int],
            faces.subrange(6 * i, 6 * i + 6),
            ao[i],
        )
    }
}

/// The vertices of the first `n` cells in storage order, one cell after
/// another.
pub open spec fn emitted(
    blocks: Seq<BlockID>,
    faces: Seq<bool>,
    ao: Seq<Seq<Seq<u8>>>,
    textures: Seq<UVFaces>,
    n: nat,
) -> Seq<Vertex>
    decreases n,
{
    if n == 0 {
        Seq::empty()
    } else {
        emitted(blocks, faces, ao, textures, (n - 1) as nat) + block_vertices(
            blocks,
            faces,
            ao,
            textures,
            n - 1,
        )
    }
}

/// The first `n` cells contribute at most 36 vertices each.
pub proof fn lemma_emitted_len(
    blocks: Seq<BlockID>,
    faces: Seq<bool>,
    ao: Seq<Seq<Seq<u8>>>,
    textures: Seq<UVFaces>,
    n: nat,
)
    ensures
        emitted(blocks, faces, ao, textures, n).len() <= 36 * n,
    decreases n,
{
    if n > 0 {
        lemma_emitted_len(blocks, faces, ao, textures, (n - 1) as nat);
        let c = cell_at(n - 1);
        lemma_cube_vertices_len(
            c.0 as int,
            c.1 as int,
            c.2 as int,
            textures[blocks[n - 1].ordinal() as int],
            faces.subrange(6 * (n - 1), 6 * (n - 1) + 6),
            ao[n - 1],
        );
    }
}

/// Whether a block shows the face that it turns to `neighbor`.
pub fn is_face_visible(block: BlockID, neighbor: BlockID) -> (visible: bool)
    ensures
        visible == face_visible(block, neighbor),
{
    !block.is_air() && neighbor.is_transparent() && !block.is_transparent()
}

/// The block kind of cell `(x, y, z)` of the chunk beyond `face`; air where
/// no chunk is loaded there.
fn read_side(neighbors: &Neighbors, face: Face, x: u32, y: u32, z: u32) -> (block: BlockID)
    requires
        neighbors.wf(),
        in_chunk(x as int, y as int, z as int),
    ensures
        block == side_block(neighbors@, face, x as int, y as int, z as int),
{
    match neighbors.side(face) {
        Some(chunk) => chunk.get_block(x, y, z),
        None => BlockID::Air,
    }
}

/// The block kind at `(x, y, z)` as seen from the chunk that holds
/// `blocks`, in that chunk's coordinates: a cell of the chunk, a facing
/// cell of a neighbour, or air.
pub fn read_around(blocks: &Vec<BlockID>, neighbors: &Neighbors, x: i32, y: i32, z: i32) -> (block:
    BlockID)
    requires
        blocks.len() == 4096,
        neighbors.wf(),
    ensures
        block == block_around(blocks@, neighbors@, x as int, y as int, z as int),
{
    let x_in = 0 <= x && x < 16;
    let y_in = 0 <= y && y < 16;
    let z_in = 0 <= z && z < 16;
    if x_in && y_in && z_in {
        blocks[chunk_coords_to_array_index(x as u32, y as u32, z as u32)]
    } else if x == 16 && y_in && z_in {
        read_side(neighbors, Face::Right, 0, y as u32, z as u32)
    } else if x == -1 && y_in && z_in {
        read_side(neighbors, Face::Left, 15, y as u32, z as u32)
    } else if y == 16 && x_in && z_in {
        read_side(neighbors, Face::Top, x as u32, 0, z as u32)
    } else if y == -1 && x_in && z_in {
        read_side(neighbors, Face::Bottom, x as u32, 15, z as u32)
    } else if z == 16 && x_in && y_in {
        read_side(neighbors, Face::Front, x as u32, y as u32, 0)
    } else if z == -1 && x_in && y_in {
        read_side(neighbors, Face::Back, x as u32, y as u32, 15)
    } else {
        BlockID::Air
    }
}

/// Whether `face` of the cell `(x, y, z)` is visible.
fn face_is_visible(
    blocks: &Vec<BlockID>,
    neighbors: &Neighbors,
    x: u32,
    y: u32,
    z: u32,
    face: Face,
) -> (visible: bool)
    requires
        blocks.len() == 4096,
        neighbors.wf(),
        in_chunk(x as int, y as int, z as int),
    ensures
        visible == visible_at(blocks@, neighbors@, cell_index(x as int, y as int, z as int), face),
{
    proof {
        reveal(visible_at);
        lemma_cell_index_in_range(x as int, y as int, z as int);
    }
    let i = chunk_coords_to_array_index(x, y, z);
    let n = face.offset();
    let neighbor = read_around(
        blocks,
        neighbors,
        x as i32 + n.0 as i32,
        y as i32 + n.1 as i32,
        z as i32 + n.2 as i32,
    );
    is_face_visible(blocks[i], neighbor)
}

/// Whether the cell one step from the cell `(x, y, z)` counts as solid when
/// occlusion is sampled.
fn sample_is_solid(
    blocks: &Vec<BlockID>,
    neighbors: &Neighbors,
    x: u32,
    y: u32,
    z: u32,
    step: (i8, i8, i8),
) -> (solid: bool)
    requires
        blocks.len() == 4096,
        neighbors.wf(),
        in_chunk(x as int, y as int, z as int),
    ensures
        solid == shadow_at(
            blocks@,
            neighbors@,
            cell_index(x as int, y as int, z as int),
            (step.0 as int, step.1 as int, step.2 as int),
        ),
{
    proof {
        lemma_cell_index_in_range(x as int, y as int, z as int);
    }
    let block = read_around(
        blocks,
        neighbors,
        x as i32 + step.0 as i32,
        y as i32 + step.1 as i32,
        z as i32 + step.2 as i32,
    );
    !block.is_transparent_no_leaves()
}

/// The occlusion at corner `corner` of `face` of the cell `(x, y, z)`.
fn corner_ao(
    blocks: &Vec<BlockID>,
    neighbors: &Neighbors,
    x: u32,
    y: u32,
    z: u32,
    face: Face,
    corner: usize,
) -> (ao: u8)
    requires
        blocks.len() == 4096,
        neighbors.wf(),
        in_chunk(x as int, y as int, z as int),
        corner < 4,
    ensures
        ao == occlusion_at(
            blocks@,
            neighbors@,
            cell_index(x as int, y as int, z as int),
            face,
            corner as int,
        ),
{
    proof {
        reveal(occlusion_at);
    }
    let s = sample_offsets(face, corner);
    let side1 = sample_is_solid(blocks, neighbors, x, y, z, s.0);
    let side2 = sample_is_solid(blocks, neighbors, x, y, z, s.1);
    let diagonal = sample_is_solid(blocks, neighbors, x, y, z, s.2);
    vertex_ao(side1, side2, diagonal)
}

/// The occlusion at the four corners of `face` of the cell `(x, y, z)`.
fn face_ao(blocks: &Vec<BlockID>, neighbors: &Neighbors, x: u32, y: u32, z: u32, face: Face) -> (ao:
    [u8; 4])
    requires
        blocks.len() == 4096,
        neighbors.wf(),
        in_chunk(x as int, y as int, z as int),
    ensures
        forall|c: int|
            0 <= c < 4 ==> ao[c] == occlusion_at(
                blocks@,
                neighbors@,
                cell_index(x as int, y as int, z as int),
                face,
                c,
            ),
{
    [
        corner_ao(blocks, neighbors, x, y, z, face, 0),
        corner_ao(blocks, neighbors, x, y, z, face, 1),
        corner_ao(blocks, neighbors, x, y, z, face, 2),
        corner_ao(blocks, neighbors, x, y, z, face, 3),
    ]
}

/// The occlusion table of the cell `(x, y, z)`: by face, then by corner.
pub fn compute_ao_of_block(
    blocks: &Vec<BlockID>,
    neighbors: &Neighbors,
    x: u32,
    y: u32,
    z: u32,
) -> (ao: [[u8; 4]; 6])
    requires
        blocks.len() == 4096,
        neighbors.wf(),
        in_chunk(x as int, y as int, z as int),
    ensures
        ao_table(ao) == baked_occlusion(blocks@, neighbors@)[cell_index(
            x as int,
            y as int,
            z as int,
        )],
{
    let ao = [
        face_ao(blocks, neighbors, x, y, z, Face::Right),
        face_ao(blocks, neighbors, x, y, z, Face::Left),
        face_ao(blocks, neighbors, x, y, z, Face::Top),
        face_ao(blocks, neighbors, x, y, z, Face::Bottom),
        face_ao(blocks, neighbors, x, y, z, Face::Front),
        face_ao(blocks, neighbors, x, y, z, Face::Back),
    ];
    proof {
        let i = cell_index(x as int, y as int, z as int);
        let want = baked_occlusion(blocks@, neighbors@)[i];
        assert forall|f: int| 0 <= f < 6 implies #[trigger] ao_table(ao)[f] =~= want[f] by {
            assert(face_at(f).ordinal() == f);
        }
        assert(ao_table(ao) =~= want);
    }
    ao
}

/// Finds the visible faces of every cell and stores them in `active_faces`.
pub(crate) fn bake_active_faces(
    blocks: &Vec<BlockID>,
    neighbors: &Neighbors,
    active_faces: &mut BitVec,
)
    requires
        blocks.len() == 4096,
        neighbors.wf(),
        bits_of(*old(active_faces)).len() == 6 * 4096,
    ensures
        bits_of(*final(active_faces)) == baked_faces(blocks@, neighbors@),
{
    let mut it = BlockIterator::new();
    loop
        invariant
            it.wf(),
            blocks.len() == 4096,
            neighbors.wf(),
            0 <= it.yielded() <= 4096,
            bits_of(*active_faces).len() == 6 * 4096,
            forall|k: int|
                0 <= k < 6 * it.yielded() ==> bits_of(*active_faces)[k] == baked_faces(
                    blocks@,
                    neighbors@,
                )[k],
        ensures
            it.yielded() == 4096,
        decreases 4096 - it.yielded(),
    {
        let ghost i = it.yielded();
        match it.next() {
            Some((x, y, z)) => {
                proof {
                    lemma_cell_at_in_chunk(i);
                }
                let base = 6 * chunk_coords_to_array_index(x, y, z);
                let mut f: usize = 0;
                while f < 6
                    invariant
                        f <= 6,
                        base == 6 * i,
                        0 <= i < 4096,
                        i == cell_index(x as int, y as int, z as int),
                        in_chunk(x as int, y as int, z as int),
                        blocks.len() == 4096,
                        neighbors.wf(),
                        bits_of(*active_faces).len() == 6 * 4096,
                        forall|k: int|
                            0 <= k < 6 * i + f ==> bits_of(*active_faces)[k] == baked_faces(
                                blocks@,
                                neighbors@,
                            )[k],
                    decreases 6 - f,
                {
                    let face = Face::from_index(f);
                    let visible = face_is_visible(blocks, neighbors, x, y, z, face);
                    bits_set(active_faces, base + f, visible);
                    f += 1;
                }
            },
            None => {
                break ;
            },
        }
    }
    assert(bits_of(*active_faces) =~= baked_faces(blocks@, neighbors@));
}

/// Finds the occlusion of every corner of every cell and stores it in `ao`.
pub(crate) fn bake_occlusion(
    blocks: &Vec<BlockID>,
    neighbors: &Neighbors,
    ao: &mut Vec<[[u8; 4]; 6]>,
)
    requires
        blocks.len() == 4096,
        neighbors.wf(),
        old(ao).len() == 4096,
    ensures
        final(ao).len() == 4096,
        ao_tables(final(ao)@) == baked_occlusion(blocks@, neighbors@),
{
    let mut it = BlockIterator::new();
    loop
        invariant
            it.wf(),
            blocks.len() == 4096,
            neighbors.wf(),
            0 <= it.yielded() <= 4096,
            ao.len() == 4096,
            forall|j: int|
                0 <= j < it.yielded() ==> ao_table(#[trigger] ao[j]) == baked_occlusion(
                    blocks@,
                    neighbors@,
                )[j],
        ensures
            it.yielded() == 4096,
        decreases 4096 - it.yielded(),
    {
        let ghost i = it.yielded();
        match it.next() {
            Some((x, y, z)) => {
                proof {
                    lemma_cell_at_in_chunk(i);
                }
                let table = compute_ao_of_block(blocks, neighbors, x, y, z);
                ao[chunk_coords_to_array_index(x, y, z)] = table;
            },
            None => {
                break ;
            },
        }
    }
    assert(ao_tables(ao@) =~= baked_occlusion(blocks@, neighbors@));
}

/// The flag at index `k` of `flags`.
fn read_flag(flags: &BitVec, k: usize) -> (flag: bool)
    requires
        k < bits_of(*flags).len(),
    ensures
        flag == bits_of(*flags)[k as int],
{
    match bits_get(flags, k) {
        Some(flag) => flag,
        None => false,
    }
}

/// Writes the mesh of a whole chunk from its cells and its caches: the
/// cells in storage order, each cell's active faces as a unit cube at the
/// cell's place in the chunk.
pub(crate) fn emit_vertices(
    blocks: &Vec<BlockID>,
    active_faces: &BitVec,
    ao: &Vec<[[u8; 4]; 6]>,
    textures: &TexturePack,
) -> (out: Vec<Vertex>)
    requires
        blocks.len() == 4096,
        bits_of(*active_faces).len() == 6 * 4096,
        ao.len() == 4096,
    ensures
        out@ == emitted(blocks@, bits_of(*active_faces), ao_tables(ao@), textures@, 4096),
        out@.len() <= 36 * 4096,
{
    let mut out: Vec<Vertex> = Vec::new();
    let mut it = BlockIterator::new();
    loop
        invariant
            it.wf(),
            blocks.len() == 4096,
            bits_of(*active_faces).len() == 6 * 4096,
            ao.len() == 4096,
            0 <= it.yielded() <= 4096,
            out@ == emitted(
                blocks@,
                bits_of(*active_faces),
                ao_tables(ao@),
                textures@,
                it.yielded() as nat,
            ),
        ensures
            it.yielded() == 4096,
        decreases 4096 - it.yielded(),
    {
        let ghost i = it.yielded();
        let ghost before = out@;
        match it.next() {
            Some((x, y, z)) => {
                proof {
                    lemma_cell_at_in_chunk(i);
                }
                let index = chunk_coords_to_array_index(x, y, z);
                let block = blocks[index];
                if !block.is_air() {
                    let base = 6 * index;
                    let faces = [
                        read_flag(active_faces, base),
                        read_flag(active_faces, base + 1),
                        read_flag(active_faces, base + 2),
                        read_flag(active_faces, base + 3),
                        read_flag(active_faces, base + 4),
                        read_flag(active_faces, base + 5),
                    ];
                    assert(faces@ =~= bits_of(*active_faces).subrange(6 * i, 6 * i + 6));
                    write_unit_cube_to_ptr(
                        &mut out,
                        x as i32,
                        y as i32,
                        z as i32,
                        textures.get(block),
                        faces,
                        ao[index],
                    );
                }
                assert(out@ == before + block_vertices(
                    blocks@,
                    bits_of(*active_faces),
                    ao_tables(ao@),
                    textures@,
                    i,
                ));
            },
            None => {
                break ;
            },
        }
    }
    proof {
        lemma_emitted_len(blocks@, bits_of(*active_faces), ao_tables(ao@), textures@, 4096);
    }
    out
}

} // verus!
