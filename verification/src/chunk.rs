//! A chunk: a cube of 16 x 16 x 16 cells with the caches that its mesh is
//! drawn from.

use vstd::prelude::*;
use bit_vec::BitVec;
use crate::bits::{bits_from_elem, bits_get, bits_of};
use crate::block::BlockID;
use crate::coords::{cell_index, chunk_coords_to_array_index, in_chunk};
use crate::face::Face;
use crate::mesh::{
    ao_tables,
    bake_active_faces,
    bake_occlusion,
    baked_faces,
    baked_occlusion,
    emit_vertices,
    emitted,
};
use crate::neighbors::{Neighbors, NeighborsView};
use crate::shapes::{UVFaces, Vertex};
use crate::texture::TexturePack;

verus! {

/// The most vertices that the mesh of one chunk can have: six for each of
/// the six faces of each cell.
pub const MAX_CHUNK_VERTICES: u32 = 147456;

/// What a chunk holds, as plain values.
#[verifier::ext_equal]
pub struct ChunkView {
    /// The block kind of each cell, by storage index.
    pub blocks: Seq<BlockID>,
    /// Whether a face is drawn: six flags per cell, by storage index and
    /// then by face.
    pub active_faces: Seq<bool>,
    /// The occlusion of each corner, by storage index, face and corner.
    pub ao_vertices: Seq<Seq<Seq<u8>>>,
    /// Whether the next rebuild is forced.
    pub needs_complete_rebuild: bool,
    /// Whether the cells changed since the mesh was last built.
    pub dirty: bool,
    /// Handle of the vertex array object that draws the chunk.
    pub vao: u32,
    /// Handle of the buffer that holds the chunk's vertices.
    pub vbo: u32,
    /// Number of vertices in the mesh that was last built.
    pub vertices_drawn: u32,
}

impl ChunkView {
    /// Every table has one entry for each cell, face and corner that it
    /// speaks of.
    pub open spec fn wf(self) -> bool {
        &&& self.blocks.len() == 4096
        &&& self.active_faces.len() == 6 * 4096
        &&& self.ao_vertices.len() == 4096
        &&& forall|i: int|
            0 <= i < 4096 ==> (#[trigger] self.ao_vertices[i]).len() == 6
        &&& forall|i: int, f: int|
            0 <= i < 4096 && 0 <= f < 6 ==> (#[trigger] self.ao_vertices[i][f]).len() == 4
    }

    /// The block kind of the cell `(x, y, z)`.
    pub open spec fn block(self, x: int, y: int, z: int) -> BlockID {
        self.blocks[cell_index(x, y, z)]
    }

    /// Whether `face` of the cell `(x, y, z)` is drawn.
    pub open spec fn face_active(self, x: int, y: int, z: int, face: Face) -> bool {
        self.active_faces[6 * cell_index(x, y, z) + face.ordinal()]
    }

    /// The occlusion at corner `corner` of `face` of the cell `(x, y, z)`.
    pub open spec fn occlusion(self, x: int, y: int, z: int, face: Face, corner: int) -> u8 {
        self.ao_vertices[cell_index(x, y, z)][face.ordinal() as int][corner]
    }

    /// Whether the mesh has to be built again before the chunk is drawn.
    pub open spec fn needs_rebuild(self) -> bool {
        self.dirty || self.needs_complete_rebuild
    }

    /// The vertices that the chunk's cells and caches stand for: the cells
    /// in storage order, each with the faces that are marked active.
    pub open spec fn mesh(self, textures: Seq<UVFaces>) -> Seq<Vertex> {
        emitted(self.blocks, self.active_faces, self.ao_vertices, textures, 4096)
    }

    /// The chunk after a rebuild among the chunks `around`: its caches
    /// hold the visibility and occlusion of its cells as they are now, the
    /// vertex count is that of the mesh that the caches stand for, and the
    /// chunk is clean. Cells and buffer handles are as before.
    pub open spec fn rebuilt(self, around: NeighborsView, textures: Seq<UVFaces>) -> ChunkView {
        let cached = ChunkView {
            active_faces: baked_faces(self.blocks, around),
            ao_vertices: baked_occlusion(self.blocks, around),
            ..self
        };
        ChunkView {
            needs_complete_rebuild: false,
            dirty: false,
            vertices_drawn: cached.mesh(textures).len() as u32,
            ..cached
        }
    }

    /// A chunk of one block kind as its constructors leave it: no face
    /// drawn, no corner occluded, a rebuild pending, no buffers attached.
    pub open spec fn fresh(self, block: BlockID) -> bool {
        &&& self.wf()
        &&& forall|i: int| 0 <= i < 4096 ==> self.blocks[i] == block
        &&& self.starts_blank()
    }

    /// The caches and flags of a chunk as its constructors leave them.
    pub open spec fn starts_blank(self) -> bool {
        &&& forall|k: int| 0 <= k < 6 * 4096 ==> !self.active_faces[k]
        &&& forall|i: int, f: int, c: int|
            0 <= i < 4096 && 0 <= f < 6 && 0 <= c < 4 ==> #[trigger] self.ao_vertices[i][f][c]
                == 0
        &&& self.needs_complete_rebuild
        &&& !self.dirty
        &&& self.vao == 0
        &&& self.vbo == 0
        &&& self.vertices_drawn == 0
    }
}

/// A rebuild depends on the chunk's cells and its neighbours' alone, and
/// leaves the cells as they are. So a second rebuild of a chunk that nothing
/// wrote to changes nothing and yields the same vertices as the first, in
/// the same number.
pub proof fn lemma_rebuild_idempotent(
    chunk: ChunkView,
    around: NeighborsView,
    textures: Seq<UVFaces>,
)
    ensures
        chunk.rebuilt(around, textures).rebuilt(around, textures) == chunk.rebuilt(
            around,
            textures,
        ),
        chunk.rebuilt(around, textures).rebuilt(around, textures).mesh(textures) == chunk.rebuilt(
            around,
            textures,
        ).mesh(textures),
        !chunk.rebuilt(around, textures).needs_rebuild(),
{
}

/// A cube of 16 x 16 x 16 cells, the visibility and occlusion caches that
/// its mesh is drawn from, and the handles of the buffers that hold the mesh.
pub struct Chunk {
    blocks: Vec<BlockID>,
    active_faces: BitVec,
    ao_vertices: Vec<[[u8; 4]; 6]>,
    needs_complete_rebuild: bool,
    dirty: bool,
    vao: u32,
    vbo: u32,
    vertices_drawn: u32,
}

impl View for Chunk {
    type V = ChunkView;

    closed spec fn view(&self) -> ChunkView {
        ChunkView {
            blocks: self.blocks@,
            active_faces: bits_of(self.active_faces),
            ao_vertices: ao_tables(self.ao_vertices@),
            needs_complete_rebuild: self.needs_complete_rebuild,
            dirty: self.dirty,
            vao: self.vao,
            vbo: self.vbo,
            vertices_drawn: self.vertices_drawn,
        }
    }
}

impl Default for Chunk {
    /// Creates a chunk with no blocks.
    fn default() -> (chunk: Chunk)
        ensures
            chunk@.fresh(BlockID::Air),
    {
        Chunk::empty()
    }
}

impl Chunk {
    /// The chunk's tables have their fixed sizes.
    pub open spec fn wf(&self) -> bool {
        self@.wf()
    }

    /// Creates a chunk with no blocks.
    pub fn new() -> (chunk: Chunk)
        ensures
            chunk@.fresh(BlockID::Air),
    {
        Chunk::empty()
    }

    /// Creates a chunk where every block is the same.
    ///
    /// The chunk has no buffers attached yet, and its first rebuild is forced.
    pub fn full_of_block(block: BlockID) -> (chunk: Chunk)
        ensures
            chunk@.fresh(block),
    {
        let mut blocks: Vec<BlockID> = Vec::new();
        let mut i: usize = 0;
        while i < 4096
            invariant
                i <= 4096,
                blocks.len() == i,
                forall|j: int| 0 <= j < i ==> blocks[j] == block,
            decreases 4096 - i,
        {
            blocks.push(block);
            i += 1;
        }
        Chunk::from_blocks(blocks)
    }

    /// Creates an empty chunk with no blocks.
    pub fn empty() -> (chunk: Chunk)
        ensures
            chunk@.fresh(BlockID::Air),
    {
        Chunk::full_of_block(BlockID::Air)
    }

    /// Creates a chunk where every block is random: each cell holds dirt,
    /// cobblestone or obsidian.
    pub fn random() -> (chunk: Chunk)
        ensures
            chunk.wf(),
            chunk@.starts_blank(),
            forall|i: int|
                0 <= i < 4096 ==> {
                    let b = #[trigger] chunk@.blocks[i];
                    b == BlockID::Dirt || b == BlockID::Cobblestone || b == BlockID::Obsidian
                },
    {
        let mut blocks: Vec<BlockID> = Vec::new();
        let mut i: usize = 0;
        while i < 4096
            invariant
                i <= 4096,
                blocks.len() == i,
                forall|j: int|
                    0 <= j < i ==> {
                        let b = #[trigger] blocks[j];
                        b == BlockID::Dirt || b == BlockID::Cobblestone || b == BlockID::Obsidian
                    },
            decreases 4096 - i,
        {
            blocks.push(BlockID::random());
            i += 1;
        }
        Chunk::from_blocks(blocks)
    }

    /// Wraps 4096 blocks in a chunk with blank caches.
    fn from_blocks(blocks: Vec<BlockID>) -> (chunk: Chunk)
        requires
            blocks.len() == 4096,
        ensures
            chunk.wf(),
            chunk@.blocks == blocks@,
            chunk@.starts_blank(),
    {
        let zero: [[u8; 4]; 6] = [[0; 4]; 6];
        let mut ao_vertices: Vec<[[u8; 4]; 6]> = Vec::new();
        let mut i: usize = 0;
        while i < 4096
            invariant
                i <= 4096,
                ao_vertices.len() == i,
                forall|f: int, c: int| 0 <= f < 6 && 0 <= c < 4 ==> zero[f][c] == 0,
                forall|j: int| 0 <= j < i ==> ao_vertices[j] == zero,
            decreases 4096 - i,
        {
            ao_vertices.push(zero);
            i += 1;
        }
        Chunk {
            blocks,
            active_faces: bits_from_elem(6 * 4096, false),
            ao_vertices,
            needs_complete_rebuild: true,
            dirty: false,
            vao: 0,
            vbo: 0,
            vertices_drawn: 0,
        }
    }

    /// The block kind stored at the cell `(x, y, z)`.
    pub fn get_block(&self, x: u32, y: u32, z: u32) -> (block: BlockID)
        requires
            self.wf(),
            in_chunk(x as int, y as int, z as int),
        ensures
            block == self@.block(x as int, y as int, z as int),
    {
        self.blocks[chunk_coords_to_array_index(x, y, z)]
    }

    /// Sets a block at some given coordinates and marks the chunk dirty.
    /// The coordinates must be within the chunk size. Nothing else changes:
    /// the caches keep what the last rebuild left in them.
    pub fn set_block(&mut self, block: BlockID, x: u32, y: u32, z: u32)
        requires
            old(self).wf(),
            in_chunk(x as int, y as int, z as int),
        ensures
            final(self).wf(),
            final(self)@ == (ChunkView {
                blocks: old(self)@.blocks.update(cell_index(x as int, y as int, z as int), block),
                dirty: true,
                ..old(self)@
            }),
    {
        let i = chunk_coords_to_array_index(x, y, z);
        self.blocks[i] = block;
        self.dirty = true;
    }

    /// Whether `face` of the cell `(x, y, z)` was found visible by the last
    /// rebuild.
    pub fn is_face_active(&self, x: u32, y: u32, z: u32, face: Face) -> (active: bool)
        requires
            self.wf(),
            in_chunk(x as int, y as int, z as int),
        ensures
            active == self@.face_active(x as int, y as int, z as int, face),
    {
        let i = chunk_coords_to_array_index(x, y, z);
        match bits_get(&self.active_faces, 6 * i + face.index()) {
            Some(bit) => bit,
            None => false,
        }
    }

    /// The occlusion that the last rebuild found at the four corners of
    /// `face` of the cell `(x, y, z)`.
    pub fn face_occlusion(&self, x: u32, y: u32, z: u32, face: Face) -> (ao: [u8; 4])
        requires
            self.wf(),
            in_chunk(x as int, y as int, z as int),
        ensures
            forall|c: int|
                0 <= c < 4 ==> ao[c] == self@.occlusion(x as int, y as int, z as int, face, c),
    {
        let i = chunk_coords_to_array_index(x, y, z);
        self.ao_vertices[i][face.index()]
    }

    /// Whether the cells changed since the mesh was last built.
    pub fn is_dirty(&self) -> (dirty: bool)
        ensures
            dirty == self@.dirty,
    {
        self.dirty
    }

    /// Whether the next rebuild is forced.
    pub fn needs_complete_rebuild(&self) -> (forced: bool)
        ensures
            forced == self@.needs_complete_rebuild,
    {
        self.needs_complete_rebuild
    }

    /// Whether the mesh has to be built again before the chunk is drawn:
    /// the chunk is dirty, or a rebuild is forced.
    pub fn needs_rebuild(&self) -> (needed: bool)
        ensures
            needed == self@.needs_rebuild(),
    {
        self.dirty || self.needs_complete_rebuild
    }

    /// Marks the chunk dirty, as a write to a neighbouring chunk's border
    /// asks for. Nothing else changes.
    pub fn mark_dirty(&mut self)
        ensures
            final(self)@ == (ChunkView { dirty: true, ..old(self)@ }),
    {
        self.dirty = true;
    }

    /// Forces the next rebuild, or withdraws that. Nothing else changes.
    pub fn set_needs_complete_rebuild(&mut self, forced: bool)
        ensures
            final(self)@ == (ChunkView { needs_complete_rebuild: forced, ..old(self)@ }),
    {
        self.needs_complete_rebuild = forced;
    }

    /// Rebuilds the chunk's mesh among the chunks `neighbors`: recomputes
    /// the visibility of every face and the occlusion of every corner from
    /// the cells as they are now, writes the vertices of the visible faces,
    /// records their number and leaves the chunk clean. Returns the
    /// vertices, which are the new content of the chunk's buffer.
    pub fn rebuild(&mut self, neighbors: &Neighbors, textures: &TexturePack) -> (stream: Vec<Vertex>)
        requires
            old(self).wf(),
            neighbors.wf(),
        ensures
            final(self).wf(),
            final(self)@ == old(self)@.rebuilt(neighbors@, textures@),
            stream@ == final(self)@.mesh(textures@),
            stream@.len() == final(self)@.vertices_drawn,
            stream@.len() <= MAX_CHUNK_VERTICES,
    {
        bake_active_faces(&self.blocks, neighbors, &mut self.active_faces);
        bake_occlusion(&self.blocks, neighbors, &mut self.ao_vertices);
        let stream = emit_vertices(&self.blocks, &self.active_faces, &self.ao_vertices, textures);
        self.vertices_drawn = stream.len() as u32;
        self.dirty = false;
        self.needs_complete_rebuild = false;
        stream
    }

    /// Rebuilds the chunk's mesh where that is due, and does nothing where
    /// the chunk is clean and no rebuild is forced.
    pub fn rebuild_if_dirty(&mut self, neighbors: &Neighbors, textures: &TexturePack) -> (stream:
        Option<Vec<Vertex>>)
        requires
            old(self).wf(),
            neighbors.wf(),
        ensures
            final(self).wf(),
            old(self)@.needs_rebuild() ==> final(self)@ == old(self)@.rebuilt(neighbors@, textures@)
                && stream.is_some() && stream.unwrap()@ == final(self)@.mesh(textures@)
                && stream.unwrap()@.len() == final(self)@.vertices_drawn,
            !old(self)@.needs_rebuild() ==> final(self)@ == old(self)@ && stream.is_none(),
    {
        if self.needs_rebuild() {
            Some(self.rebuild(neighbors, textures))
        } else {
            None
        }
    }

    /// Handle of the vertex array object that draws the chunk; 0 while none
    /// is attached.
    pub fn vao(&self) -> (vao: u32)
        ensures
            vao == self@.vao,
    {
        self.vao
    }

    /// Handle of the buffer that holds the chunk's vertices; 0 while none
    /// is attached.
    pub fn vbo(&self) -> (vbo: u32)
        ensures
            vbo == self@.vbo,
    {
        self.vbo
    }

    /// Number of vertices in the mesh that was last built.
    pub fn vertices_drawn(&self) -> (count: u32)
        ensures
            count == self@.vertices_drawn,
    {
        self.vertices_drawn
    }

    /// Hands the chunk the buffers that its mesh is uploaded to. Nothing
    /// else changes.
    pub fn attach_buffers(&mut self, vao: u32, vbo: u32)
        ensures
            final(self)@ == (ChunkView { vao, vbo, ..old(self)@ }),
    {
        self.vao = vao;
        self.vbo = vbo;
    }
}

} // verus!
