//! A column: the sixteen chunks stacked at one horizontal position.

use vstd::prelude::*;
use crate::block::BlockID;
use crate::chunk::{Chunk, ChunkView};
use crate::coords::{cell_index, CHUNK_SIZE};
use crate::dirty::{stale_neighbors, touches_side};
use crate::face::Face;
use crate::neighbors::{Neighbors, NeighborsView};
use crate::shapes::{UVFaces, Vertex};
use crate::texture::TexturePack;

verus! {

/// Number of chunks in a column.
pub const COLUMN_CHUNKS: u32 = 16;

/// Height of a column, in cells.
pub const COLUMN_HEIGHT: u32 = 256;

/// Whether `(x, y, z)` names a cell of a column, `y` counting from the
/// column's foot.
pub open spec fn in_column(x: int, y: int, z: int) -> bool {
    0 <= x < 16 && 0 <= y < 256 && 0 <= z < 16
}

/// Sixteen chunks stacked from the foot of the world to its top. The chunk
/// at position `i` holds the cells of height `16 * i` to `16 * i + 15`.
pub struct ChunkColumn {
    pub chunks: [Chunk; 16],
}

/// The four columns that stand beside a column, each named by the face
/// of the column that it lies beyond. A side that holds `None` has no column
/// loaded.
pub struct SideColumns<'a> {
    pub right: Option<&'a ChunkColumn>,
    pub left: Option<&'a ChunkColumn>,
    pub front: Option<&'a ChunkColumn>,
    pub back: Option<&'a ChunkColumn>,
}

/// The cells of chunk `index` of a column that may be absent.
pub open spec fn level_of(column: Option<&ChunkColumn>, index: int) -> Option<Seq<BlockID>> {
    match column {
        Some(c) => Some(c.chunks[index]@.blocks),
        None => None,
    }
}

impl<'a> SideColumns<'a> {
    /// Every column that is present is well formed.
    pub open spec fn wf(&self) -> bool {
        &&& self.right matches Some(c) ==> c.wf()
        &&& self.left matches Some(c) ==> c.wf()
        &&& self.front matches Some(c) ==> c.wf()
        &&& self.back matches Some(c) ==> c.wf()
    }

    /// Sides of a column that stands alone: no column is loaded on any
    /// side.
    pub fn none() -> (sides: SideColumns<'a>)
        ensures
            sides.wf(),
            sides.right.is_none(),
            sides.left.is_none(),
            sides.front.is_none(),
            sides.back.is_none(),
    {
        SideColumns { right: None, left: None, front: None, back: None }
    }
}

/// Chunk `index` of a column that may be absent.
fn level<'a>(column: Option<&'a ChunkColumn>, index: usize) -> (chunk: Option<&'a Chunk>)
    requires
        index < 16,
        column matches Some(c) ==> c.wf(),
    ensures
        chunk matches Some(c) ==> c.wf(),
        chunk.is_some() == column.is_some(),
        chunk matches Some(c) ==> c == column.unwrap().chunks[index as int],
{
    match column {
        Some(c) => Some(&c.chunks[index]),
        None => None,
    }
}

impl ChunkColumn {
    /// What chunk `index` of the column sees around it: the chunks above
    /// and below it in this column, where the column has them, and the
    /// chunks at the same height in the columns `sides`.
    pub open spec fn around(&self, index: int, sides: SideColumns) -> NeighborsView {
        NeighborsView {
            right: level_of(sides.right, index),
            left: level_of(sides.left, index),
            top: if index < 15 {
                Some(self.chunks[index + 1]@.blocks)
            } else {
                None
            },
            bottom: if index > 0 {
                Some(self.chunks[index - 1]@.blocks)
            } else {
                None
            },
            front: level_of(sides.front, index),
            back: level_of(sides.back, index),
        }
    }

    /// The positions, in rising order, of the chunks among the first `n` of
    /// the column that need a rebuild.
    pub open spec fn due(&self, n: int) -> Seq<usize>
        decreases n,
    {
        if n <= 0 {
            Seq::empty()
        } else if self.chunks[n - 1]@.needs_rebuild() {
            self.due(n - 1).push((n - 1) as usize)
        } else {
            self.due(n - 1)
        }
    }

    /// Chunk `index` of the column after the column's dirty chunks have
    /// been rebuilt: rebuilt where that was due, untouched where not.
    pub open spec fn settled(
        &self,
        index: int,
        sides: SideColumns,
        textures: Seq<UVFaces>,
    ) -> ChunkView {
        if self.chunks[index]@.needs_rebuild() {
            self.chunks[index]@.rebuilt(self.around(index, sides), textures)
        } else {
            self.chunks[index]@
        }
    }

    /// Every chunk of the column is well formed.
    pub open spec fn wf(&self) -> bool {
        forall|i: int| 0 <= i < 16 ==> (#[trigger] self.chunks[i]).wf()
    }

    /// The block kind of the cell `(x, y, z)` of the column.
    pub open spec fn block(&self, x: int, y: int, z: int) -> BlockID {
        self.chunks[y / 16]@.block(x, y % 16, z)
    }

    /// Every chunk of the column is as its constructor left it, and chunk
    /// `i` is full of the block kind `kinds(i)`.
    pub open spec fn fresh(&self, kinds: spec_fn(int) -> BlockID) -> bool {
        forall|i: int| 0 <= i < 16 ==> (#[trigger] self.chunks[i])@.fresh(kinds(i))
    }

    /// Creates a column of empty chunks.
    pub fn new() -> (column: ChunkColumn)
        ensures
            column.wf(),
            column.fresh(|i: int| BlockID::Air),
    {
        ChunkColumn {
            chunks: [
                Chunk::empty(),
                Chunk::empty(),
                Chunk::empty(),
                Chunk::empty(),
                Chunk::empty(),
                Chunk::empty(),
                Chunk::empty(),
                Chunk::empty(),
                Chunk::empty(),
                Chunk::empty(),
                Chunk::empty(),
                Chunk::empty(),
                Chunk::empty(),
                Chunk::empty(),
                Chunk::empty(),
                Chunk::empty(),
            ],
        }
    }

    /// Creates a column of chunks where every block is random: each cell
    /// holds dirt, cobblestone or obsidian.
    pub fn random() -> (column: ChunkColumn)
        ensures
            column.wf(),
            forall|i: int| 0 <= i < 16 ==> (#[trigger] column.chunks[i])@.starts_blank(),
            forall|x: int, y: int, z: int|
                in_column(x, y, z) ==> {
                    let b = #[trigger] column.block(x, y, z);
                    b == BlockID::Dirt || b == BlockID::Cobblestone || b == BlockID::Obsidian
                },
    {
        let column = ChunkColumn {
            chunks: [
                Chunk::random(),
                Chunk::random(),
                Chunk::random(),
                Chunk::random(),
                Chunk::random(),
                Chunk::random(),
                Chunk::random(),
                Chunk::random(),
                Chunk::random(),
                Chunk::random(),
                Chunk::random(),
                Chunk::random(),
                Chunk::random(),
                Chunk::random(),
                Chunk::random(),
                Chunk::random(),
            ],
        };
        assert forall|x: int, y: int, z: int| in_column(x, y, z) implies {
            let b = #[trigger] column.block(x, y, z);
            b == BlockID::Dirt || b == BlockID::Cobblestone || b == BlockID::Obsidian
        } by {
            let chunk = column.chunks[y / 16];
            let i = cell_index(x, y % 16, z);
            assert(chunk@.blocks[i] == column.block(x, y, z));
        }
        column
    }

    /// Creates a column where every block is the same.
    pub fn full_of_block(block: BlockID) -> (column: ChunkColumn)
        ensures
            column.wf(),
            column.fresh(|i: int| block),
    {
        ChunkColumn {
            chunks: [
                Chunk::full_of_block(block),
                Chunk::full_of_block(block),
                Chunk::full_of_block(block),
                Chunk::full_of_block(block),
                Chunk::full_of_block(block),
                Chunk::full_of_block(block),
                Chunk::full_of_block(block),
                Chunk::full_of_block(block),
                Chunk::full_of_block(block),
                Chunk::full_of_block(block),
                Chunk::full_of_block(block),
                Chunk::full_of_block(block),
                Chunk::full_of_block(block),
                Chunk::full_of_block(block),
                Chunk::full_of_block(block),
                Chunk::full_of_block(block),
            ],
        }
    }

    /// Creates a column whose chunks are full of dirt and of cobblestone in
    /// turn, with dirt at the foot.
    pub fn alternating() -> (column: ChunkColumn)
        ensures
            column.wf(),
            column.fresh(
                |i: int|
                    if i % 2 == 0 {
                        BlockID::Dirt
                    } else {
                        BlockID::Cobblestone
                    },
            ),
    {
        ChunkColumn {
            chunks: [
                Chunk::full_of_block(BlockID::Dirt),
                Chunk::full_of_block(BlockID::Cobblestone),
                Chunk::full_of_block(BlockID::Dirt),
                Chunk::full_of_block(BlockID::Cobblestone),
                Chunk::full_of_block(BlockID::Dirt),
                Chunk::full_of_block(BlockID::Cobblestone),
                Chunk::full_of_block(BlockID::Dirt),
                Chunk::full_of_block(BlockID::Cobblestone),
                Chunk::full_of_block(BlockID::Dirt),
                Chunk::full_of_block(BlockID::Cobblestone),
                Chunk::full_of_block(BlockID::Dirt),
                Chunk::full_of_block(BlockID::Cobblestone),
                Chunk::full_of_block(BlockID::Dirt),
                Chunk::full_of_block(BlockID::Cobblestone),
                Chunk::full_of_block(BlockID::Dirt),
                Chunk::full_of_block(BlockID::Cobblestone),
            ],
        }
    }

    /// The block kind stored at the cell `(x, y, z)` of the column, `y`
    /// counting from the column's foot.
    pub fn get_block(&self, x: u32, y: u32, z: u32) -> (block: BlockID)
        requires
            self.wf(),
            in_column(x as int, y as int, z as int),
        ensures
            block == self.block(x as int, y as int, z as int),
    {
        self.chunks[(y / CHUNK_SIZE) as usize].get_block(x, y % CHUNK_SIZE, z)
    }

    /// Sets the block at the cell `(x, y, z)` of the column, `y` counting
    /// from the column's foot: the write goes to the chunk that holds that
    /// height, which turns dirty. No other chunk of the column changes.
    pub fn set_block(&mut self, block: BlockID, x: u32, y: u32, z: u32)
        requires
            old(self).wf(),
            in_column(x as int, y as int, z as int),
        ensures
            final(self).wf(),
            final(self).chunks[y as int / 16]@ == (ChunkView {
                blocks: old(self).chunks[y as int / 16]@.blocks.update(
                    cell_index(x as int, y as int % 16, z as int),
                    block,
                ),
                dirty: true,
                ..old(self).chunks[y as int / 16]@
            }),
            forall|j: int|
                0 <= j < 16 && j != y as int / 16 ==> final(self).chunks[j] == old(self).chunks[j],
    {
        self.chunks[(y / CHUNK_SIZE) as usize].set_block(block, x, y % CHUNK_SIZE, z);
    }

    /// Marks chunk `index` of the column dirty, as a write to the border of
    /// a neighbouring column asks for. Nothing else changes.
    pub fn mark_dirty(&mut self, index: usize)
        requires
            index < 16,
        ensures
            final(self).chunks[index as int]@ == (ChunkView {
                dirty: true,
                ..old(self).chunks[index as int]@
            }),
            forall|j: int| 0 <= j < 16 && j != index ==> final(self).chunks[j] == old(self).chunks[j],
    {
        self.chunks[index].mark_dirty();
    }

    /// Sets the block at the cell `(x, y, z)` of the column and marks dirty
    /// every chunk of the column whose mesh the write makes stale: the
    /// chunk that holds the cell, and the chunk above or below it where
    /// the cell lies in the layer that touches that chunk. Returns, by
    /// face, on which sides of its chunk the cell lies: beyond each of the
    /// four faces to the side stands a chunk of another column, which the
    /// caller has to mark dirty.
    pub fn set_block_and_invalidate(&mut self, block: BlockID, x: u32, y: u32, z: u32) -> (stale:
        [bool; 6])
        requires
            old(self).wf(),
            in_column(x as int, y as int, z as int),
        ensures
            final(self).wf(),
            final(self).chunks[y as int / 16]@ == (ChunkView {
                blocks: old(self).chunks[y as int / 16]@.blocks.update(
                    cell_index(x as int, y as int % 16, z as int),
                    block,
                ),
                dirty: true,
                ..old(self).chunks[y as int / 16]@
            }),
            forall|j: int|
                0 <= j < 16 && j != y as int / 16 ==> (#[trigger] final(self).chunks[j])@ == (
                ChunkView {
                    dirty: old(self).chunks[j]@.dirty || (j == y as int / 16 + 1 && y as int % 16
                        == 15) || (j == y as int / 16 - 1 && y as int % 16 == 0),
                    ..old(self).chunks[j]@
                }),
            forall|face: Face|
                stale[face.ordinal() as int] == #[trigger] touches_side(
                    x as int,
                    y as int % 16,
                    z as int,
                    face,
                ),
    {
        let index = (y / CHUNK_SIZE) as usize;
        let stale = stale_neighbors(x, y % CHUNK_SIZE, z);
        self.chunks[index].set_block(block, x, y % CHUNK_SIZE, z);
        if stale[2] && index < 15 {
            self.chunks[index + 1].mark_dirty();
        }
        if stale[3] && index > 0 {
            self.chunks[index - 1].mark_dirty();
        }
        stale
    }

    /// Rebuilds the mesh of chunk `index` where that is due: among the
    /// chunks above and below it in this column and the chunks at the same
    /// height in the columns `sides`. Returns the vertices, which are the
    /// new content of the chunk's buffer, or `None` where the chunk is
    /// clean and no rebuild is forced. No other chunk of the column changes.
    pub fn rebuild_chunk(
        &mut self,
        index: usize,
        sides: &SideColumns,
        textures: &TexturePack,
    ) -> (stream: Option<Vec<Vertex>>)
        requires
            old(self).wf(),
            index < 16,
            sides.wf(),
        ensures
            final(self).wf(),
            forall|j: int| 0 <= j < 16 && j != index ==> final(self).chunks[j] == old(self).chunks[j],
            old(self).chunks[index as int]@.needs_rebuild() ==> final(self).chunks[index as int]@
                == old(self).chunks[index as int]@.rebuilt(
                old(self).around(index as int, *sides),
                textures@,
            ) && stream.is_some() && stream.unwrap()@ == final(self).chunks[index as int]@.mesh(
                textures@,
            ) && stream.unwrap()@.len() == final(self).chunks[index as int]@.vertices_drawn,
            !old(self).chunks[index as int]@.needs_rebuild() ==> final(self).chunks[index as int]@
                == old(self).chunks[index as int]@ && stream.is_none(),
    {
        let ghost before = self.chunks@;
        let (below, rest) = self.chunks.split_at_mut(index);
        let (mid, above) = rest.split_at_mut(1);
        assert(mid@[0] == before[index as int]);
        assert(forall|j: int| 0 <= j < index ==> below@[j] == before[j]);
        assert(forall|j: int| 0 <= j < 15 - index ==> above@[j] == before[index + 1 + j]);
        let neighbors = Neighbors {
            right: level(sides.right, index),
            left: level(sides.left, index),
            front: level(sides.front, index),
            back: level(sides.back, index),
            top: above.first(),
            bottom: below.last(),
        };
        assert(neighbors.wf()) by {
            if index < 15 {
                assert(above@[0] == before[index + 1]);
            }
            if index > 0 {
                assert(below@.last() == before[index - 1]);
            }
        }
        assert(neighbors@ =~= old(self).around(index as int, *sides));
        mid[0].rebuild_if_dirty(&neighbors, textures)
    }

    /// Rebuilds the mesh of every chunk of the column that needs it, from
    /// the foot up, each among its neighbours in this column and in the
    /// columns `sides`. Returns the position and the vertices of each chunk
    /// that was rebuilt, in rising order of position; the vertices are the
    /// new content of that chunk's buffer. Chunks that are clean stay as
    /// they are.
    pub fn rebuild_dirty_chunks(&mut self, sides: &SideColumns, textures: &TexturePack) -> (meshes:
        Vec<(usize, Vec<Vertex>)>)
        requires
            old(self).wf(),
            sides.wf(),
        ensures
            final(self).wf(),
            forall|i: int|
                0 <= i < 16 ==> (#[trigger] final(self).chunks[i])@ == old(self).settled(
                    i,
                    *sides,
                    textures@,
                ),
            meshes@.len() == old(self).due(16).len(),
            forall|k: int|
                0 <= k < meshes@.len() ==> (#[trigger] meshes@[k]).0 == old(self).due(16)[k]
                    && meshes@[k].0 < 16 && meshes@[k].1@ == final(self).chunks[meshes@[k].0 as int]@.mesh(
                    textures@,
                ),
    {
        let ghost before = *self;
        let mut meshes: Vec<(usize, Vec<Vertex>)> = Vec::new();
        let mut index: usize = 0;
        while index < 16
            invariant
                index <= 16,
                before.wf(),
                self.wf(),
                sides.wf(),
                forall|i: int|
                    0 <= i < index ==> (#[trigger] self.chunks[i])@ == before.settled(
                        i,
                        *sides,
                        textures@,
                    ),
                forall|i: int| index <= i < 16 ==> self.chunks[i] == before.chunks[i],
                forall|i: int|
                    0 <= i < 16 ==> (#[trigger] self.chunks[i])@.blocks == before.chunks[i]@.blocks,
                meshes@.len() == before.due(index as int).len(),
                forall|k: int|
                    0 <= k < meshes@.len() ==> (#[trigger] meshes@[k]).0 == before.due(
                        index as int,
                    )[k] && meshes@[k].0 < index && meshes@[k].1@ == self.chunks[meshes@[k].0 as int]@.mesh(
                        textures@,
                    ),
            decreases 16 - index,
        {
            let ghost start = *self;
            assert(start.around(index as int, *sides) == before.around(index as int, *sides));
            match self.rebuild_chunk(index, sides, textures) {
                Some(stream) => {
                    meshes.push((index, stream));
                },
                None => {},
            }
            assert(self.chunks[index as int]@ == before.settled(index as int, *sides, textures@));
            index += 1;
        }
        meshes
    }
}

} // verus!
