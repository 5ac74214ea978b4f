//! Chunk dimensions, the layout of cells in a chunk's storage, and the
//! iterator over a chunk's cells.

use vstd::prelude::*;

verus! {

/// Edge length of a chunk, in cells.
pub const CHUNK_SIZE: u32 = 16;

/// Number of cells in one horizontal layer of a chunk.
pub const CHUNK_AREA: u32 = 256;

/// Number of cells in a chunk.
pub const CHUNK_VOLUME: u32 = 4096;

/// Whether `(x, y, z)` names a cell of a chunk.
pub open spec fn in_chunk(x: int, y: int, z: int) -> bool {
    0 <= x < 16 && 0 <= y < 16 && 0 <= z < 16
}

/// Storage index of the cell `(x, y, z)`: `x` varies fastest, then `z`, then `y`.
pub open spec fn cell_index(x: int, y: int, z: int) -> int {
    y * 256 + z * 16 + x
}

/// The cell stored at index `i`, as `(x, y, z)`.
pub open spec fn cell_at(i: int) -> (u32, u32, u32) {
    ((i % 16) as u32, (i / 256) as u32, ((i / 16) % 16) as u32)
}

/// Storage index of the cell `(x, y, z)`.
pub fn chunk_coords_to_array_index(x: u32, y: u32, z: u32) -> (i: usize)
    requires
        in_chunk(x as int, y as int, z as int),
    ensures
        i == cell_index(x as int, y as int, z as int),
        i < 4096,
{
    (y * CHUNK_AREA + z * CHUNK_SIZE + x) as usize
}

/// Splits a world coordinate into the position of the chunk that holds it
/// and the coordinate inside that chunk: chunk `c` spans the world
/// coordinates `16 * c` to `16 * c + 15`, also below zero.
pub fn chunk_and_local(w: i32) -> (r: (i32, u32))
    ensures
        16 * r.0 + r.1 == w,
        r.1 < 16,
{
    if w >= 0 {
        (w / 16, (w % 16) as u32)
    } else {
        let m: i32 = -(w + 1);
        (-(m / 16) - 1, (15 - m % 16) as u32)
    }
}

/// Every index below the chunk volume names a cell of the chunk, and that
/// cell is stored at this index.
pub proof fn lemma_cell_at_in_chunk(i: int)
    requires
        0 <= i < 4096,
    ensures
        in_chunk(cell_at(i).0 as int, cell_at(i).1 as int, cell_at(i).2 as int),
        cell_index(cell_at(i).0 as int, cell_at(i).1 as int, cell_at(i).2 as int) == i,
{
}

/// Every cell of the chunk has an index below the chunk volume, and the cell
/// at that index is the cell itself.
pub proof fn lemma_cell_index_in_range(x: int, y: int, z: int)
    requires
        in_chunk(x, y, z),
    ensures
        0 <= cell_index(x, y, z) < 4096,
        cell_at(cell_index(x, y, z)) == (x as u32, y as u32, z as u32),
{
}

/// Two different indices below the chunk volume name two different cells.
pub proof fn lemma_cell_at_injective(i: int, j: int)
    requires
        0 <= i < 4096,
        0 <= j < 4096,
        i != j,
    ensures
        cell_at(i) != cell_at(j),
{
    lemma_cell_at_in_chunk(i);
    lemma_cell_at_in_chunk(j);
}

/// The cells of a chunk in storage order: all 4096 of them.
pub open spec fn all_cells() -> Seq<(u32, u32, u32)> {
    Seq::new(4096, |i: int| cell_at(i))
}

/// Walks the cells of a chunk in storage order, as three nested counters
/// would: `x` innermost, then `z`, then `y`.
pub struct BlockIterator {
    x: u32,
    y: u32,
    z: u32,
}

impl BlockIterator {
    /// The counters stay inside the chunk until the walk is over, when they
    /// rest at `(0, 16, 0)`.
    pub closed spec fn wf(&self) -> bool {
        &&& self.x < 16
        &&& self.z < 16
        &&& self.y <= 16
        &&& self.y == 16 ==> self.x == 0 && self.z == 0
    }

    /// How many cells the iterator has handed out so far.
    pub closed spec fn yielded(&self) -> int {
        cell_index(self.x as int, self.y as int, self.z as int)
    }

    /// The cells that the iterator has yet to hand out.
    pub open spec fn remaining(&self) -> Seq<(u32, u32, u32)> {
        all_cells().skip(self.yielded())
    }

    /// An iterator at the first cell, `(0, 0, 0)`.
    pub fn new() -> (it: BlockIterator)
        ensures
            it.wf(),
            it.yielded() == 0,
            it.remaining() == all_cells(),
    {
        BlockIterator { x: 0, y: 0, z: 0 }
    }

    /// Hands out the next cell, or `None` once all 4096 cells have been
    /// handed out.
    pub fn next(&mut self) -> (r: Option<(u32, u32, u32)>)
        requires
            old(self).wf(),
        ensures
            final(self).wf(),
            0 <= old(self).yielded() <= 4096,
            old(self).yielded() == 4096 ==> r.is_none() && *final(self) == *old(self),
            old(self).yielded() < 4096 ==> r == Some(cell_at(old(self).yielded()))
                && final(self).yielded() == old(self).yielded() + 1,
    {
        if self.y == CHUNK_SIZE {
            None
        } else {
            let to_return = (self.x, self.y, self.z);
            self.x += 1;
            if self.x >= CHUNK_SIZE {
                self.x = 0;
                self.z += 1;
                if self.z >= CHUNK_SIZE {
                    self.z = 0;
                    self.y += 1;
                }
            }
            Some(to_return)
        }
    }

    /// Every cell of a chunk, in the order in which a fresh iterator hands
    /// them out.
    pub fn cells() -> (v: Vec<(u32, u32, u32)>)
        ensures
            v@ == all_cells(),
    {
        let mut it = BlockIterator::new();
        let mut v: Vec<(u32, u32, u32)> = Vec::new();
        loop
            invariant
                it.wf(),
                0 <= it.yielded() <= 4096,
                v@ == all_cells().take(it.yielded()),
            ensures
                it.yielded() == 4096,
                v@ == all_cells().take(it.yielded()),
            decreases 4096 - it.yielded(),
        {
            let ghost before = it.yielded();
            match it.next() {
                Some(cell) => {
                    v.push(cell);
                    assert(v@ == all_cells().take(before + 1));
                },
                None => {
                    break;
                },
            }
        }
        assert(all_cells().take(4096) == all_cells());
        v
    }
}

/// A walk from the first cell visits each cell of the chunk exactly once:
/// the sequence has 4096 entries, all inside the chunk and no two alike, and
/// the cell `(x, y, z)` stands at its storage index, so that `x` runs
/// fastest, then `z`, then `y`.
pub proof fn lemma_all_cells_cover_once()
    ensures
        all_cells().len() == 4096,
        forall|i: int|
            0 <= i < 4096 ==> in_chunk(
                (#[trigger] all_cells()[i]).0 as int,
                all_cells()[i].1 as int,
                all_cells()[i].2 as int,
            ),
        forall|i: int, j: int|
            0 <= i < 4096 && 0 <= j < 4096 && i != j ==> #[trigger] all_cells()[i]
                != #[trigger] all_cells()[j],
        forall|x: int, y: int, z: int|
            in_chunk(x, y, z) ==> 0 <= #[trigger] cell_index(x, y, z) < 4096 && all_cells()[cell_index(
                x,
                y,
                z,
            )] == (x as u32, y as u32, z as u32),
{
    assert forall|i: int| 0 <= i < 4096 implies in_chunk(
        (#[trigger] all_cells()[i]).0 as int,
        all_cells()[i].1 as int,
        all_cells()[i].2 as int,
    ) by {
        lemma_cell_at_in_chunk(i);
    }
    assert forall|i: int, j: int| 0 <= i < 4096 && 0 <= j < 4096 && i != j implies #[trigger] all_cells()[i]
        != #[trigger] all_cells()[j] by {
        lemma_cell_at_injective(i, j);
    }
    assert forall|x: int, y: int, z: int| in_chunk(x, y, z) implies 0 <= #[trigger] cell_index(x, y, z)
        < 4096 && all_cells()[cell_index(x, y, z)] == (x as u32, y as u32, z as u32) by {
        lemma_cell_index_in_range(x, y, z);
    }
}

} // verus!
