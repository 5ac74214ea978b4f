//! Which texture layers each block kind shows on its faces.

use vstd::prelude::*;
use crate::block::{BlockID, BLOCK_KINDS};
use crate::shapes::UVFaces;

verus! {

/// A table from block kind to the texture layers of its six faces.
pub struct TexturePack {
    faces: [UVFaces; 15],
}

impl View for TexturePack {
    type V = Seq<UVFaces>;

    /// The table's entries, one per block kind, in the order of the kinds.
    closed spec fn view(&self) -> Seq<UVFaces> {
        self.faces@
    }
}

impl TexturePack {
    /// The layers that the table holds for `block`.
    pub open spec fn layers(&self, block: BlockID) -> UVFaces {
        self@[block.ordinal() as int]
    }

    /// A table that gives every face of every block kind layer 0.
    pub fn new() -> (pack: TexturePack)
        ensures
            pack@.len() == BLOCK_KINDS,
            forall|i: int| 0 <= i < BLOCK_KINDS ==> pack@[i] == (0u32, 0u32, 0u32, 0u32, 0u32, 0u32),
    {
        TexturePack { faces: [(0, 0, 0, 0, 0, 0); 15] }
    }

    /// Gives `block` the layers `faces` and leaves every other kind as it was.
    pub fn set(&mut self, block: BlockID, faces: UVFaces)
        ensures
            final(self)@ == old(self)@.update(block.ordinal() as int, faces),
            final(self).layers(block) == faces,
    {
        let i = block.index();
        self.faces[i] = faces;
    }

    /// The layers of `block`.
    pub fn get(&self, block: BlockID) -> (faces: UVFaces)
        ensures
            faces == self.layers(block),
    {
        self.faces[block.index()]
    }
}

} // verus!
