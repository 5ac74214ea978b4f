//! Read-only access to the six chunks that share a side with a chunk.

use vstd::prelude::*;
use crate::block::BlockID;
use crate::chunk::Chunk;
use crate::face::Face;

verus! {

/// The cells of the six chunks around a chunk, as plain values. A side that
/// holds `None` has no chunk loaded.
pub struct NeighborsView {
    pub right: Option<Seq<BlockID>>,
    pub left: Option<Seq<BlockID>>,
    pub top: Option<Seq<BlockID>>,
    pub bottom: Option<Seq<BlockID>>,
    pub front: Option<Seq<BlockID>>,
    pub back: Option<Seq<BlockID>>,
}

impl NeighborsView {
    /// The cells of the chunk that lies beyond `face`.
    pub open spec fn side(self, face: Face) -> Option<Seq<BlockID>> {
        match face {
            Face::Right => self.right,
            Face::Left => self.left,
            Face::Top => self.top,
            Face::Bottom => self.bottom,
            Face::Front => self.front,
            Face::Back => self.back,
        }
    }

    /// Every chunk that is present has all its cells.
    pub open spec fn wf(self) -> bool {
        &&& self.right matches Some(blocks) ==> blocks.len() == 4096
        &&& self.left matches Some(blocks) ==> blocks.len() == 4096
        &&& self.top matches Some(blocks) ==> blocks.len() == 4096
        &&& self.bottom matches Some(blocks) ==> blocks.len() == 4096
        &&& self.front matches Some(blocks) ==> blocks.len() == 4096
        &&& self.back matches Some(blocks) ==> blocks.len() == 4096
    }

    /// No chunk is loaded on any side.
    pub open spec fn none() -> NeighborsView {
        NeighborsView { right: None, left: None, top: None, bottom: None, front: None, back: None }
    }
}

/// The six chunks that share a side with a chunk, each named by the face of
/// the chunk that it lies beyond. A side that holds `None` has no chunk
/// loaded.
pub struct Neighbors<'a> {
    pub right: Option<&'a Chunk>,
    pub left: Option<&'a Chunk>,
    pub top: Option<&'a Chunk>,
    pub bottom: Option<&'a Chunk>,
    pub front: Option<&'a Chunk>,
    pub back: Option<&'a Chunk>,
}

/// The cells of a chunk that may be absent.
pub open spec fn blocks_of(chunk: Option<&Chunk>) -> Option<Seq<BlockID>> {
    match chunk {
        Some(c) => Some(c@.blocks),
        None => None,
    }
}

impl<'a> View for Neighbors<'a> {
    type V = NeighborsView;

    open spec fn view(&self) -> NeighborsView {
        NeighborsView {
            right: blocks_of(self.right),
            left: blocks_of(self.left),
            top: blocks_of(self.top),
            bottom: blocks_of(self.bottom),
            front: blocks_of(self.front),
            back: blocks_of(self.back),
        }
    }
}

impl<'a> Neighbors<'a> {
    /// The chunk that lies beyond `face`, where one is loaded.
    pub open spec fn spec_side(&self, face: Face) -> Option<&'a Chunk> {
        match face {
            Face::Right => self.right,
            Face::Left => self.left,
            Face::Top => self.top,
            Face::Bottom => self.bottom,
            Face::Front => self.front,
            Face::Back => self.back,
        }
    }

    /// Every chunk that is present is well formed.
    pub open spec fn wf(&self) -> bool {
        &&& self.right matches Some(chunk) ==> chunk.wf()
        &&& self.left matches Some(chunk) ==> chunk.wf()
        &&& self.top matches Some(chunk) ==> chunk.wf()
        &&& self.bottom matches Some(chunk) ==> chunk.wf()
        &&& self.front matches Some(chunk) ==> chunk.wf()
        &&& self.back matches Some(chunk) ==> chunk.wf()
    }

    /// Neighbours of a chunk that stands alone: no chunk is loaded on any
    /// side.
    pub fn none() -> (neighbors: Neighbors<'a>)
        ensures
            neighbors.wf(),
            neighbors@ == NeighborsView::none(),
    {
        Neighbors { right: None, left: None, top: None, bottom: None, front: None, back: None }
    }

    /// The chunk that lies beyond `face`, where one is loaded.
    #[verifier::when_used_as_spec(spec_side)]
    pub fn side(&self, face: Face) -> (chunk: Option<&'a Chunk>)
        ensures
            chunk == self.spec_side(face),
            blocks_of(chunk) == self@.side(face),
            self.wf() ==> (chunk matches Some(c) ==> c.wf()),
    {
        match face {
            Face::Right => self.right,
            Face::Left => self.left,
            Face::Top => self.top,
            Face::Bottom => self.bottom,
            Face::Front => self.front,
            Face::Back => self.back,
        }
    }
}

} // verus!
