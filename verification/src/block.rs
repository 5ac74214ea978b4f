//! The closed set of block kinds and the predicates that meshing asks of them.

use vstd::prelude::*;
use crate::random::random_in_range;

verus! {

/// Number of block kinds.
pub const BLOCK_KINDS: usize = 15;

/// A kind of block. `Air` stands for an empty cell.
#[derive(Copy, Clone, Debug, PartialEq, Eq, Structural, Hash)]
pub enum BlockID {
    Air,
    Dirt,
    GrassBlock,
    Stone,
    Cobblestone,
    Bedrock,
    Obsidian,
    OakLog,
    OakLeaves,
    OakPlanks,
    Glass,
    Urss,
    Hitler,
    Debug,
    Debug2,
}

/// The block kind that a sample stands for: 1 is dirt, 2 is cobblestone, 3 is
/// obsidian, and every other number is air.
pub open spec fn block_of_sample(n: u32) -> BlockID {
    if n == 1 {
        BlockID::Dirt
    } else if n == 2 {
        BlockID::Cobblestone
    } else if n == 3 {
        BlockID::Obsidian
    } else {
        BlockID::Air
    }
}

impl BlockID {
    /// Position of the kind in a per-kind table.
    pub open spec fn ordinal(&self) -> usize {
        match self {
            BlockID::Air => 0,
            BlockID::Dirt => 1,
            BlockID::GrassBlock => 2,
            BlockID::Stone => 3,
            BlockID::Cobblestone => 4,
            BlockID::Bedrock => 5,
            BlockID::Obsidian => 6,
            BlockID::OakLog => 7,
            BlockID::OakLeaves => 8,
            BlockID::OakPlanks => 9,
            BlockID::Glass => 10,
            BlockID::Urss => 11,
            BlockID::Hitler => 12,
            BlockID::Debug => 13,
            BlockID::Debug2 => 14,
        }
    }

    /// Position of the kind in a per-kind table.
    #[verifier::when_used_as_spec(ordinal)]
    pub fn index(&self) -> (i: usize)
        ensures
            i == self.ordinal(),
            i < BLOCK_KINDS,
    {
        match self {
            BlockID::Air => 0,
            BlockID::Dirt => 1,
            BlockID::GrassBlock => 2,
            BlockID::Stone => 3,
            BlockID::Cobblestone => 4,
            BlockID::Bedrock => 5,
            BlockID::Obsidian => 6,
            BlockID::OakLog => 7,
            BlockID::OakLeaves => 8,
            BlockID::OakPlanks => 9,
            BlockID::Glass => 10,
            BlockID::Urss => 11,
            BlockID::Hitler => 12,
            BlockID::Debug => 13,
            BlockID::Debug2 => 14,
        }
    }

    /// The block kind that the sample `n` stands for.
    pub fn from_sample(n: u32) -> (block: BlockID)
        ensures
            block == block_of_sample(n),
    {
        match n {
            1 => BlockID::Dirt,
            2 => BlockID::Cobblestone,
            3 => BlockID::Obsidian,
            _ => BlockID::Air,
        }
    }

    /// A block kind drawn at random among dirt, cobblestone and obsidian.
    pub fn random() -> (block: BlockID)
        ensures
            block == BlockID::Dirt || block == BlockID::Cobblestone || block == BlockID::Obsidian,
    {
        BlockID::from_sample(random_in_range(1, 4))
    }

    /// Whether the cell is empty.
    pub open spec fn spec_is_air(&self) -> bool {
        *self == BlockID::Air
    }

    /// Whether light passes through the block: air, foliage and glass.
    pub open spec fn spec_is_transparent(&self) -> bool {
        *self == BlockID::Air || *self == BlockID::OakLeaves || *self == BlockID::Glass
    }

    /// Transparency with foliage counted as solid, so that leaves still cast
    /// contact shadows.
    pub open spec fn spec_is_transparent_no_leaves(&self) -> bool {
        *self == BlockID::Air || *self == BlockID::Glass
    }

    #[verifier::when_used_as_spec(spec_is_air)]
    pub fn is_air(&self) -> (r: bool)
        ensures
            r == self.spec_is_air(),
    {
        *self == BlockID::Air
    }

    #[verifier::when_used_as_spec(spec_is_transparent)]
    pub fn is_transparent(&self) -> (r: bool)
        ensures
            r == self.spec_is_transparent(),
    {
        match self {
            BlockID::Air | BlockID::OakLeaves | BlockID::Glass => true,
            _ => false,
        }
    }

    #[verifier::when_used_as_spec(spec_is_transparent_no_leaves)]
    pub fn is_transparent_no_leaves(&self) -> (r: bool)
        ensures
            r == self.spec_is_transparent_no_leaves(),
    {
        match self {
            BlockID::Air | BlockID::Glass => true,
            _ => false,
        }
    }
}

} // verus!
