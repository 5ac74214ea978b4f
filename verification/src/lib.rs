//! Dense voxel storage and mesh generation for fixed-size chunks.
//!
//! A world of blocks is cut into chunks of 16 x 16 x 16 cells, stacked
//! sixteen high into columns. A chunk stores the block kind of each cell and
//! caches what its mesh is drawn from: for every face of every cell whether
//! the face is visible, and for every corner of every face how much the
//! blocks around it darken it. A write to a cell marks the chunk dirty; a
//! rebuild fills the caches from the cells of the chunk and of the six chunks
//! around it, writes the vertices of the visible faces and leaves the chunk
//! clean.
//!
//! Vertices are records of whole numbers. Creating buffers on the GPU and
//! uploading vertices to them is left to the caller, who hands each chunk the
//! handles of its buffers and takes the vertices of every rebuild.
//!
//! - [`block`]: the block kinds and their predicates.
//! - [`coords`]: the layout of cells in a chunk and the iterator over them.
//! - [`face`], [`occlusion`], [`shapes`]: the geometry of a cell's faces, the
//!   occlusion rule, and the vertices of a cube.
//! - [`chunk`], [`column`], [`neighbors`]: storage, block access and rebuilds.
//! - [`mesh`]: visibility, occlusion and vertices of a whole chunk.
//! - [`culling`], [`dirty`]: what face culling guarantees, and which
//!   neighbours a write makes stale.
//! - [`texture`], [`main_hand`]: texture layers by block kind, and the block
//!   in the player's hand.
//! - [`bits`], [`random`]: the packed flag store and the source of random
//!   numbers.

pub mod bits;
pub mod block;
pub mod chunk;
pub mod column;
pub mod coords;
pub mod culling;
pub mod dirty;
pub mod face;
pub mod main_hand;
pub mod mesh;
pub mod neighbors;
pub mod occlusion;
pub mod random;
pub mod shapes;
pub mod texture;
