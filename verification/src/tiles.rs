//! Tiles and where their data lies in the GPU buffers.

use vstd::prelude::*;

verus! {

/// The position of a tile in the tile pyramid of the world.
#[derive(Clone, Copy, PartialEq, Eq, Structural, Debug)]
pub struct WorldTileCoords {
    pub x: i32,
    pub y: i32,
    pub z: u8,
}

/// The bytes from `start` up to but not including `end` of a buffer.
#[derive(Clone, Copy, PartialEq, Eq, Structural, Debug)]
pub struct ByteRange {
    pub start: u64,
    pub end: u64,
}

/// The numbers from `start` up to but not including `end`.
#[derive(Clone, Copy, PartialEq, Eq, Structural, Debug)]
pub struct DrawRange {
    pub start: u32,
    pub end: u32,
}

/// One layer of one tile whose geometry is in the buffer pool.
#[derive(Clone, Copy, PartialEq, Eq, Structural, Debug)]
pub struct IndexEntry {
    pub coords: WorldTileCoords,
    /// The value that marks the pixels of the tile in the stencil buffer.
    pub stencil_reference: u8,
    pub vertices: ByteRange,
    pub indices: ByteRange,
    pub metadata: ByteRange,
    pub feature_metadata: ByteRange,
    /// The indices that are drawn, counted within `indices`.
    pub drawn_indices: DrawRange,
}

} // verus!
