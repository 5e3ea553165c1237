//! Integer voxel coordinates and voxel writes.

use vstd::prelude::*;
use crate::material::TileType;

verus! {

/// A cell of the voxel grid.
#[derive(Clone, Copy, Debug, PartialEq, Eq, Structural)]
pub struct VoxelCoord {
    pub x: i32,
    pub y: i32,
    pub z: i32,
}

/// The cell one unit above `c` on the vertical axis.
pub open spec fn cell_above(c: VoxelCoord) -> VoxelCoord {
    VoxelCoord { x: c.x, y: (c.y + 1) as i32, z: c.z }
}

impl VoxelCoord {
    pub fn new(x: i32, y: i32, z: i32) -> (r: VoxelCoord)
        ensures
            r == (VoxelCoord { x, y, z }),
    {
        VoxelCoord { x, y, z }
    }

    /// The cell stacked directly on top of this one.
    pub fn above(self) -> (r: VoxelCoord)
        requires
            self.y < i32::MAX,
        ensures
            r == cell_above(self),
            r.y == self.y + 1,
    {
        VoxelCoord { x: self.x, y: self.y + 1, z: self.z }
    }
}

/// An overwrite of one grid cell with a solid voxel of a material.
#[derive(Clone, Copy, Debug, PartialEq, Eq, Structural)]
pub struct VoxelWrite {
    pub coord: VoxelCoord,
    pub material: u8,
}

/// A particle's material as the solid voxel it turns into.
#[derive(Clone, Copy, Debug, PartialEq, Eq, Structural)]
pub struct Particle {
    pub tile_type: TileType,
}

} // verus!
