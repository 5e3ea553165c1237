//! Voxel materials and the texture layers they are drawn with.

use vstd::prelude::*;

verus! {

/// Material id of the snowy brick voxel.
pub const SNOWY_BRICK: u8 = 0;

/// Material id of the full brick voxel.
pub const FULL_BRICK: u8 = 1;

/// Material id of the grass voxel.
pub const GRASS: u8 = 2;

/// Material id of the stone voxel.
pub const STONE: u8 = 3;

/// The closed set of materials that particles and voxels share.
#[derive(Clone, Copy, Debug, PartialEq, Eq, Structural)]
pub enum TileType {
    SnowyBrick,
    FullBrick,
    Grass,
    Stone,
}

/// The voxel material id that a tile type stands for.
pub open spec fn material_of(t: TileType) -> u8 {
    match t {
        TileType::SnowyBrick => SNOWY_BRICK,
        TileType::FullBrick => FULL_BRICK,
        TileType::Grass => GRASS,
        TileType::Stone => STONE,
    }
}

impl TileType {
    /// The voxel material this tile type becomes: the mapping is one to one.
    pub fn material_id(self) -> (r: u8)
        ensures
            r == material_of(self),
    {
        match self {
            TileType::SnowyBrick => SNOWY_BRICK,
            TileType::FullBrick => FULL_BRICK,
            TileType::Grass => GRASS,
            TileType::Stone => STONE,
        }
    }
}

/// Texture layers (top, sides, bottom) of a voxel material; every material
/// past the two brick kinds is drawn like grass.
pub open spec fn texture_layers(material: u8) -> Seq<u32> {
    if material == SNOWY_BRICK {
        seq![0u32, 1u32, 2u32]
    } else if material == FULL_BRICK {
        seq![2u32, 2u32, 2u32]
    } else {
        seq![3u32, 3u32, 3u32]
    }
}

/// The texture layers that the renderer uses for a voxel material.
pub fn texture_index_mapper(material: u8) -> (r: [u32; 3])
    ensures
        r@ == texture_layers(material),
{
    let r: [u32; 3] = if material == SNOWY_BRICK {
        [0, 1, 2]
    } else if material == FULL_BRICK {
        [2, 2, 2]
    } else {
        [3, 3, 3]
    };
    assert(r@ =~= texture_layers(material));
    r
}

} // verus!
