use vstd::prelude::*;

use crate::block::{BlockFace, BlockType};

verus! {

/// Number of sub-rectangles that the block materials refer to.
pub const ATLAS_TEXTURES: usize = 14;

/// A sub-rectangle of the texture atlas, in atlas pixels.
#[derive(Debug, Copy, Clone, PartialEq, Eq, Structural)]
pub struct AtlasRect {
    pub min_x: u32,
    pub min_y: u32,
    pub max_x: u32,
    pub max_y: u32,
}

/// Why an atlas descriptor was refused.
#[derive(Debug, Copy, Clone, PartialEq, Eq, Structural)]
pub enum AtlasError {
    /// Fewer sub-rectangles than the materials refer to.
    TooFewTextures,
}

/// The texture atlas descriptor: the sub-rectangles that faces are textured
/// with, and the atlas size in pixels that texture coordinates are normalised by.
#[derive(Debug, Clone)]
pub struct GameTextureAtlas {
    pub textures: Vec<AtlasRect>,
    pub width: u32,
    pub height: u32,
}

/// The index of the sub-rectangle that textures `face` of a `block`.
pub open spec fn texture_index(block: BlockType, face: BlockFace) -> int {
    match block {
        BlockType::Bedrock => 0,
        BlockType::Stone => 1,
        BlockType::Dirt => 2,
        BlockType::Grass => {
            if face == BlockFace::Top {
                3
            } else {
                4
            }
        },
        BlockType::Log => 5,
        BlockType::Lava => 6,
        BlockType::Water => 7,
        BlockType::CoalOre => 8,
        BlockType::IronOre => 9,
        BlockType::GoldOre => 10,
        BlockType::DiamondOre => 11,
        BlockType::Sand => 12,
        BlockType::RedstoneOre => 13,
        BlockType::Air => 0,
    }
}

/// The index of the sub-rectangle that textures `face` of a `block`.
pub fn texture_slot(block: BlockType, face: BlockFace) -> (r: usize)
    ensures
        r == texture_index(block, face),
        r < ATLAS_TEXTURES,
{
    match block {
        BlockType::Bedrock => 0,
        BlockType::Stone => 1,
        BlockType::Dirt => 2,
        BlockType::Grass => {
            if face == BlockFace::Top {
                3
            } else {
                4
            }
        },
        BlockType::Log => 5,
        BlockType::Lava => 6,
        BlockType::Water => 7,
        BlockType::CoalOre => 8,
        BlockType::IronOre => 9,
        BlockType::GoldOre => 10,
        BlockType::DiamondOre => 11,
        BlockType::Sand => 12,
        BlockType::RedstoneOre => 13,
        BlockType::Air => 0,
    }
}

impl GameTextureAtlas {
    /// An atlas holds a sub-rectangle for every material.
    pub open spec fn wf(&self) -> bool {
        self.textures@.len() >= ATLAS_TEXTURES
    }

    /// The sub-rectangle that textures `face` of a `block`.
    pub open spec fn rect_for(&self, block: BlockType, face: BlockFace) -> AtlasRect {
        self.textures@[texture_index(block, face)]
    }

    /// Checks a descriptor: it is refused when it has fewer sub-rectangles
    /// than the materials refer to.
    pub fn new(textures: Vec<AtlasRect>, width: u32, height: u32) -> (r: Result<GameTextureAtlas, AtlasError>)
        ensures
            textures@.len() < ATLAS_TEXTURES ==> r == Err::<GameTextureAtlas, AtlasError>(AtlasError::TooFewTextures),
            textures@.len() >= ATLAS_TEXTURES ==> (r matches Ok(a) && a.textures@ == textures@ && a.width == width && a.height == height),
    {
        if textures.len() < ATLAS_TEXTURES {
            Err(AtlasError::TooFewTextures)
        } else {
            Ok(GameTextureAtlas { textures, width, height })
        }
    }

    /// The sub-rectangle that textures `face` of a `block`.
    pub fn rect(&self, block: BlockType, face: BlockFace) -> (r: AtlasRect)
        requires
            self.wf(),
        ensures
            r == self.rect_for(block, face),
    {
        self.textures[texture_slot(block, face)]
    }
}

} // verus!
