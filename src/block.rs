use vstd::prelude::*;

verus! {

/// The material of one block.
#[derive(Debug, Copy, Clone, PartialEq, Eq, Structural)]
pub enum BlockType {
    Bedrock,
    Stone,
    Dirt,
    Grass,
    Log,
    Lava,
    Water,
    DiamondOre,
    RedstoneOre,
    GoldOre,
    IronOre,
    CoalOre,
    Sand,
    Air,
}

impl Default for BlockType {
    fn default() -> (r: BlockType)
        ensures
            r == BlockType::Air,
    {
        BlockType::Air
    }
}

/// One of the six axis-aligned faces of a block.
#[derive(Debug, Copy, Clone, PartialEq, Eq, Structural)]
pub enum BlockFace {
    Top,
    Bottom,
    Left,
    Right,
    Front,
    Back,
}

pub open spec fn is_liquid(b: BlockType) -> bool {
    b == BlockType::Water || b == BlockType::Lava
}

/// Whether a face of a solid `block` that touches `neighbor` is visible:
/// the neighbor is empty, or the block is not a liquid and the neighbor is one.
pub open spec fn face_exposed(block: BlockType, neighbor: BlockType) -> bool {
    neighbor == BlockType::Air || (!is_liquid(block) && is_liquid(neighbor))
}

/// The order in which the mesher tests the faces of a block.
pub open spec fn face_order(k: int) -> BlockFace {
    if k == 0 {
        BlockFace::Top
    } else if k == 1 {
        BlockFace::Bottom
    } else if k == 2 {
        BlockFace::Right
    } else if k == 3 {
        BlockFace::Left
    } else if k == 4 {
        BlockFace::Front
    } else {
        BlockFace::Back
    }
}

/// The step from a block to its neighbor across `face`, as (dx, dy, dz).
pub open spec fn face_step(face: BlockFace) -> (int, int, int) {
    match face {
        BlockFace::Top => (0, 1, 0),
        BlockFace::Bottom => (0, -1, 0),
        BlockFace::Left => (-1, 0, 0),
        BlockFace::Right => (1, 0, 0),
        BlockFace::Front => (0, 0, 1),
        BlockFace::Back => (0, 0, -1),
    }
}

impl BlockType {
    /// Whether a face of this block that touches `neighbor` is visible.
    pub fn exposed_to(self, neighbor: BlockType) -> (r: bool)
        ensures
            r == face_exposed(self, neighbor),
    {
        let block_liquid = self == BlockType::Water || self == BlockType::Lava;
        let neighbor_liquid = neighbor == BlockType::Water || neighbor == BlockType::Lava;
        neighbor == BlockType::Air || (!block_liquid && neighbor_liquid)
    }
}

impl BlockFace {
    /// The face tested `k`-th around a block.
    pub fn in_order(k: usize) -> (r: BlockFace)
        requires
            k < 6,
        ensures
            r == face_order(k as int),
    {
        if k == 0 {
            BlockFace::Top
        } else if k == 1 {
            BlockFace::Bottom
        } else if k == 2 {
            BlockFace::Right
        } else if k == 3 {
            BlockFace::Left
        } else if k == 4 {
            BlockFace::Front
        } else {
            BlockFace::Back
        }
    }

    /// The step to the neighbor across this face.
    pub fn step(self) -> (r: (i32, i32, i32))
        ensures
            (r.0 as int, r.1 as int, r.2 as int) == face_step(self),
    {
        match self {
            BlockFace::Top => (0, 1, 0),
            BlockFace::Bottom => (0, -1, 0),
            BlockFace::Left => (-1, 0, 0),
            BlockFace::Right => (1, 0, 0),
            BlockFace::Front => (0, 0, 1),
            BlockFace::Back => (0, 0, -1),
        }
    }
}

} // verus!
