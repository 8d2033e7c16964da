use vstd::prelude::*;

use crate::block::BlockType;
use crate::coords::{BlockPos, CHUNK_HEIGHT};

verus! {

/// Noise values are handed to the classifier in millionths.
pub const NOISE_UNIT: i64 = 1_000_000;

/// Blocks at or beyond this distance along x or z are always empty.
pub const WORLD_BORDER: i32 = 5_000_000;

/// Blocks at or above this height are always empty (the sky ceiling).
pub const SKY_LIMIT: i32 = 255;

/// The fixed layer of stone under the sea.
pub const OCEAN_FLOOR: i32 = 64;

/// Lowest surface height that the remapped noise aims at.
pub const BLEND_HEIGHT: i64 = 63;

/// Highest surface height that the remapped noise aims at (world height less a margin of 40).
pub const MAX_SURFACE_HEIGHT: i64 = 216;

/// Range of the summed surface noise that is mapped onto the surface heights, in millionths.
pub const SURFACE_NOISE_MIN: i64 = -1_000_000;
pub const SURFACE_NOISE_MAX: i64 = 12_000_000;

/// Cave noise below this value carves a block (0.32).
pub const CAVE_THRESHOLD: i32 = 320_000;

/// Ore noise ranges, half-open, in millionths.
pub const DIAMOND_MIN: i32 = 0;
pub const DIAMOND_MAX: i32 = 2_000;
pub const GOLD_MIN: i32 = 380_000;
pub const GOLD_MAX: i32 = 400_000;
pub const IRON_MIN: i32 = 440_000;
pub const IRON_MAX: i32 = 480_000;
pub const COAL_MIN: i32 = 580_000;
pub const COAL_MAX: i32 = 700_000;

/// The coherent noise at one block, each value in millionths of the noise output.
/// `surface` is the sum of the 2D octaves at the block's column, `cave` the 3D
/// cave noise and `ore` the 3D ore noise at the block.
#[derive(Debug, Copy, Clone, PartialEq, Eq, Structural)]
pub struct NoiseSample {
    pub surface: i32,
    pub cave: i32,
    pub ore: i32,
}

/// Linear remap of `v` from `[from_min, from_max]` onto `[to_min, to_max]`, rounded down.
pub open spec fn remap_spec(v: int, from_min: int, from_max: int, to_min: int, to_max: int) -> int {
    (v - from_min) * (to_max - to_min) / (from_max - from_min) + to_min
}

/// Height of the terrain surface for a summed surface noise value.
pub open spec fn surface_height(noise: int) -> int {
    remap_spec(
        noise,
        SURFACE_NOISE_MIN as int,
        SURFACE_NOISE_MAX as int,
        BLEND_HEIGHT as int,
        MAX_SURFACE_HEIGHT as int,
    )
}

pub open spec fn in_sand_band(y: int) -> bool {
    64 < y < 72
}

pub open spec fn in_water_band(y: int) -> bool {
    64 < y < 70
}

/// The material that the surface pass gives at height `y` under a surface at height `h`.
pub open spec fn surface_block(y: int, h: int) -> BlockType {
    if y == 0 {
        BlockType::Bedrock
    } else if y + 3 < h {
        BlockType::Stone
    } else if y < h && !in_sand_band(y) {
        BlockType::Dirt
    } else if y == h && !in_sand_band(y) {
        BlockType::Grass
    } else if y <= h && in_sand_band(y) {
        BlockType::Sand
    } else if in_water_band(y) {
        BlockType::Water
    } else {
        BlockType::Air
    }
}

/// The material that the ore pass gives at height `y` for an ore noise value.
pub open spec fn ore_block(y: int, ore: int) -> BlockType {
    if DIAMOND_MIN <= ore < DIAMOND_MAX && y <= 16 {
        BlockType::DiamondOre
    } else if GOLD_MIN <= ore < GOLD_MAX && 8 <= y <= 24 {
        BlockType::GoldOre
    } else if IRON_MIN <= ore < IRON_MAX && 10 <= y <= 48 {
        BlockType::IronOre
    } else if COAL_MIN <= ore < COAL_MAX && 24 <= y <= 64 {
        BlockType::CoalOre
    } else {
        BlockType::Stone
    }
}

/// The material that the cave pass gives: the ore pass where the block is carved, else empty.
pub open spec fn cave_block_spec(y: int, n: NoiseSample) -> BlockType {
    if n.cave < CAVE_THRESHOLD {
        ore_block(y, n.ore as int)
    } else {
        BlockType::Air
    }
}

pub open spec fn outside_border(p: BlockPos) -> bool {
    p.x >= WORLD_BORDER || p.x < -WORLD_BORDER || p.z >= WORLD_BORDER || p.z < -WORLD_BORDER
}

/// The material of the world at `p`, given the noise sampled there.
pub open spec fn classify_spec(p: BlockPos, n: NoiseSample) -> BlockType {
    if outside_border(p) || p.y < 0 || p.y >= SKY_LIMIT {
        BlockType::Air
    } else if p.y == OCEAN_FLOOR {
        BlockType::Stone
    } else if p.y == 0 {
        BlockType::Bedrock
    } else {
        let surface = surface_block(p.y as int, surface_height(n.surface as int));
        if surface == BlockType::Air {
            BlockType::Air
        } else {
            let cave = cave_block_spec(p.y as int, n);
            if cave != BlockType::Air {
                cave
            } else {
                surface
            }
        }
    }
}

/// Remaps `value` linearly from `[from_min, from_max]` onto `[to_min, to_max]`,
/// rounding down.
pub fn remap(value: i64, from_min: i64, from_max: i64, to_min: i64, to_max: i64) -> (r: i64)
    requires
        from_min < from_max,
        -0x1_0000_0000_00 <= value <= 0x1_0000_0000_00,
        -0x1_0000_0000_00 <= from_min <= 0x1_0000_0000_00,
        -0x1_0000_0000_00 <= from_max <= 0x1_0000_0000_00,
        -0x10_0000 <= to_min <= 0x10_0000,
        -0x10_0000 <= to_max <= 0x10_0000,
    ensures
        r == remap_spec(value as int, from_min as int, from_max as int, to_min as int, to_max as int),
{
    let span = from_max - from_min;
    let a = value - from_min;
    let b = to_max - to_min;
    proof {
        let (ai, bi) = (a as int, b as int);
        assert(-0x4000_0000_0000_0000 <= ai * bi <= 0x4000_0000_0000_0000) by (nonlinear_arith)
            requires
                -0x200_0000_0000 <= ai <= 0x200_0000_0000,
                -0x20_0000 <= bi <= 0x20_0000,
        ;
    }
    let num: i64 = a * b;
    proof {
        let n = num as int;
        let d = span as int;
        assert(-0x4000_0000_0000_0000 <= n / d <= 0x4000_0000_0000_0000) by (nonlinear_arith)
            requires
                -0x4000_0000_0000_0000 <= n <= 0x4000_0000_0000_0000,
                d >= 1,
        ;
    }
    let q = match num.checked_div_euclid(span) {
        Some(q) => q,
        None => 0,
    };
    q + to_min
}

/// Height of the terrain surface for a summed surface noise value.
pub fn height_of(noise: i32) -> (r: i64)
    ensures
        r == surface_height(noise as int),
{
    remap(noise as i64, SURFACE_NOISE_MIN, SURFACE_NOISE_MAX, BLEND_HEIGHT, MAX_SURFACE_HEIGHT)
}


/// The surface pass: the material at height `y` of a column whose summed
/// surface noise is `surface_noise`.
pub fn surface_generation(y: i32, surface_noise: i32) -> (r: BlockType)
    ensures
        r == surface_block(y as int, surface_height(surface_noise as int)),
{
    let h = height_of(surface_noise);
    let y = y as i64;
    let sand = 64 < y && y < 72;
    if y == 0 {
        BlockType::Bedrock
    } else if y + 3 < h {
        BlockType::Stone
    } else if y < h && !sand {
        BlockType::Dirt
    } else if y == h && !sand {
        BlockType::Grass
    } else if y <= h && sand {
        BlockType::Sand
    } else if 64 < y && y < 70 {
        BlockType::Water
    } else {
        BlockType::Air
    }
}

/// The ore pass: the ore at height `y` for an ore noise value, or stone
/// where no ore range matches; ranges are checked in a fixed priority order.
pub fn cave_block(y: i32, ore: i32) -> (r: BlockType)
    ensures
        r == ore_block(y as int, ore as int),
{
    if DIAMOND_MIN <= ore && ore < DIAMOND_MAX && y <= 16 {
        BlockType::DiamondOre
    } else if GOLD_MIN <= ore && ore < GOLD_MAX && 8 <= y && y <= 24 {
        BlockType::GoldOre
    } else if IRON_MIN <= ore && ore < IRON_MAX && 10 <= y && y <= 48 {
        BlockType::IronOre
    } else if COAL_MIN <= ore && ore < COAL_MAX && 24 <= y && y <= 64 {
        BlockType::CoalOre
    } else {
        BlockType::Stone
    }
}

/// The cave pass: where the cave noise carves the block, the ore pass decides
/// its material; elsewhere it gives empty.
pub fn cave_generation(y: i32, n: &NoiseSample) -> (r: BlockType)
    ensures
        r == cave_block_spec(y as int, *n),
{
    if n.cave < CAVE_THRESHOLD {
        cave_block(y, n.ore)
    } else {
        BlockType::Air
    }
}

/// The material of the world at `p`, given the noise sampled there.
///
/// Outside the world border, below the ground and from the sky ceiling up the
/// result is empty; fixed layers (bedrock at the bottom, stone at the ocean
/// floor) override the noise; elsewhere the surface pass decides, and where it
/// gives matter the cave pass may turn it into ore or stone.
pub fn classify(p: BlockPos, n: &NoiseSample) -> (r: BlockType)
    ensures
        r == classify_spec(p, *n),
{
    if p.x >= WORLD_BORDER || p.x < -WORLD_BORDER || p.z >= WORLD_BORDER || p.z < -WORLD_BORDER {
        return BlockType::Air;
    }
    if p.y < 0 || p.y >= SKY_LIMIT {
        return BlockType::Air;
    }
    if p.y == OCEAN_FLOOR {
        return BlockType::Stone;
    }
    if p.y == 0 {
        return BlockType::Bedrock;
    }
    let surface = surface_generation(p.y, n.surface);
    if surface == BlockType::Air {
        return BlockType::Air;
    }
    let cave = cave_generation(p.y, n);
    if cave != BlockType::Air {
        cave
    } else {
        surface
    }
}

/// A block on the bottom layer inside the world border is bedrock, whatever the noise.
pub proof fn lemma_bedrock_floor(x: i32, z: i32, n: NoiseSample)
    requires
        -WORLD_BORDER <= x < WORLD_BORDER,
        -WORLD_BORDER <= z < WORLD_BORDER,
    ensures
        classify_spec(BlockPos { x, y: 0, z }, n) == BlockType::Bedrock,
{
}

/// Every block from the sky ceiling (world height less one) up is empty, whatever the noise.
pub proof fn lemma_sky_empty(p: BlockPos, n: NoiseSample)
    requires
        p.y >= CHUNK_HEIGHT - 1,
    ensures
        classify_spec(p, n) == BlockType::Air,
{
}

/// The classifier is a function of the position and the noise alone: two
/// classifications of one block with the same noise agree.
pub proof fn lemma_classify_deterministic(p: BlockPos, q: BlockPos, n: NoiseSample, m: NoiseSample)
    requires
        p == q,
        n == m,
    ensures
        classify_spec(p, n) == classify_spec(q, m),
{
}

} // verus!
