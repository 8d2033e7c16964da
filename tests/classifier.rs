use voxel_world::block::BlockType;
use voxel_world::coords::{chunk_of_block, BlockPos, IVec2XZ};
use voxel_world::terrain::{
    cave_block, cave_generation, classify, height_of, remap, surface_generation, NoiseSample,
};

fn sample(surface: i32, cave: i32, ore: i32) -> NoiseSample {
    NoiseSample { surface, cave, ore }
}

#[test]
fn classify_twice_gives_the_same_block() {
    let n = sample(2_500_000, 100_000, 390_000);
    for y in [0, 1, 12, 30, 64, 66, 90, 200, 254, 255] {
        let p = BlockPos::new(123, y, -456);
        assert_eq!(classify(p, &n), classify(p, &n));
    }
}

#[test]
fn bottom_layer_is_bedrock() {
    for (x, z) in [(0, 0), (-4_999_999, 4_999_999), (17, -3)] {
        for n in [sample(-3_000_000, 0, 0), sample(3_000_000, 900_000, 1_000)] {
            assert_eq!(classify(BlockPos::new(x, 0, z), &n), BlockType::Bedrock);
        }
    }
}

#[test]
fn sky_is_empty() {
    let n = sample(12_000_000, 0, 0);
    for y in [255, 256, 1000, i32::MAX] {
        assert_eq!(classify(BlockPos::new(5, y, 5), &n), BlockType::Air);
    }
}

#[test]
fn beyond_the_border_is_empty() {
    let n = sample(0, 900_000, 0);
    assert_eq!(classify(BlockPos::new(5_000_000, 10, 0), &n), BlockType::Air);
    assert_eq!(classify(BlockPos::new(0, 0, -5_000_001), &n), BlockType::Air);
    assert_eq!(classify(BlockPos::new(4_999_999, 10, 0), &n), BlockType::Stone);
}

#[test]
fn below_the_ground_is_empty() {
    assert_eq!(classify(BlockPos::new(0, -1, 0), &sample(0, 900_000, 0)), BlockType::Air);
}

#[test]
fn ocean_floor_is_stone() {
    assert_eq!(classify(BlockPos::new(0, 64, 0), &sample(-3_000_000, 900_000, 0)), BlockType::Stone);
}

#[test]
fn remap_maps_ranges_linearly() {
    assert_eq!(remap(-1_000_000, -1_000_000, 12_000_000, 63, 216), 63);
    assert_eq!(remap(12_000_000, -1_000_000, 12_000_000, 63, 216), 216);
    assert_eq!(remap(0, -1, 1, 0, 10), 5);
    // rounds down, also below zero
    assert_eq!(remap(0, -3, 4, 0, 10), 4);
    assert_eq!(remap(-3, 0, 2, 0, 1), -2);
}

#[test]
fn surface_height_from_noise() {
    assert_eq!(height_of(-1_000_000), 63);
    assert_eq!(height_of(0), 74);
    assert_eq!(height_of(3_000_000), 110);
    assert_eq!(height_of(-3_000_000), 39);
}

#[test]
fn surface_pass_layers() {
    // surface noise 0 gives a surface at height 74
    assert_eq!(surface_generation(0, 0), BlockType::Bedrock);
    assert_eq!(surface_generation(70, 0), BlockType::Stone);
    assert_eq!(surface_generation(71, 0), BlockType::Sand);
    assert_eq!(surface_generation(72, 0), BlockType::Dirt);
    assert_eq!(surface_generation(74, 0), BlockType::Grass);
    assert_eq!(surface_generation(75, 0), BlockType::Air);
    // surface at 63: a sea above it
    assert_eq!(surface_generation(63, -1_000_000), BlockType::Grass);
    assert_eq!(surface_generation(65, -1_000_000), BlockType::Water);
    assert_eq!(surface_generation(69, -1_000_000), BlockType::Water);
    assert_eq!(surface_generation(70, -1_000_000), BlockType::Air);
    // surface at 68, inside the sand band
    let n = -575_163;
    assert_eq!(height_of(n), 68);
    assert_eq!(surface_generation(68, n), BlockType::Sand);
    assert_eq!(surface_generation(69, n), BlockType::Water);
}

#[test]
fn ore_pass_ranges() {
    assert_eq!(cave_block(16, 0), BlockType::DiamondOre);
    assert_eq!(cave_block(17, 0), BlockType::Stone);
    assert_eq!(cave_block(8, 399_999), BlockType::GoldOre);
    assert_eq!(cave_block(7, 390_000), BlockType::Stone);
    assert_eq!(cave_block(48, 440_000), BlockType::IronOre);
    assert_eq!(cave_block(49, 440_000), BlockType::Stone);
    assert_eq!(cave_block(64, 650_000), BlockType::CoalOre);
    assert_eq!(cave_block(40, 700_000), BlockType::Stone);
}

#[test]
fn cave_pass_carves_below_threshold() {
    assert_eq!(cave_generation(10, &sample(0, 319_999, 0)), BlockType::DiamondOre);
    assert_eq!(cave_generation(10, &sample(0, 320_000, 0)), BlockType::Air);
}

#[test]
fn carved_blocks_take_the_ore_pass() {
    // surface at 74; y 30 would be stone
    assert_eq!(classify(BlockPos::new(1, 30, 1), &sample(0, 900_000, 650_000)), BlockType::Stone);
    assert_eq!(classify(BlockPos::new(1, 30, 1), &sample(0, 0, 650_000)), BlockType::CoalOre);
    assert_eq!(classify(BlockPos::new(1, 73, 1), &sample(0, 0, 650_000)), BlockType::Stone);
    assert_eq!(classify(BlockPos::new(1, 73, 1), &sample(0, 900_000, 650_000)), BlockType::Dirt);
    // nothing to carve in the air
    assert_eq!(classify(BlockPos::new(1, 80, 1), &sample(0, 0, 650_000)), BlockType::Air);
}

#[test]
fn chunk_of_block_rounds_down() {
    assert_eq!(chunk_of_block(0, 0), IVec2XZ::new(0, 0));
    assert_eq!(chunk_of_block(15, 16), IVec2XZ::new(0, 1));
    assert_eq!(chunk_of_block(-1, -16), IVec2XZ::new(-1, -1));
    assert_eq!(chunk_of_block(-17, 33), IVec2XZ::new(-2, 2));
}

#[test]
fn ivec_arithmetic() {
    let a = IVec2XZ::new(3, -4);
    let b = IVec2XZ::new(-1, 10);
    assert_eq!(a.add(b), IVec2XZ::new(2, 6));
    assert_eq!(a.sub(b), IVec2XZ::new(4, -14));
}
