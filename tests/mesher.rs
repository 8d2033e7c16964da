use voxel_world::atlas::{texture_slot, AtlasError, AtlasRect, GameTextureAtlas};
use voxel_world::block::{BlockFace, BlockType};
use voxel_world::coords::{IVec2XZ, CHUNK_HEIGHT, CHUNK_SIZE};
use voxel_world::mesh::{create_face, get_verts_indices, MeshBuffer, Normal, Uv, Vertex};
use voxel_world::mesher::{create_chunk_mesh, mesh_volume};
use voxel_world::terrain::NoiseSample;
use voxel_world::volume::{ChunkVolume, VOLUME_CELLS};

fn atlas() -> GameTextureAtlas {
    let mut rects = Vec::new();
    for i in 0..14u32 {
        rects.push(AtlasRect { min_x: 16 * i, min_y: 0, max_x: 16 * i + 16, max_y: 16 });
    }
    GameTextureAtlas::new(rects, 224, 16).unwrap()
}

fn check_face_counts(m: &MeshBuffer) {
    assert_eq!(m.positions.len(), m.normals.len());
    assert_eq!(m.positions.len(), m.uvs.len());
    assert_eq!(m.indices.len() % 6, 0);
    assert_eq!(m.indices.len() / 6 * 4, m.positions.len());
}

#[test]
fn atlas_with_too_few_textures_is_refused() {
    let rects = vec![AtlasRect { min_x: 0, min_y: 0, max_x: 1, max_y: 1 }; 13];
    assert_eq!(GameTextureAtlas::new(rects, 16, 16).unwrap_err(), AtlasError::TooFewTextures);
}

#[test]
fn empty_chunk_has_no_geometry() {
    let vol = ChunkVolume::new_empty(IVec2XZ::new(3, -2));
    let m = mesh_volume(&vol, &atlas());
    assert_eq!(m.positions.len(), 0);
    assert_eq!(m.indices.len(), 0);
    assert_eq!(m.vertex_count(), 0);
}

#[test]
fn lone_block_has_six_faces() {
    let mut vol = ChunkVolume::new_empty(IVec2XZ::new(0, 0));
    vol.set(0, 1, 0, BlockType::Stone);
    let m = mesh_volume(&vol, &atlas());
    assert_eq!(m.positions.len(), 24);
    assert_eq!(m.normals.len(), 24);
    assert_eq!(m.uvs.len(), 24);
    assert_eq!(m.indices.len(), 36);
    // faces in test order: top, bottom, right, left, front, back
    assert_eq!(m.normals[0], Normal { x: 0, y: 1, z: 0 });
    assert_eq!(m.normals[4], Normal { x: 0, y: -1, z: 0 });
    assert_eq!(m.normals[8], Normal { x: 1, y: 0, z: 0 });
    assert_eq!(m.normals[12], Normal { x: -1, y: 0, z: 0 });
    assert_eq!(m.normals[16], Normal { x: 0, y: 0, z: 1 });
    assert_eq!(m.normals[20], Normal { x: 0, y: 0, z: -1 });
    // top face, in tenths of a block
    assert_eq!(m.positions[0], Vertex { x: 0, y: 20, z: 0 });
    assert_eq!(m.positions[1], Vertex { x: 0, y: 20, z: 10 });
    assert_eq!(m.positions[2], Vertex { x: 10, y: 20, z: 10 });
    assert_eq!(m.positions[3], Vertex { x: 10, y: 20, z: 0 });
    // stone is the second texture
    assert_eq!(m.uvs[0], Uv { u: 16, v: 0 });
    assert_eq!(m.uvs[2], Uv { u: 32, v: 16 });
    assert_eq!(&m.indices[0..12], &[0, 1, 2, 0, 2, 3, 4, 5, 6, 4, 6, 7]);
    check_face_counts(&m);
}

#[test]
fn touching_solid_blocks_share_no_face() {
    let mut vol = ChunkVolume::new_empty(IVec2XZ::new(0, 0));
    vol.set(4, 10, 4, BlockType::Stone);
    vol.set(5, 10, 4, BlockType::Dirt);
    let m = mesh_volume(&vol, &atlas());
    assert_eq!(m.indices.len(), 10 * 6);
    check_face_counts(&m);
}

#[test]
fn water_shows_against_solid_only_from_the_solid_side() {
    let mut vol = ChunkVolume::new_empty(IVec2XZ::new(0, 0));
    vol.set(4, 10, 4, BlockType::Stone);
    vol.set(5, 10, 4, BlockType::Water);
    let m = mesh_volume(&vol, &atlas());
    // stone: 6 faces, its right face against the water included; water: 5
    assert_eq!(m.positions.len(), 11 * 4);
    check_face_counts(&m);
    let mut w = ChunkVolume::new_empty(IVec2XZ::new(0, 0));
    w.set(4, 10, 4, BlockType::Water);
    w.set(5, 10, 4, BlockType::Water);
    assert_eq!(mesh_volume(&w, &atlas()).positions.len(), 10 * 4);
}

#[test]
fn two_different_liquids_share_no_face() {
    let mut vol = ChunkVolume::new_empty(IVec2XZ::new(0, 0));
    vol.set(4, 10, 4, BlockType::Water);
    vol.set(5, 10, 4, BlockType::Lava);
    assert_eq!(mesh_volume(&vol, &atlas()).positions.len(), 10 * 4);
}

#[test]
fn faces_at_world_top_and_bottom_are_exposed() {
    let mut vol = ChunkVolume::new_empty(IVec2XZ::new(0, 0));
    vol.set(0, 0, 0, BlockType::Bedrock);
    vol.set(0, 1, 0, BlockType::Stone);
    vol.set(7, CHUNK_HEIGHT as i32 - 1, 7, BlockType::Stone);
    vol.set(7, CHUNK_HEIGHT as i32 - 2, 7, BlockType::Stone);
    let m = mesh_volume(&vol, &atlas());
    assert_eq!(m.positions.len(), 20 * 4);
}

#[test]
fn halo_blocks_hide_chunk_edge_faces() {
    let mut vol = ChunkVolume::new_empty(IVec2XZ::new(0, 0));
    vol.set(15, 5, 0, BlockType::Stone);
    vol.set(16, 5, 0, BlockType::Stone);
    let m = mesh_volume(&vol, &atlas());
    // the halo block itself is not meshed, and the face towards it is hidden
    assert_eq!(m.positions.len(), 5 * 4);
}

#[test]
fn liquid_top_is_recessed() {
    let mut m = MeshBuffer::new();
    create_face(&mut m, IVec2XZ::new(1, -1), 2, 3, 4, BlockFace::Top, BlockType::Water, &atlas());
    assert_eq!(m.positions[0], Vertex { x: 180, y: 39, z: -120 });
    assert_eq!(m.positions[2], Vertex { x: 190, y: 39, z: -110 });
    create_face(&mut m, IVec2XZ::new(1, -1), 2, 3, 4, BlockFace::Top, BlockType::Stone, &atlas());
    assert_eq!(m.positions[4], Vertex { x: 180, y: 40, z: -120 });
    create_face(&mut m, IVec2XZ::new(1, -1), 2, 3, 4, BlockFace::Front, BlockType::Lava, &atlas());
    assert_eq!(m.positions[8], Vertex { x: 190, y: 40, z: -110 });
    assert_eq!(&m.indices[12..18], &[8, 9, 10, 8, 10, 11]);
    check_face_counts(&m);
}

#[test]
fn grass_top_and_sides_use_different_textures() {
    let a = atlas();
    let mut m = MeshBuffer::new();
    create_face(&mut m, IVec2XZ::new(0, 0), 0, 0, 0, BlockFace::Top, BlockType::Grass, &a);
    create_face(&mut m, IVec2XZ::new(0, 0), 0, 0, 0, BlockFace::Left, BlockType::Grass, &a);
    create_face(&mut m, IVec2XZ::new(0, 0), 0, 0, 0, BlockFace::Bottom, BlockType::Grass, &a);
    assert_eq!(m.uvs[0], Uv { u: 48, v: 0 });
    assert_eq!(m.uvs[4], Uv { u: 64, v: 0 });
    assert_eq!(m.uvs[8], Uv { u: 64, v: 0 });
    assert_eq!(m.uvs[9], Uv { u: 80, v: 0 });
}

#[test]
fn collision_geometry_groups_indices_in_triangles() {
    let mut vol = ChunkVolume::new_empty(IVec2XZ::new(0, 0));
    vol.set(0, 1, 0, BlockType::Stone);
    let m = mesh_volume(&vol, &atlas());
    let (verts, tris) = get_verts_indices(&m);
    assert_eq!(verts, m.positions);
    assert_eq!(tris.len(), 12);
    assert_eq!(tris[0], (0, 1, 2));
    assert_eq!(tris[1], (0, 2, 3));
    assert_eq!(tris[11], (20, 22, 23));
}

#[test]
fn flat_sea_chunk_pipeline() {
    // surface at 63 everywhere, no caves: bedrock, stone, dirt, grass, the
    // ocean floor and five layers of water
    let samples = vec![NoiseSample { surface: -1_000_000, cave: 1_000_000, ore: 0 }; VOLUME_CELLS];
    let m = create_chunk_mesh(IVec2XZ::new(2, -5), &samples, &atlas());
    let cells = CHUNK_SIZE * CHUNK_SIZE;
    // bottom of the bedrock, top of the ocean floor under the water, top of the water
    assert_eq!(m.positions.len(), 3 * cells * 4);
    assert_eq!(m.indices.len(), 3 * cells * 6);
    check_face_counts(&m);
    // the first face is the bottom of bedrock block (0, 0, 0) of chunk (2, -5)
    assert_eq!(m.normals[0], Normal { x: 0, y: -1, z: 0 });
    assert_eq!(m.positions[0], Vertex { x: 320, y: 0, z: -790 });
}

#[test]
fn cell_positions_cover_the_halo() {
    let c = IVec2XZ::new(-1, 2);
    let first = ChunkVolume::cell_position(c, 0);
    assert_eq!((first.x, first.y, first.z), (-17, 0, 31));
    let last = ChunkVolume::cell_position(c, VOLUME_CELLS - 1);
    assert_eq!((last.x, last.y, last.z), (0, 255, 48));
}

#[test]
fn every_material_has_its_texture_slot() {
    let expect = [
        (BlockType::Bedrock, 0),
        (BlockType::Stone, 1),
        (BlockType::Dirt, 2),
        (BlockType::Log, 5),
        (BlockType::Lava, 6),
        (BlockType::Water, 7),
        (BlockType::CoalOre, 8),
        (BlockType::IronOre, 9),
        (BlockType::GoldOre, 10),
        (BlockType::DiamondOre, 11),
        (BlockType::Sand, 12),
        (BlockType::RedstoneOre, 13),
    ];
    for (block, slot) in expect {
        for face in [BlockFace::Top, BlockFace::Bottom, BlockFace::Front] {
            assert_eq!(texture_slot(block, face), slot);
        }
    }
    assert_eq!(texture_slot(BlockType::Grass, BlockFace::Top), 3);
    assert_eq!(texture_slot(BlockType::Grass, BlockFace::Bottom), 4);
    assert_eq!(texture_slot(BlockType::Grass, BlockFace::Back), 4);
    let a = atlas();
    assert_eq!(a.rect(BlockType::Sand, BlockFace::Top), AtlasRect { min_x: 192, min_y: 0, max_x: 208, max_y: 16 });
    assert_eq!(BlockType::default(), BlockType::Air);
}
