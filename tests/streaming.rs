use voxel_world::block::BlockType;
use voxel_world::coords::{chunk_of_block, BlockPos, IVec2XZ};
use voxel_world::debug::chunk_border;
use voxel_world::mesh::{MeshBuffer, Vertex};
use voxel_world::streaming::{
    chunk_system, handle_mesh_tasks, ChunkBorderToggled, ChunksLoaded, Generating, TaskOutcome,
};
use voxel_world::atlas::{AtlasRect, GameTextureAtlas};
use voxel_world::mesher::mesh_volume;
use voxel_world::volume::ChunkVolume;

fn atlas() -> GameTextureAtlas {
    let rects = vec![AtlasRect { min_x: 0, min_y: 0, max_x: 16, max_y: 16 }; 14];
    GameTextureAtlas::new(rects, 16, 16).unwrap()
}

fn one_block_mesh(chunk: IVec2XZ) -> MeshBuffer {
    let mut vol = ChunkVolume::new_empty(chunk);
    vol.set(3, 3, 3, BlockType::Stone);
    mesh_volume(&vol, &atlas())
}

fn sorted(mut v: Vec<IVec2XZ>) -> Vec<(i32, i32)> {
    let mut out: Vec<(i32, i32)> = v.drain(..).map(|c| (c.x, c.z)).collect();
    out.sort();
    out
}

fn square(cx: i32, cz: i32, r: i32) -> Vec<(i32, i32)> {
    let mut out = Vec::new();
    for x in cx - r..=cx + r {
        for z in cz - r..=cz + r {
            out.push((x, z));
        }
    }
    out.sort();
    out
}

#[test]
fn origin_radius_one_loads_nine_chunks() {
    let mut loaded = ChunksLoaded::new();
    let viewer = chunk_of_block(0, 0);
    let changes = chunk_system(&mut loaded, &Generating(true), viewer, 1);
    assert_eq!(sorted(changes.load.clone()), square(0, 0, 1));
    assert!(changes.unload.is_empty());
    assert_eq!(sorted(loaded.chunks.clone()), square(0, 0, 1));
    // every task resolves with geometry: nine renderable entities
    let mut rendered = 0;
    for c in &changes.load {
        let mesh = one_block_mesh(*c);
        if handle_mesh_tasks(&loaded, *c, &mesh) == TaskOutcome::Attach {
            rendered += 1;
        }
    }
    assert_eq!(rendered, 9);
}

#[test]
fn second_tick_dispatches_nothing_again() {
    let mut loaded = ChunksLoaded::new();
    let v = IVec2XZ::new(4, -7);
    let first = chunk_system(&mut loaded, &Generating(true), v, 2);
    assert_eq!(first.load.len(), 25);
    let second = chunk_system(&mut loaded, &Generating(true), v, 2);
    assert!(second.load.is_empty());
    assert!(second.unload.is_empty());
    // moving one chunk dispatches only the new column
    let third = chunk_system(&mut loaded, &Generating(true), IVec2XZ::new(5, -7), 2);
    assert_eq!(sorted(third.load), vec![(7, -9), (7, -8), (7, -7), (7, -6), (7, -5)]);
    assert_eq!(sorted(third.unload), vec![(2, -9), (2, -8), (2, -7), (2, -6), (2, -5)]);
}

#[test]
fn loaded_set_converges_to_target() {
    let mut loaded = ChunksLoaded::new();
    for (x, z) in [(0, 0), (3, 1), (-10, 4), (-9, 4)] {
        chunk_system(&mut loaded, &Generating(true), IVec2XZ::new(x, z), 3);
    }
    assert_eq!(sorted(loaded.chunks.clone()), square(-9, 4, 3));
    for c in [(-9, 4), (-12, 1), (-6, 7)] {
        assert!(loaded.contains(IVec2XZ::new(c.0, c.1)));
    }
    assert!(!loaded.contains(IVec2XZ::new(-13, 4)));
}

#[test]
fn paused_generation_changes_nothing() {
    let mut loaded = ChunksLoaded::new();
    chunk_system(&mut loaded, &Generating(true), IVec2XZ::new(0, 0), 1);
    let changes = chunk_system(&mut loaded, &Generating(false), IVec2XZ::new(100, 100), 1);
    assert!(changes.load.is_empty() && changes.unload.is_empty());
    assert_eq!(sorted(loaded.chunks.clone()), square(0, 0, 1));
}

#[test]
fn task_outcomes() {
    let mut loaded = ChunksLoaded::new();
    chunk_system(&mut loaded, &Generating(true), IVec2XZ::new(0, 0), 1);
    // empty mesh: torn down, the chunk stays loaded
    assert_eq!(handle_mesh_tasks(&loaded, IVec2XZ::new(1, 1), &MeshBuffer::new()), TaskOutcome::Empty);
    assert!(loaded.contains(IVec2XZ::new(1, 1)));
    // stale: its chunk was unloaded
    let far = IVec2XZ::new(5, 5);
    assert_eq!(handle_mesh_tasks(&loaded, far, &one_block_mesh(far)), TaskOutcome::Discard);
    // stale: the vertices lie in a chunk that is not loaded
    assert_eq!(handle_mesh_tasks(&loaded, IVec2XZ::new(0, 0), &one_block_mesh(far)), TaskOutcome::Discard);
    // vertices under negative chunks round down
    let mut m = MeshBuffer::new();
    m.positions.push(Vertex { x: -1, y: 0, z: -160 });
    assert_eq!(handle_mesh_tasks(&loaded, IVec2XZ::new(0, 0), &m), TaskOutcome::Attach);
    m.positions[0] = Vertex { x: -161, y: 0, z: 0 };
    assert_eq!(handle_mesh_tasks(&loaded, IVec2XZ::new(0, 0), &m), TaskOutcome::Discard);
    assert_eq!(handle_mesh_tasks(&loaded, IVec2XZ::new(-1, 0), &one_block_mesh(IVec2XZ::new(-1, 0))), TaskOutcome::Attach);
}

#[test]
fn every_vertex_must_lie_in_a_loaded_chunk() {
    let mut loaded = ChunksLoaded::new();
    chunk_system(&mut loaded, &Generating(true), IVec2XZ::new(0, 0), 0);
    // the far edge of the only loaded chunk still counts as inside it
    let mut m = MeshBuffer::new();
    m.positions.push(Vertex { x: 160, y: 0, z: 160 });
    assert_eq!(handle_mesh_tasks(&loaded, IVec2XZ::new(0, 0), &m), TaskOutcome::Attach);
    // a second vertex ten chunks away makes the result stale
    m.positions.push(Vertex { x: 1600, y: 0, z: 0 });
    assert_eq!(handle_mesh_tasks(&loaded, IVec2XZ::new(0, 0), &m), TaskOutcome::Discard);
}

#[test]
fn chunk_border_outlines_the_chunk() {
    let lines = chunk_border(&ChunkBorderToggled(false), IVec2XZ::new(-1, 2));
    assert_eq!(lines.len(), 12);
    assert_eq!(lines[0], (BlockPos::new(-16, 0, 32), BlockPos::new(0, 0, 32)));
    assert_eq!(lines[1], (BlockPos::new(-16, 0, 32), BlockPos::new(-16, 256, 32)));
    assert_eq!(lines[11], (BlockPos::new(-16, 256, 48), BlockPos::new(0, 256, 48)));
    assert!(chunk_border(&ChunkBorderToggled(true), IVec2XZ::new(0, 0)).is_empty());
}
