use vstd::prelude::*;

use crate::atlas::GameTextureAtlas;
use crate::block::{face_exposed, face_order, face_step, is_liquid, BlockFace, BlockType};
use crate::coords::{IVec2XZ, CHUNK_HEIGHT, CHUNK_SIZE};
use crate::mesh::{corner_offset, face_corner, in_footprint, create_face, face_corners, face_indices, face_model, face_normal, face_uvs, FaceModel, MeshBuffer};
use crate::terrain::{classify_spec, NoiseSample};
use crate::volume::{
    cell_block, cell_index, chunk_in_range, in_chunk, lemma_cell_index, terrain_cells, world_of, ChunkVolume, VOLUME_CELLS,
};

verus! {

/// Number of blocks in a chunk.
pub const CHUNK_CELLS: usize = CHUNK_SIZE * CHUNK_HEIGHT * CHUNK_SIZE;

/// Local coordinates of the `c`-th block of a chunk in meshing order:
/// `x` outermost, then `y`, then `z`.
pub open spec fn order_x(c: int) -> int {
    c / (CHUNK_HEIGHT * CHUNK_SIZE) as int
}

pub open spec fn order_y(c: int) -> int {
    (c / CHUNK_SIZE as int) % CHUNK_HEIGHT as int
}

pub open spec fn order_z(c: int) -> int {
    c % CHUNK_SIZE as int
}

/// The `c`-th block in meshing order lies in the chunk.
proof fn lemma_order_in_chunk(c: int)
    requires
        0 <= c < CHUNK_CELLS,
    ensures
        in_chunk(order_x(c), order_y(c), order_z(c)),
{
    assert(0 <= c / 4096 < 16) by (nonlinear_arith)
        requires
            0 <= c < 65536,
    ;
}

/// Whether the block at local `(x, y, z)` gets a face on side `face`: it is
/// solid, and the neighbor on that side is above or below the world, or is
/// one that leaves the face visible.
pub open spec fn emits(cells: Seq<BlockType>, x: int, y: int, z: int, face: BlockFace) -> bool {
    let b = cell_block(cells, x, y, z);
    let s = face_step(face);
    let ny = y + s.1;
    b != BlockType::Air && (ny < 0 || ny >= CHUNK_HEIGHT || face_exposed(b, cell_block(cells, x + s.0, ny, z + s.2)))
}

/// The faces of the block at local `(x, y, z)` among the first `k` sides in test order.
pub open spec fn block_faces(cells: Seq<BlockType>, x: int, y: int, z: int, k: nat) -> Seq<FaceModel>
    decreases k,
{
    if k == 0 {
        Seq::empty()
    } else {
        let prev = block_faces(cells, x, y, z, (k - 1) as nat);
        let face = face_order(k - 1);
        if emits(cells, x, y, z, face) {
            prev.push(face_model(x, y, z, face, cell_block(cells, x, y, z)))
        } else {
            prev
        }
    }
}

/// The faces of the first `c` blocks of a chunk in meshing order.
pub open spec fn faces_before(cells: Seq<BlockType>, c: nat) -> Seq<FaceModel>
    decreases c,
{
    if c == 0 {
        Seq::empty()
    } else {
        let b = (c - 1) as int;
        faces_before(cells, (c - 1) as nat) + block_faces(cells, order_x(b), order_y(b), order_z(b), 6)
    }
}

/// Every face of a chunk, in the order the mesher emits them.
pub open spec fn chunk_faces(cells: Seq<BlockType>) -> Seq<FaceModel> {
    faces_before(cells, CHUNK_CELLS as nat)
}

/// A buffer that holds some faces, with one more face appended as `create_face`
/// appends it, holds those faces and that one.
proof fn lemma_append_face(
    old_buf: MeshBuffer,
    new_buf: MeshBuffer,
    chunk: IVec2XZ,
    faces: Seq<FaceModel>,
    f: FaceModel,
    atlas: GameTextureAtlas,
)
    requires
        old_buf.holds(chunk, faces, atlas),
        4 * faces.len() + 4 <= u32::MAX,
        new_buf.positions@ == old_buf.positions@ + face_corners(chunk, f),
        new_buf.normals@ == old_buf.normals@ + Seq::new(4, |i: int| face_normal(f.face)),
        new_buf.uvs@ == old_buf.uvs@ + face_uvs(atlas, f),
        new_buf.indices@ == old_buf.indices@ + face_indices(old_buf.positions@.len() as int),
    ensures
        new_buf.holds(chunk, faces.push(f), atlas),
{
    let n = faces.len() as int;
    let fs = faces.push(f);
    assert forall|k: int| 0 <= k < 4 * (n + 1) implies #[trigger] new_buf.positions@[k] == crate::mesh::face_corner(chunk, fs[k / 4], k % 4) by {
        if k >= 4 * n {
            assert(k / 4 == n);
        } else {
            assert(k / 4 < n);
        }
    }
    assert forall|k: int| 0 <= k < 4 * (n + 1) implies #[trigger] new_buf.normals@[k] == face_normal(fs[k / 4].face) by {
        if k >= 4 * n {
            assert(k / 4 == n);
        } else {
            assert(k / 4 < n);
        }
    }
    assert forall|k: int| 0 <= k < 4 * (n + 1) implies #[trigger] new_buf.uvs@[k]
        == crate::mesh::rect_corner(atlas.rect_for(fs[k / 4].block, fs[k / 4].face), k % 4) by {
        if k >= 4 * n {
            assert(k / 4 == n);
        } else {
            assert(k / 4 < n);
        }
    }
    assert forall|k: int| 0 <= k < 6 * (n + 1) implies #[trigger] new_buf.indices@[k] == 4 * (k / 6) + crate::mesh::quad_index(k % 6) by {
        if k >= 6 * n {
            assert(k / 6 == n);
        } else {
            assert(k / 6 < n);
        }
    }
}

proof fn lemma_block_faces_len(cells: Seq<BlockType>, x: int, y: int, z: int, k: nat)
    ensures
        block_faces(cells, x, y, z, k).len() <= k,
    decreases k,
{
    if k > 0 {
        lemma_block_faces_len(cells, x, y, z, (k - 1) as nat);
    }
}

proof fn lemma_air_has_no_faces(cells: Seq<BlockType>, x: int, y: int, z: int, k: nat)
    requires
        cell_block(cells, x, y, z) == BlockType::Air,
    ensures
        block_faces(cells, x, y, z, k).len() == 0,
    decreases k,
{
    if k > 0 {
        lemma_air_has_no_faces(cells, x, y, z, (k - 1) as nat);
    }
}

/// Every vertex of the mesh of a chunk lies in the chunk's closed footprint.
proof fn lemma_mesh_in_footprint(buf: MeshBuffer, chunk: IVec2XZ, cells: Seq<BlockType>, atlas: GameTextureAtlas)
    requires
        buf.holds(chunk, chunk_faces(cells), atlas),
    ensures
        forall|k: int| 0 <= k < buf.positions@.len() ==> in_footprint(chunk, #[trigger] buf.positions@[k]),
{
    lemma_faces_emitted(cells, CHUNK_CELLS as nat);
    let faces = chunk_faces(cells);
    assert forall|k: int| 0 <= k < buf.positions@.len() implies in_footprint(chunk, #[trigger] buf.positions@[k]) by {
        let f = faces[k / 4];
        assert(0 <= k / 4 < faces.len());
        assert(faces_before(cells, CHUNK_CELLS as nat)[k / 4] == f);
        assert(in_chunk(f.x, f.y, f.z));
        let o = corner_offset(f.face, k % 4);
        assert(0 <= o.0 <= 1 && 0 <= o.2 <= 1);
        assert(buf.positions@[k] == face_corner(chunk, f, k % 4));
        let wx = 10 * (chunk.x * CHUNK_SIZE + f.x) + 10 * o.0;
        let wz = 10 * (chunk.z * CHUNK_SIZE + f.z) + 10 * o.2;
        assert(160 * chunk.x <= wx <= 160 * chunk.x + 160);
        assert(160 * chunk.z <= wz <= 160 * chunk.z + 160);
        assert(buf.positions@[k].x == wx);
        assert(buf.positions@[k].z == wz);
    }
}

/// Builds the mesh of a chunk from its volume: for each solid block, in
/// meshing order, one face for each side whose neighbor leaves it visible.
pub fn mesh_volume(vol: &ChunkVolume, atlas: &GameTextureAtlas) -> (r: MeshBuffer)
    requires
        vol.wf(),
        atlas.wf(),
    ensures
        r.holds(vol.chunk, chunk_faces(vol.blocks@), *atlas),
        r.wf(),
        r.positions@.len() % 4 == 0,
        r.indices@.len() / 6 == r.positions@.len() / 4,
        forall|k: int| 0 <= k < r.positions@.len() ==> in_footprint(vol.chunk, #[trigger] r.positions@[k]),
{
    let chunk = vol.chunk;
    let mut mesh = MeshBuffer::new();
    let mut c: usize = 0;
    while c < CHUNK_CELLS
        invariant
            c <= CHUNK_CELLS,
            vol.wf(),
            atlas.wf(),
            chunk == vol.chunk,
            mesh.holds(chunk, faces_before(vol.blocks@, c as nat), *atlas),
            faces_before(vol.blocks@, c as nat).len() <= 6 * c,
        decreases CHUNK_CELLS - c,
    {
        let x = (c / (CHUNK_HEIGHT * CHUNK_SIZE)) as i32;
        let y = ((c / CHUNK_SIZE) % CHUNK_HEIGHT) as i32;
        let z = (c % CHUNK_SIZE) as i32;
        assert(x == order_x(c as int) && y == order_y(c as int) && z == order_z(c as int));
        assert(in_chunk(x as int, y as int, z as int));
        let ghost before = faces_before(vol.blocks@, c as nat);
        let block = vol.get(x, y, z);
        if block != BlockType::Air {
            let mut k: usize = 0;
            while k < 6
                invariant
                    k <= 6,
                    c < CHUNK_CELLS,
                    vol.wf(),
                    atlas.wf(),
                    chunk == vol.chunk,
                    in_chunk(x as int, y as int, z as int),
                    block == cell_block(vol.blocks@, x as int, y as int, z as int),
                    block != BlockType::Air,
                    before.len() <= 6 * c,
                    mesh.holds(chunk, before + block_faces(vol.blocks@, x as int, y as int, z as int, k as nat), *atlas),
                    block_faces(vol.blocks@, x as int, y as int, z as int, k as nat).len() <= k,
                decreases 6 - k,
            {
                let face = BlockFace::in_order(k);
                let step = face.step();
                let ny = y + step.1;
                let emit = if ny < 0 || ny >= CHUNK_HEIGHT as i32 {
                    true
                } else {
                    block.exposed_to(vol.get(x + step.0, ny, z + step.2))
                };
                let ghost so_far = before + block_faces(vol.blocks@, x as int, y as int, z as int, k as nat);
                if emit {
                    let ghost old_mesh = mesh;
                    create_face(&mut mesh, chunk, x, y, z, face, block, atlas);
                    proof {
                        lemma_append_face(old_mesh, mesh, chunk, so_far,
                            face_model(x as int, y as int, z as int, face, block), *atlas);
                        assert(so_far.push(face_model(x as int, y as int, z as int, face, block))
                            == before + block_faces(vol.blocks@, x as int, y as int, z as int, (k + 1) as nat));
                    }
                } else {
                    assert(so_far == before + block_faces(vol.blocks@, x as int, y as int, z as int, (k + 1) as nat));
                }
                k = k + 1;
            }
        } else {
            proof {
                lemma_air_has_no_faces(vol.blocks@, x as int, y as int, z as int, 6);
                assert(block_faces(vol.blocks@, x as int, y as int, z as int, 6) =~= Seq::empty());
                assert(before + block_faces(vol.blocks@, x as int, y as int, z as int, 6) =~= before);
            }
        }
        proof {
            lemma_block_faces_len(vol.blocks@, x as int, y as int, z as int, 6);
            assert(faces_before(vol.blocks@, (c + 1) as nat) == before + block_faces(vol.blocks@, x as int, y as int, z as int, 6));
        }
        c = c + 1;
    }
    proof {
        lemma_mesh_in_footprint(mesh, chunk, vol.blocks@, *atlas);
    }
    mesh
}


/// Builds the mesh of `chunk`: classifies each block of the chunk and its halo
/// with the noise sampled for it (`samples[i]` is the noise at
/// `ChunkVolume::cell_position(chunk, i)`), then meshes the volume.
pub fn create_chunk_mesh(chunk: IVec2XZ, samples: &Vec<NoiseSample>, atlas: &GameTextureAtlas) -> (r: MeshBuffer)
    requires
        samples@.len() == VOLUME_CELLS,
        chunk_in_range(chunk),
        atlas.wf(),
    ensures
        r.holds(chunk, chunk_faces(terrain_cells(chunk, samples@)), *atlas),
        r.wf(),
        r.positions@.len() % 4 == 0,
        r.indices@.len() / 6 == r.positions@.len() / 4,
        forall|k: int| 0 <= k < r.positions@.len() ==> in_footprint(chunk, #[trigger] r.positions@[k]),
{
    let vol = ChunkVolume::generate(chunk, samples);
    mesh_volume(&vol, atlas)
}

/// Each face that the mesher emits belongs to a solid block of the chunk, has
/// that block's material, and its side passes the visibility test.
proof fn lemma_faces_emitted(cells: Seq<BlockType>, c: nat)
    requires
        c <= CHUNK_CELLS,
    ensures
        forall|i: int| 0 <= i < faces_before(cells, c).len() ==> {
            let f = #[trigger] faces_before(cells, c)[i];
            &&& in_chunk(f.x, f.y, f.z)
            &&& f.block == cell_block(cells, f.x, f.y, f.z)
            &&& emits(cells, f.x, f.y, f.z, f.face)
        },
    decreases c,
{
    if c > 0 {
        let b = (c - 1) as int;
        lemma_faces_emitted(cells, (c - 1) as nat);
        lemma_block_faces_emitted(cells, order_x(b), order_y(b), order_z(b), 6);
        let prev = faces_before(cells, (c - 1) as nat);
        let mine = block_faces(cells, order_x(b), order_y(b), order_z(b), 6);
        lemma_order_in_chunk(b);
        assert forall|i: int| 0 <= i < faces_before(cells, c).len() implies {
            let f = #[trigger] faces_before(cells, c)[i];
            &&& in_chunk(f.x, f.y, f.z)
            &&& f.block == cell_block(cells, f.x, f.y, f.z)
            &&& emits(cells, f.x, f.y, f.z, f.face)
        } by {
            if i >= prev.len() {
                assert(faces_before(cells, c)[i] == mine[i - prev.len()]);
            } else {
                assert(faces_before(cells, c)[i] == prev[i]);
            }
        }
    }
}

proof fn lemma_block_faces_emitted(cells: Seq<BlockType>, x: int, y: int, z: int, k: nat)
    ensures
        forall|i: int| 0 <= i < block_faces(cells, x, y, z, k).len() ==> {
            let f = #[trigger] block_faces(cells, x, y, z, k)[i];
            &&& f.x == x && f.y == y && f.z == z
            &&& f.block == cell_block(cells, x, y, z)
            &&& emits(cells, x, y, z, f.face)
        },
    decreases k,
{
    if k > 0 {
        lemma_block_faces_emitted(cells, x, y, z, (k - 1) as nat);
    }
}

proof fn lemma_no_faces_before(cells: Seq<BlockType>, c: nat)
    requires
        c <= CHUNK_CELLS,
        forall|x: int, y: int, z: int| in_chunk(x, y, z) ==> #[trigger] cell_block(cells, x, y, z) == BlockType::Air,
    ensures
        faces_before(cells, c).len() == 0,
    decreases c,
{
    if c > 0 {
        let b = (c - 1) as int;
        lemma_no_faces_before(cells, (c - 1) as nat);
        lemma_order_in_chunk(b);
        lemma_air_has_no_faces(cells, order_x(b), order_y(b), order_z(b), 6);
    }
}

/// A chunk whose blocks are all empty has no faces, so its mesh has no
/// vertices and no indices.
pub proof fn lemma_empty_chunk_no_faces(cells: Seq<BlockType>)
    requires
        forall|x: int, y: int, z: int| in_chunk(x, y, z) ==> #[trigger] cell_block(cells, x, y, z) == BlockType::Air,
    ensures
        chunk_faces(cells).len() == 0,
        forall|buf: MeshBuffer, chunk: IVec2XZ, atlas: GameTextureAtlas|
            #[trigger] buf.holds(chunk, chunk_faces(cells), atlas) ==> buf.positions@.len() == 0 && buf.indices@.len() == 0,
{
    lemma_no_faces_before(cells, CHUNK_CELLS as nat);
}

/// Two solid blocks of one chunk that touch, both non-liquid or both the same
/// liquid, get no face on the side where they meet.
pub proof fn lemma_no_internal_faces(cells: Seq<BlockType>, i: int)
    requires
        0 <= i < chunk_faces(cells).len(),
    ensures
        ({
            let f = chunk_faces(cells)[i];
            let s = face_step(f.face);
            let b = cell_block(cells, f.x, f.y, f.z);
            let n = cell_block(cells, f.x + s.0, f.y + s.1, f.z + s.2);
            in_chunk(f.x + s.0, f.y + s.1, f.z + s.2) && n != BlockType::Air ==> !(
                (!is_liquid(b) && !is_liquid(n)) || (is_liquid(b) && b == n))
        }),
{
    lemma_faces_emitted(cells, CHUNK_CELLS as nat);
}


/// A chunk where the classifier gives only empty blocks, with the noise
/// sampled for it, has no faces: its mesh is empty.
pub proof fn lemma_empty_terrain_no_faces(chunk: IVec2XZ, samples: Seq<NoiseSample>)
    requires
        forall|x: int, y: int, z: int| in_chunk(x, y, z) ==> #[trigger] classify_spec(world_of(chunk, x, y, z), samples[cell_index(x, y, z)])
            == BlockType::Air,
    ensures
        chunk_faces(terrain_cells(chunk, samples)).len() == 0,
{
    let cells = terrain_cells(chunk, samples);
    assert forall|x: int, y: int, z: int| in_chunk(x, y, z) implies #[trigger] cell_block(cells, x, y, z) == BlockType::Air by {
        lemma_cell_index(x, y, z);
        assert(classify_spec(world_of(chunk, x, y, z), samples[cell_index(x, y, z)]) == BlockType::Air);
    }
    lemma_empty_chunk_no_faces(cells);
}

} // verus!
