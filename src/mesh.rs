use vstd::prelude::*;

use crate::atlas::{AtlasRect, GameTextureAtlas};
use crate::block::{is_liquid, BlockFace, BlockType};
use crate::coords::{IVec2XZ, CHUNK_HEIGHT, CHUNK_SIZE};

verus! {

/// Width of a chunk in vertex units (tenths of a block).
pub const CHUNK_SPAN: i64 = 10 * CHUNK_SIZE as i64;

/// A vertex position in world space, in tenths of a block.
#[derive(Debug, Copy, Clone, PartialEq, Eq, Structural)]
pub struct Vertex {
    pub x: i64,
    pub y: i64,
    pub z: i64,
}

/// A unit normal along one axis.
#[derive(Debug, Copy, Clone, PartialEq, Eq, Structural)]
pub struct Normal {
    pub x: i32,
    pub y: i32,
    pub z: i32,
}

/// A texture coordinate, in atlas pixels; normalised by the atlas size it lies in `[0, 1]`.
#[derive(Debug, Copy, Clone, PartialEq, Eq, Structural)]
pub struct Uv {
    pub u: u32,
    pub v: u32,
}

/// Four parallel vertex attributes and the triangle list over them.
/// Each face is four vertices and six indices.
#[derive(Debug, Clone)]
pub struct MeshBuffer {
    pub positions: Vec<Vertex>,
    pub normals: Vec<Normal>,
    pub uvs: Vec<Uv>,
    pub indices: Vec<u32>,
}

/// Vertex `v` lies in the closed horizontal footprint of `chunk`.
pub open spec fn in_footprint(chunk: IVec2XZ, v: Vertex) -> bool {
    &&& CHUNK_SPAN * chunk.x <= v.x <= CHUNK_SPAN * chunk.x + CHUNK_SPAN
    &&& CHUNK_SPAN * chunk.z <= v.z <= CHUNK_SPAN * chunk.z + CHUNK_SPAN
}

/// Whether vertex `v` lies in the closed horizontal footprint of `chunk`.
pub fn vertex_in_footprint(chunk: IVec2XZ, v: Vertex) -> (r: bool)
    ensures
        r == in_footprint(chunk, v),
{
    assert(CHUNK_SPAN == 160);
    let x0 = CHUNK_SPAN * chunk.x as i64;
    let z0 = CHUNK_SPAN * chunk.z as i64;
    x0 <= v.x && v.x <= x0 + CHUNK_SPAN && z0 <= v.z && v.z <= z0 + CHUNK_SPAN
}

/// One emitted face: the block at local `(x, y, z)` of a chunk, which side, and its material.
pub struct FaceModel {
    pub x: int,
    pub y: int,
    pub z: int,
    pub face: BlockFace,
    pub block: BlockType,
}

/// The corners of a face of the unit cube, in emission order, as 0/1 offsets.
/// The order winds clockwise seen from outside the block.
pub open spec fn corner_offset(face: BlockFace, i: int) -> (int, int, int) {
    match face {
        BlockFace::Top => if i == 0 { (0, 1, 0) } else if i == 1 { (0, 1, 1) } else if i == 2 { (1, 1, 1) } else { (1, 1, 0) },
        BlockFace::Bottom => if i == 0 { (0, 0, 1) } else if i == 1 { (0, 0, 0) } else if i == 2 { (1, 0, 0) } else { (1, 0, 1) },
        BlockFace::Left => if i == 0 { (0, 1, 1) } else if i == 1 { (0, 1, 0) } else if i == 2 { (0, 0, 0) } else { (0, 0, 1) },
        BlockFace::Right => if i == 0 { (1, 1, 0) } else if i == 1 { (1, 1, 1) } else if i == 2 { (1, 0, 1) } else { (1, 0, 0) },
        BlockFace::Front => if i == 0 { (1, 1, 1) } else if i == 1 { (0, 1, 1) } else if i == 2 { (0, 0, 1) } else { (1, 0, 1) },
        BlockFace::Back => if i == 0 { (0, 1, 0) } else if i == 1 { (1, 1, 0) } else if i == 2 { (1, 0, 0) } else { (0, 0, 0) },
    }
}

/// The height of a face's upper edge above the block's base, in tenths: the top
/// of a liquid is recessed by one tenth.
pub open spec fn rise(face: BlockFace, block: BlockType) -> int {
    if face == BlockFace::Top && is_liquid(block) {
        9
    } else {
        10
    }
}

/// Corner `i` of a face of the block at local `(x, y, z)` of `chunk`, in world tenths.
pub open spec fn face_corner(chunk: IVec2XZ, f: FaceModel, i: int) -> Vertex {
    let o = corner_offset(f.face, i);
    Vertex {
        x: (10 * (chunk.x * CHUNK_SIZE + f.x) + 10 * o.0) as i64,
        y: (10 * f.y + rise(f.face, f.block) * o.1) as i64,
        z: (10 * (chunk.z * CHUNK_SIZE + f.z) + 10 * o.2) as i64,
    }
}

pub open spec fn face_normal(face: BlockFace) -> Normal {
    match face {
        BlockFace::Top => Normal { x: 0, y: 1, z: 0 },
        BlockFace::Bottom => Normal { x: 0, y: -1i32, z: 0 },
        BlockFace::Left => Normal { x: -1i32, y: 0, z: 0 },
        BlockFace::Right => Normal { x: 1, y: 0, z: 0 },
        BlockFace::Front => Normal { x: 0, y: 0, z: 1 },
        BlockFace::Back => Normal { x: 0, y: 0, z: -1i32 },
    }
}

/// Corner `i` of a sub-rectangle, in the order that matches the face's vertices.
pub open spec fn rect_corner(r: AtlasRect, i: int) -> Uv {
    if i == 0 {
        Uv { u: r.min_x, v: r.min_y }
    } else if i == 1 {
        Uv { u: r.max_x, v: r.min_y }
    } else if i == 2 {
        Uv { u: r.max_x, v: r.max_y }
    } else {
        Uv { u: r.min_x, v: r.max_y }
    }
}

/// The two triangles of a quad, `0, 1, 2` and `0, 2, 3`, relative to its first vertex.
pub open spec fn quad_index(j: int) -> int {
    if j == 0 {
        0
    } else if j == 1 {
        1
    } else if j == 2 {
        2
    } else if j == 3 {
        0
    } else if j == 4 {
        2
    } else {
        3
    }
}

impl MeshBuffer {
    /// The three vertex attributes are parallel and the indices come in whole faces.
    pub open spec fn wf(&self) -> bool {
        &&& self.positions@.len() == self.normals@.len()
        &&& self.positions@.len() == self.uvs@.len()
        &&& self.indices@.len() % 6 == 0
    }

    /// The buffer is exactly the faces `faces` of `chunk`, in order, textured from `atlas`.
    pub open spec fn holds(&self, chunk: IVec2XZ, faces: Seq<FaceModel>, atlas: GameTextureAtlas) -> bool {
        let n = faces.len();
        &&& self.positions@.len() == 4 * n
        &&& self.normals@.len() == 4 * n
        &&& self.uvs@.len() == 4 * n
        &&& self.indices@.len() == 6 * n
        &&& forall|k: int| 0 <= k < 4 * n ==> #[trigger] self.positions@[k] == face_corner(chunk, faces[k / 4], k % 4)
        &&& forall|k: int| 0 <= k < 4 * n ==> #[trigger] self.normals@[k] == face_normal(faces[k / 4].face)
        &&& forall|k: int| 0 <= k < 4 * n ==> #[trigger] self.uvs@[k] == rect_corner(atlas.rect_for(faces[k / 4].block, faces[k / 4].face), k % 4)
        &&& forall|k: int| 0 <= k < 6 * n ==> #[trigger] self.indices@[k] == 4 * (k / 6) + quad_index(k % 6)
    }

    pub fn new() -> (r: MeshBuffer)
        ensures
            r.positions@.len() == 0,
            r.normals@.len() == 0,
            r.uvs@.len() == 0,
            r.indices@.len() == 0,
    {
        MeshBuffer { positions: Vec::new(), normals: Vec::new(), uvs: Vec::new(), indices: Vec::new() }
    }

    /// Number of vertices.
    pub fn vertex_count(&self) -> (r: usize)
        ensures
            r == self.positions@.len(),
    {
        self.positions.len()
    }
}

/// A buffer that holds whole faces has parallel attributes, indices in
/// multiples of six, and one normal shared by the four vertices of each face.
pub proof fn lemma_holds_wf(buf: MeshBuffer, chunk: IVec2XZ, faces: Seq<FaceModel>, atlas: GameTextureAtlas)
    requires
        buf.holds(chunk, faces, atlas),
    ensures
        buf.wf(),
        buf.positions@.len() == 4 * faces.len(),
        buf.indices@.len() == 6 * faces.len(),
        forall|f: int, i: int| 0 <= f < faces.len() && 0 <= i < 4 ==> #[trigger] buf.normals@[4 * f + i] == buf.normals@[4 * f],
{
    assert forall|f: int, i: int| 0 <= f < faces.len() && 0 <= i < 4 implies #[trigger] buf.normals@[4 * f + i] == buf.normals@[4 * f] by {
        assert((4 * f + i) / 4 == f);
        assert((4 * f) / 4 == f);
    }
}


pub open spec fn face_model(x: int, y: int, z: int, face: BlockFace, block: BlockType) -> FaceModel {
    FaceModel { x, y, z, face, block }
}

/// The four vertices of one face.
pub open spec fn face_corners(chunk: IVec2XZ, f: FaceModel) -> Seq<Vertex> {
    Seq::new(4, |i: int| face_corner(chunk, f, i))
}

/// The four texture coordinates of one face.
pub open spec fn face_uvs(atlas: GameTextureAtlas, f: FaceModel) -> Seq<Uv> {
    Seq::new(4, |i: int| rect_corner(atlas.rect_for(f.block, f.face), i))
}

/// The six indices of a face whose first vertex is `first`.
pub open spec fn face_indices(first: int) -> Seq<u32> {
    Seq::new(6, |j: int| (first + quad_index(j)) as u32)
}

/// Corner `i` of a face of the unit cube, as 0/1 offsets.
fn corner_offset_of(face: BlockFace, i: usize) -> (r: (i64, i64, i64))
    requires
        i < 4,
    ensures
        (r.0 as int, r.1 as int, r.2 as int) == corner_offset(face, i as int),
{
    match face {
        BlockFace::Top => if i == 0 { (0, 1, 0) } else if i == 1 { (0, 1, 1) } else if i == 2 { (1, 1, 1) } else { (1, 1, 0) },
        BlockFace::Bottom => if i == 0 { (0, 0, 1) } else if i == 1 { (0, 0, 0) } else if i == 2 { (1, 0, 0) } else { (1, 0, 1) },
        BlockFace::Left => if i == 0 { (0, 1, 1) } else if i == 1 { (0, 1, 0) } else if i == 2 { (0, 0, 0) } else { (0, 0, 1) },
        BlockFace::Right => if i == 0 { (1, 1, 0) } else if i == 1 { (1, 1, 1) } else if i == 2 { (1, 0, 1) } else { (1, 0, 0) },
        BlockFace::Front => if i == 0 { (1, 1, 1) } else if i == 1 { (0, 1, 1) } else if i == 2 { (0, 0, 1) } else { (1, 0, 1) },
        BlockFace::Back => if i == 0 { (0, 1, 0) } else if i == 1 { (1, 1, 0) } else if i == 2 { (1, 0, 0) } else { (0, 0, 0) },
    }
}

fn normal_of(face: BlockFace) -> (r: Normal)
    ensures
        r == face_normal(face),
{
    match face {
        BlockFace::Top => Normal { x: 0, y: 1, z: 0 },
        BlockFace::Bottom => Normal { x: 0, y: -1, z: 0 },
        BlockFace::Left => Normal { x: -1, y: 0, z: 0 },
        BlockFace::Right => Normal { x: 1, y: 0, z: 0 },
        BlockFace::Front => Normal { x: 0, y: 0, z: 1 },
        BlockFace::Back => Normal { x: 0, y: 0, z: -1 },
    }
}

fn uv_corner(r: AtlasRect, i: usize) -> (uv: Uv)
    requires
        i < 4,
    ensures
        uv == rect_corner(r, i as int),
{
    if i == 0 {
        Uv { u: r.min_x, v: r.min_y }
    } else if i == 1 {
        Uv { u: r.max_x, v: r.min_y }
    } else if i == 2 {
        Uv { u: r.max_x, v: r.max_y }
    } else {
        Uv { u: r.min_x, v: r.max_y }
    }
}

/// Appends one face of the block at local `(x, y, z)` of `chunk` to `mesh`: four
/// vertices wound clockwise, their shared normal, the atlas corners of the
/// block's texture, and the two triangles over them.
pub fn create_face(
    mesh: &mut MeshBuffer,
    chunk: IVec2XZ,
    x: i32,
    y: i32,
    z: i32,
    direction: BlockFace,
    block: BlockType,
    atlas: &GameTextureAtlas,
)
    requires
        atlas.wf(),
        0 <= x < CHUNK_SIZE,
        0 <= y < CHUNK_HEIGHT,
        0 <= z < CHUNK_SIZE,
        old(mesh).positions@.len() + 4 <= u32::MAX,
    ensures
        final(mesh).positions@ == old(mesh).positions@ + face_corners(chunk, face_model(x as int, y as int, z as int, direction, block)),
        final(mesh).normals@ == old(mesh).normals@ + Seq::new(4, |i: int| face_normal(direction)),
        final(mesh).uvs@ == old(mesh).uvs@ + face_uvs(*atlas, face_model(x as int, y as int, z as int, direction, block)),
        final(mesh).indices@ == old(mesh).indices@ + face_indices(old(mesh).positions@.len() as int),
{
    let ghost f = face_model(x as int, y as int, z as int, direction, block);
    let first = mesh.positions.len() as u32;
    let base_x: i64 = 10 * (chunk.x as i64 * CHUNK_SIZE as i64 + x as i64);
    let base_y: i64 = 10 * y as i64;
    let base_z: i64 = 10 * (chunk.z as i64 * CHUNK_SIZE as i64 + z as i64);
    let top: i64 = if direction == BlockFace::Top && (block == BlockType::Water || block == BlockType::Lava) {
        9
    } else {
        10
    };
    let normal = normal_of(direction);
    let rect = atlas.rect(block, direction);
    let mut i: usize = 0;
    while i < 4
        invariant
            i <= 4,
            top == rise(direction, block),
            normal == face_normal(direction),
            rect == atlas.rect_for(block, direction),
            base_x == 10 * (chunk.x * CHUNK_SIZE + x),
            base_y == 10 * y,
            base_z == 10 * (chunk.z * CHUNK_SIZE + z),
            f == face_model(x as int, y as int, z as int, direction, block),
            mesh.positions@ == old(mesh).positions@ + face_corners(chunk, f).take(i as int),
            mesh.normals@ == old(mesh).normals@ + Seq::new(4, |k: int| face_normal(direction)).take(i as int),
            mesh.uvs@ == old(mesh).uvs@ + face_uvs(*atlas, f).take(i as int),
            mesh.indices@ == old(mesh).indices@,
        decreases 4 - i,
    {
        let o = corner_offset_of(direction, i);
        let v = Vertex { x: base_x + 10 * o.0, y: base_y + top * o.1, z: base_z + 10 * o.2 };
        assert(v == face_corner(chunk, f, i as int));
        mesh.positions.push(v);
        mesh.normals.push(normal);
        mesh.uvs.push(uv_corner(rect, i));
        proof {
            assert(face_corners(chunk, f).take(i as int + 1) == face_corners(chunk, f).take(i as int).push(v));
            assert(Seq::new(4, |k: int| face_normal(direction)).take(i as int + 1)
                == Seq::new(4, |k: int| face_normal(direction)).take(i as int).push(normal));
            assert(face_uvs(*atlas, f).take(i as int + 1) == face_uvs(*atlas, f).take(i as int).push(rect_corner(rect, i as int)));
        }
        i = i + 1;
    }
    proof {
        assert(face_corners(chunk, f).take(4) == face_corners(chunk, f));
        assert(Seq::new(4, |k: int| face_normal(direction)).take(4) == Seq::new(4, |k: int| face_normal(direction)));
        assert(face_uvs(*atlas, f).take(4) == face_uvs(*atlas, f));
    }
    mesh.indices.push(first);
    mesh.indices.push(first + 1);
    mesh.indices.push(first + 2);
    mesh.indices.push(first);
    mesh.indices.push(first + 2);
    mesh.indices.push(first + 3);
    assert(mesh.indices@ == old(mesh).indices@ + face_indices(old(mesh).positions@.len() as int));
}


/// The collision geometry of a mesh: its vertex positions, and its indices
/// grouped into triangles.
pub fn get_verts_indices(mesh: &MeshBuffer) -> (r: (Vec<Vertex>, Vec<(u32, u32, u32)>))
    requires
        mesh.indices@.len() % 3 == 0,
    ensures
        r.0@ == mesh.positions@,
        r.1@.len() == mesh.indices@.len() / 3,
        forall|t: int| 0 <= t < r.1@.len() ==> #[trigger] r.1@[t] == (
            mesh.indices@[3 * t],
            mesh.indices@[3 * t + 1],
            mesh.indices@[3 * t + 2],
        ),
{
    let mut vertices: Vec<Vertex> = Vec::new();
    let mut i: usize = 0;
    while i < mesh.positions.len()
        invariant
            i <= mesh.positions@.len(),
            vertices@ == mesh.positions@.take(i as int),
        decreases mesh.positions@.len() - i,
    {
        vertices.push(mesh.positions[i]);
        assert(mesh.positions@.take(i as int + 1) == mesh.positions@.take(i as int).push(mesh.positions@[i as int]));
        i = i + 1;
    }
    assert(mesh.positions@.take(mesh.positions@.len() as int) == mesh.positions@);
    let mut triangles: Vec<(u32, u32, u32)> = Vec::new();
    let len = mesh.indices.len();
    let n = len / 3;
    let mut t: usize = 0;
    while t < n
        invariant
            n == mesh.indices@.len() / 3,
            mesh.indices@.len() % 3 == 0,
            t <= n,
            n * 3 == mesh.indices@.len(),
            len == mesh.indices@.len(),
            triangles@.len() == t,
            forall|u: int| 0 <= u < t ==> #[trigger] triangles@[u] == (
                mesh.indices@[3 * u],
                mesh.indices@[3 * u + 1],
                mesh.indices@[3 * u + 2],
            ),
        decreases n - t,
    {
        assert(3 * t + 2 < mesh.indices@.len());
        let b = 3 * t;
        let tri = (mesh.indices[b], mesh.indices[b + 1], mesh.indices[b + 2]);
        triangles.push(tri);
        t = t + 1;
    }
    (vertices, triangles)
}

} // verus!
