use vstd::prelude::*;

use crate::coords::IVec2XZ;
use crate::mesh::{in_footprint, vertex_in_footprint, MeshBuffer, Vertex};

verus! {

/// Chunk `c` lies within `radius` chunks of `viewer` (chessboard distance).
pub open spec fn within(viewer: IVec2XZ, c: IVec2XZ, radius: int) -> bool {
    -radius <= c.x - viewer.x <= radius && -radius <= c.z - viewer.z <= radius
}

/// The chunks that should be loaded around `viewer`.
pub open spec fn target_set(viewer: IVec2XZ, radius: int) -> Set<IVec2XZ> {
    Set::new(|c: IVec2XZ| within(viewer, c, radius))
}

/// The chunks that a tick dispatches: those of the target set not yet loaded.
pub open spec fn dispatched(loaded: Set<IVec2XZ>, viewer: IVec2XZ, radius: int) -> Set<IVec2XZ> {
    target_set(viewer, radius).difference(loaded)
}

/// The chunks that a tick unloads: the loaded ones out of range.
pub open spec fn unloaded(loaded: Set<IVec2XZ>, viewer: IVec2XZ, radius: int) -> Set<IVec2XZ> {
    loaded.difference(target_set(viewer, radius))
}

/// The loaded set after a tick: the missing chunks added, the distant ones removed.
pub open spec fn after_tick(loaded: Set<IVec2XZ>, viewer: IVec2XZ, radius: int) -> Set<IVec2XZ> {
    loaded.union(dispatched(loaded, viewer, radius)).difference(unloaded(loaded, viewer, radius))
}

/// The viewer position and radius keep every chunk coordinate in range within `i32`.
pub open spec fn view_fits(viewer: IVec2XZ, radius: int) -> bool {
    &&& 0 <= radius
    &&& i32::MIN <= viewer.x - radius
    &&& viewer.x + radius <= i32::MAX
    &&& i32::MIN <= viewer.z - radius
    &&& viewer.z + radius <= i32::MAX
}

/// The chunk position of a generated chunk's entity.
#[derive(Debug, Copy, Clone, PartialEq, Eq, Structural)]
pub struct ChunkMesh {
    pub position: IVec2XZ,
}

/// Whether the world is being streamed around the viewer.
#[derive(Debug, Copy, Clone, PartialEq, Eq, Structural)]
pub struct Generating(pub bool);

/// Whether the border of the viewer's chunk is hidden.
#[derive(Debug, Copy, Clone, PartialEq, Eq, Structural)]
pub struct ChunkBorderToggled(pub bool);

/// The loaded-chunk set: every chunk that currently exists in the world, from
/// the moment its generation is dispatched until it is unloaded.
#[derive(Debug, Clone)]
pub struct ChunksLoaded {
    pub chunks: Vec<IVec2XZ>,
}

/// What a tick asks of the world: chunks whose generation to dispatch, and
/// chunks to tear down.
#[derive(Debug, Clone)]
pub struct ChunkChanges {
    pub load: Vec<IVec2XZ>,
    pub unload: Vec<IVec2XZ>,
}

/// What to do with a finished generation task.
#[derive(Debug, Copy, Clone, PartialEq, Eq, Structural)]
pub enum TaskOutcome {
    /// Attach the mesh and its collision geometry to the chunk's entity.
    Attach,
    /// The chunk has no geometry: tear the entity down; the chunk stays loaded.
    Empty,
    /// The result is stale: discard it and tear the entity down.
    Discard,
}

pub open spec fn seq_set(s: Seq<IVec2XZ>) -> Set<IVec2XZ> {
    Set::new(|c: IVec2XZ| s.contains(c))
}

impl ChunksLoaded {
    /// No chunk is listed twice.
    pub open spec fn wf(&self) -> bool {
        self.chunks@.no_duplicates()
    }

    /// The loaded chunks, as a set.
    pub open spec fn loaded(&self) -> Set<IVec2XZ> {
        seq_set(self.chunks@)
    }

    /// An empty set.
    pub fn new() -> (r: ChunksLoaded)
        ensures
            r.wf(),
            r.loaded() == Set::<IVec2XZ>::empty(),
    {
        let r = ChunksLoaded { chunks: Vec::new() };
        assert(r.loaded() =~= Set::<IVec2XZ>::empty());
        r
    }

    /// Whether chunk `c` is loaded.
    pub fn contains(&self, c: IVec2XZ) -> (r: bool)
        ensures
            r == self.loaded().contains(c),
    {
        let mut i: usize = 0;
        while i < self.chunks.len()
            invariant
                i <= self.chunks@.len(),
                forall|j: int| 0 <= j < i ==> self.chunks@[j] != c,
            decreases self.chunks@.len() - i,
        {
            if self.chunks[i] == c {
                return true;
            }
            i = i + 1;
        }
        false
    }

    /// Vertex `v` lies in the closed footprint of some loaded chunk.
    pub open spec fn covers_vertex(&self, v: Vertex) -> bool {
        exists|c: IVec2XZ| #[trigger] self.loaded().contains(c) && in_footprint(c, v)
    }

    /// Every vertex of `mesh` lies in the closed footprint of some loaded chunk.
    pub open spec fn covers_mesh(&self, mesh: MeshBuffer) -> bool {
        forall|k: int| 0 <= k < mesh.positions@.len() ==> self.covers_vertex(#[trigger] mesh.positions@[k])
    }

    fn contains_vertex(&self, v: Vertex) -> (r: bool)
        ensures
            r == self.covers_vertex(v),
    {
        let mut i: usize = 0;
        while i < self.chunks.len()
            invariant
                i <= self.chunks@.len(),
                forall|j: int| 0 <= j < i ==> !in_footprint(#[trigger] self.chunks@[j], v),
            decreases self.chunks@.len() - i,
        {
            let c = self.chunks[i];
            if vertex_in_footprint(c, v) {
                assert(self.chunks@[i as int] == c);
                assert(self.loaded().contains(c));
                return true;
            }
            i = i + 1;
        }
        assert forall|c: IVec2XZ| #[trigger] self.loaded().contains(c) implies !in_footprint(c, v) by {
            let j = choose|j: int| 0 <= j < self.chunks@.len() && self.chunks@[j] == c;
        }
        false
    }

    /// Whether every vertex of `mesh` lies in the footprint of a loaded chunk;
    /// vertices in the footprint of `position`, itself loaded, are settled at once.
    fn covers_all(&self, position: IVec2XZ, mesh: &MeshBuffer) -> (r: bool)
        requires
            self.loaded().contains(position),
        ensures
            r == self.covers_mesh(*mesh),
    {
        let mut k: usize = 0;
        while k < mesh.positions.len()
            invariant
                k <= mesh.positions@.len(),
                self.loaded().contains(position),
                forall|j: int| 0 <= j < k ==> self.covers_vertex(#[trigger] mesh.positions@[j]),
            decreases mesh.positions@.len() - k,
        {
            let v = mesh.positions[k];
            if !vertex_in_footprint(position, v) {
                if !self.contains_vertex(v) {
                    return false;
                }
            } else {
                assert(self.loaded().contains(position) && in_footprint(position, v));
            }
            k = k + 1;
        }
        true
    }
}


impl ChunksLoaded {
    /// One streaming tick with the viewer in chunk `viewer`: every chunk within
    /// `radius` that is not loaded is added to the set at once and listed for
    /// dispatch; every loaded chunk beyond `radius` is removed and listed for
    /// teardown. Afterwards the set is exactly the target set.
    pub fn update(&mut self, viewer: IVec2XZ, radius: i32) -> (r: ChunkChanges)
        requires
            old(self).wf(),
            view_fits(viewer, radius as int),
        ensures
            final(self).wf(),
            final(self).loaded() == after_tick(old(self).loaded(), viewer, radius as int),
            final(self).loaded() == target_set(viewer, radius as int),
            r.load@.no_duplicates(),
            seq_set(r.load@) == dispatched(old(self).loaded(), viewer, radius as int),
            r.unload@.no_duplicates(),
            seq_set(r.unload@) == unloaded(old(self).loaded(), viewer, radius as int),
    {
        let ghost old_set = self.loaded();
        let ghost rad = radius as int;
        // Chunks to load, found by walking the square around the viewer.
        let mut load: Vec<IVec2XZ> = Vec::new();
        let lo_x = viewer.x as i64 - radius as i64;
        let hi_x = viewer.x as i64 + radius as i64;
        let lo_z = viewer.z as i64 - radius as i64;
        let hi_z = viewer.z as i64 + radius as i64;
        let mut x: i64 = lo_x;
        while x <= hi_x
            invariant
                lo_x == viewer.x - rad,
                hi_x == viewer.x + rad,
                lo_z == viewer.z - rad,
                hi_z == viewer.z + rad,
                view_fits(viewer, rad),
                lo_x <= x <= hi_x + 1,
                old_set == self.loaded(),
                load@.no_duplicates(),
                forall|j: int| 0 <= j < load@.len() ==> {
                    let e = #[trigger] load@[j];
                    &&& within(viewer, e, rad)
                    &&& !old_set.contains(e)
                    &&& e.x < x
                },
                forall|c: IVec2XZ| #[trigger] within(viewer, c, rad) && c.x < x ==> old_set.contains(c) || load@.contains(c),
            decreases hi_x + 1 - x,
        {
            let mut z: i64 = lo_z;
            while z <= hi_z
                invariant
                    lo_x == viewer.x - rad,
                    hi_x == viewer.x + rad,
                    lo_z == viewer.z - rad,
                    hi_z == viewer.z + rad,
                    view_fits(viewer, rad),
                    lo_x <= x <= hi_x,
                    lo_z <= z <= hi_z + 1,
                    old_set == self.loaded(),
                    load@.no_duplicates(),
                    forall|j: int| 0 <= j < load@.len() ==> {
                        let e = #[trigger] load@[j];
                        &&& within(viewer, e, rad)
                        &&& !old_set.contains(e)
                        &&& (e.x < x || (e.x == x && e.z < z))
                    },
                    forall|c: IVec2XZ| #[trigger] within(viewer, c, rad) && (c.x < x || (c.x == x && c.z < z))
                        ==> old_set.contains(c) || load@.contains(c),
                decreases hi_z + 1 - z,
            {
                let c = IVec2XZ::new(x as i32, z as i32);
                if !self.contains(c) {
                    let ghost before = load@;
                    load.push(c);
                    proof {
                        assert forall|j: int| 0 <= j < load@.len() implies ({
                            let e = #[trigger] load@[j];
                            &&& within(viewer, e, rad)
                            &&& !old_set.contains(e)
                            &&& (e.x < x || (e.x == x && e.z < z + 1))
                        }) by {
                            if j < before.len() {
                                assert(load@[j] == before[j]);
                            }
                        }
                        assert forall|i: int, j: int| 0 <= i < j < load@.len() implies load@[i] != load@[j] by {
                            if j == before.len() {
                                assert(load@[i] == before[i]);
                            } else {
                                assert(load@[i] == before[i] && load@[j] == before[j]);
                            }
                        }
                        assert forall|d: IVec2XZ| #[trigger] within(viewer, d, rad) && (d.x < x || (d.x == x && d.z < z + 1))
                            implies old_set.contains(d) || load@.contains(d) by {
                            if d == c {
                                assert(load@[before.len() as int] == c);
                            } else if before.contains(d) {
                                let j = choose|j: int| 0 <= j < before.len() && before[j] == d;
                                assert(load@[j] == d);
                            }
                        }
                    }
                }
                z = z + 1;
            }
            x = x + 1;
        }
        // Chunks to keep and to unload.
        let mut kept: Vec<IVec2XZ> = Vec::new();
        let mut unload: Vec<IVec2XZ> = Vec::new();
        let mut i: usize = 0;
        while i < self.chunks.len()
            invariant
                rad == radius as int,
                view_fits(viewer, rad),
                old_set == self.loaded(),
                self.wf(),
                i <= self.chunks@.len(),
                kept@.no_duplicates(),
                unload@.no_duplicates(),
                forall|j: int| 0 <= j < kept@.len() ==> exists|k: int| 0 <= k < i && self.chunks@[k] == #[trigger] kept@[j],
                forall|j: int| 0 <= j < unload@.len() ==> exists|k: int| 0 <= k < i && self.chunks@[k] == #[trigger] unload@[j],
                forall|j: int| 0 <= j < kept@.len() ==> within(viewer, #[trigger] kept@[j], rad),
                forall|j: int| 0 <= j < unload@.len() ==> !within(viewer, #[trigger] unload@[j], rad),
                forall|k: int| 0 <= k < i ==> kept@.contains(#[trigger] self.chunks@[k]) || unload@.contains(self.chunks@[k]),
            decreases self.chunks@.len() - i,
        {
            let c = self.chunks[i];
            let dx = c.x as i64 - viewer.x as i64;
            let dz = c.z as i64 - viewer.z as i64;
            let inside = -(radius as i64) <= dx && dx <= radius as i64 && -(radius as i64) <= dz && dz <= radius as i64;
            assert(inside == within(viewer, c, rad));
            proof {
                // c is not yet in either list: it appears once in the loaded list.
                assert forall|j: int| 0 <= j < kept@.len() implies kept@[j] != c by {
                    let k = choose|k: int| 0 <= k < i && self.chunks@[k] == kept@[j];
                }
                assert forall|j: int| 0 <= j < unload@.len() implies unload@[j] != c by {
                    let k = choose|k: int| 0 <= k < i && self.chunks@[k] == unload@[j];
                }
            }
            if inside {
                let ghost before = kept@;
                kept.push(c);
                proof {
                    assert forall|j: int| 0 <= j < kept@.len() implies within(viewer, #[trigger] kept@[j], rad) by {
                        if j < before.len() {
                            assert(kept@[j] == before[j]);
                        }
                    }
                    assert forall|j: int| 0 <= j < kept@.len() implies exists|k: int| 0 <= k < i + 1 && self.chunks@[k] == #[trigger] kept@[j] by {
                        if j < before.len() {
                            assert(kept@[j] == before[j]);
                        } else {
                            assert(self.chunks@[i as int] == kept@[j]);
                        }
                    }
                    assert forall|k: int| 0 <= k < i + 1 implies kept@.contains(#[trigger] self.chunks@[k]) || unload@.contains(self.chunks@[k]) by {
                        if k == i {
                            assert(kept@[before.len() as int] == c);
                        } else if before.contains(self.chunks@[k]) {
                            let j = choose|j: int| 0 <= j < before.len() && before[j] == self.chunks@[k];
                            assert(kept@[j] == self.chunks@[k]);
                        }
                    }
                }
            } else {
                let ghost before = unload@;
                unload.push(c);
                proof {
                    assert forall|j: int| 0 <= j < unload@.len() implies !within(viewer, #[trigger] unload@[j], rad) by {
                        if j < before.len() {
                            assert(unload@[j] == before[j]);
                        }
                    }
                    assert forall|j: int| 0 <= j < unload@.len() implies exists|k: int| 0 <= k < i + 1 && self.chunks@[k] == #[trigger] unload@[j] by {
                        if j < before.len() {
                            assert(unload@[j] == before[j]);
                        } else {
                            assert(self.chunks@[i as int] == unload@[j]);
                        }
                    }
                    assert forall|k: int| 0 <= k < i + 1 implies kept@.contains(#[trigger] self.chunks@[k]) || unload@.contains(self.chunks@[k]) by {
                        if k == i {
                            assert(unload@[before.len() as int] == c);
                        } else if before.contains(self.chunks@[k]) {
                            let j = choose|j: int| 0 <= j < before.len() && before[j] == self.chunks@[k];
                            assert(unload@[j] == self.chunks@[k]);
                        }
                    }
                }
            }
            i = i + 1;
        }
        let ghost kept_seq = kept@;
        let mut j: usize = 0;
        while j < load.len()
            invariant
                j <= load@.len(),
                kept@ == kept_seq + load@.take(j as int),
            decreases load@.len() - j,
        {
            kept.push(load[j]);
            assert(load@.take(j as int + 1) == load@.take(j as int).push(load@[j as int]));
            j = j + 1;
        }
        assert(load@.take(load@.len() as int) == load@);
        proof {
            let target = target_set(viewer, rad);
            // kept_seq: the loaded chunks in range; load: the target chunks not loaded.
            assert forall|a: int, b: int| 0 <= a < b < kept@.len() implies kept@[a] != kept@[b] by {
                if b < kept_seq.len() {
                } else if a < kept_seq.len() {
                    assert(kept@[b] == load@[b - kept_seq.len()]);
                    let k = choose|k: int| 0 <= k < self.chunks@.len() && self.chunks@[k] == #[trigger] kept_seq[a];
                    assert(old_set.contains(kept_seq[a]));
                } else {
                    assert(kept@[a] == load@[a - kept_seq.len()]);
                    assert(kept@[b] == load@[b - kept_seq.len()]);
                }
            }
            assert forall|c: IVec2XZ| seq_set(kept@).contains(c) <==> target.contains(c) by {
                if kept@.contains(c) {
                    let j = choose|j: int| 0 <= j < kept@.len() && kept@[j] == c;
                    if j >= kept_seq.len() {
                        assert(load@[j - kept_seq.len()] == c);
                    }
                }
                if within(viewer, c, rad) {
                    if old_set.contains(c) {
                        let k = choose|k: int| 0 <= k < self.chunks@.len() && self.chunks@[k] == c;
                        if unload@.contains(self.chunks@[k]) {
                            let j = choose|j: int| 0 <= j < unload@.len() && unload@[j] == c;
                        } else {
                            let j = choose|j: int| 0 <= j < kept_seq.len() && kept_seq[j] == c;
                            assert(kept@[j] == c);
                        }
                    } else {
                        assert(c.x <= viewer.x + rad);
                        let j = choose|j: int| 0 <= j < load@.len() && load@[j] == c;
                        assert(kept@[kept_seq.len() + j] == c);
                    }
                }
            }
            assert(seq_set(kept@) =~= target);
            assert forall|c: IVec2XZ| seq_set(load@).contains(c) <==> dispatched(old_set, viewer, rad).contains(c) by {
                if load@.contains(c) {
                    let j = choose|j: int| 0 <= j < load@.len() && load@[j] == c;
                }
                if within(viewer, c, rad) && !old_set.contains(c) {
                    assert(c.x <= viewer.x + rad);
                }
            }
            assert(seq_set(load@) =~= dispatched(old_set, viewer, rad));
            assert forall|c: IVec2XZ| seq_set(unload@).contains(c) <==> unloaded(old_set, viewer, rad).contains(c) by {
                if unload@.contains(c) {
                    let j = choose|j: int| 0 <= j < unload@.len() && unload@[j] == c;
                    let k = choose|k: int| 0 <= k < self.chunks@.len() && self.chunks@[k] == unload@[j];
                }
                if old_set.contains(c) && !within(viewer, c, rad) {
                    let k = choose|k: int| 0 <= k < self.chunks@.len() && self.chunks@[k] == c;
                    if kept_seq.contains(self.chunks@[k]) {
                        let j = choose|j: int| 0 <= j < kept_seq.len() && kept_seq[j] == c;
                    }
                }
            }
            assert(seq_set(unload@) =~= unloaded(old_set, viewer, rad));
            assert(after_tick(old_set, viewer, rad) =~= target);
        }
        self.chunks = kept;
        ChunkChanges { load, unload }
    }
}


/// The streaming tick: when the world is being generated, brings the
/// loaded-chunk set to the target set around `viewer` and says which chunks to
/// dispatch and which to tear down; otherwise changes nothing.
pub fn chunk_system(
    chunks_loaded: &mut ChunksLoaded,
    generating: &Generating,
    viewer: IVec2XZ,
    radius: i32,
) -> (r: ChunkChanges)
    requires
        old(chunks_loaded).wf(),
        view_fits(viewer, radius as int),
    ensures
        final(chunks_loaded).wf(),
        !generating.0 ==> *final(chunks_loaded) == *old(chunks_loaded) && r.load@.len() == 0 && r.unload@.len() == 0,
        generating.0 ==> final(chunks_loaded).loaded() == after_tick(old(chunks_loaded).loaded(), viewer, radius as int),
        generating.0 ==> final(chunks_loaded).loaded() == target_set(viewer, radius as int),
        generating.0 ==> seq_set(r.load@) == dispatched(old(chunks_loaded).loaded(), viewer, radius as int),
        generating.0 ==> seq_set(r.unload@) == unloaded(old(chunks_loaded).loaded(), viewer, radius as int),
        r.load@.no_duplicates(),
        r.unload@.no_duplicates(),
{
    if !generating.0 {
        return ChunkChanges { load: Vec::new(), unload: Vec::new() };
    }
    chunks_loaded.update(viewer, radius)
}

/// Decides what becomes of a finished generation task for the chunk at
/// `position`: a mesh without vertices is torn down (the chunk stays loaded);
/// a result whose chunk is no longer loaded, or with a vertex outside the
/// footprint of every loaded chunk, is stale and discarded; any other is attached.
pub fn handle_mesh_tasks(chunks_loaded: &ChunksLoaded, position: IVec2XZ, mesh: &MeshBuffer) -> (r: TaskOutcome)
    ensures
        mesh.positions@.len() == 0 ==> r == TaskOutcome::Empty,
        mesh.positions@.len() > 0 ==> (r == TaskOutcome::Attach <==> (chunks_loaded.loaded().contains(position)
            && chunks_loaded.covers_mesh(*mesh))),
        mesh.positions@.len() > 0 ==> (r == TaskOutcome::Discard <==> !(chunks_loaded.loaded().contains(position)
            && chunks_loaded.covers_mesh(*mesh))),
{
    if mesh.positions.len() == 0 {
        return TaskOutcome::Empty;
    }
    if !chunks_loaded.contains(position) || !chunks_loaded.covers_all(position, mesh) {
        TaskOutcome::Discard
    } else {
        TaskOutcome::Attach
    }
}

/// A mesh whose vertices all lie in the footprint of its own chunk, while that
/// chunk is loaded, is attached (as every mesh of the mesher is).
pub proof fn lemma_own_mesh_attaches(chunks_loaded: ChunksLoaded, position: IVec2XZ, mesh: MeshBuffer)
    requires
        chunks_loaded.loaded().contains(position),
        forall|k: int| 0 <= k < mesh.positions@.len() ==> in_footprint(position, #[trigger] mesh.positions@[k]),
    ensures
        chunks_loaded.covers_mesh(mesh),
{
    assert forall|k: int| 0 <= k < mesh.positions@.len() implies chunks_loaded.covers_vertex(#[trigger] mesh.positions@[k]) by {
        assert(chunks_loaded.loaded().contains(position) && in_footprint(position, mesh.positions@[k]));
    }
}

/// A chunk whose generation one tick dispatched is in the loaded set from then
/// on, so no later tick dispatches it again while it stays loaded: one chunk
/// never gets two generation tasks, nor two renderable entities.
pub proof fn lemma_dispatch_once(
    loaded: Set<IVec2XZ>,
    viewer: IVec2XZ,
    radius: int,
    next_viewer: IVec2XZ,
    next_radius: int,
    c: IVec2XZ,
)
    requires
        dispatched(loaded, viewer, radius).contains(c),
    ensures
        after_tick(loaded, viewer, radius).contains(c),
        !dispatched(after_tick(loaded, viewer, radius), next_viewer, next_radius).contains(c),
{
}

/// Once the viewer stays in one chunk, a tick leaves the loaded set equal to
/// the target set around it, and every further tick dispatches and unloads
/// nothing; finished tasks never change the set.
pub proof fn lemma_range_convergence(loaded: Set<IVec2XZ>, viewer: IVec2XZ, radius: int)
    ensures
        after_tick(loaded, viewer, radius) == target_set(viewer, radius),
        dispatched(after_tick(loaded, viewer, radius), viewer, radius).is_empty(),
        unloaded(after_tick(loaded, viewer, radius), viewer, radius).is_empty(),
        after_tick(after_tick(loaded, viewer, radius), viewer, radius) == target_set(viewer, radius),
{
    let t = target_set(viewer, radius);
    assert(after_tick(loaded, viewer, radius) =~= t);
    assert(dispatched(t, viewer, radius) =~= Set::empty());
    assert(unloaded(t, viewer, radius) =~= Set::empty());
    assert(after_tick(t, viewer, radius) =~= t);
}

} // verus!
