use vstd::prelude::*;

use crate::coords::{BlockPos, IVec2XZ, CHUNK_HEIGHT, CHUNK_SIZE};
use crate::streaming::ChunkBorderToggled;

verus! {

/// The box of a chunk lies within `i32` world coordinates.
pub open spec fn border_fits(chunk: IVec2XZ) -> bool {
    i32::MIN <= chunk.x * CHUNK_SIZE && chunk.x * CHUNK_SIZE + CHUNK_SIZE <= i32::MAX
        && i32::MIN <= chunk.z * CHUNK_SIZE && chunk.z * CHUNK_SIZE + CHUNK_SIZE <= i32::MAX
}

/// Corner `i` of the box of a chunk, as 0/1 choices of the low or high side along x, y and z.
pub open spec fn box_corner_sides(i: int) -> (int, int, int) {
    if i == 0 {
        (0, 0, 0)
    } else if i == 1 {
        (1, 0, 0)
    } else if i == 2 {
        (0, 1, 0)
    } else if i == 3 {
        (0, 0, 1)
    } else if i == 4 {
        (1, 1, 0)
    } else if i == 5 {
        (1, 0, 1)
    } else if i == 6 {
        (0, 1, 1)
    } else {
        (1, 1, 1)
    }
}

/// Corner `i` of the box of `chunk`, in world blocks.
pub open spec fn box_corner(chunk: IVec2XZ, i: int) -> BlockPos {
    let s = box_corner_sides(i);
    BlockPos {
        x: (chunk.x * CHUNK_SIZE + s.0 * CHUNK_SIZE) as i32,
        y: (s.1 * CHUNK_HEIGHT) as i32,
        z: (chunk.z * CHUNK_SIZE + s.2 * CHUNK_SIZE) as i32,
    }
}

/// The two corners that edge `k` of the box joins.
pub open spec fn box_edge(k: int) -> (int, int) {
    if k == 0 {
        (0, 1)
    } else if k == 1 {
        (0, 2)
    } else if k == 2 {
        (0, 3)
    } else if k == 3 {
        (1, 4)
    } else if k == 4 {
        (1, 5)
    } else if k == 5 {
        (2, 4)
    } else if k == 6 {
        (2, 6)
    } else if k == 7 {
        (3, 5)
    } else if k == 8 {
        (3, 6)
    } else if k == 9 {
        (4, 7)
    } else if k == 10 {
        (5, 7)
    } else {
        (6, 7)
    }
}

fn corner_sides(i: usize) -> (r: (i32, i32, i32))
    requires
        i < 8,
    ensures
        (r.0 as int, r.1 as int, r.2 as int) == box_corner_sides(i as int),
{
    if i == 0 {
        (0, 0, 0)
    } else if i == 1 {
        (1, 0, 0)
    } else if i == 2 {
        (0, 1, 0)
    } else if i == 3 {
        (0, 0, 1)
    } else if i == 4 {
        (1, 1, 0)
    } else if i == 5 {
        (1, 0, 1)
    } else if i == 6 {
        (0, 1, 1)
    } else {
        (1, 1, 1)
    }
}

fn edge_ends(k: usize) -> (r: (usize, usize))
    requires
        k < 12,
    ensures
        (r.0 as int, r.1 as int) == box_edge(k as int),
        r.0 < 8,
        r.1 < 8,
{
    if k == 0 {
        (0, 1)
    } else if k == 1 {
        (0, 2)
    } else if k == 2 {
        (0, 3)
    } else if k == 3 {
        (1, 4)
    } else if k == 4 {
        (1, 5)
    } else if k == 5 {
        (2, 4)
    } else if k == 6 {
        (2, 6)
    } else if k == 7 {
        (3, 5)
    } else if k == 8 {
        (3, 6)
    } else if k == 9 {
        (4, 7)
    } else if k == 10 {
        (5, 7)
    } else {
        (6, 7)
    }
}

fn corner(chunk: IVec2XZ, i: usize) -> (r: BlockPos)
    requires
        i < 8,
        border_fits(chunk),
    ensures
        r == box_corner(chunk, i as int),
{
    let s = corner_sides(i);
    let x1 = chunk.x * CHUNK_SIZE as i32;
    let z1 = chunk.z * CHUNK_SIZE as i32;
    let y: i32 = if s.1 == 0 {
        0
    } else {
        CHUNK_HEIGHT as i32
    };
    BlockPos::new(x1 + s.0 * CHUNK_SIZE as i32, y, z1 + s.2 * CHUNK_SIZE as i32)
}

/// The twelve edges of the box of the viewer's chunk, from the ground to the
/// top of the world, as pairs of world corners; none while the border is hidden.
pub fn chunk_border(toggled: &ChunkBorderToggled, chunk: IVec2XZ) -> (r: Vec<(BlockPos, BlockPos)>)
    requires
        border_fits(chunk),
    ensures
        toggled.0 ==> r@.len() == 0,
        !toggled.0 ==> r@.len() == 12,
        !toggled.0 ==> forall|k: int| 0 <= k < 12 ==> #[trigger] r@[k] == (
            box_corner(chunk, box_edge(k).0),
            box_corner(chunk, box_edge(k).1),
        ),
{
    let mut lines: Vec<(BlockPos, BlockPos)> = Vec::new();
    if toggled.0 {
        return lines;
    }
    let mut k: usize = 0;
    while k < 12
        invariant
            k <= 12,
            border_fits(chunk),
            lines@.len() == k,
            forall|j: int| 0 <= j < k ==> #[trigger] lines@[j] == (
                box_corner(chunk, box_edge(j).0),
                box_corner(chunk, box_edge(j).1),
            ),
        decreases 12 - k,
    {
        let e = edge_ends(k);
        lines.push((corner(chunk, e.0), corner(chunk, e.1)));
        k = k + 1;
    }
    lines
}

} // verus!
