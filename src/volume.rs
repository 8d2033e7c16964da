use vstd::prelude::*;
use vstd::arithmetic::div_mod::lemma_fundamental_div_mod_converse;

use crate::block::BlockType;
use crate::coords::{BlockPos, IVec2XZ, CHUNK_HEIGHT, CHUNK_SIZE};
use crate::terrain::{classify, classify_spec, NoiseSample};

verus! {

/// Width of a chunk's volume with its one-block halo on each side.
pub const PADDED: usize = CHUNK_SIZE + 2;

/// Number of cells in a chunk's volume with its halo.
pub const VOLUME_CELLS: usize = PADDED * CHUNK_HEIGHT * PADDED;

/// Local coordinates `(x, y, z)` lie in a chunk's volume or in its halo:
/// `x` and `z` in `[-1, CHUNK_SIZE]`, `y` in `[0, CHUNK_HEIGHT)`.
pub open spec fn in_volume(x: int, y: int, z: int) -> bool {
    -1 <= x <= CHUNK_SIZE && 0 <= y < CHUNK_HEIGHT && -1 <= z <= CHUNK_SIZE
}

/// Local coordinates lie in the chunk itself.
pub open spec fn in_chunk(x: int, y: int, z: int) -> bool {
    0 <= x < CHUNK_SIZE && 0 <= y < CHUNK_HEIGHT && 0 <= z < CHUNK_SIZE
}

/// The cell that holds local `(x, y, z)`.
pub open spec fn cell_index(x: int, y: int, z: int) -> int {
    ((x + 1) * CHUNK_HEIGHT + y) * PADDED + (z + 1)
}

pub open spec fn cell_x(i: int) -> int {
    i / (CHUNK_HEIGHT * PADDED) as int - 1
}

pub open spec fn cell_y(i: int) -> int {
    (i / PADDED as int) % CHUNK_HEIGHT as int
}

pub open spec fn cell_z(i: int) -> int {
    i % PADDED as int - 1
}

/// The block at local `(x, y, z)` of a volume whose cells are `cells`.
pub open spec fn cell_block(cells: Seq<BlockType>, x: int, y: int, z: int) -> BlockType {
    cells[cell_index(x, y, z)]
}

/// The cells of the volume of `chunk` as the classifier fills them, given the
/// noise sampled for each cell.
pub open spec fn terrain_cells(chunk: IVec2XZ, samples: Seq<NoiseSample>) -> Seq<BlockType> {
    Seq::new(
        VOLUME_CELLS as nat,
        |i: int| classify_spec(world_of(chunk, cell_x(i), cell_y(i), cell_z(i)), samples[i]),
    )
}

/// The world block at local `(x, y, z)` of `chunk`.
pub open spec fn world_of(chunk: IVec2XZ, x: int, y: int, z: int) -> BlockPos {
    BlockPos {
        x: (chunk.x * CHUNK_SIZE + x) as i32,
        y: y as i32,
        z: (chunk.z * CHUNK_SIZE + z) as i32,
    }
}

/// The world coordinates of every block of `chunk` and its halo fit in `i32`.
pub open spec fn chunk_in_range(chunk: IVec2XZ) -> bool {
    i32::MIN <= chunk.x * CHUNK_SIZE - 1 && chunk.x * CHUNK_SIZE + CHUNK_SIZE <= i32::MAX
        && i32::MIN <= chunk.z * CHUNK_SIZE - 1 && chunk.z * CHUNK_SIZE + CHUNK_SIZE <= i32::MAX
}

/// The cell index of local coordinates, and the coordinates back from the index.
pub proof fn lemma_cell_index(x: int, y: int, z: int)
    requires
        in_volume(x, y, z),
    ensures
        0 <= cell_index(x, y, z) < VOLUME_CELLS,
        cell_x(cell_index(x, y, z)) == x,
        cell_y(cell_index(x, y, z)) == y,
        cell_z(cell_index(x, y, z)) == z,
{
    let i = cell_index(x, y, z);
    let p = PADDED as int;
    let h = CHUNK_HEIGHT as int;
    lemma_fundamental_div_mod_converse(i, p, (x + 1) * h + y, z + 1);
    lemma_fundamental_div_mod_converse((x + 1) * h + y, h, x + 1, y);
    assert(i == (x + 1) * (h * p) + (y * p + z + 1)) by (nonlinear_arith)
        requires
            i == ((x + 1) * h + y) * p + (z + 1),
    ;
    assert(0 <= y * p + z + 1 < h * p) by (nonlinear_arith)
        requires
            0 <= y < h,
            -1 <= z <= p - 2,
            p == 18,
            h == 256,
    ;
    lemma_fundamental_div_mod_converse(i, h * p, x + 1, y * p + z + 1);
}

/// Every cell index names coordinates in the volume, and the index of those is the cell.
pub proof fn lemma_cell_coords(i: int)
    requires
        0 <= i < VOLUME_CELLS,
    ensures
        in_volume(cell_x(i), cell_y(i), cell_z(i)),
        cell_index(cell_x(i), cell_y(i), cell_z(i)) == i,
{
    let p = PADDED as int;
    let h = CHUNK_HEIGHT as int;
    let a = i / p;
    assert(i == a * p + i % p);
    assert(a == (a / h) * h + a % h);
    assert(i / (h * p) == a / h) by {
        vstd::arithmetic::div_mod::lemma_div_denominator(i, p, h);
    }
    assert(0 <= a / h < p) by (nonlinear_arith)
        requires
            0 <= i < p * h * p,
            a == i / p,
            p == 18,
            h == 256,
    ;
}

/// The cell that holds local `(x, y, z)`.
fn index_of(x: i32, y: i32, z: i32) -> (r: usize)
    requires
        in_volume(x as int, y as int, z as int),
    ensures
        r == cell_index(x as int, y as int, z as int),
        r < VOLUME_CELLS,
{
    proof {
        lemma_cell_index(x as int, y as int, z as int);
    }
    let xs = (x + 1) as usize;
    let zs = (z + 1) as usize;
    (xs * CHUNK_HEIGHT + y as usize) * PADDED + zs
}

/// The blocks of a chunk and of the one-block halo around it, as the mesher reads them.
#[derive(Debug, Clone)]
pub struct ChunkVolume {
    pub chunk: IVec2XZ,
    pub blocks: Vec<BlockType>,
}

impl ChunkVolume {
    pub open spec fn wf(&self) -> bool {
        self.blocks@.len() == VOLUME_CELLS
    }

    /// The block at local `(x, y, z)`.
    pub open spec fn block_at(&self, x: int, y: int, z: int) -> BlockType {
        cell_block(self.blocks@, x, y, z)
    }

    /// A volume in which every block is empty.
    pub fn new_empty(chunk: IVec2XZ) -> (r: ChunkVolume)
        ensures
            r.wf(),
            r.chunk == chunk,
            forall|x: int, y: int, z: int| in_volume(x, y, z) ==> #[trigger] r.block_at(x, y, z) == BlockType::Air,
    {
        let mut blocks: Vec<BlockType> = Vec::new();
        let mut i: usize = 0;
        while i < VOLUME_CELLS
            invariant
                i <= VOLUME_CELLS,
                blocks@.len() == i,
                forall|j: int| 0 <= j < i ==> blocks@[j] == BlockType::Air,
            decreases VOLUME_CELLS - i,
        {
            blocks.push(BlockType::Air);
            i = i + 1;
        }
        let r = ChunkVolume { chunk, blocks };
        assert forall|x: int, y: int, z: int| in_volume(x, y, z) implies #[trigger] r.block_at(x, y, z) == BlockType::Air by {
            lemma_cell_index(x, y, z);
        }
        r
    }

    /// The block at local `(x, y, z)`.
    pub fn get(&self, x: i32, y: i32, z: i32) -> (r: BlockType)
        requires
            self.wf(),
            in_volume(x as int, y as int, z as int),
        ensures
            r == self.block_at(x as int, y as int, z as int),
    {
        proof {
            lemma_cell_index(x as int, y as int, z as int);
        }
        let i = index_of(x, y, z);
        self.blocks[i]
    }

    /// Sets the block at local `(x, y, z)`, leaving every other block as it was.
    pub fn set(&mut self, x: i32, y: i32, z: i32, block: BlockType)
        requires
            old(self).wf(),
            in_volume(x as int, y as int, z as int),
        ensures
            final(self).wf(),
            final(self).chunk == old(self).chunk,
            final(self).block_at(x as int, y as int, z as int) == block,
            forall|a: int, b: int, c: int| in_volume(a, b, c) && (a, b, c) != (x as int, y as int, z as int)
                ==> #[trigger] final(self).block_at(a, b, c) == old(self).block_at(a, b, c),
    {
        proof {
            lemma_cell_index(x as int, y as int, z as int);
        }
        let i = index_of(x, y, z);
        self.blocks.set(i, block);
        proof {
            assert forall|a: int, b: int, c: int| in_volume(a, b, c) && (a, b, c) != (x as int, y as int, z as int)
                implies #[trigger] self.block_at(a, b, c) == old(self).block_at(a, b, c) by {
                lemma_cell_index(a, b, c);
                lemma_cell_index(x as int, y as int, z as int);
            }
        }
    }

    /// The world block that cell `i` of `chunk`'s volume stands for: where the
    /// noise for that cell is to be sampled.
    pub fn cell_position(chunk: IVec2XZ, i: usize) -> (r: BlockPos)
        requires
            i < VOLUME_CELLS,
            chunk_in_range(chunk),
        ensures
            r == world_of(chunk, cell_x(i as int), cell_y(i as int), cell_z(i as int)),
    {
        proof {
            lemma_cell_coords(i as int);
        }
        let x = (i / (CHUNK_HEIGHT * PADDED)) as i32 - 1;
        let y = ((i / PADDED) % CHUNK_HEIGHT) as i32;
        let z = (i % PADDED) as i32 - 1;
        BlockPos::new(chunk.x * CHUNK_SIZE as i32 + x, y, chunk.z * CHUNK_SIZE as i32 + z)
    }

    /// Classifies every block of `chunk` and its halo, with the noise sampled for
    /// each cell: `samples[i]` is the noise at `cell_position(chunk, i)`.
    pub fn generate(chunk: IVec2XZ, samples: &Vec<NoiseSample>) -> (r: ChunkVolume)
        requires
            samples@.len() == VOLUME_CELLS,
            chunk_in_range(chunk),
        ensures
            r.wf(),
            r.chunk == chunk,
            r.blocks@ == terrain_cells(chunk, samples@),
            forall|x: int, y: int, z: int| in_volume(x, y, z) ==> #[trigger] r.block_at(x, y, z)
                == classify_spec(world_of(chunk, x, y, z), samples@[cell_index(x, y, z)]),
    {
        let mut blocks: Vec<BlockType> = Vec::new();
        let mut i: usize = 0;
        while i < VOLUME_CELLS
            invariant
                i <= VOLUME_CELLS,
                samples@.len() == VOLUME_CELLS,
                chunk_in_range(chunk),
                blocks@.len() == i,
                forall|j: int| 0 <= j < i ==> #[trigger] blocks@[j]
                    == classify_spec(world_of(chunk, cell_x(j), cell_y(j), cell_z(j)), samples@[j]),
            decreases VOLUME_CELLS - i,
        {
            let p = ChunkVolume::cell_position(chunk, i);
            blocks.push(classify(p, &samples[i]));
            i = i + 1;
        }
        let r = ChunkVolume { chunk, blocks };
        assert(r.blocks@ =~= terrain_cells(chunk, samples@));
        assert forall|x: int, y: int, z: int| in_volume(x, y, z) implies #[trigger] r.block_at(x, y, z)
            == classify_spec(world_of(chunk, x, y, z), samples@[cell_index(x, y, z)]) by {
            lemma_cell_index(x, y, z);
        }
        r
    }
}

} // verus!
