use vstd::prelude::*;

verus! {

/// Horizontal footprint of a chunk, in blocks along x and along z.
pub const CHUNK_SIZE: usize = 16;

/// Vertical extent of the world, in blocks; a chunk spans all of it.
pub const CHUNK_HEIGHT: usize = 256;

/// A point of the horizontal plane: a chunk coordinate, or an offset between two.
#[derive(Debug, Copy, Clone, Hash, PartialEq, Eq, Structural)]
pub struct IVec2XZ {
    pub x: i32,
    pub z: i32,
}

impl IVec2XZ {
    pub fn new(x: i32, z: i32) -> (r: IVec2XZ)
        ensures
            r.x == x,
            r.z == z,
    {
        IVec2XZ { x, z }
    }

    /// Component-wise sum.
    pub fn add(self, rhs: IVec2XZ) -> (r: IVec2XZ)
        requires
            i32::MIN <= self.x + rhs.x <= i32::MAX,
            i32::MIN <= self.z + rhs.z <= i32::MAX,
        ensures
            r.x == self.x + rhs.x,
            r.z == self.z + rhs.z,
    {
        IVec2XZ::new(self.x + rhs.x, self.z + rhs.z)
    }

    /// Component-wise difference.
    pub fn sub(self, rhs: IVec2XZ) -> (r: IVec2XZ)
        requires
            i32::MIN <= self.x - rhs.x <= i32::MAX,
            i32::MIN <= self.z - rhs.z <= i32::MAX,
        ensures
            r.x == self.x - rhs.x,
            r.z == self.z - rhs.z,
    {
        IVec2XZ::new(self.x - rhs.x, self.z - rhs.z)
    }
}

/// A block of the world, in world coordinates.
#[derive(Debug, Copy, Clone, Hash, PartialEq, Eq, Structural)]
pub struct BlockPos {
    pub x: i32,
    pub y: i32,
    pub z: i32,
}

impl BlockPos {
    pub fn new(x: i32, y: i32, z: i32) -> (r: BlockPos)
        ensures
            r.x == x,
            r.y == y,
            r.z == z,
    {
        BlockPos { x, y, z }
    }
}

/// The chunk coordinate along one axis of a world coordinate along it.
pub open spec fn chunk_axis(w: int) -> int {
    w / (CHUNK_SIZE as int)
}

/// The chunk that holds the column of world blocks at (x, z):
/// `floor(x / CHUNK_SIZE)`, `floor(z / CHUNK_SIZE)`.
pub fn chunk_of_block(x: i32, z: i32) -> (r: IVec2XZ)
    ensures
        r.x == chunk_axis(x as int),
        r.z == chunk_axis(z as int),
{
    let cx = match x.checked_div_euclid(CHUNK_SIZE as i32) {
        Some(q) => q,
        None => 0,
    };
    let cz = match z.checked_div_euclid(CHUNK_SIZE as i32) {
        Some(q) => q,
        None => 0,
    };
    IVec2XZ::new(cx, cz)
}

} // verus!
