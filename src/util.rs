use vstd::prelude::*;

verus! {

/// Edge length of a chunk, in voxels.
pub const CHUNK_SIZE: i32 = 32;

/// Number of voxels in one horizontal layer of a chunk.
pub const CHUNK_AREA: i32 = CHUNK_SIZE * CHUNK_SIZE;

/// Number of voxels in a chunk.
pub const CHUNK_VOL: i32 = CHUNK_AREA * CHUNK_SIZE;

/// An integer 3-vector: a voxel position, a chunk coordinate or a direction.
#[derive(Clone, Copy, Debug, PartialEq, Eq, Hash, Structural)]
pub struct IVec3 {
    pub x: i32,
    pub y: i32,
    pub z: i32,
}

impl IVec3 {
    pub fn new(x: i32, y: i32, z: i32) -> (r: IVec3)
        ensures
            r == (IVec3 { x, y, z }),
    {
        IVec3 { x, y, z }
    }

    /// The vector as a key of a chunk map.
    pub open spec fn key(self) -> (i32, i32, i32) {
        (self.x, self.y, self.z)
    }
}

/// The coordinate lies in `[0, 32)`.
pub open spec fn in_chunk_range(c: int) -> bool {
    0 <= c < 32
}

/// The local position lies in `[0, 32)^3`.
pub open spec fn in_chunk_bounds(x: int, y: int, z: int) -> bool {
    in_chunk_range(x) && in_chunk_range(y) && in_chunk_range(z)
}

/// Linear index of a local position: `x + 32 z + 1024 y`.
pub open spec fn idx(x: int, y: int, z: int) -> int {
    x + 32 * z + 1024 * y
}

/// The `x` coordinate that a linear index encodes.
pub open spec fn idx_x(i: int) -> int {
    i % 32
}

/// The `y` coordinate that a linear index encodes.
pub open spec fn idx_y(i: int) -> int {
    i / 1024
}

/// The `z` coordinate that a linear index encodes.
pub open spec fn idx_z(i: int) -> int {
    (i / 32) % 32
}

/// Index of a voxel in a chunk's storage.
pub fn voxel_index(x: i32, y: i32, z: i32) -> (r: usize)
    requires
        in_chunk_bounds(x as int, y as int, z as int),
    ensures
        r as int == idx(x as int, y as int, z as int),
{
    (x + CHUNK_SIZE * z + CHUNK_AREA * y) as usize
}

/// `idx` maps `[0, 32)^3` into `[0, 32768)`, and decoding the index gives back
/// the position.
pub proof fn lemma_voxel_index_decodes(x: int, y: int, z: int)
    requires
        in_chunk_bounds(x, y, z),
    ensures
        0 <= idx(x, y, z) < 32768,
        idx_x(idx(x, y, z)) == x,
        idx_y(idx(x, y, z)) == y,
        idx_z(idx(x, y, z)) == z,
{
    let i = idx(x, y, z);
    assert(i == x + 32 * (z + 32 * y)) by (nonlinear_arith)
        requires
            i == x + 32 * z + 1024 * y,
    ;
    assert(0 <= i < 32768) by (nonlinear_arith)
        requires
            i == x + 32 * z + 1024 * y,
            in_chunk_bounds(x, y, z),
    ;
    vstd::arithmetic::div_mod::lemma_fundamental_div_mod_converse(i, 32, z + 32 * y, x);
    vstd::arithmetic::div_mod::lemma_fundamental_div_mod_converse(z + 32 * y, 32, y, z);
    assert(i / 1024 == y) by {
        vstd::arithmetic::div_mod::lemma_div_denominator(i, 32, 32);
    }
}

/// Every index in `[0, 32768)` decodes to a position in `[0, 32)^3` whose
/// index it is: together with `lemma_voxel_index_decodes`, `idx` is a
/// bijection from `[0, 32)^3` onto `[0, 32768)`.
pub proof fn lemma_voxel_index_onto(i: int)
    requires
        0 <= i < 32768,
    ensures
        in_chunk_bounds(idx_x(i), idx_y(i), idx_z(i)),
        idx(idx_x(i), idx_y(i), idx_z(i)) == i,
{
    vstd::arithmetic::div_mod::lemma_fundamental_div_mod(i, 32);
    vstd::arithmetic::div_mod::lemma_fundamental_div_mod(i / 32, 32);
    vstd::arithmetic::div_mod::lemma_div_denominator(i, 32, 32);
    assert(i / 1024 < 32);
    assert(i == idx_x(i) + 32 * idx_z(i) + 1024 * idx_y(i)) by (nonlinear_arith)
        requires
            i == 32 * (i / 32) + i % 32,
            i / 32 == 32 * ((i / 32) / 32) + (i / 32) % 32,
            (i / 32) / 32 == i / 1024,
    ;
}

} // verus!
