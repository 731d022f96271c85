use vstd::prelude::*;
use crate::chunk::{Chunk, ChunkMap, chunks_wf};
use crate::util::{IVec3, in_chunk_bounds};
use crate::voxel::VoxelType;

verus! {

/// Occlusion level of one face corner from its two edge neighbours and its
/// corner neighbour: 0 is fully occluded, 3 fully lit.
pub open spec fn ao_level(side1: bool, corner: bool, side2: bool) -> u32 {
    if side1 && side2 {
        0
    } else if corner && (side1 || side2) {
        1
    } else if !side1 && !corner && !side2 {
        3
    } else {
        2
    }
}

/// The four corner levels of a face from its ring of eight occupancy samples,
/// taken from the windows `(0, 1, 2)`, `(6, 7, 0)`, `(4, 5, 6)` and `(2, 3, 4)`.
pub open spec fn side_levels(n: Seq<bool>) -> Seq<u32> {
    seq![
        ao_level(n[0], n[1], n[2]),
        ao_level(n[6], n[7], n[0]),
        ao_level(n[4], n[5], n[6]),
        ao_level(n[2], n[3], n[4]),
    ]
}

/// One of the six unit axis vectors.
pub open spec fn is_axis_unit(p: IVec3) -> bool {
    ||| p == IVec3 { x: 1, y: 0, z: 0 }
    ||| p == IVec3 { x: -1i32, y: 0, z: 0 }
    ||| p == IVec3 { x: 0, y: 1, z: 0 }
    ||| p == IVec3 { x: 0, y: -1i32, z: 0 }
    ||| p == IVec3 { x: 0, y: 0, z: 1 }
    ||| p == IVec3 { x: 0, y: 0, z: -1i32 }
}

/// First in-plane offset of ring sample `k`: the ring runs edge, corner, edge,
/// ... around the centre, starting on the negative side of the second axis.
pub open spec fn ring_a(k: int) -> int {
    if k == 0 || k == 4 {
        0
    } else if 1 <= k <= 3 {
        -1
    } else {
        1
    }
}

/// Second in-plane offset of ring sample `k`.
pub open spec fn ring_b(k: int) -> int {
    if k == 2 || k == 6 {
        0
    } else if 3 <= k <= 5 {
        1
    } else {
        -1
    }
}

/// Position of ring sample `k` around `origin + plane`, in the plane normal
/// to `plane`. For an `x` or `y` normal the offsets run over `(y, z)` and
/// `(x, z)`; for a `z` normal over `(y, x)`.
pub open spec fn ring_position(origin: IVec3, plane: IVec3, k: int) -> IVec3 {
    let a = ring_a(k);
    let b = ring_b(k);
    if plane.x != 0 {
        IVec3 {
            x: (origin.x + plane.x) as i32,
            y: (origin.y + a) as i32,
            z: (origin.z + b) as i32,
        }
    } else if plane.y != 0 {
        IVec3 {
            x: (origin.x + a) as i32,
            y: (origin.y + plane.y) as i32,
            z: (origin.z + b) as i32,
        }
    } else {
        IVec3 {
            x: (origin.x + b) as i32,
            y: (origin.y + a) as i32,
            z: (origin.z + plane.z) as i32,
        }
    }
}

/// Ring sample `k` in front of a face is occupied: no face would be drawn
/// against its position.
#[verifier::opaque]
pub open spec fn ring_occupied(
    chunk: Chunk,
    current: VoxelType,
    origin: IVec3,
    plane: IVec3,
    k: int,
    chunks: Map<(i32, i32, i32), Chunk>,
) -> bool {
    !chunk.spec_is_void(current, ring_position(origin, plane, k), chunks)
}

/// The eight occupancy samples of the ring in front of a face.
pub open spec fn ao_samples(
    chunk: Chunk,
    current: VoxelType,
    origin: IVec3,
    plane: IVec3,
    chunks: Map<(i32, i32, i32), Chunk>,
) -> Seq<bool> {
    Seq::new(8, |k: int| ring_occupied(chunk, current, origin, plane, k, chunks))
}

/// Occlusion level of a face corner.
pub fn ao_value(side1: bool, corner: bool, side2: bool) -> (r: u32)
    ensures
        r == ao_level(side1, corner, side2),
        side1 && side2 ==> r == 0,
        side1 && corner && !side2 ==> r == 1,
        !side1 && corner && side2 ==> r == 1,
        !side1 && !corner && !side2 ==> r == 3,
        !(side1 && side2) && !(corner && side1 != side2) && (side1 || corner || side2) ==> r == 2,
{
    match (side1, corner, side2) {
        (true, _, true) => 0,
        (true, true, false) | (false, true, true) => 1,
        (false, false, false) => 3,
        _ => 2,
    }
}

/// The four corner levels of a face from its ring of samples.
pub fn side_ao(neighbours: [bool; 8]) -> (r: [u32; 4])
    ensures
        r@ == side_levels(neighbours@),
{
    let r = [
        ao_value(neighbours[0], neighbours[1], neighbours[2]),
        ao_value(neighbours[6], neighbours[7], neighbours[0]),
        ao_value(neighbours[4], neighbours[5], neighbours[6]),
        ao_value(neighbours[2], neighbours[3], neighbours[4]),
    ];
    assert(r@ =~= side_levels(neighbours@));
    r
}

/// Offsets of ring sample `k`, as `ring_a` and `ring_b` give them.
fn ring_offset(k: usize) -> (r: (i32, i32))
    requires
        k < 8,
    ensures
        r.0 == ring_a(k as int),
        r.1 == ring_b(k as int),
{
    match k {
        0 => (0, -1),
        1 => (-1, -1),
        2 => (-1, 0),
        3 => (-1, 1),
        4 => (0, 1),
        5 => (1, 1),
        6 => (1, 0),
        _ => (1, -1),
    }
}

/// Ring sample `k` of a face: whether its position is occupied.
fn ring_sample(
    chunk: &Chunk,
    current_voxel_type: &VoxelType,
    origin: IVec3,
    plane: IVec3,
    k: usize,
    world_chunks: &ChunkMap,
) -> (r: bool)
    requires
        chunk.wf(),
        chunks_wf(world_chunks@),
        in_chunk_bounds(origin.x as int, origin.y as int, origin.z as int),
        is_axis_unit(plane),
        k < 8,
    ensures
        r == ring_occupied(*chunk, *current_voxel_type, origin, plane, k as int, world_chunks@),
{
    reveal(ring_occupied);
    let (a, b) = ring_offset(k);
    let pos = if plane.x != 0 {
        IVec3::new(origin.x + plane.x, origin.y + a, origin.z + b)
    } else if plane.y != 0 {
        IVec3::new(origin.x + a, origin.y + plane.y, origin.z + b)
    } else {
        IVec3::new(origin.x + b, origin.y + a, origin.z + plane.z)
    };
    !chunk.is_void(current_voxel_type, pos, world_chunks)
}

/// Ambient occlusion of the face of the voxel at `origin_pos` whose normal is
/// `plane`: the levels of its four corners, from the ring of eight positions
/// around `origin_pos + plane`.
pub fn get_ao(
    chunk: &Chunk,
    current_voxel_type: &VoxelType,
    origin_pos: IVec3,
    plane: IVec3,
    world_chunks: &ChunkMap,
) -> (r: [u32; 4])
    requires
        chunk.wf(),
        chunks_wf(world_chunks@),
        in_chunk_bounds(origin_pos.x as int, origin_pos.y as int, origin_pos.z as int),
        is_axis_unit(plane),
    ensures
        r@ == side_levels(ao_samples(*chunk, *current_voxel_type, origin_pos, plane, world_chunks@)),
{
    let neighbours = [
        ring_sample(chunk, current_voxel_type, origin_pos, plane, 0, world_chunks),
        ring_sample(chunk, current_voxel_type, origin_pos, plane, 1, world_chunks),
        ring_sample(chunk, current_voxel_type, origin_pos, plane, 2, world_chunks),
        ring_sample(chunk, current_voxel_type, origin_pos, plane, 3, world_chunks),
        ring_sample(chunk, current_voxel_type, origin_pos, plane, 4, world_chunks),
        ring_sample(chunk, current_voxel_type, origin_pos, plane, 5, world_chunks),
        ring_sample(chunk, current_voxel_type, origin_pos, plane, 6, world_chunks),
        ring_sample(chunk, current_voxel_type, origin_pos, plane, 7, world_chunks),
    ];
    assert(neighbours@ =~= ao_samples(
        *chunk,
        *current_voxel_type,
        origin_pos,
        plane,
        world_chunks@,
    ));
    side_ao(neighbours)
}

} // verus!
