use std::collections::{BTreeMap, HashSet};

use aravoxel::ao::{ao_value, get_ao, side_ao};
use aravoxel::chunk::Chunk;
use aravoxel::util::{voxel_index, IVec3, CHUNK_AREA, CHUNK_SIZE, CHUNK_VOL};
use aravoxel::voxel::{Uv, Voxel, VoxelType};

fn set_type(chunk: &mut Chunk, x: i32, y: i32, z: i32, t: VoxelType) {
    let i = voxel_index(x, y, z);
    chunk.voxels[i].voxel_type = t;
}

#[test]
fn chunk_constants() {
    assert_eq!(CHUNK_SIZE, 32);
    assert_eq!(CHUNK_AREA, 1024);
    assert_eq!(CHUNK_VOL, 32768);
}

#[test]
fn voxel_index_formula() {
    assert_eq!(voxel_index(0, 0, 0), 0);
    assert_eq!(voxel_index(1, 0, 0), 1);
    assert_eq!(voxel_index(0, 0, 1), 32);
    assert_eq!(voxel_index(0, 1, 0), 1024);
    assert_eq!(voxel_index(1, 2, 3), 1 + 32 * 3 + 1024 * 2);
    assert_eq!(voxel_index(31, 31, 31), 32767);
}

#[test]
fn voxel_index_is_a_bijection() {
    let mut seen = vec![false; 32768];
    for x in 0..32 {
        for y in 0..32 {
            for z in 0..32 {
                let i = voxel_index(x, y, z);
                assert!(i < 32768);
                assert!(!seen[i]);
                seen[i] = true;
                let (dx, dy, dz) = ((i % 32) as i32, (i / 1024) as i32, ((i / 32) % 32) as i32);
                assert_eq!((dx, dy, dz), (x, y, z));
            }
        }
    }
    assert!(seen.iter().all(|s| *s));
}

#[test]
fn voxel_type_classification() {
    assert!(!VoxelType::AIR.is_visible());
    assert!(VoxelType::GRASS.is_visible());
    assert!(VoxelType::STONE.is_visible());
    assert!(VoxelType::WATER.is_visible());

    assert!(VoxelType::WATER.is_liquid());
    assert!(!VoxelType::AIR.is_liquid());
    assert!(!VoxelType::STONE.is_liquid());

    assert!(VoxelType::AIR.should_render());
    assert!(VoxelType::WATER.should_render());
    assert!(!VoxelType::GRASS.should_render());
    assert!(!VoxelType::STONE.should_render());
}

#[test]
fn atlas_coordinates() {
    assert_eq!(VoxelType::GRASS.type_to_uvs(), vec![Uv { u: 0, v: 0 }; 4]);
    assert_eq!(VoxelType::STONE.type_to_uvs(), vec![Uv { u: 1, v: 0 }; 4]);
    assert_eq!(VoxelType::WATER.type_to_uvs(), vec![Uv { u: 2, v: 0 }; 4]);
}

#[test]
fn default_voxel_is_air_at_origin() {
    let v = Voxel::default();
    assert_eq!(v.voxel_type, VoxelType::AIR);
    assert_eq!(v.local_position, IVec3::new(0, 0, 0));
    assert_eq!(v.world_position, IVec3::new(0, 0, 0));
}

#[test]
fn new_chunk_is_air_with_cached_positions() {
    let c = Chunk::new(IVec3::new(1, -2, 3));
    assert_eq!(c.voxels.len(), 32768);
    let i = voxel_index(4, 5, 6);
    assert_eq!(c.voxels[i].voxel_type, VoxelType::AIR);
    assert_eq!(c.voxels[i].local_position, IVec3::new(4, 5, 6));
    assert_eq!(c.voxels[i].world_position, IVec3::new(4 + 32, 5 - 64, 6 + 96));
    assert!(c.voxels.iter().all(|v| v.voxel_type == VoxelType::AIR));
}

#[test]
fn ao_table() {
    assert_eq!(ao_value(true, false, true), 0);
    assert_eq!(ao_value(true, true, true), 0);
    assert_eq!(ao_value(false, false, false), 3);
    assert_eq!(ao_value(true, true, false), 1);
    assert_eq!(ao_value(false, true, true), 1);
    assert_eq!(ao_value(true, false, false), 2);
    assert_eq!(ao_value(false, false, true), 2);
    assert_eq!(ao_value(false, true, false), 2);
}

#[test]
fn side_ao_windows() {
    // Only sample 0 occupied: it is a side of corners 0 and 1.
    let mut n = [false; 8];
    n[0] = true;
    assert_eq!(side_ao(n), [2, 2, 3, 3]);
    // Samples 2, 3 and 4 occupied: corner 3 is fully occluded.
    let n = [false, false, true, true, true, false, false, false];
    assert_eq!(side_ao(n), [2, 3, 2, 0]);
    assert_eq!(side_ao([false; 8]), [3, 3, 3, 3]);
    assert_eq!(side_ao([true; 8]), [0, 0, 0, 0]);
}

#[test]
fn is_void_inside_chunk() {
    let mut c = Chunk::new(IVec3::new(0, 0, 0));
    set_type(&mut c, 5, 5, 5, VoxelType::STONE);
    set_type(&mut c, 6, 5, 5, VoxelType::GRASS);
    set_type(&mut c, 5, 6, 5, VoxelType::WATER);
    set_type(&mut c, 5, 7, 5, VoxelType::WATER);
    let world = BTreeMap::new();
    // Opaque against opaque, both ways.
    assert!(!c.is_void(&VoxelType::STONE, IVec3::new(6, 5, 5), &world));
    assert!(!c.is_void(&VoxelType::GRASS, IVec3::new(5, 5, 5), &world));
    // Solid against water and against air.
    assert!(c.is_void(&VoxelType::STONE, IVec3::new(5, 6, 5), &world));
    assert!(c.is_void(&VoxelType::STONE, IVec3::new(4, 5, 5), &world));
    // Water against water, against air and against stone.
    assert!(!c.is_void(&VoxelType::WATER, IVec3::new(5, 7, 5), &world));
    assert!(c.is_void(&VoxelType::WATER, IVec3::new(5, 8, 5), &world));
    assert!(!c.is_void(&VoxelType::WATER, IVec3::new(5, 5, 5), &world));
}

#[test]
fn is_void_missing_neighbor_is_drawn() {
    let c = Chunk::new(IVec3::new(0, 0, 0));
    let world = BTreeMap::new();
    assert!(c.is_void(&VoxelType::STONE, IVec3::new(32, 0, 0), &world));
    assert!(c.is_void(&VoxelType::STONE, IVec3::new(0, -1, 0), &world));
    assert!(c.is_void(&VoxelType::WATER, IVec3::new(0, 0, 32), &world));
}

#[test]
fn is_void_reads_neighbor_chunk() {
    let a = Chunk::new(IVec3::new(0, 0, 0));
    let mut b = Chunk::new(IVec3::new(1, 0, 0));
    set_type(&mut b, 0, 3, 4, VoxelType::STONE);
    let mut below = Chunk::new(IVec3::new(0, -1, 0));
    set_type(&mut below, 7, 31, 8, VoxelType::WATER);
    let mut world = BTreeMap::new();
    world.insert((1, 0, 0), b);
    world.insert((0, -1, 0), below);
    assert!(!a.is_void(&VoxelType::STONE, IVec3::new(32, 3, 4), &world));
    assert!(a.is_void(&VoxelType::STONE, IVec3::new(32, 3, 5), &world));
    assert!(a.is_void(&VoxelType::STONE, IVec3::new(7, -1, 8), &world));
    assert!(!a.is_void(&VoxelType::WATER, IVec3::new(7, -1, 8), &world));
}

#[test]
fn ao_of_open_face_is_fully_lit() {
    let mut c = Chunk::new(IVec3::new(0, 0, 0));
    set_type(&mut c, 10, 10, 10, VoxelType::STONE);
    let world = BTreeMap::new();
    let up = IVec3::new(0, 1, 0);
    assert_eq!(get_ao(&c, &VoxelType::STONE, IVec3::new(10, 10, 10), up, &world), [3, 3, 3, 3]);
}

#[test]
fn ao_counts_blocks_around_the_face() {
    let mut c = Chunk::new(IVec3::new(0, 0, 0));
    set_type(&mut c, 10, 10, 10, VoxelType::STONE);
    // A wall on the -x side of the layer above, and one corner block.
    set_type(&mut c, 9, 11, 10, VoxelType::STONE);
    set_type(&mut c, 11, 11, 11, VoxelType::STONE);
    let world = BTreeMap::new();
    let up = IVec3::new(0, 1, 0);
    // Ring in (x, z): 0 (0,-1), 1 (-1,-1), 2 (-1,0), 3 (-1,1), 4 (0,1), 5 (1,1), 6 (1,0), 7 (1,-1).
    // Sample 2 and sample 5 occupied.
    assert_eq!(get_ao(&c, &VoxelType::STONE, IVec3::new(10, 10, 10), up, &world), [2, 3, 2, 2]);
    // Same on the top face at the chunk's edge, with the ring partly outside.
    let mut edge = Chunk::new(IVec3::new(0, 0, 0));
    set_type(&mut edge, 0, 31, 0, VoxelType::STONE);
    assert_eq!(get_ao(&edge, &VoxelType::STONE, IVec3::new(0, 31, 0), up, &world), [3, 3, 3, 3]);
}

#[test]
fn ao_sees_neighbor_chunks() {
    let mut c = Chunk::new(IVec3::new(0, 0, 0));
    set_type(&mut c, 31, 5, 5, VoxelType::STONE);
    let mut next = Chunk::new(IVec3::new(1, 0, 0));
    set_type(&mut next, 0, 6, 5, VoxelType::STONE);
    set_type(&mut next, 0, 4, 5, VoxelType::STONE);
    let mut world = BTreeMap::new();
    world.insert((1, 0, 0), next);
    let right = IVec3::new(1, 0, 0);
    // Ring in (y, z): sample 2 is (y - 1) and sample 6 is (y + 1).
    assert_eq!(get_ao(&c, &VoxelType::STONE, IVec3::new(31, 5, 5), right, &world), [2, 2, 2, 2]);
}

#[test]
fn positions_of_ring_do_not_repeat() {
    // Every occupied ring cell alone changes at least one corner level.
    let mut seen = HashSet::new();
    for k in 0..8 {
        let mut n = [false; 8];
        n[k] = true;
        let r = side_ao(n);
        assert_ne!(r, [3, 3, 3, 3]);
        seen.insert(r);
    }
    assert_eq!(seen.len(), 8);
}
