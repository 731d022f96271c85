use vstd::prelude::*;
use std::collections::BTreeMap;
use crate::chunk::{
    Chunk, ChunkMap, chunk_coord_in_range, chunk_pos_in_range, chunks_wf, local_of, world_of,
};
use crate::util::{CHUNK_VOL, IVec3, idx, idx_x, idx_z, in_chunk_bounds, lemma_voxel_index_onto};
use crate::voxel::VoxelType;

verus! {

/// World height up to which empty space above the terrain fills with water.
pub const SEA_LEVEL: i32 = 20;

/// Number of columns of a chunk, one terrain height each.
pub const CHUNK_COLUMNS: usize = 1024;

/// A control point of the curve that remaps the verticality noise to a
/// terrain amplitude; both coordinates are in thousandths.
#[derive(Clone, Copy, Debug, PartialEq, Eq, Structural)]
pub struct SplineKey {
    pub input: i32,
    pub output: i32,
}

pub open spec fn spline_key(input: int, output: int) -> SplineKey {
    SplineKey { input: input as i32, output: output as i32 }
}

/// The control points of the terrain amplitude curve.
pub open spec fn terrain_spline() -> Seq<SplineKey> {
    seq![
        spline_key(-1000, 300),
        spline_key(-600, 350),
        spline_key(-400, 1000),
        spline_key(-200, 1000),
        spline_key(0, 1300),
        spline_key(100, 1400),
        spline_key(200, 1400),
        spline_key(300, 1400),
        spline_key(400, 1700),
        spline_key(500, 2000),
        spline_key(600, 2100),
        spline_key(700, 3000),
        spline_key(1100, 3000),
    ]
}

/// The terrain amplitude curve's control points, in order of input. The
/// curve never decreases.
pub fn spline_keys() -> (r: Vec<SplineKey>)
    ensures
        r@ == terrain_spline(),
        forall|i: int, j: int| 0 <= i < j < r@.len() ==> r@[i].input < r@[j].input,
        forall|i: int, j: int| 0 <= i < j < r@.len() ==> r@[i].output <= r@[j].output,
{
    let r = vec![
        SplineKey { input: -1000, output: 300 },
        SplineKey { input: -600, output: 350 },
        SplineKey { input: -400, output: 1000 },
        SplineKey { input: -200, output: 1000 },
        SplineKey { input: 0, output: 1300 },
        SplineKey { input: 100, output: 1400 },
        SplineKey { input: 200, output: 1400 },
        SplineKey { input: 300, output: 1400 },
        SplineKey { input: 400, output: 1700 },
        SplineKey { input: 500, output: 2000 },
        SplineKey { input: 600, output: 2100 },
        SplineKey { input: 700, output: 3000 },
        SplineKey { input: 1100, output: 3000 },
    ];
    assert(r@ =~= terrain_spline());
    r
}

/// Kind of the voxel at world height `wy` in a column whose terrain reaches
/// up to, not including, `height`. The water check comes first: empty space
/// up to `sea_level` is water; below the surface lies stone; the rest is air.
pub open spec fn terrain_type(wy: int, height: int, sea_level: int) -> VoxelType {
    if height <= wy && wy <= sea_level {
        VoxelType::WATER
    } else if wy < height {
        VoxelType::STONE
    } else {
        VoxelType::AIR
    }
}

/// Column of the voxel stored at index `i`: `x + 32 z`.
pub open spec fn column_of(i: int) -> int {
    idx_x(i) + 32 * idx_z(i)
}

impl Chunk {
    /// The chunk is the one generated at `position` from the column heights
    /// `heights` (indexed by `x + 32 z`) and the sea level `sea_level`.
    pub open spec fn is_generated(&self, position: IVec3, heights: Seq<i32>, sea_level: i32) -> bool {
        &&& self.wf()
        &&& self.position == position
        &&& forall|i: int|
            0 <= i < 32768 ==> (#[trigger] self.voxels@[i]).voxel_type == terrain_type(
                world_of(position, local_of(i)).y as int,
                heights[column_of(i)] as int,
                sea_level as int,
            )
    }

    /// Fills a chunk from the terrain heights of its 32 x 32 columns.
    pub fn generate(position: IVec3, heights: &Vec<i32>, sea_level: i32) -> (r: Chunk)
        requires
            chunk_pos_in_range(position),
            heights@.len() == 1024,
        ensures
            r.is_generated(position, heights@, sea_level),
    {
        let mut chunk = Chunk::new(position);
        let mut i: usize = 0;
        while i < CHUNK_VOL as usize
            invariant
                i <= 32768,
                heights@.len() == 1024,
                chunk.wf(),
                chunk.position == position,
                forall|j: int|
                    0 <= j < i ==> (#[trigger] chunk.voxels@[j]).voxel_type == terrain_type(
                        world_of(position, local_of(j)).y as int,
                        heights@[column_of(j)] as int,
                        sea_level as int,
                    ),
            decreases 32768 - i,
        {
            proof {
                lemma_voxel_index_onto(i as int);
            }
            let column = (i % 32) + 32 * ((i / 32) % 32);
            let height = heights[column];
            let wy = chunk.voxels[i].world_position.y;
            let voxel_type = if height <= wy && wy <= sea_level {
                VoxelType::WATER
            } else if wy < height {
                VoxelType::STONE
            } else {
                VoxelType::AIR
            };
            let mut voxel = chunk.voxels[i];
            voxel.voxel_type = voxel_type;
            chunk.voxels.set(i, voxel);
            i = i + 1;
        }
        chunk
    }
}

/// Generation is a function of its inputs: two chunks generated from the
/// same coordinate, heights and sea level hold identical voxels.
pub proof fn lemma_generation_deterministic(
    a: Chunk,
    b: Chunk,
    position: IVec3,
    heights: Seq<i32>,
    sea_level: i32,
)
    requires
        a.is_generated(position, heights, sea_level),
        b.is_generated(position, heights, sea_level),
    ensures
        a.voxels@ == b.voxels@,
        a.position == b.position,
{
    assert forall|i: int| 0 <= i < 32768 implies a.voxels@[i] == b.voxels@[i] by {
        assert(a.voxels@[i].voxel_type == b.voxels@[i].voxel_type);
    }
    assert(a.voxels@ =~= b.voxels@);
}

/// All generated chunks, keyed by chunk coordinate, and the sea level that
/// generation fills water up to.
pub struct VoxelWorld {
    pub chunks: ChunkMap,
    pub sea_level: i32,
}

impl VoxelWorld {
    /// Every chunk is well formed and stored under its own coordinate.
    pub open spec fn wf(&self) -> bool {
        &&& chunks_wf(self.chunks@)
        &&& forall|k: (i32, i32, i32)|
            #[trigger] self.chunks@.contains_key(k) ==> self.chunks@[k].position.key() == k
    }

    /// An empty world whose water fills up to `sea_level`.
    pub fn with_sea_level(sea_level: i32) -> (r: VoxelWorld)
        ensures
            r.wf(),
            r.chunks@ == Map::<(i32, i32, i32), Chunk>::empty(),
            r.sea_level == sea_level,
    {
        VoxelWorld { chunks: BTreeMap::new(), sea_level }
    }

    /// Stores `chunk` under its coordinate, replacing any chunk there.
    pub fn insert_chunk(&mut self, position: IVec3, chunk: Chunk) -> (r: &Chunk)
        requires
            old(self).wf(),
            chunk.wf(),
            chunk.position == position,
        ensures
            final(self).wf(),
            final(self).chunks@ == old(self).chunks@.insert(position.key(), chunk),
            final(self).sea_level == old(self).sea_level,
            *r == chunk,
    {
        self.chunks.insert((position.x, position.y, position.z), chunk);
        self.chunks.get(&(position.x, position.y, position.z)).unwrap()
    }

    /// Generates the chunk at `chunk_pos` from the terrain heights of its
    /// columns (indexed by `x + 32 z`) and stores it.
    pub fn generate_chunk(&mut self, chunk_pos: IVec3, heights: &Vec<i32>)
        requires
            old(self).wf(),
            chunk_pos_in_range(chunk_pos),
            heights@.len() == 1024,
        ensures
            final(self).wf(),
            final(self).sea_level == old(self).sea_level,
            final(self).chunks@ == old(self).chunks@.insert(
                chunk_pos.key(),
                final(self).chunks@[chunk_pos.key()],
            ),
            final(self).chunks@[chunk_pos.key()].is_generated(
                chunk_pos,
                heights@,
                old(self).sea_level,
            ),
    {
        let chunk = Chunk::generate(chunk_pos, heights, self.sea_level);
        self.insert_chunk(chunk_pos, chunk);
    }
}

/// In a well-formed world every voxel of every chunk sits at its own index
/// and caches the world position `local_position + position * 32`, computed
/// without overflow.
pub proof fn lemma_world_positions(world: VoxelWorld, k: (i32, i32, i32), i: int)
    requires
        world.wf(),
        world.chunks@.contains_key(k),
        0 <= i < 32768,
    ensures
        ({
            let c = world.chunks@[k];
            let v = c.voxels@[i];
            &&& in_chunk_bounds(
                v.local_position.x as int,
                v.local_position.y as int,
                v.local_position.z as int,
            )
            &&& idx(v.local_position.x as int, v.local_position.y as int, v.local_position.z as int)
                == i
            &&& v.world_position.x == v.local_position.x + c.position.x * 32
            &&& v.world_position.y == v.local_position.y + c.position.y * 32
            &&& v.world_position.z == v.local_position.z + c.position.z * 32
        }),
{
    let c = world.chunks@[k];
    lemma_voxel_index_onto(i);
    assert(-2147483648 <= c.position.x * 32 <= 2147483584) by (nonlinear_arith)
        requires
            chunk_coord_in_range(c.position.x as int),
    ;
    assert(-2147483648 <= c.position.y * 32 <= 2147483584) by (nonlinear_arith)
        requires
            chunk_coord_in_range(c.position.y as int),
    ;
    assert(-2147483648 <= c.position.z * 32 <= 2147483584) by (nonlinear_arith)
        requires
            chunk_coord_in_range(c.position.z as int),
    ;
}

impl Default for VoxelWorld {
    fn default() -> (r: VoxelWorld)
        ensures
            r.wf(),
            r.chunks@ == Map::<(i32, i32, i32), Chunk>::empty(),
            r.sea_level == SEA_LEVEL,
    {
        VoxelWorld::with_sea_level(SEA_LEVEL)
    }
}

} // verus!
