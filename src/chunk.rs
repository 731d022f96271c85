use vstd::prelude::*;
use std::collections::BTreeMap;
use crate::util::{
    CHUNK_SIZE, CHUNK_VOL, IVec3, idx, idx_x, idx_y, idx_z, in_chunk_bounds, in_chunk_range, voxel_index,
    lemma_voxel_index_decodes, lemma_voxel_index_onto,
};
use crate::voxel::{Voxel, VoxelType, face_visible, lemma_opaque_neighbors_hide_faces};

verus! {

/// The chunks of a world, keyed by chunk coordinate.
pub type ChunkMap = BTreeMap<(i32, i32, i32), Chunk>;

/// A chunk coordinate whose voxel corners all have world coordinates that fit
/// in `i32`.
pub open spec fn chunk_coord_in_range(c: int) -> bool {
    -67108864 <= c < 67108863
}

pub open spec fn chunk_pos_in_range(p: IVec3) -> bool {
    chunk_coord_in_range(p.x as int) && chunk_coord_in_range(p.y as int) && chunk_coord_in_range(
        p.z as int,
    )
}

/// Whether `p` is a chunk coordinate that chunk creation and generation
/// accept.
pub fn is_chunk_pos_in_range(p: IVec3) -> (r: bool)
    ensures
        r == chunk_pos_in_range(p),
{
    -67108864 <= p.x && p.x < 67108863 && -67108864 <= p.y && p.y < 67108863 && -67108864 <= p.z
        && p.z < 67108863
}

/// Local position of the voxel stored at index `i`.
pub open spec fn local_of(i: int) -> IVec3 {
    IVec3 { x: idx_x(i) as i32, y: idx_y(i) as i32, z: idx_z(i) as i32 }
}

/// World position of a local position in the chunk at `chunk_pos`:
/// `local + chunk_pos * 32`.
pub open spec fn world_of(chunk_pos: IVec3, local: IVec3) -> IVec3 {
    IVec3 {
        x: (local.x + chunk_pos.x * 32) as i32,
        y: (local.y + chunk_pos.y * 32) as i32,
        z: (local.z + chunk_pos.z * 32) as i32,
    }
}

/// Offset to the neighbouring chunk along one axis for a local coordinate.
pub open spec fn chunk_step(c: i32) -> int {
    if c > 31 {
        1
    } else if c < 0 {
        -1
    } else {
        0
    }
}

/// A local coordinate outside the chunk, wrapped onto the facing edge of the
/// neighbouring chunk.
pub open spec fn wrap_local(c: i32) -> int {
    if c > 31 {
        0
    } else if c < 0 {
        31
    } else {
        c as int
    }
}

/// Key of the chunk that holds the local position `pos` of the chunk at
/// `chunk_pos`, when `pos` lies outside it.
pub open spec fn neighbor_key(chunk_pos: IVec3, pos: IVec3) -> (i32, i32, i32) {
    (
        (chunk_pos.x + chunk_step(pos.x)) as i32,
        (chunk_pos.y + chunk_step(pos.y)) as i32,
        (chunk_pos.z + chunk_step(pos.z)) as i32,
    )
}

/// A fixed cube of 32^3 voxels at a chunk coordinate.
#[derive(Debug)]
pub struct Chunk {
    pub position: IVec3,
    pub voxels: Vec<Voxel>,
}

/// Every chunk of the map is well formed.
pub open spec fn chunks_wf(chunks: Map<(i32, i32, i32), Chunk>) -> bool {
    forall|k: (i32, i32, i32)| #[trigger] chunks.contains_key(k) ==> chunks[k].wf()
}

impl Chunk {
    /// The chunk has 32768 voxels, each caching its own local position and
    /// the world position `local + position * 32`.
    pub open spec fn wf(&self) -> bool {
        &&& chunk_pos_in_range(self.position)
        &&& self.voxels.len() == 32768
        &&& forall|i: int|
            0 <= i < 32768 ==> {
                &&& (#[trigger] self.voxels@[i]).local_position == local_of(i)
                &&& self.voxels@[i].world_position == world_of(self.position, local_of(i))
            }
    }

    /// Kind of the voxel at a local position.
    pub open spec fn type_at(&self, x: int, y: int, z: int) -> VoxelType {
        self.voxels@[idx(x, y, z)].voxel_type
    }

    /// Whether a face of a voxel of kind `current` is drawn against the local
    /// position `pos`. Inside the chunk the voxel there decides; outside it,
    /// the voxel on the facing edge of the neighbouring chunk decides, and a
    /// neighbouring chunk that is not in the map counts as empty.
    pub open spec fn spec_is_void(
        &self,
        current: VoxelType,
        pos: IVec3,
        chunks: Map<(i32, i32, i32), Chunk>,
    ) -> bool {
        if in_chunk_bounds(pos.x as int, pos.y as int, pos.z as int) {
            face_visible(current, self.type_at(pos.x as int, pos.y as int, pos.z as int))
        } else {
            let key = neighbor_key(self.position, pos);
            if chunks.contains_key(key) {
                face_visible(
                    current,
                    chunks[key].type_at(wrap_local(pos.x), wrap_local(pos.y), wrap_local(pos.z)),
                )
            } else {
                true
            }
        }
    }

    /// A chunk of air at `position`.
    pub fn new(position: IVec3) -> (r: Chunk)
        requires
            chunk_pos_in_range(position),
        ensures
            r.wf(),
            r.position == position,
            forall|i: int| 0 <= i < 32768 ==> (#[trigger] r.voxels@[i]).voxel_type == VoxelType::AIR,
    {
        let mut voxels: Vec<Voxel> = Vec::new();
        let mut i: i32 = 0;
        while i < CHUNK_VOL
            invariant
                0 <= i <= 32768,
                chunk_pos_in_range(position),
                voxels.len() == i,
                forall|j: int|
                    0 <= j < i ==> {
                        &&& (#[trigger] voxels@[j]).local_position == local_of(j)
                        &&& voxels@[j].world_position == world_of(position, local_of(j))
                        &&& voxels@[j].voxel_type == VoxelType::AIR
                    },
            decreases 32768 - i,
        {
            let x = i % CHUNK_SIZE;
            let y = i / (CHUNK_SIZE * CHUNK_SIZE);
            let z = (i / CHUNK_SIZE) % CHUNK_SIZE;
            proof {
                lemma_voxel_index_onto(i as int);
            }
            assert(-2147483648 <= position.x * 32 <= 2147483584) by (nonlinear_arith)
                requires
                    chunk_coord_in_range(position.x as int),
            ;
            assert(-2147483648 <= position.y * 32 <= 2147483584) by (nonlinear_arith)
                requires
                    chunk_coord_in_range(position.y as int),
            ;
            assert(-2147483648 <= position.z * 32 <= 2147483584) by (nonlinear_arith)
                requires
                    chunk_coord_in_range(position.z as int),
            ;
            let local = IVec3 { x, y, z };
            let world = IVec3 {
                x: x + position.x * CHUNK_SIZE,
                y: y + position.y * CHUNK_SIZE,
                z: z + position.z * CHUNK_SIZE,
            };
            voxels.push(Voxel { local_position: local, world_position: world, voxel_type: VoxelType::AIR });
            i = i + 1;
        }
        Chunk { position, voxels }
    }

    /// Whether a face of a voxel of kind `current_voxel_type` is drawn
    /// against the local position `voxel_pos`, which may lie in a
    /// neighbouring chunk of `world_chunks`.
    pub fn is_void(
        &self,
        current_voxel_type: &VoxelType,
        voxel_pos: IVec3,
        world_chunks: &ChunkMap,
    ) -> (r: bool)
        requires
            self.wf(),
            chunks_wf(world_chunks@),
        ensures
            r == self.spec_is_void(*current_voxel_type, voxel_pos, world_chunks@),
    {
        let x = voxel_pos.x;
        let y = voxel_pos.y;
        let z = voxel_pos.z;
        if 0 <= x && x < CHUNK_SIZE && 0 <= y && y < CHUNK_SIZE && 0 <= z && z < CHUNK_SIZE {
            let index = voxel_index(x, y, z);
            proof {
                lemma_voxel_index_decodes(x as int, y as int, z as int);
            }
            let voxel = &self.voxels[index];
            if current_voxel_type.is_liquid() {
                !voxel.voxel_type.is_visible()
            } else {
                voxel.voxel_type.should_render()
            }
        } else {
            let c_pos = self.position;
            let mut neighbor_chunk_idx = c_pos;
            let mut neighbor_voxel_pos = voxel_pos;
            if x > CHUNK_SIZE - 1 {
                neighbor_chunk_idx.x = neighbor_chunk_idx.x + 1;
                neighbor_voxel_pos.x = 0;
            } else if x < 0 {
                neighbor_chunk_idx.x = neighbor_chunk_idx.x - 1;
                neighbor_voxel_pos.x = 31;
            }
            if y > CHUNK_SIZE - 1 {
                neighbor_chunk_idx.y = neighbor_chunk_idx.y + 1;
                neighbor_voxel_pos.y = 0;
            } else if y < 0 {
                neighbor_chunk_idx.y = neighbor_chunk_idx.y - 1;
                neighbor_voxel_pos.y = 31;
            }
            if z > CHUNK_SIZE - 1 {
                neighbor_chunk_idx.z = neighbor_chunk_idx.z + 1;
                neighbor_voxel_pos.z = 0;
            } else if z < 0 {
                neighbor_chunk_idx.z = neighbor_chunk_idx.z - 1;
                neighbor_voxel_pos.z = 31;
            }
            Chunk::check_neighboring_chunk(
                current_voxel_type,
                neighbor_chunk_idx,
                neighbor_voxel_pos,
                world_chunks,
            )
        }
    }

    /// Applies the occlusion rule to the voxel at the local position
    /// `voxel_pos` of the chunk keyed `chunk_idx`; a chunk missing from the
    /// map counts as empty.
    fn check_neighboring_chunk(
        current_voxel_type: &VoxelType,
        chunk_idx: IVec3,
        voxel_pos: IVec3,
        world_chunks: &ChunkMap,
    ) -> (r: bool)
        requires
            in_chunk_bounds(voxel_pos.x as int, voxel_pos.y as int, voxel_pos.z as int),
            chunks_wf(world_chunks@),
        ensures
            r == if world_chunks@.contains_key(chunk_idx.key()) {
                face_visible(
                    *current_voxel_type,
                    world_chunks@[chunk_idx.key()].type_at(
                        voxel_pos.x as int,
                        voxel_pos.y as int,
                        voxel_pos.z as int,
                    ),
                )
            } else {
                true
            },
    {
        match world_chunks.get(&(chunk_idx.x, chunk_idx.y, chunk_idx.z)) {
            Some(chunk) => {
                let index = voxel_index(voxel_pos.x, voxel_pos.y, voxel_pos.z);
                proof {
                    lemma_voxel_index_decodes(
                        voxel_pos.x as int,
                        voxel_pos.y as int,
                        voxel_pos.z as int,
                    );
                }
                let voxel = &chunk.voxels[index];
                if current_voxel_type.is_liquid() {
                    !voxel.voxel_type.is_visible()
                } else {
                    voxel.voxel_type.should_render()
                }
            },
            None => true,
        }
    }
}

/// Inside a chunk, two opaque voxels side by side draw no face towards each
/// other.
pub proof fn lemma_opaque_neighbors_cull(
    c: Chunk,
    chunks: Map<(i32, i32, i32), Chunk>,
    p: IVec3,
    q: IVec3,
)
    requires
        in_chunk_bounds(p.x as int, p.y as int, p.z as int),
        in_chunk_bounds(q.x as int, q.y as int, q.z as int),
        c.type_at(p.x as int, p.y as int, p.z as int).is_visible(),
        !c.type_at(p.x as int, p.y as int, p.z as int).is_liquid(),
        c.type_at(q.x as int, q.y as int, q.z as int).is_visible(),
        !c.type_at(q.x as int, q.y as int, q.z as int).is_liquid(),
    ensures
        !c.spec_is_void(c.type_at(p.x as int, p.y as int, p.z as int), q, chunks),
        !c.spec_is_void(c.type_at(q.x as int, q.y as int, q.z as int), p, chunks),
{
    lemma_opaque_neighbors_hide_faces(
        c.type_at(p.x as int, p.y as int, p.z as int),
        c.type_at(q.x as int, q.y as int, q.z as int),
    );
}

/// Kind of cell `(x, y, z)`, `x` in `[0, 64)`, of the volume made of chunk
/// `a` and chunk `b` on its `+x` side.
pub open spec fn pair_type_at(a: Chunk, b: Chunk, x: int, y: int, z: int) -> VoxelType {
    if x < 32 {
        a.type_at(x, y, z)
    } else {
        b.type_at(x - 32, y, z)
    }
}

/// Whether the chunk that holds cell `(x, y, z)` of that volume draws the
/// face of the cell towards `x + dx`.
pub open spec fn pair_draws(
    a: Chunk,
    b: Chunk,
    chunks: Map<(i32, i32, i32), Chunk>,
    x: int,
    y: int,
    z: int,
    dx: int,
) -> bool {
    let t = pair_type_at(a, b, x, y, z);
    if x < 32 {
        a.spec_is_void(t, IVec3 { x: (x + dx) as i32, y: y as i32, z: z as i32 }, chunks)
    } else {
        b.spec_is_void(t, IVec3 { x: (x - 32 + dx) as i32, y: y as i32, z: z as i32 }, chunks)
    }
}

/// Two chunks side by side along `x`, both in the map, mesh their common
/// boundary as one 64 x 32 x 32 volume would: each face between cells `x`
/// and `x + 1` is drawn from either side exactly when the occlusion rule
/// draws it inside a single volume, so the seam has no missing or extra
/// faces.
pub proof fn lemma_seam_matches_single_volume(
    a: Chunk,
    b: Chunk,
    chunks: Map<(i32, i32, i32), Chunk>,
    x: int,
    y: int,
    z: int,
)
    requires
        a.wf(),
        b.wf(),
        b.position == (IVec3 { x: (a.position.x + 1) as i32, y: a.position.y, z: a.position.z }),
        chunks.contains_key(a.position.key()),
        chunks[a.position.key()] == a,
        chunks.contains_key(b.position.key()),
        chunks[b.position.key()] == b,
        0 <= x < 63,
        in_chunk_range(y),
        in_chunk_range(z),
    ensures
        pair_draws(a, b, chunks, x, y, z, 1) == face_visible(
            pair_type_at(a, b, x, y, z),
            pair_type_at(a, b, x + 1, y, z),
        ),
        pair_draws(a, b, chunks, x + 1, y, z, -1) == face_visible(
            pair_type_at(a, b, x + 1, y, z),
            pair_type_at(a, b, x, y, z),
        ),
{
}

} // verus!
