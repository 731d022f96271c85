use vstd::prelude::*;
use crate::util::IVec3;

verus! {

/// The closed set of voxel kinds.
#[derive(Clone, Copy, Debug, PartialEq, Eq, Structural)]
pub enum VoxelType {
    AIR,
    GRASS,
    STONE,
    WATER,
}

/// An atlas texture coordinate, counted in tenths of the atlas.
#[derive(Clone, Copy, Debug, PartialEq, Eq, Structural)]
pub struct Uv {
    pub u: u32,
    pub v: u32,
}

impl VoxelType {
    pub open spec fn spec_is_visible(&self) -> bool {
        *self != VoxelType::AIR
    }

    pub open spec fn spec_is_liquid(&self) -> bool {
        *self == VoxelType::WATER
    }

    pub open spec fn spec_should_render(&self) -> bool {
        *self == VoxelType::AIR || *self == VoxelType::WATER
    }

    /// Air is invisible; every other kind is drawn.
    #[verifier::when_used_as_spec(spec_is_visible)]
    pub fn is_visible(&self) -> (r: bool)
        ensures
            r == self.spec_is_visible(),
    {
        *self != VoxelType::AIR
    }

    #[verifier::when_used_as_spec(spec_is_liquid)]
    pub fn is_liquid(&self) -> (r: bool)
        ensures
            r == self.spec_is_liquid(),
    {
        *self == VoxelType::WATER
    }

    /// Whether a solid neighbour still draws its face against this kind:
    /// true of the kinds that let the view through (air and water).
    #[verifier::when_used_as_spec(spec_should_render)]
    pub fn should_render(&self) -> (r: bool)
        ensures
            r == self.spec_should_render(),
    {
        match *self {
            VoxelType::AIR => true,
            VoxelType::WATER => true,
            _ => false,
        }
    }

    /// Column of this kind's tile in the texture atlas, in tenths.
    pub open spec fn atlas_column(self) -> u32 {
        match self {
            VoxelType::STONE => 1,
            VoxelType::WATER => 2,
            _ => 0,
        }
    }

    /// The four texture coordinates of one face of this kind.
    pub open spec fn spec_uvs(self) -> Seq<Uv> {
        seq![Uv { u: self.atlas_column(), v: 0 }; 4]
    }

    /// Texture coordinates of the four corners of a face.
    pub fn type_to_uvs(&self) -> (r: Vec<Uv>)
        requires
            self.is_visible(),
        ensures
            r@ == self.spec_uvs(),
    {
        let column: u32 = match *self {
            VoxelType::STONE => 1,
            VoxelType::WATER => 2,
            _ => 0,
        };
        let uv = Uv { u: column, v: 0 };
        let r = vec![uv, uv, uv, uv];
        assert(r@ =~= self.spec_uvs());
        r
    }
}

/// The occlusion rule: whether a face of a voxel of kind `current` is drawn
/// against a neighbour of kind `neighbor`. A liquid draws only against air,
/// so that no faces appear inside a body of water; anything else draws
/// against air and against liquid.
pub open spec fn face_visible(current: VoxelType, neighbor: VoxelType) -> bool {
    if current.is_liquid() {
        !neighbor.is_visible()
    } else {
        neighbor.should_render()
    }
}

/// Two opaque voxels side by side hide the face between them, from either side.
pub proof fn lemma_opaque_neighbors_hide_faces(a: VoxelType, b: VoxelType)
    requires
        a.is_visible() && !a.is_liquid(),
        b.is_visible() && !b.is_liquid(),
    ensures
        !a.should_render() && !b.should_render(),
        !face_visible(a, b) && !face_visible(b, a),
{
}

/// One cell of a chunk: its kind and its cached local and world positions.
#[derive(Clone, Copy, Debug, PartialEq, Eq, Structural)]
pub struct Voxel {
    pub local_position: IVec3,
    pub world_position: IVec3,
    pub voxel_type: VoxelType,
}

impl Default for Voxel {
    fn default() -> (r: Voxel)
        ensures
            r == (Voxel {
                local_position: IVec3 { x: 0, y: 0, z: 0 },
                world_position: IVec3 { x: 0, y: 0, z: 0 },
                voxel_type: VoxelType::AIR,
            }),
    {
        Voxel {
            local_position: IVec3 { x: 0, y: 0, z: 0 },
            world_position: IVec3 { x: 0, y: 0, z: 0 },
            voxel_type: VoxelType::AIR,
        }
    }
}

} // verus!
