use vstd::prelude::*;
use rand::Rng;
use crate::util::IVec3;
use crate::voxel::{Uv, VoxelType};

verus! {

/// A vertex colour, each channel in hundredths of full intensity.
#[derive(Clone, Copy, Debug, PartialEq, Eq, Structural)]
pub struct Color {
    pub r: u32,
    pub g: u32,
    pub b: u32,
    pub a: u32,
}

/// Geometry buffers of one surface of a chunk. Vertex positions are voxel
/// corners in world coordinates; `aos` holds one occlusion level per vertex.
pub struct Mesh {
    pub vertices: Vec<IVec3>,
    pub normals: Vec<IVec3>,
    pub indices: Vec<u32>,
    pub colors: Vec<Color>,
    pub uvs: Vec<Uv>,
    pub aos: Vec<u32>,
}

/// The contents of a `Mesh`.
pub struct MeshView {
    pub vertices: Seq<IVec3>,
    pub normals: Seq<IVec3>,
    pub indices: Seq<u32>,
    pub colors: Seq<Color>,
    pub uvs: Seq<Uv>,
    pub aos: Seq<u32>,
}

impl MeshView {
    pub open spec fn empty() -> MeshView {
        MeshView {
            vertices: Seq::empty(),
            normals: Seq::empty(),
            indices: Seq::empty(),
            colors: Seq::empty(),
            uvs: Seq::empty(),
            aos: Seq::empty(),
        }
    }

    /// Every vertex has a normal, a texture coordinate and an occlusion level.
    pub open spec fn wf(self) -> bool {
        &&& self.normals.len() == self.vertices.len()
        &&& self.uvs.len() == self.vertices.len()
        &&& self.aos.len() == self.vertices.len()
    }
}

impl View for Mesh {
    type V = MeshView;

    open spec fn view(&self) -> MeshView {
        MeshView {
            vertices: self.vertices@,
            normals: self.normals@,
            indices: self.indices@,
            colors: self.colors@,
            uvs: self.uvs@,
            aos: self.aos@,
        }
    }
}

/// Brightness of an occlusion level, in tenths: 0.1, 0.3, 0.5 and 1.0 for
/// the levels 0 to 3.
pub open spec fn brightness(level: u32) -> u32 {
    if level == 0 {
        1
    } else if level == 1 {
        3
    } else if level == 2 {
        5
    } else {
        10
    }
}

/// Colour of a vertex with occlusion level `level` in a mesh drawn at
/// `alpha` tenths of opacity: the brightness scaled by `alpha`, and `alpha`
/// as the alpha channel.
pub open spec fn ao_color(level: u32, alpha: u32) -> Color {
    let c = (brightness(level) * alpha) as u32;
    Color { r: c, g: c, b: c, a: (alpha * 10) as u32 }
}

/// Indices shifted by `base`.
pub open spec fn offset_indices(indices: Seq<u32>, base: int) -> Seq<u32> {
    indices.map_values(|i: u32| (i + base) as u32)
}

/// Relies on rand's `thread_rng().gen_range(0..bound)`: a value drawn from
/// `[0, bound)`. It panics on an empty range.
#[verifier::external_body]
fn random_below(bound: u32) -> (r: u32)
    requires
        bound > 0,
    ensures
        r < bound,
{
    rand::thread_rng().gen_range(0..bound)
}

impl Default for Mesh {
    fn default() -> (r: Mesh)
        ensures
            r@ == MeshView::empty(),
    {
        let r = Mesh {
            vertices: Vec::new(),
            normals: Vec::new(),
            indices: Vec::new(),
            colors: Vec::new(),
            uvs: Vec::new(),
            aos: Vec::new(),
        };
        assert(r@ =~= MeshView::empty());
        r
    }
}

impl Mesh {
    /// Replaces every vertex colour with a random opaque colour.
    pub fn clown_vomit(&mut self)
        ensures
            final(self).vertices@ == old(self).vertices@,
            final(self).normals@ == old(self).normals@,
            final(self).indices@ == old(self).indices@,
            final(self).uvs@ == old(self).uvs@,
            final(self).aos@ == old(self).aos@,
            final(self).colors@.len() == old(self).vertices@.len(),
            forall|i: int|
                0 <= i < final(self).colors@.len() ==> {
                    let c = #[trigger] final(self).colors@[i];
                    c.r < 100 && c.g < 100 && c.b < 100 && c.a == 100
                },
    {
        self.colors.clear();
        let n = self.vertices.len();
        let mut i: usize = 0;
        while i < n
            invariant
                n == self.vertices@.len(),
                i <= n,
                self.vertices@ == old(self).vertices@,
                self.normals@ == old(self).normals@,
                self.indices@ == old(self).indices@,
                self.uvs@ == old(self).uvs@,
                self.aos@ == old(self).aos@,
                self.colors@.len() == i,
                forall|j: int|
                    0 <= j < i ==> {
                        let c = #[trigger] self.colors@[j];
                        c.r < 100 && c.g < 100 && c.b < 100 && c.a == 100
                    },
            decreases n - i,
        {
            let r = random_below(100);
            let g = random_below(100);
            let b = random_below(100);
            self.colors.push(Color { r, g, b, a: 100 });
            i = i + 1;
        }
    }

    pub fn set_vertices(&mut self, vertices: Vec<IVec3>)
        ensures
            final(self)@ == (MeshView { vertices: old(self)@.vertices + vertices@, ..old(self)@ }),
    {
        let mut vertices = vertices;
        self.vertices.append(&mut vertices);
    }

    /// Appends the indices of a quad whose corners are the next vertices to
    /// come: each index is shifted by the current vertex count.
    pub fn set_indices(&mut self, indices: Vec<u32>)
        requires
            forall|i: int|
                0 <= i < indices@.len() ==> old(self).vertices@.len() + #[trigger] indices@[i]
                    <= u32::MAX,
        ensures
            final(self)@ == (MeshView {
                indices: old(self)@.indices + offset_indices(
                    indices@,
                    old(self)@.vertices.len() as int,
                ),
                ..old(self)@
            }),
    {
        let n = indices.len();
        let base = self.vertices.len();
        let mut i: usize = 0;
        while i < n
            invariant
                n == indices@.len(),
                i <= n,
                base == self.vertices@.len(),
                forall|j: int|
                    0 <= j < indices@.len() ==> base + #[trigger] indices@[j] <= u32::MAX,
                self.vertices@ == old(self).vertices@,
                self.normals@ == old(self).normals@,
                self.colors@ == old(self).colors@,
                self.uvs@ == old(self).uvs@,
                self.aos@ == old(self).aos@,
                self.indices@ == old(self).indices@ + offset_indices(
                    indices@.subrange(0, i as int),
                    base as int,
                ),
            decreases n - i,
        {
            let shifted = indices[i] + base as u32;
            self.indices.push(shifted);
            proof {
                assert(indices@.subrange(0, i + 1) =~= indices@.subrange(0, i as int).push(
                    indices@[i as int],
                ));
                assert(offset_indices(indices@.subrange(0, i + 1), base as int) =~= offset_indices(
                    indices@.subrange(0, i as int),
                    base as int,
                ).push(shifted));
            }
            i = i + 1;
        }
        assert(indices@.subrange(0, n as int) =~= indices@);
        assert(self@ =~= (MeshView {
            indices: old(self)@.indices + offset_indices(indices@, old(self)@.vertices.len() as int),
            ..old(self)@
        }));
    }

    /// Appends the normal of a quad, once for each of its four corners.
    pub fn set_normals(&mut self, normals: IVec3)
        ensures
            final(self)@ == (MeshView {
                normals: old(self)@.normals + seq![normals; 4],
                ..old(self)@
            }),
    {
        let mut four = vec![normals, normals, normals, normals];
        assert(four@ =~= seq![normals; 4]);
        self.normals.append(&mut four);
    }

    /// Appends the texture coordinates of a quad of the given kind.
    pub fn set_uvs(&mut self, voxel_type: &VoxelType)
        requires
            voxel_type.is_visible(),
        ensures
            final(self)@ == (MeshView { uvs: old(self)@.uvs + voxel_type.spec_uvs(), ..old(self)@ }),
    {
        let mut uvs = voxel_type.type_to_uvs();
        self.uvs.append(&mut uvs);
    }

    /// Sets the colour of every vertex from its occlusion level, for a mesh
    /// drawn at `alpha` tenths of opacity.
    pub fn add_ao_color(&mut self, alpha: u32)
        requires
            alpha <= 10,
            old(self).aos@.len() >= old(self).vertices@.len(),
        ensures
            final(self)@ == (MeshView {
                colors: Seq::new(
                    old(self)@.vertices.len(),
                    |i: int| ao_color(old(self)@.aos[i], alpha),
                ),
                ..old(self)@
            }),
    {
        let n = self.vertices.len();
        let mut colors: Vec<Color> = Vec::new();
        let mut i: usize = 0;
        while i < n
            invariant
                n == self.vertices@.len(),
                n <= self.aos@.len(),
                alpha <= 10,
                i <= n,
                self@ == old(self)@,
                colors@ =~= Seq::new(i as nat, |j: int| ao_color(self.aos@[j], alpha)),
            decreases n - i,
        {
            let level = self.aos[i];
            let b: u32 = if level == 0 {
                1
            } else if level == 1 {
                3
            } else if level == 2 {
                5
            } else {
                10
            };
            let c = b * alpha;
            colors.push(Color { r: c, g: c, b: c, a: alpha * 10 });
            i = i + 1;
        }
        self.colors = colors;
        assert(self@ =~= (MeshView {
            colors: Seq::new(old(self)@.vertices.len(), |i: int| ao_color(old(self)@.aos[i], alpha)),
            ..old(self)@
        }));
    }
}

} // verus!
