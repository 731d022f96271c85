use vstd::prelude::*;
use crate::ao::{ao_samples, get_ao, side_levels};
use crate::chunk::{Chunk, ChunkMap, chunks_wf};
use crate::global::Settings;
use crate::mesh::{Mesh, MeshView, ao_color, offset_indices};
use crate::util::{IVec3, in_chunk_bounds};
use crate::voxel::{Uv, Voxel};

verus! {

// Faces are numbered in the order in which a voxel emits them:
// 0 up (+y), 1 down (-y), 2 right (+x), 3 left (-x), 4 back (-z), 5 front (+z).

/// Normal of face `d`.
pub open spec fn dir_normal(d: int) -> IVec3 {
    if d == 0 {
        IVec3 { x: 0, y: 1, z: 0 }
    } else if d == 1 {
        IVec3 { x: 0, y: -1i32, z: 0 }
    } else if d == 2 {
        IVec3 { x: 1, y: 0, z: 0 }
    } else if d == 3 {
        IVec3 { x: -1i32, y: 0, z: 0 }
    } else if d == 4 {
        IVec3 { x: 0, y: 0, z: -1i32 }
    } else {
        IVec3 { x: 0, y: 0, z: 1 }
    }
}

/// `w + (dx, dy, dz)`.
pub open spec fn corner(w: IVec3, dx: int, dy: int, dz: int) -> IVec3 {
    IVec3 { x: (w.x + dx) as i32, y: (w.y + dy) as i32, z: (w.z + dz) as i32 }
}

/// The four corners of face `d` of the unit cube at world position `w`.
pub open spec fn dir_corners(d: int, w: IVec3) -> Seq<IVec3> {
    if d == 0 {
        seq![corner(w, 0, 1, 0), corner(w, 1, 1, 0), corner(w, 1, 1, 1), corner(w, 0, 1, 1)]
    } else if d == 1 {
        seq![corner(w, 0, 0, 0), corner(w, 1, 0, 0), corner(w, 1, 0, 1), corner(w, 0, 0, 1)]
    } else if d == 2 {
        seq![corner(w, 1, 0, 0), corner(w, 1, 1, 0), corner(w, 1, 1, 1), corner(w, 1, 0, 1)]
    } else if d == 3 {
        seq![corner(w, 0, 0, 0), corner(w, 0, 1, 0), corner(w, 0, 1, 1), corner(w, 0, 0, 1)]
    } else if d == 4 {
        seq![corner(w, 0, 0, 0), corner(w, 0, 1, 0), corner(w, 1, 1, 0), corner(w, 1, 0, 0)]
    } else {
        seq![corner(w, 0, 0, 1), corner(w, 0, 1, 1), corner(w, 1, 1, 1), corner(w, 1, 0, 1)]
    }
}

/// The two triangles of face `d`, over its corners 0 to 3: split along the
/// diagonal 0-2, or along 1-3 when `flipped`.
pub open spec fn dir_pattern(d: int, flipped: bool) -> Seq<u32> {
    if d == 0 {
        if flipped { seq![1, 0, 3, 1, 3, 2] } else { seq![0, 3, 2, 0, 2, 1] }
    } else if d == 1 {
        if flipped { seq![1, 3, 0, 1, 2, 3] } else { seq![0, 2, 3, 0, 1, 2] }
    } else if d == 2 || d == 4 {
        if flipped { seq![3, 0, 1, 3, 1, 2] } else { seq![0, 1, 2, 0, 2, 3] }
    } else {
        if flipped { seq![3, 1, 0, 3, 2, 1] } else { seq![0, 2, 1, 0, 3, 2] }
    }
}

/// The quad is split along its 1-3 diagonal when that pair of corners is
/// brighter in sum than the 0-2 pair.
pub open spec fn flips_diagonal(aos: Seq<u32>) -> bool {
    aos[1] + aos[3] > aos[0] + aos[2]
}

/// `m` with one quad appended; its indices are shifted past the vertices
/// already there.
pub open spec fn add_quad(
    m: MeshView,
    corners: Seq<IVec3>,
    normal: IVec3,
    pattern: Seq<u32>,
    aos: Seq<u32>,
    uvs: Seq<Uv>,
) -> MeshView {
    MeshView {
        vertices: m.vertices + corners,
        normals: m.normals + seq![normal; 4],
        indices: m.indices + offset_indices(pattern, m.vertices.len() as int),
        colors: m.colors,
        uvs: m.uvs + uvs,
        aos: m.aos + aos,
    }
}

/// Position of the neighbour of `p` across face `d`.
pub open spec fn across(p: IVec3, d: int) -> IVec3 {
    let n = dir_normal(d);
    IVec3 { x: (p.x + n.x) as i32, y: (p.y + n.y) as i32, z: (p.z + n.z) as i32 }
}

/// Face `d` of voxel `v` is exposed: the culling rule draws it.
pub open spec fn face_exposed(
    c: Chunk,
    chunks: Map<(i32, i32, i32), Chunk>,
    v: Voxel,
    d: int,
) -> bool {
    c.spec_is_void(v.voxel_type, across(v.local_position, d), chunks)
}

/// Occlusion levels of the corners of face `d` of voxel `v`.
pub open spec fn face_aos(
    c: Chunk,
    chunks: Map<(i32, i32, i32), Chunk>,
    v: Voxel,
    d: int,
) -> Seq<u32> {
    side_levels(ao_samples(c, v.voxel_type, v.local_position, dir_normal(d), chunks))
}

/// `m` after face `d` of voxel `v` is considered: one quad more if the face
/// is exposed.
pub open spec fn emit_face(
    m: MeshView,
    c: Chunk,
    chunks: Map<(i32, i32, i32), Chunk>,
    v: Voxel,
    d: int,
) -> MeshView {
    if face_exposed(c, chunks, v, d) {
        let aos = face_aos(c, chunks, v, d);
        add_quad(
            m,
            dir_corners(d, v.world_position),
            dir_normal(d),
            dir_pattern(d, flips_diagonal(aos)),
            aos,
            v.voxel_type.spec_uvs(),
        )
    } else {
        m
    }
}

/// `m` after the first `n` faces of voxel `v` are considered.
pub open spec fn emit_faces(
    m: MeshView,
    c: Chunk,
    chunks: Map<(i32, i32, i32), Chunk>,
    v: Voxel,
    n: nat,
) -> MeshView
    decreases n,
{
    if n == 0 {
        m
    } else {
        emit_face(emit_faces(m, c, chunks, v, (n - 1) as nat), c, chunks, v, n - 1)
    }
}

/// The opaque and liquid meshes, starting from `opaque` and `liquid`, after
/// the first `n` voxels of `c` in storage order are meshed. Air is skipped;
/// water goes to the liquid mesh, every other kind to the opaque one.
pub open spec fn build_meshes(
    opaque: MeshView,
    liquid: MeshView,
    c: Chunk,
    chunks: Map<(i32, i32, i32), Chunk>,
    n: nat,
) -> (MeshView, MeshView)
    decreases n,
{
    if n == 0 {
        (opaque, liquid)
    } else {
        let prev = build_meshes(opaque, liquid, c, chunks, (n - 1) as nat);
        let v = c.voxels@[n - 1];
        if !v.voxel_type.is_visible() {
            prev
        } else if v.voxel_type.is_liquid() {
            (prev.0, emit_faces(prev.1, c, chunks, v, 6))
        } else {
            (emit_faces(prev.0, c, chunks, v, 6), prev.1)
        }
    }
}

/// `m` with every vertex coloured from its occlusion level at `alpha`
/// tenths of opacity.
pub open spec fn with_ao_colors(m: MeshView, alpha: u32) -> MeshView {
    MeshView { colors: Seq::new(m.vertices.len(), |i: int| ao_color(m.aos[i], alpha)), ..m }
}

/// Every colour of `m` is opaque, with red, green and blue below full
/// intensity.
pub open spec fn random_colors(m: MeshView) -> bool {
    forall|i: int|
        0 <= i < m.colors.len() ==> {
            let c = #[trigger] m.colors[i];
            c.r < 100 && c.g < 100 && c.b < 100 && c.a == 100
        }
}

/// `a` and `b` agree in everything but their colours.
pub open spec fn same_geometry(a: MeshView, b: MeshView) -> bool {
    &&& a.vertices == b.vertices
    &&& a.normals == b.normals
    &&& a.indices == b.indices
    &&& a.uvs == b.uvs
    &&& a.aos == b.aos
}

/// A voxel whose neighbours and corners have coordinates that fit in `i32`.
pub open spec fn voxel_in_range(v: Voxel) -> bool {
    &&& in_chunk_bounds(
        v.local_position.x as int,
        v.local_position.y as int,
        v.local_position.z as int,
    )
    &&& v.world_position.x < i32::MAX
    &&& v.world_position.y < i32::MAX
    &&& v.world_position.z < i32::MAX
}

/// Normal of face `d`.
fn face_normal(d: usize) -> (r: IVec3)
    requires
        d < 6,
    ensures
        r == dir_normal(d as int),
{
    match d {
        0 => IVec3::new(0, 1, 0),
        1 => IVec3::new(0, -1, 0),
        2 => IVec3::new(1, 0, 0),
        3 => IVec3::new(-1, 0, 0),
        4 => IVec3::new(0, 0, -1),
        _ => IVec3::new(0, 0, 1),
    }
}

/// Corners of face `d` of the cube at world position `w`.
fn face_vertices(d: usize, w: IVec3) -> (r: Vec<IVec3>)
    requires
        d < 6,
        w.x < i32::MAX,
        w.y < i32::MAX,
        w.z < i32::MAX,
    ensures
        r@ == dir_corners(d as int, w),
{
    let (x0, y0, z0) = (w.x, w.y, w.z);
    let (x1, y1, z1) = (w.x + 1, w.y + 1, w.z + 1);
    let r = match d {
        0 => vec![IVec3::new(x0, y1, z0), IVec3::new(x1, y1, z0), IVec3::new(x1, y1, z1), IVec3::new(x0, y1, z1)],
        1 => vec![IVec3::new(x0, y0, z0), IVec3::new(x1, y0, z0), IVec3::new(x1, y0, z1), IVec3::new(x0, y0, z1)],
        2 => vec![IVec3::new(x1, y0, z0), IVec3::new(x1, y1, z0), IVec3::new(x1, y1, z1), IVec3::new(x1, y0, z1)],
        3 => vec![IVec3::new(x0, y0, z0), IVec3::new(x0, y1, z0), IVec3::new(x0, y1, z1), IVec3::new(x0, y0, z1)],
        4 => vec![IVec3::new(x0, y0, z0), IVec3::new(x0, y1, z0), IVec3::new(x1, y1, z0), IVec3::new(x1, y0, z0)],
        _ => vec![IVec3::new(x0, y0, z1), IVec3::new(x0, y1, z1), IVec3::new(x1, y1, z1), IVec3::new(x1, y0, z1)],
    };
    assert(r@ =~= dir_corners(d as int, w));
    r
}

/// Triangle indices of face `d`.
fn face_indices(d: usize, flipped: bool) -> (r: Vec<u32>)
    requires
        d < 6,
    ensures
        r@ == dir_pattern(d as int, flipped),
{
    let r = if d == 0 {
        if flipped { vec![1, 0, 3, 1, 3, 2] } else { vec![0, 3, 2, 0, 2, 1] }
    } else if d == 1 {
        if flipped { vec![1, 3, 0, 1, 2, 3] } else { vec![0, 2, 3, 0, 1, 2] }
    } else if d == 2 || d == 4 {
        if flipped { vec![3, 0, 1, 3, 1, 2] } else { vec![0, 1, 2, 0, 2, 3] }
    } else {
        if flipped { vec![3, 1, 0, 3, 2, 1] } else { vec![0, 2, 1, 0, 3, 2] }
    };
    assert(r@ =~= dir_pattern(d as int, flipped));
    r
}

/// Appends face `d` of `voxel` to `mesh` if the culling rule draws it.
fn add_face(mesh: &mut Mesh, chunk: &Chunk, voxel: &Voxel, d: usize, world_chunks: &ChunkMap)
    requires
        chunk.wf(),
        chunks_wf(world_chunks@),
        voxel_in_range(*voxel),
        voxel.voxel_type.is_visible(),
        d < 6,
        old(mesh)@.wf(),
        old(mesh)@.vertices.len() + 4 <= u32::MAX,
    ensures
        final(mesh)@ == emit_face(old(mesh)@, *chunk, world_chunks@, *voxel, d as int),
        final(mesh)@.wf(),
        final(mesh)@.vertices.len() <= old(mesh)@.vertices.len() + 4,
{
    let normal = face_normal(d);
    let lp = voxel.local_position;
    let neighbor = IVec3::new(lp.x + normal.x, lp.y + normal.y, lp.z + normal.z);
    if chunk.is_void(&voxel.voxel_type, neighbor, world_chunks) {
        let aos = get_ao(chunk, &voxel.voxel_type, lp, normal, world_chunks);
        let ghost levels = aos@;
        assert(neighbor == across(lp, d as int));
        assert(levels == face_aos(*chunk, world_chunks@, *voxel, d as int));
        assert(forall|k: int| 0 <= k < 4 ==> levels[k] <= 3);
        let flipped = aos[1] + aos[3] > aos[0] + aos[2];
        let pattern = face_indices(d, flipped);
        assert forall|i: int| 0 <= i < pattern@.len() implies old(mesh)@.vertices.len()
            + #[trigger] pattern@[i] <= u32::MAX by {}
        mesh.set_indices(pattern);
        mesh.set_vertices(face_vertices(d, voxel.world_position));
        mesh.set_normals(normal);
        mesh.aos.push(aos[0]);
        mesh.aos.push(aos[1]);
        mesh.aos.push(aos[2]);
        mesh.aos.push(aos[3]);
        assert(mesh.aos@ =~= old(mesh).aos@ + levels);
        mesh.set_uvs(&voxel.voxel_type);
        assert(mesh@ =~= emit_face(old(mesh)@, *chunk, world_chunks@, *voxel, d as int));
    }
}

/// The surfaces of one chunk: solid ground and, apart, the liquids, which
/// are drawn blended and cast no shadows.
pub struct ChunkMesh {
    /// All solid ground.
    pub mesh: Mesh,
    /// All liquids.
    pub liquid_mesh: Mesh,
}

impl Default for ChunkMesh {
    fn default() -> (r: ChunkMesh)
        ensures
            r.mesh@ == MeshView::empty(),
            r.liquid_mesh@ == MeshView::empty(),
    {
        ChunkMesh { mesh: Mesh::default(), liquid_mesh: Mesh::default() }
    }
}

impl ChunkMesh {
    /// Meshes every visible voxel of `chunk`, then colours both meshes from
    /// their occlusion levels (the liquid one at three tenths of opacity),
    /// or at random when `settings` asks for it.
    pub fn build_chunk_mesh(&mut self, chunk: &Chunk, chunks: &ChunkMap, settings: &Settings)
        requires
            chunk.wf(),
            chunks_wf(chunks@),
            old(self).mesh@.wf(),
            old(self).liquid_mesh@.wf(),
            old(self).mesh@.vertices.len() + 24 * 32768 + 4 <= u32::MAX,
            old(self).liquid_mesh@.vertices.len() + 24 * 32768 + 4 <= u32::MAX,
        ensures
            ({
                let built = build_meshes(
                    old(self).mesh@,
                    old(self).liquid_mesh@,
                    *chunk,
                    chunks@,
                    32768,
                );
                &&& same_geometry(final(self).mesh@, built.0)
                &&& same_geometry(final(self).liquid_mesh@, built.1)
                &&& !settings.clown_vomit ==> final(self).mesh@ == with_ao_colors(built.0, 10)
                &&& !settings.clown_vomit ==> final(self).liquid_mesh@ == with_ao_colors(
                    built.1,
                    3,
                )
                &&& final(self).mesh@.colors.len() == built.0.vertices.len()
                &&& final(self).liquid_mesh@.colors.len() == built.1.vertices.len()
            }),
            settings.clown_vomit ==> random_colors(final(self).mesh@),
            settings.clown_vomit ==> random_colors(final(self).liquid_mesh@),
    {
        let ghost init_o = self.mesh@;
        let ghost init_l = self.liquid_mesh@;
        let mut i: usize = 0;
        while i < 32768
            invariant
                chunk.wf(),
                chunks_wf(chunks@),
                i <= 32768,
                (self.mesh@, self.liquid_mesh@) == build_meshes(init_o, init_l, *chunk, chunks@, i as nat),
                self.mesh@.wf(),
                self.liquid_mesh@.wf(),
                self.mesh@.vertices.len() <= init_o.vertices.len() + 24 * i,
                self.liquid_mesh@.vertices.len() <= init_l.vertices.len() + 24 * i,
                init_o.vertices.len() + 24 * 32768 + 4 <= u32::MAX,
                init_l.vertices.len() + 24 * 32768 + 4 <= u32::MAX,
            decreases 32768 - i,
        {
            let voxel = &chunk.voxels[i];
            if voxel.voxel_type.is_visible() {
                assert(chunk.voxels@[i as int] == *voxel);
                self.create_voxel_data(chunk, voxel, chunks);
            }
            i = i + 1;
        }
        let ghost built = (self.mesh@, self.liquid_mesh@);
        self.mesh.add_ao_color(10);
        self.liquid_mesh.add_ao_color(3);
        assert(self.mesh@ =~= with_ao_colors(built.0, 10));
        assert(self.liquid_mesh@ =~= with_ao_colors(built.1, 3));
        if settings.clown_vomit {
            self.mesh.clown_vomit();
            self.liquid_mesh.clown_vomit();
        }
    }

    /// Emits the exposed faces of one visible voxel into the mesh that its
    /// kind belongs to.
    fn create_voxel_data(&mut self, chunk: &Chunk, voxel: &Voxel, world_chunks: &ChunkMap)
        requires
            chunk.wf(),
            chunks_wf(world_chunks@),
            voxel_in_range(*voxel),
            voxel.voxel_type.is_visible(),
            old(self).mesh@.wf(),
            old(self).liquid_mesh@.wf(),
            old(self).mesh@.vertices.len() + 24 + 4 <= u32::MAX,
            old(self).liquid_mesh@.vertices.len() + 24 + 4 <= u32::MAX,
        ensures
            voxel.voxel_type.is_liquid() ==> final(self).mesh@ == old(self).mesh@
                && final(self).liquid_mesh@ == emit_faces(
                old(self).liquid_mesh@,
                *chunk,
                world_chunks@,
                *voxel,
                6,
            ),
            !voxel.voxel_type.is_liquid() ==> final(self).liquid_mesh@ == old(self).liquid_mesh@
                && final(self).mesh@ == emit_faces(
                old(self).mesh@,
                *chunk,
                world_chunks@,
                *voxel,
                6,
            ),
            final(self).mesh@.wf(),
            final(self).liquid_mesh@.wf(),
            final(self).mesh@.vertices.len() <= old(self).mesh@.vertices.len() + 24,
            final(self).liquid_mesh@.vertices.len() <= old(self).liquid_mesh@.vertices.len() + 24,
    {
        let mesh = if voxel.voxel_type.is_liquid() {
            &mut self.liquid_mesh
        } else {
            &mut self.mesh
        };
        let ghost start = mesh@;
        let mut d: usize = 0;
        while d < 6
            invariant
                chunk.wf(),
                chunks_wf(world_chunks@),
                voxel_in_range(*voxel),
                voxel.voxel_type.is_visible(),
                d <= 6,
                mesh@ == emit_faces(start, *chunk, world_chunks@, *voxel, d as nat),
                mesh@.wf(),
                mesh@.vertices.len() <= start.vertices.len() + 4 * d,
                start.vertices.len() + 24 + 4 <= u32::MAX,
            decreases 6 - d,
        {
            add_face(mesh, chunk, voxel, d, world_chunks);
            d = d + 1;
        }
    }
}

} // verus!
