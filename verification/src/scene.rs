//! The read-only description of a scene that the renderer consumes.
//!
//! Device objects are named by opaque handles; floating-point payloads are
//! carried as their IEEE-754 bit patterns, so that every value here can be
//! compared and encoded exactly.

use vstd::prelude::*;

verus! {

/// A range of a device buffer: the buffer's handle and a byte offset in it.
#[derive(Clone, Copy, Debug, PartialEq, Eq, Structural)]
pub struct BufferView {
    pub buffer: u64,
    pub offset: u64,
}

/// One primitive of a mesh, as the scene loader reports it.
#[derive(Clone, Copy, Debug, PartialEq, Eq, Structural)]
pub struct PrimitiveInfo {
    pub index_offset: u64,
    pub vertex_offset: u64,
    pub index_count: u64,
    pub vertex_count: u64,
    pub material_index: u64,
    pub color_offset: Option<u64>,
    pub tex_coord_offset: Option<u64>,
}

/// A mesh: its primitives in traversal order.
#[derive(Debug)]
pub struct MeshInfo {
    pub primitive_infos: Vec<PrimitiveInfo>,
}

impl View for MeshInfo {
    type V = Seq<PrimitiveInfo>;

    open spec fn view(&self) -> Seq<PrimitiveInfo> {
        self.primitive_infos@
    }
}

/// A texture reference of a material: which sampler reads which image.
#[derive(Clone, Copy, Debug, PartialEq, Eq, Structural)]
pub struct Texture {
    pub sampler_index: u32,
    pub image_index: u32,
}

/// A material, as the scene loader reports it. The colour factor holds the
/// bit patterns of four single-precision numbers.
#[derive(Clone, Copy, Debug, PartialEq, Eq)]
pub struct Material {
    pub base_color_factor: [u32; 4],
    pub base_color_texture: Option<Texture>,
    pub metallic_roughness_texture: Option<Texture>,
}

/// The kind of the indices in an index buffer.
#[derive(Clone, Copy, Debug, PartialEq, Eq, Structural)]
pub enum IndexType {
    Uint16,
    Uint32,
}

/// One geometry of a bottom-level structure, as a rasterizer draws it.
#[derive(Clone, Copy, Debug, PartialEq, Eq, Structural)]
pub struct DrawGeometry {
    pub vertex_buffer: BufferView,
    pub index_buffer: BufferView,
    pub index_type: IndexType,
    pub index_count: u32,
}

/// One instance of the top-level structure: its object-to-world matrix, as
/// sixteen bit patterns in column-major order, and the geometries it places.
#[derive(Debug)]
pub struct Instance {
    pub transform: [u32; 16],
    pub geometries: Vec<DrawGeometry>,
}

/// What an instance is to the proofs.
pub struct InstanceView {
    pub transform: [u32; 16],
    pub geometries: Seq<DrawGeometry>,
}

impl View for Instance {
    type V = InstanceView;

    open spec fn view(&self) -> InstanceView {
        InstanceView { transform: self.transform, geometries: self.geometries@ }
    }
}

/// What a run of instances is to the proofs.
pub open spec fn instance_views(instances: Seq<Instance>) -> Seq<InstanceView> {
    Seq::new(instances.len(), |i: int| instances[i]@)
}

/// Copies a run of instances.
pub fn copy_instances(instances: &Vec<Instance>) -> (copy: Vec<Instance>)
    ensures
        instance_views(copy@) == instance_views(instances@),
{
    let mut copy: Vec<Instance> = Vec::new();
    let mut i: usize = 0;
    while i < instances.len()
        invariant
            i <= instances@.len(),
            copy@.len() == i,
            forall|k: int| 0 <= k < i ==> (#[trigger] copy@[k])@ == instances@[k]@,
        decreases instances@.len() - i,
    {
        let source = &instances[i];
        let mut geometries: Vec<DrawGeometry> = Vec::new();
        let mut j: usize = 0;
        while j < source.geometries.len()
            invariant
                j <= source.geometries@.len(),
                geometries@ == source.geometries@.take(j as int),
            decreases source.geometries@.len() - j,
        {
            geometries.push(source.geometries[j]);
            assert(geometries@ =~= source.geometries@.take(j + 1));
            j += 1;
        }
        assert(source.geometries@.take(j as int) =~= source.geometries@);
        copy.push(Instance { transform: source.transform, geometries });
        i += 1;
    }
    assert(instance_views(copy@) =~= instance_views(instances@));
    copy
}

/// Everything the renderer reads from a loaded scene.
///
/// Two scenes with the same `identity` are the same scene: the loader hands
/// out a fresh token for every scene it loads.
#[derive(Debug)]
pub struct Scene {
    pub identity: u64,
    pub tlas: u64,
    pub index_buffer: BufferView,
    pub vertex_buffer: BufferView,
    pub transform_buffer: BufferView,
    pub mesh_infos: Vec<MeshInfo>,
    pub material_infos: Vec<Material>,
    pub image_count: u32,
    pub sampler_count: u32,
    pub color_buffer: Option<BufferView>,
    pub tex_coord_buffer: Option<BufferView>,
    pub instances: Vec<Instance>,
}

impl Scene {
    /// The instances of the scene, in the order in which they are drawn.
    pub open spec fn draw_list(&self) -> Seq<InstanceView> {
        instance_views(self.instances@)
    }

    /// The primitives of every mesh, mesh by mesh.
    pub open spec fn meshes(&self) -> Seq<Seq<PrimitiveInfo>> {
        Seq::new(self.mesh_infos@.len(), |i: int| self.mesh_infos@[i]@)
    }
}

/// The number of primitives in the first `k` meshes.
pub open spec fn primitives_before(meshes: Seq<Seq<PrimitiveInfo>>, k: int) -> int
    decreases k,
{
    if k <= 0 {
        0
    } else {
        primitives_before(meshes, k - 1) + meshes[k - 1].len()
    }
}

/// The primitives of the first `k` meshes, in traversal order.
pub open spec fn primitives_of_first(meshes: Seq<Seq<PrimitiveInfo>>, k: int) -> Seq<PrimitiveInfo>
    decreases k,
{
    if k <= 0 {
        Seq::empty()
    } else {
        primitives_of_first(meshes, k - 1) + meshes[k - 1]
    }
}

/// All primitives of a scene, in traversal order.
pub open spec fn all_primitives(meshes: Seq<Seq<PrimitiveInfo>>) -> Seq<PrimitiveInfo> {
    primitives_of_first(meshes, meshes.len() as int)
}

/// The first `k` meshes hold as many primitives as their flattening.
pub proof fn lemma_primitives_len(meshes: Seq<Seq<PrimitiveInfo>>, k: int)
    requires
        0 <= k <= meshes.len(),
    ensures
        primitives_of_first(meshes, k).len() == primitives_before(meshes, k),
        primitives_before(meshes, k) >= 0,
    decreases k,
{
    if k > 0 {
        lemma_primitives_len(meshes, k - 1);
    }
}

/// The count of primitives never shrinks as more meshes are taken.
pub proof fn lemma_primitives_before_monotonic(meshes: Seq<Seq<PrimitiveInfo>>, i: int, j: int)
    requires
        0 <= i <= j <= meshes.len(),
    ensures
        primitives_before(meshes, i) <= primitives_before(meshes, j),
    decreases j - i,
{
    if i < j {
        lemma_primitives_before_monotonic(meshes, i, j - 1);
    }
}

/// The `j`-th primitive of mesh `i` sits in the flattening at the position
/// that the count of the primitives before mesh `i` gives, plus `j`.
pub proof fn lemma_primitive_position(meshes: Seq<Seq<PrimitiveInfo>>, k: int, i: int, j: int)
    requires
        0 <= i < k <= meshes.len(),
        0 <= j < meshes[i].len(),
    ensures
        0 <= primitives_before(meshes, i) + j < primitives_of_first(meshes, k).len(),
        primitives_of_first(meshes, k)[primitives_before(meshes, i) + j] == meshes[i][j],
    decreases k,
{
    lemma_primitives_len(meshes, k - 1);
    lemma_primitives_len(meshes, i);
    if i == k - 1 {
    } else {
        lemma_primitive_position(meshes, k - 1, i, j);
    }
}

} // verus!
