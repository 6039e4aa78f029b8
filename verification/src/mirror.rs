//! The device-side mirror of a scene: its primitives flattened into
//! geometry records, the per-mesh offset table that finds a mesh's records
//! among them, and its material records.
//!
//! The mirror is rebuilt in full whenever the scene it is asked to follow is
//! not the one it holds, and left exactly as it is otherwise.

use vstd::prelude::*;
use crate::descriptor::{DescriptorUpdate, DescriptorWrite, MirrorBuffer};
use crate::error::FrameError;
use crate::records::{
    encode_geometry_infos, encode_material_infos, geometry_bytes, geometry_of, material_bytes,
    material_of, GeometryInfo, MaterialInfo,
};
use crate::scene::{
    all_primitives, lemma_primitives_before_monotonic, lemma_primitives_len, primitives_before,
    primitives_of_first, Material, PrimitiveInfo, Scene,
};
use crate::wire::{encode_u32_slice, le_u32_seq};

verus! {

/// Binding of the top-level acceleration structure.
pub const BINDING_TLAS: u32 = 0;

/// Binding of the scene's index buffer.
pub const BINDING_INDEX_BUFFER: u32 = 1;

/// Binding of the scene's vertex buffer.
pub const BINDING_VERTEX_BUFFER: u32 = 2;

/// Binding of the geometry records.
pub const BINDING_GEOMETRY_INFOS: u32 = 3;

/// Binding of the per-mesh offset table.
pub const BINDING_GEOMETRY_INFO_OFFSETS: u32 = 4;

/// Binding of the scene's per-instance transforms.
pub const BINDING_TRANSFORM_BUFFER: u32 = 5;

/// Binding of the scene's samplers.
pub const BINDING_SAMPLERS: u32 = 6;

/// Binding of the scene's images.
pub const BINDING_IMAGES: u32 = 7;

/// Binding of the material records.
pub const BINDING_MATERIAL_INFOS: u32 = 8;

/// Binding of the scene's per-vertex colours.
pub const BINDING_COLOR_BUFFER: u32 = 9;

/// Binding of the scene's per-vertex texture coordinates.
pub const BINDING_TEX_COORD_BUFFER: u32 = 10;

/// The geometry records of a run of primitives.
pub open spec fn geometry_records(prims: Seq<PrimitiveInfo>) -> Seq<GeometryInfo> {
    Seq::new(prims.len(), |i: int| geometry_of(prims[i]))
}

/// The material records of a run of materials.
pub open spec fn material_records(materials: Seq<Material>) -> Seq<MaterialInfo> {
    Seq::new(materials.len(), |i: int| material_of(materials[i]))
}

/// The offset table of a scene: entry `i` counts the primitives of the
/// meshes before mesh `i`, and the last entry counts them all.
pub open spec fn offset_table(meshes: Seq<Seq<PrimitiveInfo>>) -> Seq<u32> {
    Seq::new(meshes.len() + 1, |i: int| primitives_before(meshes, i) as u32)
}

/// Whether a scene can be mirrored: its primitives can be counted in 32
/// bits, and neither its samplers nor its images outnumber the ceiling of
/// the arrays they are bound to.
pub open spec fn mirrorable(scene: &Scene, ceiling: u32) -> bool {
    &&& primitives_before(scene.meshes(), scene.mesh_infos@.len() as int) <= u32::MAX
    &&& scene.sampler_count <= ceiling
    &&& scene.image_count <= ceiling
}

/// A write, spelled out.
pub open spec fn write_of(binding: u32, update: DescriptorUpdate) -> DescriptorWrite {
    DescriptorWrite { binding, update }
}

/// The write of the sampler array, unless the scene has no sampler.
pub open spec fn sampler_writes(scene: &Scene) -> Seq<DescriptorWrite> {
    if scene.sampler_count > 0 {
        seq![write_of(BINDING_SAMPLERS, DescriptorUpdate::SceneSamplers(scene.sampler_count))]
    } else {
        Seq::empty()
    }
}

/// The write of the image array, unless the scene has no image.
pub open spec fn image_writes(scene: &Scene) -> Seq<DescriptorWrite> {
    if scene.image_count > 0 {
        seq![write_of(BINDING_IMAGES, DescriptorUpdate::SceneImages(scene.image_count))]
    } else {
        Seq::empty()
    }
}

/// The write of an optional scene buffer, unless the scene has none.
pub open spec fn optional_buffer_writes(binding: u32, buffer: Option<crate::scene::BufferView>) -> Seq<DescriptorWrite> {
    match buffer {
        Some(view) => seq![write_of(binding, DescriptorUpdate::SceneBuffer(view))],
        None => Seq::empty(),
    }
}

/// The writes that are made whatever the scene holds.
pub open spec fn fixed_writes(scene: &Scene) -> Seq<DescriptorWrite> {
    seq![
        write_of(BINDING_INDEX_BUFFER, DescriptorUpdate::SceneBuffer(scene.index_buffer)),
        write_of(BINDING_VERTEX_BUFFER, DescriptorUpdate::SceneBuffer(scene.vertex_buffer)),
        write_of(BINDING_GEOMETRY_INFOS, DescriptorUpdate::MirrorBuffer(MirrorBuffer::GeometryInfos)),
        write_of(
            BINDING_GEOMETRY_INFO_OFFSETS,
            DescriptorUpdate::MirrorBuffer(MirrorBuffer::GeometryInfoOffsets),
        ),
        write_of(BINDING_TRANSFORM_BUFFER, DescriptorUpdate::SceneBuffer(scene.transform_buffer)),
        write_of(BINDING_MATERIAL_INFOS, DescriptorUpdate::MirrorBuffer(MirrorBuffer::MaterialInfos)),
    ]
}

/// The descriptor writes that a reload of `scene` makes, in order: the six
/// that every scene needs, then the sampler array, the image array, the
/// colour buffer and the texture coordinate buffer, each only if the scene
/// has it.
pub open spec fn scene_writes(scene: &Scene) -> Seq<DescriptorWrite> {
    fixed_writes(scene) + sampler_writes(scene) + image_writes(scene)
        + optional_buffer_writes(BINDING_COLOR_BUFFER, scene.color_buffer)
        + optional_buffer_writes(BINDING_TEX_COORD_BUFFER, scene.tex_coord_buffer)
}

/// The buffers that a reload allocates anew, in the order of their upload.
pub open spec fn reload_uploads() -> Seq<MirrorBuffer> {
    seq![MirrorBuffer::GeometryInfos, MirrorBuffer::GeometryInfoOffsets, MirrorBuffer::MaterialInfos]
}

/// What one call of `sync` asks of the device.
#[derive(Debug)]
pub struct SyncOutcome {
    /// Whether the mirror was rebuilt.
    pub reloaded: bool,
    /// The mirror buffers to allocate anew and fill from the mirror.
    pub uploads: Vec<MirrorBuffer>,
    /// The descriptor writes to make once the uploads are done.
    pub writes: Vec<DescriptorWrite>,
}

/// The mirror of at most one scene.
#[derive(Debug)]
pub struct SceneGpuMirror {
    ceiling: u32,
    cached: Option<u64>,
    geometry_infos: Vec<GeometryInfo>,
    geometry_info_offsets: Vec<u32>,
    material_infos: Vec<MaterialInfo>,
    geometry_infos_buffer: Vec<u8>,
    geometry_info_offsets_buffer: Vec<u8>,
    material_infos_buffer: Vec<u8>,
}

impl SceneGpuMirror {
    /// The ceiling on the length of the sampler and image arrays.
    pub closed spec fn ceiling(&self) -> u32 {
        self.ceiling
    }

    /// The identity of the mirrored scene, if there is one.
    pub closed spec fn cached_identity(&self) -> Option<u64> {
        self.cached
    }

    /// The geometry records held.
    pub closed spec fn records(&self) -> Seq<GeometryInfo> {
        self.geometry_infos@
    }

    /// The offset table held.
    pub closed spec fn offsets(&self) -> Seq<u32> {
        self.geometry_info_offsets@
    }

    /// The material records held.
    pub closed spec fn materials(&self) -> Seq<MaterialInfo> {
        self.material_infos@
    }

    /// The bytes of one of the three buffers.
    pub closed spec fn buffer(&self, which: MirrorBuffer) -> Seq<u8> {
        match which {
            MirrorBuffer::GeometryInfos => self.geometry_infos_buffer@,
            MirrorBuffer::GeometryInfoOffsets => self.geometry_info_offsets_buffer@,
            MirrorBuffer::MaterialInfos => self.material_infos_buffer@,
        }
    }

    /// Whether nothing is mirrored: no identity, no record, and three
    /// placeholder buffers without a byte.
    pub open spec fn is_empty(&self) -> bool {
        &&& self.cached_identity() is None
        &&& self.records().len() == 0
        &&& self.offsets().len() == 0
        &&& self.materials().len() == 0
        &&& self.buffer(MirrorBuffer::GeometryInfos).len() == 0
        &&& self.buffer(MirrorBuffer::GeometryInfoOffsets).len() == 0
        &&& self.buffer(MirrorBuffer::MaterialInfos).len() == 0
    }

    /// Whether the mirror holds exactly what `scene` flattens to.
    pub open spec fn reflects(&self, scene: &Scene) -> bool {
        &&& mirrorable(scene, self.ceiling())
        &&& self.cached_identity() == Some(scene.identity)
        &&& self.records() == geometry_records(all_primitives(scene.meshes()))
        &&& self.offsets() == offset_table(scene.meshes())
        &&& self.materials() == material_records(scene.material_infos@)
    }

    /// The invariant: each buffer holds the encoding of the records it
    /// mirrors, and an offset table, once there is one, starts at zero,
    /// never decreases and ends at the number of geometry records.
    pub open spec fn wf(&self) -> bool {
        &&& self.buffer(MirrorBuffer::GeometryInfos) == geometry_bytes(self.records())
        &&& self.buffer(MirrorBuffer::GeometryInfoOffsets) == le_u32_seq(self.offsets())
        &&& self.buffer(MirrorBuffer::MaterialInfos) == material_bytes(self.materials())
        &&& self.cached_identity() is None ==> self.is_empty()
        &&& self.cached_identity() is Some ==> {
            &&& self.offsets().len() > 0
            &&& self.offsets()[0] == 0
            &&& self.offsets().last() == self.records().len()
            &&& forall|i: int, j: int|
                0 <= i <= j < self.offsets().len() ==> self.offsets()[i] <= self.offsets()[j]
        }
    }

    /// A mirror of nothing, for arrays of at most `ceiling` samplers and
    /// images.
    pub fn new(ceiling: u32) -> (m: SceneGpuMirror)
        ensures
            m.wf(),
            m.is_empty(),
            m.ceiling() == ceiling,
    {
        let m = SceneGpuMirror {
            ceiling,
            cached: None,
            geometry_infos: Vec::new(),
            geometry_info_offsets: Vec::new(),
            material_infos: Vec::new(),
            geometry_infos_buffer: Vec::new(),
            geometry_info_offsets_buffer: Vec::new(),
            material_infos_buffer: Vec::new(),
        };
        proof {
            assert(geometry_bytes(m.records()) =~= Seq::<u8>::empty());
            assert(le_u32_seq(m.offsets()) =~= Seq::<u8>::empty());
            assert(material_bytes(m.materials()) =~= Seq::<u8>::empty());
        }
        m
    }

    /// The identity of the mirrored scene, if there is one.
    pub fn identity(&self) -> (id: Option<u64>)
        ensures
            id == self.cached_identity(),
    {
        self.cached
    }

    /// The geometry records, one per primitive, in traversal order.
    pub fn geometry_infos(&self) -> (gs: &Vec<GeometryInfo>)
        ensures
            gs@ == self.records(),
    {
        &self.geometry_infos
    }

    /// The offset table.
    pub fn geometry_info_offsets(&self) -> (os: &Vec<u32>)
        ensures
            os@ == self.offsets(),
    {
        &self.geometry_info_offsets
    }

    /// The material records, one per material, in the scene's order.
    pub fn material_infos(&self) -> (ms: &Vec<MaterialInfo>)
        ensures
            ms@ == self.materials(),
    {
        &self.material_infos
    }

    /// The bytes to upload for one of the three buffers.
    pub fn buffer_bytes(&self, which: MirrorBuffer) -> (bytes: &Vec<u8>)
        ensures
            bytes@ == self.buffer(which),
    {
        match which {
            MirrorBuffer::GeometryInfos => &self.geometry_infos_buffer,
            MirrorBuffer::GeometryInfoOffsets => &self.geometry_info_offsets_buffer,
            MirrorBuffer::MaterialInfos => &self.material_infos_buffer,
        }
    }

    /// What one call of `sync` on the mirror `pre` with `scene` may leave:
    /// the mirror `post` and the answer `r`.
    ///
    /// If `pre` already mirrors the scene, nothing happens. If it does not
    /// and the scene can be mirrored, `post` reflects the scene, all three
    /// buffers are uploaded anew and the scene's writes are made. If it
    /// cannot be mirrored, the call fails and `post` is `pre`.
    pub open spec fn sync_post(
        pre: SceneGpuMirror,
        scene: &Scene,
        post: SceneGpuMirror,
        r: Result<SyncOutcome, FrameError>,
    ) -> bool {
        &&& post.wf()
        &&& post.ceiling() == pre.ceiling()
        &&& if pre.cached_identity() == Some(scene.identity) {
            &&& post == pre
            &&& r matches Ok(outcome)
            &&& !outcome.reloaded
            &&& outcome.uploads@ == Seq::<MirrorBuffer>::empty()
            &&& outcome.writes@ == Seq::<DescriptorWrite>::empty()
        } else if mirrorable(scene, pre.ceiling()) {
            &&& post.reflects(scene)
            &&& r matches Ok(outcome)
            &&& outcome.reloaded
            &&& outcome.uploads@ == reload_uploads()
            &&& outcome.writes@ == scene_writes(scene)
        } else {
            &&& post == pre
            &&& r == Err::<SyncOutcome, FrameError>(FrameError::SceneUploadFailed)
        }
    }

    /// Brings the mirror in step with `scene`.
    ///
    /// A scene with the identity the mirror holds is left alone: no buffer
    /// is touched and no descriptor is written. Any other scene is flattened
    /// in full, and the outcome lists the three buffers to allocate anew and
    /// the descriptor writes to make. A scene that cannot be mirrored is
    /// refused with `SceneUploadFailed`, and the mirror stays as it was.
    pub fn sync(&mut self, scene: &Scene) -> (r: Result<SyncOutcome, FrameError>)
        requires
            old(self).wf(),
        ensures
            SceneGpuMirror::sync_post(*old(self), scene, *final(self), r),
    {
        let same = match self.cached {
            Some(id) => id == scene.identity,
            None => false,
        };
        if same {
            return Ok(SyncOutcome { reloaded: false, uploads: Vec::new(), writes: Vec::new() });
        }
        if scene.sampler_count > self.ceiling || scene.image_count > self.ceiling {
            return Err(FrameError::SceneUploadFailed);
        }
        match flatten_meshes(scene) {
            None => Err(FrameError::SceneUploadFailed),
            Some((records, offsets)) => {
                let materials = convert_materials(&scene.material_infos);
                let geometry_infos_buffer = encode_geometry_infos(&records);
                let geometry_info_offsets_buffer = encode_u32_slice(&offsets);
                let material_infos_buffer = encode_material_infos(&materials);
                let writes = plan_scene_writes(scene);
                let mut uploads: Vec<MirrorBuffer> = Vec::new();
                uploads.push(MirrorBuffer::GeometryInfos);
                uploads.push(MirrorBuffer::GeometryInfoOffsets);
                uploads.push(MirrorBuffer::MaterialInfos);
                proof {
                    assert(uploads@ =~= reload_uploads());
                    lemma_offset_table(scene.meshes());
                    lemma_primitives_len(scene.meshes(), scene.mesh_infos@.len() as int);
                }
                self.cached = Some(scene.identity);
                self.geometry_infos = records;
                self.geometry_info_offsets = offsets;
                self.material_infos = materials;
                self.geometry_infos_buffer = geometry_infos_buffer;
                self.geometry_info_offsets_buffer = geometry_info_offsets_buffer;
                self.material_infos_buffer = material_infos_buffer;
                Ok(SyncOutcome { reloaded: true, uploads, writes })
            },
        }
    }
}

/// The offset table of a scene whose primitives can be counted in 32 bits
/// has one entry more than the scene has meshes, starts at zero, grows from
/// each entry to the next by the number of primitives of that mesh, never
/// decreases, and ends at the number of all primitives.
pub proof fn lemma_offset_table(meshes: Seq<Seq<PrimitiveInfo>>)
    requires
        primitives_before(meshes, meshes.len() as int) <= u32::MAX,
    ensures
        offset_table(meshes).len() == meshes.len() + 1,
        offset_table(meshes)[0] == 0,
        offset_table(meshes).last() == primitives_before(meshes, meshes.len() as int),
        forall|i: int|
            0 <= i < meshes.len() ==> #[trigger] offset_table(meshes)[i + 1] - offset_table(
                meshes,
            )[i] == meshes[i].len(),
        forall|i: int, j: int|
            0 <= i <= j < offset_table(meshes).len() ==> offset_table(meshes)[i] <= offset_table(
                meshes,
            )[j],
{
    let table = offset_table(meshes);
    let n = meshes.len() as int;
    assert forall|i: int| 0 <= i <= n implies 0 <= #[trigger] primitives_before(meshes, i)
        <= u32::MAX by {
        lemma_primitives_len(meshes, i);
        lemma_primitives_before_monotonic(meshes, i, n);
    }
    assert forall|i: int| 0 <= i <= n implies #[trigger] table[i] == primitives_before(
        meshes,
        i,
    ) by {}
    assert forall|i: int| 0 <= i < n implies #[trigger] table[i + 1] - table[i] == meshes[i].len() by {
        assert(table[i + 1] == primitives_before(meshes, i + 1));
        assert(table[i] == primitives_before(meshes, i));
    }
    assert forall|i: int, j: int| 0 <= i <= j < table.len() implies table[i] <= table[j] by {
        lemma_primitives_before_monotonic(meshes, i, j);
        assert(table[i] == primitives_before(meshes, i));
        assert(table[j] == primitives_before(meshes, j));
    }
}

/// Flattens the meshes of a scene: one geometry record per primitive, in
/// traversal order, and the offset table over them. There is no result when
/// the primitives cannot be counted in 32 bits.
pub fn flatten_meshes(scene: &Scene) -> (r: Option<(Vec<GeometryInfo>, Vec<u32>)>)
    ensures
        r is Some <==> primitives_before(scene.meshes(), scene.mesh_infos@.len() as int) <= u32::MAX,
        r matches Some(flat) ==> {
            &&& flat.0@ == geometry_records(all_primitives(scene.meshes()))
            &&& flat.1@ == offset_table(scene.meshes())
        },
{
    let ghost meshes = scene.meshes();
    let mut records: Vec<GeometryInfo> = Vec::new();
    let mut offsets: Vec<u32> = Vec::new();
    offsets.push(0);
    let mut k: usize = 0;
    proof {
        assert(records@ =~= geometry_records(primitives_of_first(meshes, 0)));
        assert(offsets@ =~= Seq::new(1, |i: int| primitives_before(meshes, i) as u32));
    }
    while k < scene.mesh_infos.len()
        invariant
            meshes == scene.meshes(),
            k <= scene.mesh_infos@.len(),
            primitives_before(meshes, k as int) <= u32::MAX,
            records@ == geometry_records(primitives_of_first(meshes, k as int)),
            offsets@ == Seq::new(k as nat + 1, |i: int| primitives_before(meshes, i) as u32),
        decreases scene.mesh_infos@.len() - k,
    {
        let mesh = &scene.mesh_infos[k];
        let count: usize = mesh.primitive_infos.len();
        let last: u32 = offsets[offsets.len() - 1];
        proof {
            lemma_primitives_len(meshes, k as int);
            assert(meshes[k as int] == mesh@);
            assert(last == primitives_before(meshes, k as int));
        }
        if count > (u32::MAX - last) as usize {
            proof {
                lemma_primitives_before_monotonic(meshes, k + 1, scene.mesh_infos@.len() as int);
            }
            return None;
        }
        let mut j: usize = 0;
        while j < count
            invariant
                meshes == scene.meshes(),
                k < scene.mesh_infos@.len(),
                mesh == &scene.mesh_infos@[k as int],
                count == mesh.primitive_infos@.len(),
                j <= count,
                records@ == geometry_records(
                    primitives_of_first(meshes, k as int) + mesh@.take(j as int),
                ),
            decreases count - j,
        {
            let g = GeometryInfo::from_primitive(&mesh.primitive_infos[j]);
            records.push(g);
            proof {
                let before = primitives_of_first(meshes, k as int);
                assert(before + mesh@.take(j + 1) =~= (before + mesh@.take(j as int)).push(
                    mesh@[j as int],
                ));
                assert(records@ =~= geometry_records(before + mesh@.take(j + 1)));
            }
            j += 1;
        }
        let next: u32 = last + count as u32;
        offsets.push(next);
        proof {
            assert(mesh@.take(count as int) =~= mesh@);
            assert(meshes[k as int] == mesh@);
            assert(next == primitives_before(meshes, k + 1));
            assert(offsets@ =~= Seq::new(k as nat + 2, |i: int| primitives_before(meshes, i) as u32));
        }
        k += 1;
    }
    Some((records, offsets))
}

/// The record of every material of a scene, in the scene's order.
pub fn convert_materials(materials: &Vec<Material>) -> (out: Vec<MaterialInfo>)
    ensures
        out@ == material_records(materials@),
{
    let mut out: Vec<MaterialInfo> = Vec::new();
    let mut i: usize = 0;
    while i < materials.len()
        invariant
            i <= materials@.len(),
            out@ == material_records(materials@.take(i as int)),
        decreases materials@.len() - i,
    {
        let m = MaterialInfo::from_material(&materials[i]);
        out.push(m);
        proof {
            assert(out@ =~= material_records(materials@.take(i + 1)));
        }
        i += 1;
    }
    proof {
        assert(materials@.take(i as int) =~= materials@);
    }
    out
}

/// The descriptor writes that a reload of `scene` makes.
pub fn plan_scene_writes(scene: &Scene) -> (writes: Vec<DescriptorWrite>)
    ensures
        writes@ == scene_writes(scene),
{
    let mut writes: Vec<DescriptorWrite> = Vec::new();
    writes.push(
        DescriptorWrite {
            binding: BINDING_INDEX_BUFFER,
            update: DescriptorUpdate::SceneBuffer(scene.index_buffer),
        },
    );
    writes.push(
        DescriptorWrite {
            binding: BINDING_VERTEX_BUFFER,
            update: DescriptorUpdate::SceneBuffer(scene.vertex_buffer),
        },
    );
    writes.push(
        DescriptorWrite {
            binding: BINDING_GEOMETRY_INFOS,
            update: DescriptorUpdate::MirrorBuffer(MirrorBuffer::GeometryInfos),
        },
    );
    writes.push(
        DescriptorWrite {
            binding: BINDING_GEOMETRY_INFO_OFFSETS,
            update: DescriptorUpdate::MirrorBuffer(MirrorBuffer::GeometryInfoOffsets),
        },
    );
    writes.push(
        DescriptorWrite {
            binding: BINDING_TRANSFORM_BUFFER,
            update: DescriptorUpdate::SceneBuffer(scene.transform_buffer),
        },
    );
    writes.push(
        DescriptorWrite {
            binding: BINDING_MATERIAL_INFOS,
            update: DescriptorUpdate::MirrorBuffer(MirrorBuffer::MaterialInfos),
        },
    );
    assert(writes@ =~= fixed_writes(scene));
    if scene.sampler_count > 0 {
        writes.push(
            DescriptorWrite {
                binding: BINDING_SAMPLERS,
                update: DescriptorUpdate::SceneSamplers(scene.sampler_count),
            },
        );
    }
    assert(writes@ =~= fixed_writes(scene) + sampler_writes(scene));
    if scene.image_count > 0 {
        writes.push(
            DescriptorWrite {
                binding: BINDING_IMAGES,
                update: DescriptorUpdate::SceneImages(scene.image_count),
            },
        );
    }
    assert(writes@ =~= fixed_writes(scene) + sampler_writes(scene) + image_writes(scene));
    if let Some(view) = scene.color_buffer {
        writes.push(
            DescriptorWrite {
                binding: BINDING_COLOR_BUFFER,
                update: DescriptorUpdate::SceneBuffer(view),
            },
        );
    }
    assert(writes@ =~= fixed_writes(scene) + sampler_writes(scene) + image_writes(scene)
        + optional_buffer_writes(BINDING_COLOR_BUFFER, scene.color_buffer));
    if let Some(view) = scene.tex_coord_buffer {
        writes.push(
            DescriptorWrite {
                binding: BINDING_TEX_COORD_BUFFER,
                update: DescriptorUpdate::SceneBuffer(view),
            },
        );
    }
    assert(writes@ =~= scene_writes(scene));
    writes
}

/// For a mirror that reflects a scene of `k` meshes, the offset table has
/// `k + 1` entries, its first entry is zero, and each entry exceeds the one
/// before it by the number of primitives of the mesh between them.
pub proof fn law_offset_table_counts_primitives(mirror: SceneGpuMirror, scene: &Scene)
    requires
        mirror.reflects(scene),
    ensures
        mirror.offsets().len() == scene.mesh_infos@.len() + 1,
        mirror.offsets()[0] == 0,
        forall|i: int|
            0 <= i < scene.mesh_infos@.len() ==> #[trigger] mirror.offsets()[i + 1]
                - mirror.offsets()[i] == scene.mesh_infos@[i]@.len(),
{
    lemma_offset_table(scene.meshes());
    assert forall|i: int| 0 <= i < scene.mesh_infos@.len() implies #[trigger] mirror.offsets()[i
        + 1] - mirror.offsets()[i] == scene.mesh_infos@[i]@.len() by {
        assert(offset_table(scene.meshes())[i + 1] - offset_table(scene.meshes())[i]
            == scene.meshes()[i].len());
    }
}

/// A second `sync` with the scene that the first one mirrored uploads no
/// buffer, writes no descriptor and leaves the mirror as the first call
/// left it.
pub proof fn law_second_sync_is_idle(
    before: SceneGpuMirror,
    scene: &Scene,
    between: SceneGpuMirror,
    first: Result<SyncOutcome, FrameError>,
    after: SceneGpuMirror,
    second: Result<SyncOutcome, FrameError>,
)
    requires
        SceneGpuMirror::sync_post(before, scene, between, first),
        first is Ok,
        SceneGpuMirror::sync_post(between, scene, after, second),
    ensures
        second matches Ok(outcome) && !outcome.reloaded && outcome.uploads@.len() == 0
            && outcome.writes@.len() == 0,
        after == between,
{
}

/// A `sync` with a scene other than the one held, if that scene can be
/// mirrored at all, uploads all three buffers anew and leaves the mirror
/// holding the new scene's identity.
pub proof fn law_sync_of_other_scene_reloads(
    before: SceneGpuMirror,
    scene: &Scene,
    after: SceneGpuMirror,
    r: Result<SyncOutcome, FrameError>,
)
    requires
        SceneGpuMirror::sync_post(before, scene, after, r),
        before.cached_identity() != Some(scene.identity),
        mirrorable(scene, before.ceiling()),
    ensures
        r matches Ok(outcome) && outcome.reloaded && outcome.uploads@ == seq![
            MirrorBuffer::GeometryInfos,
            MirrorBuffer::GeometryInfoOffsets,
            MirrorBuffer::MaterialInfos,
        ],
        after.cached_identity() == Some(scene.identity),
{
}

/// No reload writes the sampler array, the image array, the colour buffer or
/// the texture coordinate buffer of a scene that has none, and no write ever
/// names an array of zero elements.
pub proof fn law_absent_resources_are_not_written(scene: &Scene, i: int)
    requires
        0 <= i < scene_writes(scene).len(),
    ensures
        scene_writes(scene)[i].binding == BINDING_SAMPLERS ==> scene.sampler_count > 0,
        scene_writes(scene)[i].binding == BINDING_IMAGES ==> scene.image_count > 0,
        scene_writes(scene)[i].binding == BINDING_COLOR_BUFFER ==> scene.color_buffer is Some,
        scene_writes(scene)[i].binding == BINDING_TEX_COORD_BUFFER ==> scene.tex_coord_buffer is Some,
        scene_writes(scene)[i].update != DescriptorUpdate::SceneSamplers(0),
        scene_writes(scene)[i].update != DescriptorUpdate::SceneImages(0),
{
}

} // verus!
