//! The ray-traced pass: three descriptor sets, a pipeline of a ray
//! generation, a miss and a closest-hit stage, a mirror of the scene, and
//! per frame one dispatch of rays into an image of its own that is then
//! copied onto the target.

use vstd::prelude::*;
use crate::bindless::DescriptorHelper;
use crate::camera::{CameraInfo, CameraMatrices, CAMERA_INFO_SIZE};
use crate::command::{
    blit_addressable, cmd_blit_image, full_blit, white, ClearColor, Extent, Format, Frame,
    ImageSlot, RenderCommand, ONE,
};
use crate::descriptor::{
    demand, fixed_binding, layout_valid, lemma_writes_fit_concat, make_binding, measure,
    pool_covers, push_binding, update_fits, write_fits, writes_fit, BindingLayoutCatalog,
    DescriptorBindingSpec, DescriptorUpdate, DescriptorWrite, Filter, PoolSizes, PushConstantRange,
    ResourceKind, SamplerAddressMode, SamplerSpec, STAGE_ALL, STAGE_CLOSEST_HIT, STAGE_MISS,
    STAGE_RAYGEN,
};
use crate::error::{FrameError, StartupError};
use crate::hot_reload::{pipeline_after, published, CompileResult, ShaderReceiver};
use crate::mirror::{
    fixed_writes, image_writes, mirrorable, optional_buffer_writes, sampler_writes, scene_writes,
    write_of, SceneGpuMirror, SyncOutcome, BINDING_COLOR_BUFFER, BINDING_TEX_COORD_BUFFER,
    BINDING_TLAS,
};
use crate::scene::Scene;

verus! {

/// The ceiling on the length of the sampler array and of the image array.
pub const TEXTURE_ARRAY_LEN: u32 = 500;

/// How deep rays may recurse.
pub const MAX_RECURSION_DEPTH: u32 = 31;

/// The set of the scene's resources.
pub const SCENE_SET: u32 = 0;

/// The set of the pass's own images.
pub const IMAGE_SET: u32 = 1;

/// The set of the environment image.
pub const SKYMAP_SET: u32 = 2;

/// The stages that read the camera: ray generation and closest hit.
pub const CAMERA_STAGES: u32 = STAGE_RAYGEN | STAGE_CLOSEST_HIT;

/// An image can be the source of a transfer.
pub const USAGE_TRANSFER_SRC: u32 = 0x0000_0001;

/// An image can be the destination of a transfer.
pub const USAGE_TRANSFER_DST: u32 = 0x0000_0002;

/// An image can be written by shaders.
pub const USAGE_STORAGE: u32 = 0x0000_0008;

/// What the colour target is used for: storage, and both ends of a transfer.
pub const COLOR_IMAGE_USAGE: u32 = USAGE_STORAGE | USAGE_TRANSFER_DST | USAGE_TRANSFER_SRC;

/// The settings of an image that a pass owns.
#[derive(Clone, Copy, Debug, PartialEq, Eq, Structural)]
pub struct ImageSpec {
    pub format: Format,
    pub extent: Extent,
    pub usage: u32,
}

/// The sampler that reads the environment image: linear, clamped.
pub open spec fn sky_sampler() -> SamplerSpec {
    SamplerSpec {
        mag_filter: Filter::Linear,
        min_filter: Filter::Linear,
        address_mode_u: SamplerAddressMode::ClampToEdge,
        address_mode_v: SamplerAddressMode::ClampToEdge,
    }
}

/// The sampler that stands in where a material has none: nearest, clamped.
pub open spec fn default_sampler() -> SamplerSpec {
    SamplerSpec {
        mag_filter: Filter::Nearest,
        min_filter: Filter::Nearest,
        address_mode_u: SamplerAddressMode::ClampToEdge,
        address_mode_v: SamplerAddressMode::ClampToEdge,
    }
}

/// A storage buffer binding of the scene set.
pub open spec fn buffer_binding(binding: u32) -> DescriptorBindingSpec {
    fixed_binding(SCENE_SET, binding, ResourceKind::StorageBuffer, STAGE_ALL, 1)
}

/// The bindings of the scene set, all seen by every stage: the acceleration
/// structure; the index buffer, the vertex buffer, the geometry records,
/// the offset table and the transforms; up to 500 samplers and up to 500
/// images; the material records, the colours and the texture coordinates.
pub open spec fn scene_set_bindings() -> Seq<DescriptorBindingSpec> {
    seq![
        fixed_binding(SCENE_SET, 0, ResourceKind::AccelerationStructure, STAGE_ALL, 1),
        buffer_binding(1),
        buffer_binding(2),
        buffer_binding(3),
        buffer_binding(4),
        buffer_binding(5),
        fixed_binding(SCENE_SET, 6, ResourceKind::Sampler, STAGE_ALL, TEXTURE_ARRAY_LEN),
        fixed_binding(SCENE_SET, 7, ResourceKind::SampledImage, STAGE_ALL, TEXTURE_ARRAY_LEN),
        buffer_binding(8),
        buffer_binding(9),
        buffer_binding(10),
    ]
}

/// The binding of the environment sampler, which is built into the layout.
pub open spec fn sky_sampler_binding() -> DescriptorBindingSpec {
    DescriptorBindingSpec {
        set: IMAGE_SET,
        binding: 2,
        kind: ResourceKind::Sampler,
        visibility: STAGE_ALL,
        count: 1,
        variable_count: false,
        immutable_sampler: Some(sky_sampler()),
    }
}

/// The bindings of the image set: the colour target, the ambient occlusion
/// target, and the environment sampler.
pub open spec fn image_set_bindings() -> Seq<DescriptorBindingSpec> {
    seq![
        fixed_binding(IMAGE_SET, 0, ResourceKind::StorageImage, STAGE_ALL, 1),
        fixed_binding(IMAGE_SET, 1, ResourceKind::StorageImage, STAGE_ALL, 1),
        sky_sampler_binding(),
    ]
}

/// The one binding of the skymap set: the environment image, seen by the
/// miss stage alone.
pub open spec fn skymap_set_bindings() -> Seq<DescriptorBindingSpec> {
    seq![fixed_binding(SKYMAP_SET, 0, ResourceKind::SampledImage, STAGE_MISS, 1)]
}

/// The writes that populate the image set when it is made.
pub open spec fn image_set_writes() -> Seq<DescriptorWrite> {
    seq![
        write_of(0, DescriptorUpdate::PassImage(ImageSlot::Color)),
        write_of(1, DescriptorUpdate::PassImage(ImageSlot::AmbientOcclusion)),
    ]
}

/// What the three sets of the pass take from a pool, all together.
pub open spec fn ray_tracing_pool_sizes() -> PoolSizes {
    PoolSizes {
        acceleration_structures: 1,
        storage_buffers: 8,
        storage_images: 2,
        sampled_images: 501,
        samplers: 501,
    }
}

/// Sizes without a descriptor of any kind.
pub open spec fn no_descriptors() -> PoolSizes {
    PoolSizes {
        acceleration_structures: 0,
        storage_buffers: 0,
        storage_images: 0,
        sampled_images: 0,
        samplers: 0,
    }
}

/// Builds the bindings of the scene set.
pub fn make_scene_set_bindings() -> (bindings: Vec<DescriptorBindingSpec>)
    ensures
        bindings@ == scene_set_bindings(),
        layout_valid(SCENE_SET, bindings@),
        demand(bindings@, ResourceKind::AccelerationStructure) == 1,
        demand(bindings@, ResourceKind::StorageBuffer) == 8,
        demand(bindings@, ResourceKind::StorageImage) == 0,
        demand(bindings@, ResourceKind::SampledImage) == 500,
        demand(bindings@, ResourceKind::Sampler) == 500,
{
    let mut bindings: Vec<DescriptorBindingSpec> = Vec::new();
    assert(layout_valid(SCENE_SET, bindings@));
    push_binding(
        &mut bindings,
        make_binding(SCENE_SET, 0, ResourceKind::AccelerationStructure, STAGE_ALL, 1),
    );
    assert(layout_valid(SCENE_SET, bindings@));
    push_binding(&mut bindings, make_binding(SCENE_SET, 1, ResourceKind::StorageBuffer, STAGE_ALL, 1));
    assert(layout_valid(SCENE_SET, bindings@));
    push_binding(&mut bindings, make_binding(SCENE_SET, 2, ResourceKind::StorageBuffer, STAGE_ALL, 1));
    assert(layout_valid(SCENE_SET, bindings@));
    push_binding(&mut bindings, make_binding(SCENE_SET, 3, ResourceKind::StorageBuffer, STAGE_ALL, 1));
    assert(layout_valid(SCENE_SET, bindings@));
    push_binding(&mut bindings, make_binding(SCENE_SET, 4, ResourceKind::StorageBuffer, STAGE_ALL, 1));
    assert(layout_valid(SCENE_SET, bindings@));
    push_binding(&mut bindings, make_binding(SCENE_SET, 5, ResourceKind::StorageBuffer, STAGE_ALL, 1));
    assert(layout_valid(SCENE_SET, bindings@));
    assert(demand(bindings@, ResourceKind::StorageBuffer) == 5);
    push_binding(
        &mut bindings,
        make_binding(SCENE_SET, 6, ResourceKind::Sampler, STAGE_ALL, TEXTURE_ARRAY_LEN),
    );
    assert(layout_valid(SCENE_SET, bindings@));
    push_binding(
        &mut bindings,
        make_binding(SCENE_SET, 7, ResourceKind::SampledImage, STAGE_ALL, TEXTURE_ARRAY_LEN),
    );
    assert(layout_valid(SCENE_SET, bindings@));
    push_binding(&mut bindings, make_binding(SCENE_SET, 8, ResourceKind::StorageBuffer, STAGE_ALL, 1));
    assert(layout_valid(SCENE_SET, bindings@));
    push_binding(&mut bindings, make_binding(SCENE_SET, 9, ResourceKind::StorageBuffer, STAGE_ALL, 1));
    assert(layout_valid(SCENE_SET, bindings@));
    push_binding(&mut bindings, make_binding(SCENE_SET, 10, ResourceKind::StorageBuffer, STAGE_ALL, 1));
    assert(bindings@ =~= scene_set_bindings());
    bindings
}

/// Builds the bindings of the image set.
pub fn make_image_set_bindings() -> (bindings: Vec<DescriptorBindingSpec>)
    ensures
        bindings@ == image_set_bindings(),
        layout_valid(IMAGE_SET, bindings@),
        demand(bindings@, ResourceKind::AccelerationStructure) == 0,
        demand(bindings@, ResourceKind::StorageBuffer) == 0,
        demand(bindings@, ResourceKind::StorageImage) == 2,
        demand(bindings@, ResourceKind::SampledImage) == 0,
        demand(bindings@, ResourceKind::Sampler) == 1,
{
    let mut bindings: Vec<DescriptorBindingSpec> = Vec::new();
    assert(layout_valid(IMAGE_SET, bindings@));
    push_binding(&mut bindings, make_binding(IMAGE_SET, 0, ResourceKind::StorageImage, STAGE_ALL, 1));
    assert(layout_valid(IMAGE_SET, bindings@));
    push_binding(&mut bindings, make_binding(IMAGE_SET, 1, ResourceKind::StorageImage, STAGE_ALL, 1));
    assert(layout_valid(IMAGE_SET, bindings@));
    push_binding(
        &mut bindings,
        DescriptorBindingSpec {
            set: IMAGE_SET,
            binding: 2,
            kind: ResourceKind::Sampler,
            visibility: STAGE_ALL,
            count: 1,
            variable_count: false,
            immutable_sampler: Some(
                SamplerSpec {
                    mag_filter: Filter::Linear,
                    min_filter: Filter::Linear,
                    address_mode_u: SamplerAddressMode::ClampToEdge,
                    address_mode_v: SamplerAddressMode::ClampToEdge,
                },
            ),
        },
    );
    assert(bindings@ =~= image_set_bindings());
    bindings
}

/// Builds the bindings of the skymap set.
pub fn make_skymap_set_bindings() -> (bindings: Vec<DescriptorBindingSpec>)
    ensures
        bindings@ == skymap_set_bindings(),
        layout_valid(SKYMAP_SET, bindings@),
        demand(bindings@, ResourceKind::AccelerationStructure) == 0,
        demand(bindings@, ResourceKind::StorageBuffer) == 0,
        demand(bindings@, ResourceKind::StorageImage) == 0,
        demand(bindings@, ResourceKind::SampledImage) == 1,
        demand(bindings@, ResourceKind::Sampler) == 0,
{
    let mut bindings: Vec<DescriptorBindingSpec> = Vec::new();
    assert(layout_valid(SKYMAP_SET, bindings@));
    push_binding(&mut bindings, make_binding(SKYMAP_SET, 0, ResourceKind::SampledImage, STAGE_MISS, 1));
    assert(bindings@ =~= skymap_set_bindings());
    bindings
}

/// The entry point of the ray generation stage.
pub const RAY_GEN_ENTRY: &'static str = "main";

/// The entry point of the miss stage.
pub const MISS_ENTRY: &'static str = "miss";

/// The entry point of the closest-hit stage.
pub const CLOSEST_HIT_ENTRY: &'static str = "closest_hit";

/// A ray tracing pipeline: the module its stages come from, the entry
/// point of each stage, and how deep rays may recurse.
#[derive(Debug)]
pub struct RayTracingPipeline {
    pub module: Vec<u8>,
    pub ray_gen_entry: &'static str,
    pub miss_entry: &'static str,
    pub closest_hit_entry: &'static str,
    pub max_recursion_depth: u32,
}

impl RayTracingPipeline {
    /// Whether this is the pipeline that is built from `module` with the
    /// given closest-hit entry point.
    pub open spec fn built_from(&self, module: Seq<u8>, closest_hit_entry: &'static str) -> bool {
        &&& self.module@ == module
        &&& self.ray_gen_entry@ == RAY_GEN_ENTRY@
        &&& self.miss_entry@ == MISS_ENTRY@
        &&& self.closest_hit_entry@ == closest_hit_entry@
        &&& self.max_recursion_depth == MAX_RECURSION_DEPTH
    }
}

/// Builds the pipeline of a module: ray generation at `main`, one miss
/// stage at `miss`, one group of triangle hits with the given closest-hit
/// entry point, and a recursion depth of 31.
pub fn build_pipeline(module: Vec<u8>, closest_hit_entry: &'static str) -> (pipeline:
    RayTracingPipeline)
    ensures
        pipeline.built_from(module@, closest_hit_entry),
{
    RayTracingPipeline {
        module,
        ray_gen_entry: RAY_GEN_ENTRY,
        miss_entry: MISS_ENTRY,
        closest_hit_entry,
        max_recursion_depth: MAX_RECURSION_DEPTH,
    }
}

/// What the three layouts of a ray-traced pass hold, and the three sets
/// that were allocated from them: layout and set `i` are those of set `i`,
/// the image set was populated with the pass's two images, and the pool,
/// made to measure, has nothing left.
pub open spec fn ray_tracing_catalog(catalog: BindingLayoutCatalog) -> bool {
    &&& catalog.wf()
    &&& catalog.capacity() == ray_tracing_pool_sizes()
    &&& catalog.max_sets() == 3
    &&& catalog.available() == no_descriptors()
    &&& catalog.layouts().len() == 3
    &&& catalog.layouts()[0].set == SCENE_SET
    &&& catalog.layouts()[0].bindings@ == scene_set_bindings()
    &&& catalog.layouts()[1].set == IMAGE_SET
    &&& catalog.layouts()[1].bindings@ == image_set_bindings()
    &&& catalog.layouts()[2].set == SKYMAP_SET
    &&& catalog.layouts()[2].bindings@ == skymap_set_bindings()
    &&& catalog.sets().len() == 3
    &&& catalog.sets()[0].layout.index == 0
    &&& catalog.sets()[0].initial@ == Seq::<DescriptorWrite>::empty()
    &&& catalog.sets()[1].layout.index == 1
    &&& catalog.sets()[1].initial@ == image_set_writes()
    &&& catalog.sets()[2].layout.index == 2
    &&& catalog.sets()[2].initial@ == Seq::<DescriptorWrite>::empty()
}

/// Declares the three layouts of a ray-traced pass over a pool that holds
/// exactly what one set of each takes, and allocates one set of each.
pub fn make_ray_tracing_catalog() -> (r: Result<BindingLayoutCatalog, StartupError>)
    ensures
        r matches Ok(catalog) && ray_tracing_catalog(catalog),
{
    let scene_bindings = make_scene_set_bindings();
    let image_bindings = make_image_set_bindings();
    let skymap_bindings = make_skymap_set_bindings();
    let sizes = match (measure(&scene_bindings), measure(&image_bindings), measure(&skymap_bindings)) {
        (Some(scene), Some(image), Some(skymap)) => match scene.plus(&image) {
            Some(both) => both.plus(&skymap),
            None => None,
        },
        _ => None,
    };
    let sizes = match sizes {
        Some(sizes) => sizes,
        None => {
            return Err(StartupError::LayoutCreationError);
        },
    };
    assert(sizes == ray_tracing_pool_sizes());
    let mut catalog = BindingLayoutCatalog::new(sizes, 3);
    proof {
        lemma_covers(catalog.capacity(), scene_bindings@);
        lemma_covers(catalog.capacity(), image_bindings@);
        lemma_covers(catalog.capacity(), skymap_bindings@);
    }
    let scene_layout = catalog.create_layout(SCENE_SET, scene_bindings)?;
    let image_layout = catalog.create_layout(IMAGE_SET, image_bindings)?;
    let skymap_layout = catalog.create_layout(SKYMAP_SET, skymap_bindings)?;
    proof {
        lemma_covers(catalog.available(), catalog.layouts()[0].bindings@);
    }
    let _scene_set = catalog.allocate_set(scene_layout)?;
    let mut initial: Vec<DescriptorWrite> = Vec::new();
    initial.push(
        DescriptorWrite { binding: 0, update: DescriptorUpdate::PassImage(ImageSlot::Color) },
    );
    initial.push(
        DescriptorWrite {
            binding: 1,
            update: DescriptorUpdate::PassImage(ImageSlot::AmbientOcclusion),
        },
    );
    proof {
        let left = catalog.available();
        assert(left.of(ResourceKind::AccelerationStructure) == 0);
        assert(left.of(ResourceKind::StorageBuffer) == 0);
        assert(left.of(ResourceKind::StorageImage) == 2);
        assert(left.of(ResourceKind::SampledImage) == 1);
        assert(left.of(ResourceKind::Sampler) == 1);
        lemma_covers(left, catalog.layouts()[1].bindings@);
        assert(initial@ =~= image_set_writes());
        let bindings = image_set_bindings();
        assert(bindings[0].binding == 0 && update_fits(bindings[0], initial@[0].update));
        assert(bindings[1].binding == 1 && update_fits(bindings[1], initial@[1].update));
        assert(write_fits(bindings, initial@[0]));
        assert(write_fits(bindings, initial@[1]));
        assert(writes_fit(bindings, initial@));
    }
    let _image_set = catalog.build_set(image_layout, initial)?;
    proof {
        let left = catalog.available();
        assert(left.of(ResourceKind::AccelerationStructure) == 0);
        assert(left.of(ResourceKind::StorageBuffer) == 0);
        assert(left.of(ResourceKind::StorageImage) == 0);
        assert(left.of(ResourceKind::SampledImage) == 1);
        assert(left.of(ResourceKind::Sampler) == 0);
        lemma_covers(left, catalog.layouts()[2].bindings@);
    }
    let _skymap_set = catalog.allocate_set(skymap_layout)?;
    proof {
        let left = catalog.available();
        assert(left.of(ResourceKind::AccelerationStructure) == 0);
        assert(left.of(ResourceKind::StorageBuffer) == 0);
        assert(left.of(ResourceKind::StorageImage) == 0);
        assert(left.of(ResourceKind::SampledImage) == 0);
        assert(left.of(ResourceKind::Sampler) == 0);
    }
    Ok(catalog)
}

/// A pool covers bindings if it covers them kind by kind.
proof fn lemma_covers(available: PoolSizes, bindings: Seq<DescriptorBindingSpec>)
    requires
        demand(bindings, ResourceKind::AccelerationStructure) <= available.acceleration_structures,
        demand(bindings, ResourceKind::StorageBuffer) <= available.storage_buffers,
        demand(bindings, ResourceKind::StorageImage) <= available.storage_images,
        demand(bindings, ResourceKind::SampledImage) <= available.sampled_images,
        demand(bindings, ResourceKind::Sampler) <= available.samplers,
    ensures
        pool_covers(available, bindings),
{
    assert forall|kind: ResourceKind| demand(bindings, kind) <= #[trigger] available.of(kind) by {
        match kind {
            ResourceKind::AccelerationStructure => {},
            ResourceKind::StorageBuffer => {},
            ResourceKind::StorageImage => {},
            ResourceKind::SampledImage => {},
            ResourceKind::Sampler => {},
        }
    }
}

/// The view of bytecode that may or may not be there.
pub open spec fn bytes_of(polled: Option<Vec<u8>>) -> Option<Seq<u8>> {
    match polled {
        Some(bytes) => Some(bytes@),
        None => None,
    }
}

/// The write that points the scene set at a top-level acceleration structure.
pub open spec fn tlas_write(tlas: u64) -> DescriptorWrite {
    write_of(BINDING_TLAS, DescriptorUpdate::AccelerationStructure(tlas))
}

/// The write that points the skymap set at an environment image.
pub open spec fn skymap_write(skymap: u64) -> DescriptorWrite {
    write_of(0, DescriptorUpdate::Image(skymap))
}

/// The descriptor writes of a reload: the acceleration structure first,
/// then what the mirror asks for.
pub open spec fn reload_writes(scene: &Scene) -> Seq<DescriptorWrite> {
    seq![tlas_write(scene.tlas)] + scene_writes(scene)
}

/// The commands of one ray-traced frame: point the skymap set at the
/// environment image; clear the colour target to white; bind the pipeline
/// and its three sets; push the camera; trace one ray for every texel of
/// the target; copy the colour target onto the target.
pub open spec fn ray_tracing_commands(
    skymap: u64,
    camera: CameraMatrices,
    color_extent: Extent,
    target: Extent,
) -> Seq<RenderCommand> {
    seq![
        RenderCommand::WriteDescriptor { set: SKYMAP_SET, write: skymap_write(skymap) },
        RenderCommand::ClearColorImage { image: ImageSlot::Color, color: white() },
        RenderCommand::BindRayTracingPipeline,
        RenderCommand::BindDescriptorSets { count: 3 },
        RenderCommand::PushCamera { stages: CAMERA_STAGES, camera: CameraInfo::of(camera) },
        RenderCommand::TraceRays {
            width: target.width,
            height: target.height,
            depth: MAX_RECURSION_DEPTH,
        },
        RenderCommand::BlitImage(full_blit(ImageSlot::Color, color_extent, ImageSlot::Target, target)),
    ]
}

/// The ray-traced pass.
pub struct RayTracing {
    pub pipeline: RayTracingPipeline,
    pub rx: ShaderReceiver,
    pub catalog: BindingLayoutCatalog,
    pub push_constants: PushConstantRange,
    pub color_image: ImageSpec,
    pub ao_image: ImageSpec,
    pub default_sampler: SamplerSpec,
    pub descriptor_helper: DescriptorHelper,
    pub mirror: SceneGpuMirror,
    pub tlas: u64,
    pub instance_count: usize,
}

impl RayTracing {
    /// The invariant of a pass that is ready: its pipeline has the three
    /// stages of the pass, its catalog holds the three layouts and sets,
    /// its push constants are the camera's 128 bytes for the ray
    /// generation and closest-hit stages, its two images have the same
    /// extent, its bindless sets are declared, and its mirror is sound and
    /// bounded by the arrays' ceiling.
    pub open spec fn wf(&self) -> bool {
        &&& self.pipeline.built_from(self.pipeline.module@, CLOSEST_HIT_ENTRY)
        &&& ray_tracing_catalog(self.catalog)
        &&& self.push_constants == PushConstantRange {
            offset: 0,
            size: CAMERA_INFO_SIZE,
            stages: CAMERA_STAGES,
        }
        &&& self.color_image.format == Format::R32G32B32A32Sfloat
        &&& self.color_image.usage == COLOR_IMAGE_USAGE
        &&& self.ao_image.format == Format::R32Sfloat
        &&& self.ao_image.usage == USAGE_STORAGE
        &&& self.ao_image.extent == self.color_image.extent
        &&& self.default_sampler == default_sampler()
        &&& self.descriptor_helper.wf()
        &&& self.mirror.wf()
        &&& self.mirror.ceiling() == TEXTURE_ARRAY_LEN
    }

    /// Whether a scene was prepared.
    pub open spec fn has_scene(&self) -> bool {
        self.mirror.cached_identity() is Some
    }

    /// Whether everything but the pipeline is as in `other`.
    pub open spec fn same_but_pipeline(&self, other: &RayTracing) -> bool {
        &&& self.rx == other.rx
        &&& self.catalog == other.catalog
        &&& self.push_constants == other.push_constants
        &&& self.color_image == other.color_image
        &&& self.ao_image == other.ao_image
        &&& self.default_sampler == other.default_sampler
        &&& self.descriptor_helper == other.descriptor_helper
        &&& self.mirror == other.mirror
        &&& self.tlas == other.tlas
        &&& self.instance_count == other.instance_count
    }

    /// Makes the pass ready: builds the pipeline from the first build of
    /// the shader, declares the layouts, allocates the sets, and describes
    /// the two images of `width` by `height` texels that rays are traced
    /// into. No scene is mirrored yet.
    ///
    /// Without a first build there is no pass.
    pub fn new(width: u32, height: u32, initial: CompileResult, rx: ShaderReceiver) -> (r: Result<
        RayTracing,
        StartupError,
    >)
        ensures
            r is Ok <==> published(initial) is Some,
            r matches Err(e) ==> e == StartupError::InitialShaderBuildFailed,
            r matches Ok(pass) ==> {
                &&& pass.wf()
                &&& Some(pass.pipeline.module@) == published(initial)
                &&& pass.color_image.extent == Extent { width, height }
                &&& pass.mirror.is_empty()
                &&& pass.tlas == 0
                &&& pass.instance_count == 0
            },
    {
        let module = match initial {
            CompileResult::Module(bytes) => bytes,
            CompileResult::Failed => {
                return Err(StartupError::InitialShaderBuildFailed);
            },
        };
        let descriptor_helper = DescriptorHelper::new()?;
        let catalog = make_ray_tracing_catalog()?;
        let pipeline = build_pipeline(module, CLOSEST_HIT_ENTRY);
        let extent = Extent { width, height };
        Ok(
            RayTracing {
                pipeline,
                rx,
                catalog,
                push_constants: PushConstantRange {
                    offset: 0,
                    size: CAMERA_INFO_SIZE,
                    stages: CAMERA_STAGES,
                },
                color_image: ImageSpec {
                    format: Format::R32G32B32A32Sfloat,
                    extent,
                    usage: COLOR_IMAGE_USAGE,
                },
                ao_image: ImageSpec { format: Format::R32Sfloat, extent, usage: USAGE_STORAGE },
                default_sampler: SamplerSpec {
                    mag_filter: Filter::Nearest,
                    min_filter: Filter::Nearest,
                    address_mode_u: SamplerAddressMode::ClampToEdge,
                    address_mode_v: SamplerAddressMode::ClampToEdge,
                },
                descriptor_helper,
                mirror: SceneGpuMirror::new(TEXTURE_ARRAY_LEN),
                tlas: 0,
                instance_count: 0,
            },
        )
    }

    /// Takes up what a poll of the shader channel brought: new bytecode
    /// replaces the pipeline wholesale, and no bytecode leaves it alone.
    /// Nothing but the pipeline changes.
    pub fn apply_reload(&mut self, polled: Option<Vec<u8>>) -> (rebuilt: bool)
        requires
            old(self).wf(),
        ensures
            final(self).wf(),
            rebuilt == polled is Some,
            final(self).pipeline.module@ == pipeline_after(old(self).pipeline.module@, bytes_of(polled)),
            polled is None ==> final(self).pipeline == old(self).pipeline,
            final(self).same_but_pipeline(old(self)),
    {
        match polled {
            Some(module) => {
                self.pipeline = build_pipeline(module, CLOSEST_HIT_ENTRY);
                true
            },
            None => false,
        }
    }

    /// Polls the shader channel once, without waiting, and takes up what
    /// it brought. Whether it brought anything depends on the watcher; if
    /// it did not, the pipeline is the one it was.
    pub fn update(&mut self) -> (rebuilt: bool)
        requires
            old(self).wf(),
        ensures
            final(self).wf(),
            !rebuilt ==> final(self).pipeline == old(self).pipeline,
            final(self).same_but_pipeline(old(self)),
    {
        let polled = self.rx.poll();
        self.apply_reload(polled)
    }

    /// What one call of `prepare_scene` on the pass `pre` with `scene` may
    /// leave: the pass `post` and the answer `r`.
    ///
    /// If the scene is the one the pass holds, nothing happens. If it is
    /// another one that can be mirrored, the mirror reflects it, the pass
    /// remembers its acceleration structure and the number of its
    /// instances, and the outcome lists the three uploads and the writes of
    /// the reload, every one of which fits the layout of the scene set. If
    /// it cannot be mirrored, the call fails and the pass is as it was.
    pub open spec fn prepare_post(
        pre: RayTracing,
        scene: &Scene,
        post: RayTracing,
        r: Result<SyncOutcome, FrameError>,
    ) -> bool {
        &&& post.wf()
        &&& post.pipeline == pre.pipeline
        &&& post.catalog == pre.catalog
        &&& post.color_image == pre.color_image
        &&& if pre.mirror.cached_identity() == Some(scene.identity) {
            &&& post == pre
            &&& r matches Ok(outcome)
            &&& !outcome.reloaded
            &&& outcome.uploads@.len() == 0
            &&& outcome.writes@.len() == 0
        } else if mirrorable(scene, TEXTURE_ARRAY_LEN) {
            &&& post.mirror.reflects(scene)
            &&& post.tlas == scene.tlas
            &&& post.instance_count == scene.instances@.len()
            &&& r matches Ok(outcome)
            &&& outcome.reloaded
            &&& outcome.uploads@ == crate::mirror::reload_uploads()
            &&& outcome.writes@ == reload_writes(scene)
            &&& writes_fit(scene_set_bindings(), outcome.writes@)
        } else {
            &&& post == pre
            &&& r matches Err(e)
            &&& e == FrameError::SceneUploadFailed
        }
    }

    /// Brings the pass in step with `scene`: the mirror is synchronised,
    /// and after a reload the scene set is pointed at the new buffers and
    /// at the scene's acceleration structure.
    pub fn prepare_scene(&mut self, scene: &Scene) -> (r: Result<SyncOutcome, FrameError>)
        requires
            old(self).wf(),
        ensures
            RayTracing::prepare_post(*old(self), scene, *final(self), r),
    {
        let mut outcome = self.mirror.sync(scene)?;
        if !outcome.reloaded {
            return Ok(outcome);
        }
        self.tlas = scene.tlas;
        self.instance_count = scene.instances.len();
        let mut writes: Vec<DescriptorWrite> = Vec::new();
        writes.push(
            DescriptorWrite {
                binding: BINDING_TLAS,
                update: DescriptorUpdate::AccelerationStructure(scene.tlas),
            },
        );
        writes.append(&mut outcome.writes);
        proof {
            assert(writes@ =~= reload_writes(scene));
            lemma_reload_writes_fit(scene);
        }
        Ok(SyncOutcome { reloaded: true, uploads: outcome.uploads, writes })
    }

    /// What `execute` answers for a pass, a target, a camera and an
    /// environment image: `NoActiveScene` before any scene was prepared;
    /// `PreconditionNotMet` without an environment image, or with images
    /// too large to copy; else the frame.
    pub open spec fn execute_post(
        &self,
        target: Extent,
        camera: CameraMatrices,
        skymap: Option<u64>,
        r: Result<Frame, FrameError>,
    ) -> bool {
        if !self.has_scene() {
            r matches Err(e) && e == FrameError::NoActiveScene
        } else if skymap is None || !blit_addressable(self.color_image.extent, target) {
            r matches Err(e) && e == FrameError::PreconditionNotMet
        } else {
            &&& r matches Ok(frame)
            &&& frame.hit_groups@ == Seq::new(self.instance_count as nat, |i: int| 0u32)
            &&& frame.commands@ == ray_tracing_commands(
                skymap->0,
                camera,
                self.color_image.extent,
                target,
            )
        }
    }

    /// Plans one frame: the hit groups of the shader binding table, one
    /// per instance of the scene and all of them group zero, and the
    /// commands that trace the scene into the colour target and copy it
    /// onto the target. The colour target is cleared to white whatever
    /// `clear_color` says: the rays overwrite all of it.
    pub fn execute(
        &self,
        target: Extent,
        camera: &CameraMatrices,
        clear_color: Option<ClearColor>,
        skymap: Option<u64>,
    ) -> (r: Result<Frame, FrameError>)
        requires
            self.wf(),
        ensures
            self.execute_post(target, *camera, skymap, r),
    {
        if self.mirror.identity().is_none() {
            return Err(FrameError::NoActiveScene);
        }
        let skymap = match skymap {
            Some(view) => view,
            None => {
                return Err(FrameError::PreconditionNotMet);
            },
        };
        let mut hit_groups: Vec<u32> = Vec::new();
        let mut i: usize = 0;
        while i < self.instance_count
            invariant
                i <= self.instance_count,
                hit_groups@ == Seq::new(i as nat, |k: int| 0u32),
            decreases self.instance_count - i,
        {
            hit_groups.push(0);
            assert(hit_groups@ =~= Seq::new((i + 1) as nat, |k: int| 0u32));
            i += 1;
        }
        let mut commands: Vec<RenderCommand> = Vec::new();
        commands.push(
            RenderCommand::WriteDescriptor {
                set: SKYMAP_SET,
                write: DescriptorWrite { binding: 0, update: DescriptorUpdate::Image(skymap) },
            },
        );
        commands.push(
            RenderCommand::ClearColorImage {
                image: ImageSlot::Color,
                color: ClearColor { r: ONE, g: ONE, b: ONE, a: ONE },
            },
        );
        commands.push(RenderCommand::BindRayTracingPipeline);
        commands.push(RenderCommand::BindDescriptorSets { count: 3 });
        commands.push(
            RenderCommand::PushCamera {
                stages: CAMERA_STAGES,
                camera: CameraInfo::from_camera(camera),
            },
        );
        commands.push(
            RenderCommand::TraceRays {
                width: target.width,
                height: target.height,
                depth: MAX_RECURSION_DEPTH,
            },
        );
        match cmd_blit_image(
            &mut commands,
            ImageSlot::Color,
            self.color_image.extent,
            ImageSlot::Target,
            target,
        ) {
            Ok(()) => {},
            Err(e) => {
                return Err(e);
            },
        }
        assert(commands@ =~= ray_tracing_commands(skymap, *camera, self.color_image.extent, target));
        Ok(Frame { hit_groups, commands })
    }
}

/// A write fits bindings if the binding at some position has its number
/// and takes its update.
proof fn lemma_write_fits_at(bindings: Seq<DescriptorBindingSpec>, write: DescriptorWrite, at: int)
    requires
        0 <= at < bindings.len(),
        bindings[at].binding == write.binding,
        update_fits(bindings[at], write.update),
    ensures
        write_fits(bindings, write),
        writes_fit(bindings, seq![write]),
{
}

/// Every write of a reload of a scene that can be mirrored fits the layout
/// of the scene set.
pub proof fn lemma_reload_writes_fit(scene: &Scene)
    requires
        mirrorable(scene, TEXTURE_ARRAY_LEN),
    ensures
        writes_fit(scene_set_bindings(), reload_writes(scene)),
{
    let b = scene_set_bindings();
    let fixed = fixed_writes(scene);
    lemma_write_fits_at(b, tlas_write(scene.tlas), 0);
    lemma_write_fits_at(b, fixed[0], 1);
    lemma_write_fits_at(b, fixed[1], 2);
    lemma_write_fits_at(b, fixed[2], 3);
    lemma_write_fits_at(b, fixed[3], 4);
    lemma_write_fits_at(b, fixed[4], 5);
    lemma_write_fits_at(b, fixed[5], 8);
    assert(writes_fit(b, fixed)) by {
        assert forall|k: int| 0 <= k < fixed.len() implies write_fits(b, #[trigger] fixed[k]) by {
            if k == 0 {
            } else if k == 1 {
            } else if k == 2 {
            } else if k == 3 {
            } else if k == 4 {
            } else {
                assert(k == 5);
            }
        }
    }
    let samplers = sampler_writes(scene);
    if scene.sampler_count > 0 {
        lemma_write_fits_at(b, samplers[0], 6);
    }
    assert(writes_fit(b, samplers));
    let images = image_writes(scene);
    if scene.image_count > 0 {
        lemma_write_fits_at(b, images[0], 7);
    }
    assert(writes_fit(b, images));
    let colors = optional_buffer_writes(BINDING_COLOR_BUFFER, scene.color_buffer);
    if scene.color_buffer is Some {
        lemma_write_fits_at(b, colors[0], 9);
    }
    assert(writes_fit(b, colors));
    let tex_coords = optional_buffer_writes(BINDING_TEX_COORD_BUFFER, scene.tex_coord_buffer);
    if scene.tex_coord_buffer is Some {
        lemma_write_fits_at(b, tex_coords[0], 10);
    }
    assert(writes_fit(b, tex_coords));
    lemma_writes_fit_concat(b, fixed, samplers);
    lemma_writes_fit_concat(b, fixed + samplers, images);
    lemma_writes_fit_concat(b, fixed + samplers + images, colors);
    lemma_writes_fit_concat(b, fixed + samplers + images + colors, tex_coords);
    lemma_writes_fit_concat(b, seq![tlas_write(scene.tlas)], scene_writes(scene));
}

} // verus!
