//! The offline renderer: the layouts and the pipeline of the ray-traced
//! pass with a closest-hit stage that writes depth, and per render a fresh
//! mirror of the scene and fresh descriptor sets.

use vstd::prelude::*;
use crate::camera::{RenderSettings, CAMERA_INFO_SIZE};
use crate::command::{Extent, Format, ImageSlot};
use crate::descriptor::{
    write_fits, writes_fit, update_fits, DescriptorBindingSpec, DescriptorUpdate, DescriptorWrite,
    MirrorBuffer, PushConstantRange,
};
use crate::error::{FrameError, StartupError};
use crate::hot_reload::{pipeline_after, published, CompileResult, ShaderReceiver};
use crate::mirror::{mirrorable, reload_uploads, write_of, SceneGpuMirror, BINDING_TLAS};
use crate::scene::Scene;
use crate::scene_pass::ray_tracing::{
    build_pipeline, bytes_of, image_set_bindings, lemma_reload_writes_fit, make_image_set_bindings,
    make_scene_set_bindings, make_skymap_set_bindings, reload_writes, scene_set_bindings,
    skymap_set_bindings, skymap_write, ImageSpec, RayTracingPipeline, CAMERA_STAGES,
    TEXTURE_ARRAY_LEN, USAGE_STORAGE,
};

verus! {

/// The entry point of the closest-hit stage that writes depth.
pub const DEPTH_CLOSEST_HIT_ENTRY: &'static str = "depth_closest_hit";

/// One image that a render produced, under its name.
#[derive(Debug)]
pub struct RenderResult {
    pub name: String,
    pub image: ImageSpec,
}

/// The write that populates the image set of a render: its depth target.
pub open spec fn depth_write() -> DescriptorWrite {
    write_of(0, DescriptorUpdate::PassImage(ImageSlot::Depth))
}

/// What one render asks of the device: an image to trace depth into, a
/// shader binding table, three buffers to upload from the mirror, and the
/// writes that populate the three descriptor sets.
#[derive(Debug)]
pub struct RenderPlan {
    pub depth_image: ImageSpec,
    pub hit_groups: Vec<u32>,
    pub mirror: SceneGpuMirror,
    pub uploads: Vec<MirrorBuffer>,
    pub scene_set_writes: Vec<DescriptorWrite>,
    pub image_set_writes: Vec<DescriptorWrite>,
    pub skymap_set_writes: Vec<DescriptorWrite>,
    pub results: Vec<RenderResult>,
}

/// The offline renderer.
pub struct Po {
    pub depth_pipeline: RayTracingPipeline,
    pub rx: ShaderReceiver,
    pub push_constants: PushConstantRange,
    pub as_descriptor_set_layout: Vec<DescriptorBindingSpec>,
    pub image_descriptor_set_layout: Vec<DescriptorBindingSpec>,
    pub skymap_descriptor_set_layout: Vec<DescriptorBindingSpec>,
}

impl Po {
    /// The invariant of a renderer that is ready: its pipeline has the
    /// stages of the ray-traced pass with the closest-hit stage that writes
    /// depth, its three layouts are those of the ray-traced pass, and its
    /// push constants are the camera's.
    pub open spec fn wf(&self) -> bool {
        &&& self.depth_pipeline.built_from(self.depth_pipeline.module@, DEPTH_CLOSEST_HIT_ENTRY)
        &&& self.push_constants == PushConstantRange {
            offset: 0,
            size: CAMERA_INFO_SIZE,
            stages: CAMERA_STAGES,
        }
        &&& self.as_descriptor_set_layout@ == scene_set_bindings()
        &&& self.image_descriptor_set_layout@ == image_set_bindings()
        &&& self.skymap_descriptor_set_layout@ == skymap_set_bindings()
    }

    /// Whether everything but the pipeline is as in `other`.
    pub open spec fn same_but_pipeline(&self, other: &Po) -> bool {
        &&& self.rx == other.rx
        &&& self.push_constants == other.push_constants
        &&& self.as_descriptor_set_layout == other.as_descriptor_set_layout
        &&& self.image_descriptor_set_layout == other.image_descriptor_set_layout
        &&& self.skymap_descriptor_set_layout == other.skymap_descriptor_set_layout
    }

    /// Makes the renderer ready: builds the depth pipeline from the first
    /// build of the shader and declares the three layouts.
    ///
    /// Without a first build there is no renderer.
    pub fn new(initial: CompileResult, rx: ShaderReceiver) -> (r: Result<Po, StartupError>)
        ensures
            r is Ok <==> published(initial) is Some,
            r matches Err(e) ==> e == StartupError::InitialShaderBuildFailed,
            r matches Ok(po) ==> po.wf() && Some(po.depth_pipeline.module@) == published(initial),
    {
        let module = match initial {
            CompileResult::Module(bytes) => bytes,
            CompileResult::Failed => {
                return Err(StartupError::InitialShaderBuildFailed);
            },
        };
        Ok(
            Po {
                depth_pipeline: build_pipeline(module, DEPTH_CLOSEST_HIT_ENTRY),
                rx,
                push_constants: PushConstantRange {
                    offset: 0,
                    size: CAMERA_INFO_SIZE,
                    stages: CAMERA_STAGES,
                },
                as_descriptor_set_layout: make_scene_set_bindings(),
                image_descriptor_set_layout: make_image_set_bindings(),
                skymap_descriptor_set_layout: make_skymap_set_bindings(),
            },
        )
    }

    /// Takes up what a poll of the shader channel brought: new bytecode
    /// replaces the depth pipeline wholesale, and no bytecode leaves it
    /// alone. Nothing but the pipeline changes.
    pub fn apply_reload(&mut self, polled: Option<Vec<u8>>) -> (rebuilt: bool)
        requires
            old(self).wf(),
        ensures
            final(self).wf(),
            rebuilt == polled is Some,
            final(self).depth_pipeline.module@ == pipeline_after(
                old(self).depth_pipeline.module@,
                bytes_of(polled),
            ),
            polled is None ==> final(self).depth_pipeline == old(self).depth_pipeline,
            final(self).same_but_pipeline(old(self)),
    {
        match polled {
            Some(module) => {
                self.depth_pipeline = build_pipeline(module, DEPTH_CLOSEST_HIT_ENTRY);
                true
            },
            None => false,
        }
    }

    /// Polls the shader channel once, without waiting, and takes up what
    /// it brought. If it brought nothing, the pipeline is the one it was.
    pub fn update(&mut self) -> (rebuilt: bool)
        requires
            old(self).wf(),
        ensures
            final(self).wf(),
            !rebuilt ==> final(self).depth_pipeline == old(self).depth_pipeline,
            final(self).same_but_pipeline(old(self)),
    {
        let polled = self.rx.poll();
        self.apply_reload(polled)
    }

    /// Plans one render of `scene` under `skymap`: a depth image of the
    /// size the settings ask for, a shader binding table with hit group
    /// zero for every instance, a mirror that reflects the scene, its three
    /// uploads, and the writes of the three sets, every one of which fits
    /// its layout. No image is produced yet.
    ///
    /// A scene that cannot be mirrored is refused with `SceneUploadFailed`.
    pub fn render(&mut self, settings: &RenderSettings, scene: &Scene, skymap: u64) -> (r: Result<
        RenderPlan,
        FrameError,
    >)
        requires
            old(self).wf(),
        ensures
            *final(self) == *old(self),
            r is Ok <==> mirrorable(scene, TEXTURE_ARRAY_LEN),
            r matches Err(e) ==> e == FrameError::SceneUploadFailed,
            r matches Ok(plan) ==> {
                &&& plan.depth_image == ImageSpec {
                    format: Format::R32Sfloat,
                    extent: Extent { width: settings.width, height: settings.height },
                    usage: USAGE_STORAGE,
                }
                &&& plan.hit_groups@ == Seq::new(scene.instances@.len(), |i: int| 0u32)
                &&& plan.mirror.wf()
                &&& plan.mirror.reflects(scene)
                &&& plan.uploads@ == reload_uploads()
                &&& plan.scene_set_writes@ == reload_writes(scene)
                &&& writes_fit(old(self).as_descriptor_set_layout@, plan.scene_set_writes@)
                &&& plan.image_set_writes@ == seq![depth_write()]
                &&& writes_fit(old(self).image_descriptor_set_layout@, plan.image_set_writes@)
                &&& plan.skymap_set_writes@ == seq![skymap_write(skymap)]
                &&& writes_fit(old(self).skymap_descriptor_set_layout@, plan.skymap_set_writes@)
                &&& plan.results@.len() == 0
            },
    {
        let mut mirror = SceneGpuMirror::new(TEXTURE_ARRAY_LEN);
        let mut outcome = mirror.sync(scene)?;
        let mut hit_groups: Vec<u32> = Vec::new();
        let mut i: usize = 0;
        while i < scene.instances.len()
            invariant
                i <= scene.instances@.len(),
                hit_groups@ == Seq::new(i as nat, |k: int| 0u32),
            decreases scene.instances@.len() - i,
        {
            hit_groups.push(0);
            assert(hit_groups@ =~= Seq::new((i + 1) as nat, |k: int| 0u32));
            i += 1;
        }
        let mut scene_set_writes: Vec<DescriptorWrite> = Vec::new();
        scene_set_writes.push(
            DescriptorWrite {
                binding: BINDING_TLAS,
                update: DescriptorUpdate::AccelerationStructure(scene.tlas),
            },
        );
        scene_set_writes.append(&mut outcome.writes);
        let mut image_set_writes: Vec<DescriptorWrite> = Vec::new();
        image_set_writes.push(
            DescriptorWrite { binding: 0, update: DescriptorUpdate::PassImage(ImageSlot::Depth) },
        );
        let mut skymap_set_writes: Vec<DescriptorWrite> = Vec::new();
        skymap_set_writes.push(
            DescriptorWrite { binding: 0, update: DescriptorUpdate::Image(skymap) },
        );
        proof {
            assert(scene_set_writes@ =~= reload_writes(scene));
            lemma_reload_writes_fit(scene);
            assert(image_set_writes@ =~= seq![depth_write()]);
            assert(skymap_set_writes@ =~= seq![skymap_write(skymap)]);
            let images = image_set_bindings();
            assert(images[0].binding == 0 && update_fits(images[0], depth_write().update));
            assert(write_fits(images, depth_write()));
            let skymaps = skymap_set_bindings();
            assert(skymaps[0].binding == 0 && update_fits(skymaps[0], skymap_write(skymap).update));
            assert(write_fits(skymaps, skymap_write(skymap)));
        }
        Ok(
            RenderPlan {
                depth_image: ImageSpec {
                    format: Format::R32Sfloat,
                    extent: Extent { width: settings.width, height: settings.height },
                    usage: USAGE_STORAGE,
                },
                hit_groups,
                mirror,
                uploads: outcome.uploads,
                scene_set_writes,
                image_set_writes,
                skymap_set_writes,
                results: Vec::new(),
            },
        )
    }
}

} // verus!
