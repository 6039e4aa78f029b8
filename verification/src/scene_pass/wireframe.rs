//! The wireframe pass: one graphics pipeline that draws triangles as lines
//! into the target image, on top of what the image already holds, one
//! indexed draw for every geometry of every instance of the scene.

use vstd::prelude::*;
use crate::camera::{CameraMatrices, Transform, TRANSFORM_SIZE};
use crate::command::{ClearColor, Extent, Format, Frame, ImageLayout, RenderCommand, ONE};
use crate::descriptor::{DescriptorWrite, MirrorBuffer, PushConstantRange, STAGE_VERTEX};
use crate::error::{FrameError, StartupError};
use crate::hot_reload::{pipeline_after, published, CompileResult, ShaderReceiver};
use crate::mirror::SyncOutcome;
use crate::scene::{copy_instances, instance_views, DrawGeometry, Instance, InstanceView, Scene};
use crate::scene_pass::ray_tracing::bytes_of;

verus! {

/// The entry point of the vertex stage.
pub const VERTEX_ENTRY: &'static str = "main_vs";

/// The entry point of the fragment stage.
pub const FRAGMENT_ENTRY: &'static str = "main_fs";

/// Bytes from one vertex to the next: three single-precision numbers.
pub const VERTEX_STRIDE: u32 = 12;

/// All four colour components are written.
pub const COLOR_WRITE_ALL: u32 = 0x0000_000F;

/// What happens to an attachment when a render pass begins.
#[derive(Clone, Copy, Debug, PartialEq, Eq, Structural)]
pub enum LoadOp {
    Load,
    Clear,
    DontCare,
}

/// What happens to an attachment when a render pass ends.
#[derive(Clone, Copy, Debug, PartialEq, Eq, Structural)]
pub enum StoreOp {
    Store,
    DontCare,
}

/// A render pass of one subpass with one colour attachment.
#[derive(Clone, Copy, Debug, PartialEq, Eq, Structural)]
pub struct RenderPassConfig {
    pub format: Format,
    pub samples: u32,
    pub load_op: LoadOp,
    pub store_op: StoreOp,
    pub initial_layout: ImageLayout,
    pub final_layout: ImageLayout,
}

/// How vertices are put together.
#[derive(Clone, Copy, Debug, PartialEq, Eq, Structural)]
pub enum Topology {
    PointList,
    LineList,
    TriangleList,
}

/// How triangles are filled.
#[derive(Clone, Copy, Debug, PartialEq, Eq, Structural)]
pub enum PolygonMode {
    Fill,
    Line,
    Point,
}

/// Which faces are dropped.
#[derive(Clone, Copy, Debug, PartialEq, Eq, Structural)]
pub enum CullMode {
    Neither,
    Front,
    Back,
}

/// Which winding is the front of a triangle.
#[derive(Clone, Copy, Debug, PartialEq, Eq, Structural)]
pub enum FrontFace {
    CounterClockwise,
    Clockwise,
}

/// The fixed-function settings of a graphics pipeline.
#[derive(Clone, Copy, Debug, PartialEq, Eq, Structural)]
pub struct GraphicsPipelineConfig {
    pub vertex_stride: u32,
    pub vertex_format: Format,
    pub topology: Topology,
    pub cull_mode: CullMode,
    pub front_face: FrontFace,
    pub polygon_mode: PolygonMode,
    pub line_width: u32,
    pub samples: u32,
    pub blend_enable: bool,
    pub color_write_mask: u32,
    pub viewport_count: u32,
    pub scissor_count: u32,
    pub dynamic_viewport: bool,
    pub dynamic_scissor: bool,
}

/// A graphics pipeline: the module its stages come from, the entry point
/// of each stage, and its settings.
#[derive(Debug)]
pub struct GraphicsPipeline {
    pub module: Vec<u8>,
    pub vertex_entry: &'static str,
    pub fragment_entry: &'static str,
    pub config: GraphicsPipelineConfig,
}

/// The render pass of the wireframe pass: it keeps what the target holds,
/// stores what it draws, and leaves the target ready to be presented.
pub open spec fn wireframe_render_pass() -> RenderPassConfig {
    RenderPassConfig {
        format: Format::B8G8R8A8Unorm,
        samples: 1,
        load_op: LoadOp::Load,
        store_op: StoreOp::Store,
        initial_layout: ImageLayout::AttachmentOptimal,
        final_layout: ImageLayout::PresentSrc,
    }
}

/// The settings of the wireframe pipeline: positions of three numbers
/// each, triangles drawn as lines one unit wide, no culling, one sample, no
/// blending, and a viewport and a scissor that each frame sets anew.
pub open spec fn wireframe_config() -> GraphicsPipelineConfig {
    GraphicsPipelineConfig {
        vertex_stride: VERTEX_STRIDE,
        vertex_format: Format::R32G32B32Sfloat,
        topology: Topology::TriangleList,
        cull_mode: CullMode::Neither,
        front_face: FrontFace::CounterClockwise,
        polygon_mode: PolygonMode::Line,
        line_width: ONE,
        samples: 1,
        blend_enable: false,
        color_write_mask: COLOR_WRITE_ALL,
        viewport_count: 1,
        scissor_count: 1,
        dynamic_viewport: true,
        dynamic_scissor: true,
    }
}

impl GraphicsPipeline {
    /// Whether this is the wireframe pipeline built from `module`.
    pub open spec fn built_from(&self, module: Seq<u8>) -> bool {
        &&& self.module@ == module
        &&& self.vertex_entry@ == VERTEX_ENTRY@
        &&& self.fragment_entry@ == FRAGMENT_ENTRY@
        &&& self.config == wireframe_config()
    }
}

/// Builds the wireframe pipeline of a module.
pub fn build_pipeline(module: Vec<u8>) -> (pipeline: GraphicsPipeline)
    ensures
        pipeline.built_from(module@),
{
    GraphicsPipeline {
        module,
        vertex_entry: VERTEX_ENTRY,
        fragment_entry: FRAGMENT_ENTRY,
        config: GraphicsPipelineConfig {
            vertex_stride: VERTEX_STRIDE,
            vertex_format: Format::R32G32B32Sfloat,
            topology: Topology::TriangleList,
            cull_mode: CullMode::Neither,
            front_face: FrontFace::CounterClockwise,
            polygon_mode: PolygonMode::Line,
            line_width: ONE,
            samples: 1,
            blend_enable: false,
            color_write_mask: COLOR_WRITE_ALL,
            viewport_count: 1,
            scissor_count: 1,
            dynamic_viewport: true,
            dynamic_scissor: true,
        },
    }
}

/// The commands that draw one geometry: bind its vertices and its indices,
/// set the scissor and the upside-down viewport to the whole target, and
/// draw all of its indices once.
pub open spec fn geometry_commands(g: DrawGeometry, extent: Extent) -> Seq<RenderCommand> {
    seq![
        RenderCommand::BindVertexBuffer(g.vertex_buffer),
        RenderCommand::BindIndexBuffer { view: g.index_buffer, index_type: g.index_type },
        RenderCommand::SetScissor { extent },
        RenderCommand::SetViewport { extent, flipped: true },
        RenderCommand::DrawIndexed { index_count: g.index_count, instance_count: 1 },
    ]
}

/// The commands that draw the first `n` geometries of an instance.
pub open spec fn geometries_commands(gs: Seq<DrawGeometry>, extent: Extent, n: int) -> Seq<
    RenderCommand,
>
    decreases n,
{
    if n <= 0 {
        Seq::empty()
    } else {
        geometries_commands(gs, extent, n - 1) + geometry_commands(gs[n - 1], extent)
    }
}

/// The commands that draw one instance: push its matrix with the
/// camera's, then draw its geometries in order.
pub open spec fn instance_commands(instance: InstanceView, camera: CameraMatrices, extent: Extent) -> Seq<
    RenderCommand,
> {
    seq![
        RenderCommand::PushTransform {
            stages: STAGE_VERTEX,
            transform: Transform::of(instance.transform, camera),
        },
    ] + geometries_commands(instance.geometries, extent, instance.geometries.len() as int)
}

/// The commands that draw the first `n` instances of a scene.
pub open spec fn instances_commands(
    list: Seq<InstanceView>,
    camera: CameraMatrices,
    extent: Extent,
    n: int,
) -> Seq<RenderCommand>
    decreases n,
{
    if n <= 0 {
        Seq::empty()
    } else {
        instances_commands(list, camera, extent, n - 1) + instance_commands(
            list[n - 1],
            camera,
            extent,
        )
    }
}

/// The command that clears the target, if a colour to clear with is given.
pub open spec fn clear_commands(clear_color: Option<ClearColor>, extent: Extent) -> Seq<
    RenderCommand,
> {
    match clear_color {
        Some(color) => seq![RenderCommand::ClearAttachment { color, extent }],
        None => Seq::empty(),
    }
}

/// The commands of one wireframe frame: begin the render pass on the
/// target; clear it if asked to; bind the pipeline; draw every instance;
/// end the render pass.
pub open spec fn wireframe_commands(
    list: Seq<InstanceView>,
    camera: CameraMatrices,
    extent: Extent,
    clear_color: Option<ClearColor>,
) -> Seq<RenderCommand> {
    seq![RenderCommand::BeginRenderPass { extent }] + clear_commands(clear_color, extent)
        + seq![RenderCommand::BindGraphicsPipeline] + instances_commands(
        list,
        camera,
        extent,
        list.len() as int,
    ) + seq![RenderCommand::EndRenderPass]
}

/// The wireframe pass.
pub struct Wireframe {
    pub pipeline: GraphicsPipeline,
    pub rx: ShaderReceiver,
    pub push_constants: PushConstantRange,
    pub render_pass: RenderPassConfig,
    pub scene: Option<u64>,
    pub instances: Vec<Instance>,
}

impl Wireframe {
    /// The invariant of a pass that is ready: its pipeline is the
    /// wireframe pipeline of its module, its push constants are the 192
    /// bytes of three matrices for the vertex stage, and its render pass
    /// is the one that draws on top of the target.
    pub open spec fn wf(&self) -> bool {
        &&& self.pipeline.built_from(self.pipeline.module@)
        &&& self.push_constants == PushConstantRange {
            offset: 0,
            size: TRANSFORM_SIZE,
            stages: STAGE_VERTEX,
        }
        &&& self.render_pass == wireframe_render_pass()
        &&& self.scene is None ==> self.instances@.len() == 0
    }

    /// The instances that a frame draws.
    pub open spec fn draw_list(&self) -> Seq<InstanceView> {
        instance_views(self.instances@)
    }

    /// Whether everything but the pipeline is as in `other`.
    pub open spec fn same_but_pipeline(&self, other: &Wireframe) -> bool {
        &&& self.rx == other.rx
        &&& self.push_constants == other.push_constants
        &&& self.render_pass == other.render_pass
        &&& self.scene == other.scene
        &&& self.instances == other.instances
    }

    /// Makes the pass ready: builds the pipeline from the first build of
    /// the shader and describes the render pass. No scene is held yet.
    ///
    /// Without a first build there is no pass.
    pub fn new(initial: CompileResult, rx: ShaderReceiver) -> (r: Result<Wireframe, StartupError>)
        ensures
            r is Ok <==> published(initial) is Some,
            r matches Err(e) ==> e == StartupError::InitialShaderBuildFailed,
            r matches Ok(pass) ==> {
                &&& pass.wf()
                &&& Some(pass.pipeline.module@) == published(initial)
                &&& pass.scene is None
            },
    {
        let module = match initial {
            CompileResult::Module(bytes) => bytes,
            CompileResult::Failed => {
                return Err(StartupError::InitialShaderBuildFailed);
            },
        };
        Ok(
            Wireframe {
                pipeline: build_pipeline(module),
                rx,
                push_constants: PushConstantRange {
                    offset: 0,
                    size: TRANSFORM_SIZE,
                    stages: STAGE_VERTEX,
                },
                render_pass: RenderPassConfig {
                    format: Format::B8G8R8A8Unorm,
                    samples: 1,
                    load_op: LoadOp::Load,
                    store_op: StoreOp::Store,
                    initial_layout: ImageLayout::AttachmentOptimal,
                    final_layout: ImageLayout::PresentSrc,
                },
                scene: None,
                instances: Vec::new(),
            },
        )
    }

    /// Takes up what a poll of the shader channel brought: new bytecode
    /// replaces the pipeline wholesale, and no bytecode leaves it alone.
    /// Nothing but the pipeline changes.
    pub fn apply_reload(&mut self, polled: Option<Vec<u8>>) -> (rebuilt: bool)
        requires
            old(self).wf(),
        ensures
            final(self).wf(),
            rebuilt == polled is Some,
            final(self).pipeline.module@ == pipeline_after(old(self).pipeline.module@, bytes_of(polled)),
            polled is None ==> final(self).pipeline == old(self).pipeline,
            final(self).same_but_pipeline(old(self)),
    {
        match polled {
            Some(module) => {
                self.pipeline = build_pipeline(module);
                true
            },
            None => false,
        }
    }

    /// Polls the shader channel once, without waiting, and takes up what
    /// it brought. Whether it brought anything depends on the watcher; if
    /// it did not, the pipeline is the one it was.
    pub fn update(&mut self) -> (rebuilt: bool)
        requires
            old(self).wf(),
        ensures
            final(self).wf(),
            !rebuilt ==> final(self).pipeline == old(self).pipeline,
            final(self).same_but_pipeline(old(self)),
    {
        let polled = self.rx.poll();
        self.apply_reload(polled)
    }

    /// Brings the pass in step with `scene`. A scene with the identity the
    /// pass holds is left alone; of any other one the pass takes the
    /// identity and the instances. The pass has nothing to upload and no
    /// descriptor to write.
    pub fn prepare_scene(&mut self, scene: &Scene) -> (r: Result<SyncOutcome, FrameError>)
        requires
            old(self).wf(),
        ensures
            final(self).wf(),
            final(self).pipeline == old(self).pipeline,
            r matches Ok(outcome) && outcome.uploads@ == Seq::<MirrorBuffer>::empty()
                && outcome.writes@ == Seq::<DescriptorWrite>::empty() && outcome.reloaded == (old(
                self,
            ).scene != Some(scene.identity)),
            old(self).scene == Some(scene.identity) ==> *final(self) == *old(self),
            final(self).scene == Some(scene.identity),
            old(self).scene != Some(scene.identity) ==> final(self).draw_list() == scene.draw_list(),
    {
        let same = match self.scene {
            Some(id) => id == scene.identity,
            None => false,
        };
        if !same {
            self.scene = Some(scene.identity);
            self.instances = copy_instances(&scene.instances);
        }
        Ok(SyncOutcome { reloaded: !same, uploads: Vec::new(), writes: Vec::new() })
    }

    /// Plans one frame: the commands that draw every geometry of every
    /// instance of the scene as lines onto the target, on top of what it
    /// holds, or on `clear_color` if one is given. The pass reads no
    /// environment image, so `skymap` may be absent.
    ///
    /// Before any scene was prepared the answer is `NoActiveScene`.
    pub fn execute(
        &self,
        target: Extent,
        camera: &CameraMatrices,
        clear_color: Option<ClearColor>,
        skymap: Option<u64>,
    ) -> (r: Result<Frame, FrameError>)
        requires
            self.wf(),
        ensures
            self.scene is None ==> (r matches Err(e) && e == FrameError::NoActiveScene),
            self.scene is Some ==> (r matches Ok(frame) && frame.hit_groups@.len() == 0
                && frame.commands@ == wireframe_commands(
                self.draw_list(),
                *camera,
                target,
                clear_color,
            )),
    {
        if self.scene.is_none() {
            return Err(FrameError::NoActiveScene);
        }
        let ghost list = self.draw_list();
        let mut commands: Vec<RenderCommand> = Vec::new();
        commands.push(RenderCommand::BeginRenderPass { extent: target });
        if let Some(color) = clear_color {
            commands.push(RenderCommand::ClearAttachment { color, extent: target });
        }
        commands.push(RenderCommand::BindGraphicsPipeline);
        let ghost head = seq![RenderCommand::BeginRenderPass { extent: target }] + clear_commands(
            clear_color,
            target,
        ) + seq![RenderCommand::BindGraphicsPipeline];
        assert(commands@ =~= head);
        let mut i: usize = 0;
        while i < self.instances.len()
            invariant
                list == self.draw_list(),
                i <= self.instances@.len(),
                commands@ == head + instances_commands(list, *camera, target, i as int),
            decreases self.instances@.len() - i,
        {
            let instance = &self.instances[i];
            assert(list[i as int] == instance@);
            let ghost before = commands@;
            commands.push(
                RenderCommand::PushTransform {
                    stages: STAGE_VERTEX,
                    transform: Transform::new(instance.transform, camera),
                },
            );
            let ghost pushed = commands@;
            let mut j: usize = 0;
            while j < instance.geometries.len()
                invariant
                    j <= instance.geometries@.len(),
                    commands@ == pushed + geometries_commands(instance.geometries@, target, j as int),
                decreases instance.geometries@.len() - j,
            {
                let g = &instance.geometries[j];
                let ghost so_far = commands@;
                commands.push(RenderCommand::BindVertexBuffer(g.vertex_buffer));
                commands.push(
                    RenderCommand::BindIndexBuffer { view: g.index_buffer, index_type: g.index_type },
                );
                commands.push(RenderCommand::SetScissor { extent: target });
                commands.push(RenderCommand::SetViewport { extent: target, flipped: true });
                commands.push(
                    RenderCommand::DrawIndexed { index_count: g.index_count, instance_count: 1 },
                );
                assert(commands@ =~= so_far + geometry_commands(*g, target));
                assert(commands@ =~= pushed + geometries_commands(
                    instance.geometries@,
                    target,
                    j + 1,
                ));
                j += 1;
            }
            assert(commands@ =~= before + instance_commands(instance@, *camera, target));
            assert(commands@ =~= head + instances_commands(list, *camera, target, i + 1));
            i += 1;
        }
        commands.push(RenderCommand::EndRenderPass);
        assert(commands@ =~= wireframe_commands(list, *camera, target, clear_color));
        Ok(Frame { hit_groups: Vec::new(), commands })
    }
}

} // verus!
