//! The render passes. Each one plans, from plain values, what the device
//! is to do for a frame; which one is active is the caller's choice.

pub mod ray_tracing;
pub mod wireframe;

use vstd::prelude::*;
use crate::camera::CameraMatrices;
use crate::command::{ClearColor, Extent, Frame};
use crate::descriptor::{DescriptorWrite, MirrorBuffer};
use crate::error::FrameError;
use crate::hot_reload::pipeline_after;
use crate::mirror::SyncOutcome;
use crate::scene::Scene;
use crate::scene_pass::ray_tracing::{bytes_of, RayTracing};
use crate::scene_pass::wireframe::{wireframe_commands, Wireframe};

verus! {

/// A render pass: one of the two there are.
pub enum ScenePass {
    Wireframe(Wireframe),
    RayTracing(RayTracing),
}

impl ScenePass {
    /// The invariant of the pass inside.
    pub open spec fn wf(&self) -> bool {
        match self {
            ScenePass::Wireframe(pass) => pass.wf(),
            ScenePass::RayTracing(pass) => pass.wf(),
        }
    }

    /// The bytecode that the active pipeline was built from.
    pub open spec fn pipeline_module(&self) -> Seq<u8> {
        match self {
            ScenePass::Wireframe(pass) => pass.pipeline.module@,
            ScenePass::RayTracing(pass) => pass.pipeline.module@,
        }
    }

    /// Whether a scene was prepared.
    pub open spec fn has_scene(&self) -> bool {
        match self {
            ScenePass::Wireframe(pass) => pass.scene is Some,
            ScenePass::RayTracing(pass) => pass.has_scene(),
        }
    }

    /// Whether this is a pass of the same kind as `other` that differs from
    /// it in nothing but, at most, its pipeline.
    pub open spec fn same_but_pipeline(&self, other: &ScenePass) -> bool {
        match (self, other) {
            (ScenePass::Wireframe(a), ScenePass::Wireframe(b)) => a.same_but_pipeline(b),
            (ScenePass::RayTracing(a), ScenePass::RayTracing(b)) => a.same_but_pipeline(b),
            _ => false,
        }
    }

    /// What `prepare_scene` may leave of the pass `pre`: for either kind
    /// of pass, what that pass says of its own `prepare_scene`.
    pub open spec fn prepare_post(
        pre: ScenePass,
        scene: &Scene,
        post: ScenePass,
        r: Result<SyncOutcome, FrameError>,
    ) -> bool {
        match (pre, post) {
            (ScenePass::RayTracing(a), ScenePass::RayTracing(b)) => RayTracing::prepare_post(
                a,
                scene,
                b,
                r,
            ),
            (ScenePass::Wireframe(a), ScenePass::Wireframe(b)) => {
                &&& b.wf()
                &&& b.pipeline == a.pipeline
                &&& b.scene == Some(scene.identity)
                &&& r matches Ok(outcome)
                &&& outcome.uploads@ == Seq::<MirrorBuffer>::empty()
                &&& outcome.writes@ == Seq::<DescriptorWrite>::empty()
                &&& outcome.reloaded == (a.scene != Some(scene.identity))
                &&& a.scene == Some(scene.identity) ==> b == a
                &&& a.scene != Some(scene.identity) ==> b.draw_list() == scene.draw_list()
            },
            _ => false,
        }
    }

    /// What `execute` answers: for either kind of pass, what that pass
    /// says of its own `execute`.
    pub open spec fn execute_post(
        &self,
        target: Extent,
        camera: CameraMatrices,
        clear_color: Option<ClearColor>,
        skymap: Option<u64>,
        r: Result<Frame, FrameError>,
    ) -> bool {
        match self {
            ScenePass::RayTracing(pass) => pass.execute_post(target, camera, skymap, r),
            ScenePass::Wireframe(pass) => if pass.scene is None {
                r matches Err(e) && e == FrameError::NoActiveScene
            } else {
                r matches Ok(frame) && frame.hit_groups@.len() == 0 && frame.commands@
                    == wireframe_commands(pass.draw_list(), camera, target, clear_color)
            },
        }
    }

    /// Takes up what a poll of the shader channel brought: new bytecode
    /// replaces the pipeline of the pass, no bytecode leaves it alone.
    pub fn apply_reload(&mut self, polled: Option<Vec<u8>>) -> (rebuilt: bool)
        requires
            old(self).wf(),
        ensures
            final(self).wf(),
            rebuilt == polled is Some,
            final(self).pipeline_module() == pipeline_after(
                old(self).pipeline_module(),
                bytes_of(polled),
            ),
            polled is None ==> *final(self) == *old(self),
            final(self).same_but_pipeline(old(self)),
    {
        match self {
            ScenePass::Wireframe(pass) => pass.apply_reload(polled),
            ScenePass::RayTracing(pass) => pass.apply_reload(polled),
        }
    }

    /// Polls the shader channel of the pass once, without waiting, and
    /// takes up what it brought. If it brought nothing, the pass is as it
    /// was.
    pub fn update(&mut self) -> (rebuilt: bool)
        requires
            old(self).wf(),
        ensures
            final(self).wf(),
            !rebuilt ==> *final(self) == *old(self),
            final(self).same_but_pipeline(old(self)),
    {
        match self {
            ScenePass::Wireframe(pass) => pass.update(),
            ScenePass::RayTracing(pass) => pass.update(),
        }
    }

    /// Brings the pass in step with `scene`.
    pub fn prepare_scene(&mut self, scene: &Scene) -> (r: Result<SyncOutcome, FrameError>)
        requires
            old(self).wf(),
        ensures
            ScenePass::prepare_post(*old(self), scene, *final(self), r),
    {
        match self {
            ScenePass::Wireframe(pass) => pass.prepare_scene(scene),
            ScenePass::RayTracing(pass) => pass.prepare_scene(scene),
        }
    }

    /// Plans one frame.
    pub fn execute(
        &self,
        target: Extent,
        camera: &CameraMatrices,
        clear_color: Option<ClearColor>,
        skymap: Option<u64>,
    ) -> (r: Result<Frame, FrameError>)
        requires
            self.wf(),
        ensures
            self.execute_post(target, *camera, clear_color, skymap, r),
    {
        match self {
            ScenePass::Wireframe(pass) => pass.execute(target, camera, clear_color, skymap),
            ScenePass::RayTracing(pass) => pass.execute(target, camera, clear_color, skymap),
        }
    }
}

} // verus!
