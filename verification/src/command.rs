//! The commands a pass records for one frame, in the order in which the
//! device is to run them.

use vstd::prelude::*;
use crate::camera::{CameraInfo, Transform};
use crate::descriptor::DescriptorWrite;
use crate::error::FrameError;
use crate::scene::{BufferView, IndexType};

verus! {

/// The largest width or height that a blit can address.
pub const MAX_BLIT_EXTENT: u32 = 0x7FFF_FFFF;

/// The bit pattern of one.
pub const ONE: u32 = 0x3F80_0000;

/// The width and height of an image, in texels.
#[derive(Clone, Copy, Debug, PartialEq, Eq, Structural)]
pub struct Extent {
    pub width: u32,
    pub height: u32,
}

/// The format of the texels of an image.
#[derive(Clone, Copy, Debug, PartialEq, Eq, Structural)]
pub enum Format {
    R32Sfloat,
    R32G32B32Sfloat,
    R32G32B32A32Sfloat,
    B8G8R8A8Unorm,
    R8G8B8A8Unorm,
}

/// The layout an image is in while a command uses it.
#[derive(Clone, Copy, Debug, PartialEq, Eq, Structural)]
pub enum ImageLayout {
    General,
    TransferDstOptimal,
    AttachmentOptimal,
    PresentSrc,
}

/// A colour to clear with: the bit patterns of its four components.
#[derive(Clone, Copy, Debug, PartialEq, Eq, Structural)]
pub struct ClearColor {
    pub r: u32,
    pub g: u32,
    pub b: u32,
    pub a: u32,
}

/// Opaque white.
pub open spec fn white() -> ClearColor {
    ClearColor { r: ONE, g: ONE, b: ONE, a: ONE }
}

/// An image that a command names.
#[derive(Clone, Copy, Debug, PartialEq, Eq, Structural)]
pub enum ImageSlot {
    /// The pass's own colour target.
    Color,
    /// The pass's own ambient occlusion target.
    AmbientOcclusion,
    /// The pass's own depth target.
    Depth,
    /// The image the caller wants the frame in.
    Target,
}

/// A corner of a region of an image.
#[derive(Clone, Copy, Debug, PartialEq, Eq, Structural)]
pub struct Corner {
    pub x: i32,
    pub y: i32,
    pub z: i32,
}

/// A copy, with scaling, of all of one image onto all of another: the
/// colour aspect of the first layer of the first mip level of each, from
/// the origin to the far corner.
#[derive(Clone, Copy, Debug, PartialEq, Eq, Structural)]
pub struct ImageBlit {
    pub src: ImageSlot,
    pub src_layout: ImageLayout,
    pub src_corner: Corner,
    pub dst: ImageSlot,
    pub dst_layout: ImageLayout,
    pub dst_corner: Corner,
    pub linear_filter: bool,
}

/// One command.
#[derive(Clone, Copy, Debug, PartialEq, Eq)]
pub enum RenderCommand {
    /// Point a binding of the set with this index at a resource.
    WriteDescriptor { set: u32, write: DescriptorWrite },
    /// Fill an image with one colour.
    ClearColorImage { image: ImageSlot, color: ClearColor },
    /// Bind the pass's ray tracing pipeline.
    BindRayTracingPipeline,
    /// Bind the first `count` descriptor sets of the pass, from set zero.
    BindDescriptorSets { count: u32 },
    /// Push the camera of the ray-traced pass to the given stages.
    PushCamera { stages: u32, camera: CameraInfo },
    /// Trace one ray for every texel of a `width` by `height` grid.
    TraceRays { width: u32, height: u32, depth: u32 },
    /// Copy one image onto another.
    BlitImage(ImageBlit),
    /// Begin the pass's render pass on the target image.
    BeginRenderPass { extent: Extent },
    /// Fill the colour attachment with one colour.
    ClearAttachment { color: ClearColor, extent: Extent },
    /// Bind the pass's graphics pipeline.
    BindGraphicsPipeline,
    /// Push the matrices of the wireframe pass to the given stages.
    PushTransform { stages: u32, transform: Transform },
    /// Bind a vertex buffer, from the view's offset on.
    BindVertexBuffer(BufferView),
    /// Bind an index buffer, from the view's offset on.
    BindIndexBuffer { view: BufferView, index_type: IndexType },
    /// Restrict drawing to the rectangle from the origin to `extent`.
    SetScissor { extent: Extent },
    /// Map clip space onto the rectangle from the origin to `extent`, with
    /// depth from zero to one; upside down if `flipped`, so that y grows
    /// upwards.
    SetViewport { extent: Extent, flipped: bool },
    /// Draw `index_count` indices, `instance_count` times.
    DrawIndexed { index_count: u32, instance_count: u32 },
    /// End the render pass.
    EndRenderPass,
}

/// What a pass asks of the device for one frame.
#[derive(Debug)]
pub struct Frame {
    /// For every instance of the scene, the hit group that serves it in the
    /// shader binding table; empty for a pass that traces no rays.
    pub hit_groups: Vec<u32>,
    /// The commands, in order.
    pub commands: Vec<RenderCommand>,
}

/// The blit of all of a `src` image of extent `from` onto all of a `dst`
/// image of extent `to`, with linear filtering.
pub open spec fn full_blit(src: ImageSlot, from: Extent, dst: ImageSlot, to: Extent) -> ImageBlit {
    ImageBlit {
        src,
        src_layout: ImageLayout::General,
        src_corner: Corner { x: from.width as i32, y: from.height as i32, z: 1 },
        dst,
        dst_layout: ImageLayout::TransferDstOptimal,
        dst_corner: Corner { x: to.width as i32, y: to.height as i32, z: 1 },
        linear_filter: true,
    }
}

/// Whether both extents can be the far corners of a blit.
pub open spec fn blit_addressable(from: Extent, to: Extent) -> bool {
    &&& from.width <= MAX_BLIT_EXTENT
    &&& from.height <= MAX_BLIT_EXTENT
    &&& to.width <= MAX_BLIT_EXTENT
    &&& to.height <= MAX_BLIT_EXTENT
}

/// Records the blit of all of one image onto all of another.
///
/// An extent beyond what a blit can address is refused with
/// `PreconditionNotMet`, and nothing is recorded.
pub fn cmd_blit_image(
    recorder: &mut Vec<RenderCommand>,
    src: ImageSlot,
    from: Extent,
    dst: ImageSlot,
    to: Extent,
) -> (r: Result<(), FrameError>)
    ensures
        r is Ok <==> blit_addressable(from, to),
        r is Ok ==> final(recorder)@ == old(recorder)@.push(
            RenderCommand::BlitImage(full_blit(src, from, dst, to)),
        ),
        r is Err ==> r == Err::<(), FrameError>(FrameError::PreconditionNotMet) && final(recorder)@
            == old(recorder)@,
{
    if from.width > MAX_BLIT_EXTENT || from.height > MAX_BLIT_EXTENT || to.width > MAX_BLIT_EXTENT
        || to.height > MAX_BLIT_EXTENT {
        return Err(FrameError::PreconditionNotMet);
    }
    recorder.push(
        RenderCommand::BlitImage(
            ImageBlit {
                src,
                src_layout: ImageLayout::General,
                src_corner: Corner { x: from.width as i32, y: from.height as i32, z: 1 },
                dst,
                dst_layout: ImageLayout::TransferDstOptimal,
                dst_corner: Corner { x: to.width as i32, y: to.height as i32, z: 1 },
                linear_filter: true,
            },
        ),
    );
    Ok(())
}

} // verus!
