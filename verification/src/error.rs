//! The conditions this library reports instead of rendering garbage.

use vstd::prelude::*;

verus! {

/// A failure that aborts initialization.
#[derive(Clone, Copy, Debug, PartialEq, Eq, Structural)]
pub enum StartupError {
    /// No adapter that can serve as the rendering device was found.
    NoSuitableGpu,
    /// The first build of a shader produced no bytecode.
    InitialShaderBuildFailed,
    /// The descriptor pool cannot hold what a layout asks for, or the layout
    /// itself is malformed.
    LayoutCreationError,
}

/// A failure of one frame. The frame driver skips the frame and goes on.
#[derive(Clone, Copy, Debug, PartialEq, Eq, Structural)]
pub enum FrameError {
    /// `execute` was called before any scene was prepared.
    NoActiveScene,
    /// Something the active pass needs for this frame is absent.
    PreconditionNotMet,
    /// The scene cannot be mirrored on the device. The mirror is as it was.
    SceneUploadFailed,
}

} // verus!
