//! What the device is told of the camera each frame.
//!
//! The matrices themselves are computed by the caller; here they are
//! sixteen bit patterns each, in column-major order, and the concern is the
//! byte-exact payload that the shaders read them from.

use vstd::prelude::*;
use crate::wire::{le_u32, le_u32_seq, lemma_le_u32_len, lemma_le_u32_seq_len, put_u32};

verus! {

/// Bytes of the push constants of the ray-traced pass.
pub const CAMERA_INFO_SIZE: u32 = 128;

/// Bytes of the push constants of the wireframe pass.
pub const TRANSFORM_SIZE: u32 = 192;

/// Bytes of the push constants of a pass that shoots rays from a pinhole.
pub const PINHOLE_SIZE: u32 = 28;

/// A direction in which the camera can be moved.
#[derive(Clone, Copy, Debug, PartialEq, Eq, Structural)]
pub enum Direction {
    Forward,
    Backward,
    Left,
    Right,
    Up,
    Down,
}

/// The matrices of a camera for one frame, as the caller computed them:
/// the view and projection matrices and the inverse of each.
#[derive(Clone, Copy, Debug, PartialEq, Eq)]
pub struct CameraMatrices {
    pub view: [u32; 16],
    pub projection: [u32; 16],
    pub view_inverse: [u32; 16],
    pub projection_inverse: [u32; 16],
}

/// The push constants of the ray-traced pass: the inverse view matrix, then
/// the inverse projection matrix.
#[derive(Clone, Copy, Debug, PartialEq, Eq)]
pub struct CameraInfo {
    pub view_inv: [u32; 16],
    pub proj_inv: [u32; 16],
}

/// The push constants of the wireframe pass: the model, view and projection
/// matrices, in this order.
#[derive(Clone, Copy, Debug, PartialEq, Eq)]
pub struct Transform {
    pub model: [u32; 16],
    pub view: [u32; 16],
    pub projection: [u32; 16],
}

/// The camera payload of a pass, in one of its two shapes. A pass uses one
/// shape and never the other.
#[derive(Clone, Copy, Debug, PartialEq, Eq)]
pub enum CameraPushConstant {
    /// Two matrices that take a pixel back into the world.
    Matrices(CameraInfo),
    /// Where the rays start, where the middle one points, and the vertical
    /// field of view.
    Pinhole { origin: [u32; 3], direction: [u32; 3], vertical_fov: u32 },
}

/// Appends the little-endian bytes of the sixteen numbers of a matrix.
pub fn put_matrix(out: &mut Vec<u8>, m: &[u32; 16])
    ensures
        final(out)@ == old(out)@ + le_u32_seq(m@),
        le_u32_seq(m@).len() == 64,
{
    let mut i: usize = 0;
    proof {
        assert(m@.take(0) =~= Seq::<u32>::empty());
        assert(out@ =~= old(out)@ + le_u32_seq(m@.take(0)));
    }
    while i < 16
        invariant
            i <= 16,
            out@ == old(out)@ + le_u32_seq(m@.take(i as int)),
        decreases 16 - i,
    {
        put_u32(out, m[i]);
        proof {
            assert(m@.take(i + 1).drop_last() =~= m@.take(i as int));
            assert(m@.take(i + 1).last() == m@[i as int]);
            assert(out@ =~= old(out)@ + le_u32_seq(m@.take(i + 1)));
        }
        i += 1;
    }
    proof {
        assert(m@.take(16) =~= m@);
        lemma_le_u32_seq_len(m@);
    }
}

/// Appends the little-endian bytes of the three numbers of a vector.
pub fn put_vector(out: &mut Vec<u8>, v: &[u32; 3])
    ensures
        final(out)@ == old(out)@ + le_u32_seq(v@),
        le_u32_seq(v@).len() == 12,
{
    let mut i: usize = 0;
    proof {
        assert(v@.take(0) =~= Seq::<u32>::empty());
        assert(out@ =~= old(out)@ + le_u32_seq(v@.take(0)));
    }
    while i < 3
        invariant
            i <= 3,
            out@ == old(out)@ + le_u32_seq(v@.take(i as int)),
        decreases 3 - i,
    {
        put_u32(out, v[i]);
        proof {
            assert(v@.take(i + 1).drop_last() =~= v@.take(i as int));
            assert(v@.take(i + 1).last() == v@[i as int]);
            assert(out@ =~= old(out)@ + le_u32_seq(v@.take(i + 1)));
        }
        i += 1;
    }
    proof {
        assert(v@.take(3) =~= v@);
        lemma_le_u32_seq_len(v@);
    }
}

impl CameraInfo {
    /// The payload of the ray-traced pass for a camera.
    pub open spec fn of(camera: CameraMatrices) -> CameraInfo {
        CameraInfo { view_inv: camera.view_inverse, proj_inv: camera.projection_inverse }
    }

    /// The 128 bytes of the payload: the inverse view matrix, then the
    /// inverse projection matrix, each as sixteen little-endian numbers.
    pub open spec fn encoding(self) -> Seq<u8> {
        le_u32_seq(self.view_inv@) + le_u32_seq(self.proj_inv@)
    }

    /// Takes from a camera what the ray-traced pass pushes.
    pub fn from_camera(camera: &CameraMatrices) -> (info: CameraInfo)
        ensures
            info == CameraInfo::of(*camera),
    {
        CameraInfo { view_inv: camera.view_inverse, proj_inv: camera.projection_inverse }
    }

    /// The bytes to push.
    pub fn encode(&self) -> (bytes: Vec<u8>)
        ensures
            bytes@ == self.encoding(),
            bytes@.len() == CAMERA_INFO_SIZE,
    {
        let mut bytes: Vec<u8> = Vec::new();
        put_matrix(&mut bytes, &self.view_inv);
        put_matrix(&mut bytes, &self.proj_inv);
        assert(bytes@ =~= self.encoding());
        bytes
    }
}

impl Transform {
    /// The payload of the wireframe pass for a camera and an instance's
    /// object-to-world matrix.
    pub open spec fn of(model: [u32; 16], camera: CameraMatrices) -> Transform {
        Transform { model, view: camera.view, projection: camera.projection }
    }

    /// The 192 bytes of the payload: the model, view and projection
    /// matrices in this order, each as sixteen little-endian numbers.
    pub open spec fn encoding(self) -> Seq<u8> {
        le_u32_seq(self.model@) + le_u32_seq(self.view@) + le_u32_seq(self.projection@)
    }

    /// Puts an instance's matrix together with the camera's.
    pub fn new(model: [u32; 16], camera: &CameraMatrices) -> (t: Transform)
        ensures
            t == Transform::of(model, *camera),
    {
        Transform { model, view: camera.view, projection: camera.projection }
    }

    /// The bytes to push.
    pub fn encode(&self) -> (bytes: Vec<u8>)
        ensures
            bytes@ == self.encoding(),
            bytes@.len() == TRANSFORM_SIZE,
    {
        let mut bytes: Vec<u8> = Vec::new();
        put_matrix(&mut bytes, &self.model);
        put_matrix(&mut bytes, &self.view);
        put_matrix(&mut bytes, &self.projection);
        assert(bytes@ =~= self.encoding());
        bytes
    }
}

impl CameraPushConstant {
    /// The bytes of the payload: 128 for the two matrices; 28 for the
    /// pinhole, which are its origin, its direction and its field of view.
    pub open spec fn encoding(self) -> Seq<u8> {
        match self {
            CameraPushConstant::Matrices(info) => info.encoding(),
            CameraPushConstant::Pinhole { origin, direction, vertical_fov } => le_u32_seq(origin@)
                + le_u32_seq(direction@) + le_u32(vertical_fov),
        }
    }

    /// The number of bytes of the payload.
    pub open spec fn size(self) -> u32 {
        match self {
            CameraPushConstant::Matrices(_) => CAMERA_INFO_SIZE,
            CameraPushConstant::Pinhole { .. } => PINHOLE_SIZE,
        }
    }

    /// The bytes to push.
    pub fn encode(&self) -> (bytes: Vec<u8>)
        ensures
            bytes@ == self.encoding(),
            bytes@.len() == self.size(),
    {
        match self {
            CameraPushConstant::Matrices(info) => info.encode(),
            CameraPushConstant::Pinhole { origin, direction, vertical_fov } => {
                let mut bytes: Vec<u8> = Vec::new();
                put_vector(&mut bytes, origin);
                put_vector(&mut bytes, direction);
                put_u32(&mut bytes, *vertical_fov);
                proof {
                    lemma_le_u32_len(*vertical_fov);
                    assert(bytes@ =~= self.encoding());
                }
                bytes
            },
        }
    }
}

/// The frame size, bounce limit and camera of an offline render. The
/// camera is given by where it stands and what it looks at, its aspect
/// ratio and its vertical field of view, all as bit patterns.
#[derive(Clone, Copy, Debug, PartialEq, Eq)]
pub struct RenderSettings {
    pub width: u32,
    pub height: u32,
    pub max_bounce: u32,
    pub camera_location: [u32; 3],
    pub camera_look_at: [u32; 3],
    pub camera_aspect_ratio: u32,
    pub camera_fov: u32,
}

/// The bit pattern of ten.
pub const TEN: u32 = 0x4120_0000;

/// The bit pattern of sixteen ninths.
pub const SIXTEEN_NINTHS: u32 = 0x3FE3_8E39;

/// The bit pattern of a third of pi.
pub const FRAC_PI_3: u32 = 0x3F86_0A92;

impl Default for RenderSettings {
    /// A full-HD frame with five bounces, seen from ten units up the z axis
    /// towards the origin, sixteen to nine, with a field of view of sixty
    /// degrees.
    fn default() -> (settings: RenderSettings)
        ensures
            settings.width == 1920,
            settings.height == 1080,
            settings.max_bounce == 5,
            settings.camera_location@ == seq![0u32, 0, TEN],
            settings.camera_look_at@ == seq![0u32, 0, 0],
            settings.camera_aspect_ratio == SIXTEEN_NINTHS,
            settings.camera_fov == FRAC_PI_3,
    {
        let settings = RenderSettings {
            width: 1920,
            height: 1080,
            max_bounce: 5,
            camera_location: [0, 0, TEN],
            camera_look_at: [0, 0, 0],
            camera_aspect_ratio: SIXTEEN_NINTHS,
            camera_fov: FRAC_PI_3,
        };
        proof {
            assert(settings.camera_location@ =~= seq![0u32, 0, TEN]);
            assert(settings.camera_look_at@ =~= seq![0u32, 0, 0]);
        }
        settings
    }
}

} // verus!
