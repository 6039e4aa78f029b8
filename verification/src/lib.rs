//! Scene-rendering core of a small GPU renderer: descriptor-set layouts and
//! pool accounting, the flattening of a scene into device buffers, the
//! shader hot-reload hand-off, and the render passes that turn all of it
//! into an ordered list of device commands.
//!
//! Everything in this crate works on plain values. The device itself is
//! driven by the caller, which performs the commands this library plans.

pub mod bindless;
pub mod camera;
pub mod command;
pub mod descriptor;
pub mod engine;
pub mod error;
pub mod hot_reload;
pub mod input;
pub mod mirror;
pub mod po;
pub mod records;
pub mod scene;
pub mod scene_pass;
pub mod shading;
pub mod ui;
pub mod wire;
