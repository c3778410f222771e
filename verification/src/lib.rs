//! Verified core of an interactive 3D scene viewer.
//!
//! The library holds the camera transformation subsystem and the per-frame
//! GPU resource/state machine of the viewer: camera pose and projection,
//! input-driven camera control, the instanced grid of model transforms, the
//! render-context lifecycle (format choice, resize rules, per-frame uniform
//! regeneration) and the event-driven application state machine.
//!
//! All continuous quantities are fixed-point integers (see [`fixed`]);
//! trigonometric samples of the camera's pitch and yaw are plain scaled
//! values handed in by the caller. The windowing and GPU work itself stays
//! outside the library, which only decides, computes and records.

pub mod camera;
pub mod context;
pub mod controller;
pub mod driver;
pub mod fixed;
pub mod instance;
pub mod matrix;
pub mod vec3;
