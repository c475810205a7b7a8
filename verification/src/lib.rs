//! Verified core of a small real-time 3D scene renderer.
//!
//! The crate holds the decisions of the renderer: which passes a frame is
//! made of and in which order, what becomes of a frame whose texture the
//! surface withholds, how the surface and the projection follow the
//! window's size, which bind group stands at which slot of every pipeline,
//! how uniform data is laid out in bytes, how the six faces of the sky cube
//! are packed, what the camera's input holds from tick to tick and how far
//! the camera may pitch. Talking to the GPU and to the window system, and
//! all arithmetic on floating-point numbers, is left to the program that
//! uses the crate.

pub mod aspect;
pub mod bind;
pub mod camera;
pub mod draw_shape;
pub mod frame;
pub mod input;
pub mod rotation;
pub mod skybox;
pub mod surface;
pub mod uniform;
pub mod view;
