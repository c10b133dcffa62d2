//! The decision-making core of a small OpenGL program that opens a window and
//! draws one triangle.
//!
//! Nothing here touches the graphics driver or the window system. Each
//! component turns what it is given (handles the device allocated, a status the
//! device reported, the events the window delivered) into the exact list of
//! [`command::Command`]s that a thin adapter then carries out, and into the
//! values the caller goes on with.

pub mod command;
pub mod geometry;
pub mod processor;
pub mod render;
pub mod shader;
pub mod shader_loader;
pub mod window;
