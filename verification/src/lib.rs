//! Decisions of a tile map renderer: how the GPU is set up, what a resize,
//! suspension or resumption changes, which tile data is fetched and uploaded
//! each frame, and which draw commands a frame consists of.
//!
//! Everything here works on plain values. The program around the library owns
//! the window, the GPU device and the worker threads, and performs what the
//! plans returned here say.

pub mod device;
pub mod formats;
pub mod frame;
pub mod globals;
pub mod laws;
pub mod render_state;
pub mod setup;
pub mod style;
pub mod surface;
pub mod tiles;
pub mod upload;
pub mod zoom;
