//! What holds of the renderer as a whole.

pub mod frame;
pub mod setup;
pub mod style;
pub mod upload;
pub mod window;
pub mod zoom;
