//! The surface of the window and the textures that follow its size.

use vstd::prelude::*;

use crate::device::{wgpu_texture_usage_render_attachment, TEXTURE_USAGE_RENDER_ATTACHMENT};
use crate::formats::TextureFormat;

verus! {

/// A size in physical pixels.
#[derive(Clone, Copy, PartialEq, Eq, Structural, Debug)]
pub struct PhysicalSize {
    pub width: u32,
    pub height: u32,
}

impl PhysicalSize {
    /// Whether there is at least one pixel. A surface needs one.
    pub open spec fn drawable(self) -> bool {
        self.width > 0 && self.height > 0
    }
}

/// How finished frames get to the screen.
#[derive(Clone, Copy, PartialEq, Eq, Structural, Debug)]
pub enum PresentMode {
    Immediate,
    Mailbox,
    /// In step with the screen.
    Fifo,
}

/// How the surface is configured.
#[derive(Clone, Copy, PartialEq, Eq, Structural, Debug)]
pub struct SurfaceConfiguration {
    pub usage: u32,
    pub format: TextureFormat,
    pub width: u32,
    pub height: u32,
    pub present_mode: PresentMode,
}

impl SurfaceConfiguration {
    /// A surface of the given size and color format to draw to, in step with
    /// the screen.
    pub open spec fn of_size(size: PhysicalSize, format: TextureFormat) -> SurfaceConfiguration {
        SurfaceConfiguration {
            usage: TEXTURE_USAGE_RENDER_ATTACHMENT,
            format,
            width: size.width,
            height: size.height,
            present_mode: PresentMode::Fifo,
        }
    }

    pub(crate) fn new(size: PhysicalSize, format: TextureFormat) -> (config: SurfaceConfiguration)
        ensures
            config == SurfaceConfiguration::of_size(size, format),
    {
        SurfaceConfiguration {
            usage: wgpu_texture_usage_render_attachment(),
            format,
            width: size.width,
            height: size.height,
            present_mode: PresentMode::Fifo,
        }
    }
}

/// A texture that goes with a surface of the given configuration.
#[derive(Clone, Copy, PartialEq, Eq, Debug)]
pub struct TexturePlan {
    pub label: Option<&'static str>,
    pub surface_config: SurfaceConfiguration,
    pub sample_count: u32,
}

/// The depth texture that goes with a surface.
pub open spec fn depth_texture_for(config: SurfaceConfiguration, sample_count: u32) -> TexturePlan {
    TexturePlan { label: Some("depth_texture"), surface_config: config, sample_count }
}

/// The multisampling texture that goes with a surface; there is one only if
/// each pixel has more than one sample.
pub open spec fn multisampling_texture_for(
    config: SurfaceConfiguration,
    sample_count: u32,
) -> Option<TexturePlan> {
    if sample_count > 1 {
        Some(TexturePlan { label: None, surface_config: config, sample_count })
    } else {
        None
    }
}

pub(crate) fn plan_depth_texture(config: &SurfaceConfiguration, sample_count: u32) -> (texture:
    TexturePlan)
    ensures
        texture == depth_texture_for(*config, sample_count),
{
    TexturePlan { label: Some("depth_texture"), surface_config: *config, sample_count }
}

pub(crate) fn plan_multisampling_texture(
    config: &SurfaceConfiguration,
    sample_count: u32,
) -> (texture: Option<TexturePlan>)
    ensures
        texture == multisampling_texture_for(*config, sample_count),
{
    if sample_count > 1 {
        Some(TexturePlan { label: None, surface_config: *config, sample_count })
    } else {
        None
    }
}

/// What has to be done to the GPU and the camera after a change of size, in
/// the order of the fields.
#[derive(Clone, Copy, PartialEq, Eq, Debug)]
pub struct SurfaceUpdate {
    /// Configure the surface anew.
    pub surface_config: SurfaceConfiguration,
    /// Give the perspective this size.
    pub perspective: PhysicalSize,
    /// Give the camera this size.
    pub camera: PhysicalSize,
    /// Create the depth texture anew.
    pub depth_texture: TexturePlan,
    /// Create the multisampling texture anew, or drop it.
    pub multisampling_texture: Option<TexturePlan>,
}

} // verus!
