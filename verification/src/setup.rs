//! How the GPU is set up when the renderer starts.

use vstd::prelude::*;

use crate::device::{
    device_features, non_zero_size, requested_features, wgpu_all_backends, wgpu_buffer_size,
    wgpu_shader_stage_vertex, BufferRole, DeviceLimits, Platform, ALL_BACKENDS, SHADER_STAGE_VERTEX,
};
use crate::formats::{IndexFormat, TextureFormat};
use crate::surface::{
    depth_texture_for, multisampling_texture_for, plan_depth_texture, plan_multisampling_texture,
    PhysicalSize, SurfaceConfiguration, TexturePlan,
};

verus! {

/// How many samples each pixel has.
pub const SAMPLE_COUNT: u32 = 4;

/// The yaw of the camera at the start, in degrees.
pub const INITIAL_YAW: i32 = -90;

/// What a build of the renderer fixes.
#[derive(Clone, Copy, PartialEq, Eq, Structural, Debug)]
pub struct RenderOptions {
    pub platform: Platform,
    /// The color format of the surface.
    pub color_format: TextureFormat,
    /// The format of the indices in the index buffer.
    pub index_format: IndexFormat,
    /// Whether polygons are drawn as lines.
    pub debug_wireframe: bool,
    /// The size in bytes of the vertex buffer.
    pub vertex_buffer_size: u64,
    /// The size in bytes of the buffer of feature styles.
    pub feature_metadata_buffer_size: u64,
    /// The size in bytes of the index buffer.
    pub indices_buffer_size: u64,
    /// How many tiles the buffer of tile metadata has room for.
    pub tile_meta_count: u64,
    /// The size in bytes of the metadata of one tile.
    pub tile_metadata_size: u64,
    /// The size in bytes of the globals.
    pub globals_size: u64,
    /// The least size in bytes that the platform allows for a uniform buffer.
    pub min_buffer_size: u64,
}

impl RenderOptions {
    /// Whether the size of the tile metadata buffer can be expressed.
    pub open spec fn representable(self) -> bool {
        self.tile_metadata_size * self.tile_meta_count <= u64::MAX
    }

    /// The size in bytes of the tile metadata buffer.
    pub open spec fn metadata_buffer_size(self) -> u64 {
        (self.tile_metadata_size * self.tile_meta_count) as u64
    }

    /// The size in bytes of the globals buffer: as large as the globals, but
    /// no smaller than the platform allows.
    pub open spec fn globals_buffer_size(self) -> u64 {
        if self.min_buffer_size < self.globals_size {
            self.globals_size
        } else {
            self.min_buffer_size
        }
    }
}

/// Which adapter is asked for.
#[derive(Clone, Copy, PartialEq, Eq, Structural, Debug)]
pub enum PowerPreference {
    LowPower,
    HighPerformance,
}

#[derive(Clone, Copy, PartialEq, Eq, Structural, Debug)]
pub struct AdapterRequest {
    pub power_preference: PowerPreference,
    pub force_fallback_adapter: bool,
}

#[derive(Clone, Copy, Debug)]
pub struct DeviceRequest {
    pub label: Option<&'static str>,
    pub features: u64,
    pub limits: DeviceLimits,
}

/// A buffer to create.
#[derive(Clone, Copy, Debug)]
pub struct BufferPlan {
    pub label: Option<&'static str>,
    pub size: u64,
    pub usage: u32,
    pub mapped_at_creation: bool,
}

/// What a bound buffer serves as in the shaders.
#[derive(Clone, Copy, PartialEq, Eq, Structural, Debug)]
pub enum BufferBindingType {
    Uniform,
    Storage { read_only: bool },
}

/// The bind group of the globals: its one entry is the whole globals buffer.
#[derive(Clone, Copy, Debug)]
pub struct GlobalsBinding {
    pub layout_label: Option<&'static str>,
    pub label: Option<&'static str>,
    pub binding: u32,
    pub visibility: u32,
    pub binding_type: BufferBindingType,
    pub has_dynamic_offset: bool,
    pub min_binding_size: Option<u64>,
}

/// What the shaders of a pipeline can read.
#[derive(Clone, Copy, PartialEq, Eq, Structural, Debug)]
pub enum PipelineLayout {
    /// The bind group of the globals alone, no push constants and no label.
    Globals,
}

/// A vertex shader with the fragment shader that goes with it.
#[derive(Clone, Copy, PartialEq, Eq, Structural, Debug)]
pub enum ShaderPair {
    /// They draw the geometry of tiles.
    Tile,
    /// They mark the pixels of tiles.
    TileMask,
}

/// A pipeline to create.
#[derive(Clone, Copy, PartialEq, Eq, Structural, Debug)]
pub struct PipelinePlan {
    pub layout: PipelineLayout,
    pub shaders: ShaderPair,
    pub sample_count: u32,
    /// Whether the pipeline marks the pixels of tiles instead of drawing them.
    pub mask: bool,
}

/// Where the camera starts. Angles are in degrees.
#[derive(Clone, Copy, PartialEq, Eq, Structural, Debug)]
pub struct CameraPlan {
    pub x: i32,
    pub y: i32,
    pub z: i32,
    pub yaw: i32,
    pub pitch: i32,
    pub size: PhysicalSize,
}

/// The perspective that the renderer starts with. The angle is in degrees.
#[derive(Clone, Copy, PartialEq, Eq, Structural, Debug)]
pub struct PerspectivePlan {
    pub size: PhysicalSize,
    pub fovy: i32,
    pub near: i32,
    pub far: i32,
}

/// Everything that is created when the renderer starts.
#[derive(Clone, Copy, Debug)]
pub struct SetupPlan {
    pub backends: u32,
    pub adapter: AdapterRequest,
    pub device: DeviceRequest,
    pub vertex_buffer: BufferPlan,
    pub feature_metadata_buffer: BufferPlan,
    pub indices_buffer: BufferPlan,
    pub metadata_buffer: BufferPlan,
    pub globals_buffer: BufferPlan,
    pub globals_binding: GlobalsBinding,
    pub tile_pipeline: PipelinePlan,
    pub mask_pipeline: PipelinePlan,
    pub surface_config: SurfaceConfiguration,
    pub depth_texture: TexturePlan,
    pub multisampling_texture: Option<TexturePlan>,
    pub camera: CameraPlan,
    pub perspective: PerspectivePlan,
}

/// The size that the renderer starts with. On Android the size of the window
/// is not known yet, and a size is made up.
pub open spec fn initial_size(platform: Platform, window_size: PhysicalSize) -> PhysicalSize {
    if platform.android {
        PhysicalSize { width: 500, height: 500 }
    } else {
        window_size
    }
}

/// A buffer that is not mapped when it is created.
pub open spec fn buffer_plan(
    label: Option<&'static str>,
    size: u64,
    role: BufferRole,
) -> BufferPlan {
    BufferPlan { label, size, usage: role.usage_bits(), mapped_at_creation: false }
}

/// What is created for the given options at the given size.
pub open spec fn setup_plan(options: RenderOptions, size: PhysicalSize) -> SetupPlan {
    let surface_config = SurfaceConfiguration::of_size(size, options.color_format);
    SetupPlan {
        backends: ALL_BACKENDS,
        adapter: AdapterRequest {
            power_preference: PowerPreference::LowPower,
            force_fallback_adapter: false,
        },
        device: DeviceRequest {
            label: None,
            features: requested_features(options.debug_wireframe),
            limits: options.platform.limits(),
        },
        vertex_buffer: buffer_plan(None, options.vertex_buffer_size, BufferRole::Vertex),
        feature_metadata_buffer: buffer_plan(
            None,
            options.feature_metadata_buffer_size,
            BufferRole::Vertex,
        ),
        indices_buffer: buffer_plan(None, options.indices_buffer_size, BufferRole::Index),
        metadata_buffer: buffer_plan(
            Some("Tiles ubo"),
            options.metadata_buffer_size(),
            BufferRole::Vertex,
        ),
        globals_buffer: buffer_plan(
            Some("Globals ubo"),
            options.globals_buffer_size(),
            BufferRole::Uniform,
        ),
        globals_binding: GlobalsBinding {
            layout_label: Some("Bind group layout"),
            label: Some("Bind group"),
            binding: 0,
            visibility: SHADER_STAGE_VERTEX,
            binding_type: BufferBindingType::Uniform,
            has_dynamic_offset: false,
            min_binding_size: non_zero_size(options.globals_buffer_size()),
        },
        tile_pipeline: PipelinePlan {
            layout: PipelineLayout::Globals,
            shaders: ShaderPair::Tile,
            sample_count: SAMPLE_COUNT,
            mask: false,
        },
        mask_pipeline: PipelinePlan {
            layout: PipelineLayout::Globals,
            shaders: ShaderPair::TileMask,
            sample_count: SAMPLE_COUNT,
            mask: true,
        },
        surface_config,
        depth_texture: depth_texture_for(surface_config, SAMPLE_COUNT),
        multisampling_texture: multisampling_texture_for(surface_config, SAMPLE_COUNT),
        camera: CameraPlan { x: 0, y: 0, z: 500, yaw: INITIAL_YAW, pitch: 0, size },
        perspective: PerspectivePlan { size, fovy: 45, near: 10, far: 600 },
    }
}

/// Chooses the size that the renderer starts with.
pub(crate) fn choose_initial_size(platform: &Platform, window_size: PhysicalSize) -> (size:
    PhysicalSize)
    ensures
        size == initial_size(*platform, window_size),
{
    if platform.android {
        PhysicalSize { width: 500, height: 500 }
    } else {
        window_size
    }
}

fn plan_buffer(label: Option<&'static str>, size: u64, role: BufferRole) -> (plan: BufferPlan)
    ensures
        plan == buffer_plan(label, size, role),
{
    BufferPlan { label, size, usage: role.usage(), mapped_at_creation: false }
}

/// Plans what is created for the given options at the given size.
pub(crate) fn plan_setup(options: &RenderOptions, size: PhysicalSize) -> (plan: SetupPlan)
    requires
        options.representable(),
    ensures
        plan == setup_plan(*options, size),
{
    let metadata_buffer_size: u64 = options.tile_metadata_size * options.tile_meta_count;
    let globals_buffer_size: u64 = if options.min_buffer_size < options.globals_size {
        options.globals_size
    } else {
        options.min_buffer_size
    };
    let surface_config = SurfaceConfiguration::new(size, options.color_format);
    SetupPlan {
        backends: wgpu_all_backends(),
        adapter: AdapterRequest {
            power_preference: PowerPreference::LowPower,
            force_fallback_adapter: false,
        },
        device: DeviceRequest {
            label: None,
            features: device_features(options.debug_wireframe),
            limits: options.platform.device_limits(),
        },
        vertex_buffer: plan_buffer(None, options.vertex_buffer_size, BufferRole::Vertex),
        feature_metadata_buffer: plan_buffer(
            None,
            options.feature_metadata_buffer_size,
            BufferRole::Vertex,
        ),
        indices_buffer: plan_buffer(None, options.indices_buffer_size, BufferRole::Index),
        metadata_buffer: plan_buffer(Some("Tiles ubo"), metadata_buffer_size, BufferRole::Vertex),
        globals_buffer: plan_buffer(
            Some("Globals ubo"),
            globals_buffer_size,
            BufferRole::Uniform,
        ),
        globals_binding: GlobalsBinding {
            layout_label: Some("Bind group layout"),
            label: Some("Bind group"),
            binding: 0,
            visibility: wgpu_shader_stage_vertex(),
            binding_type: BufferBindingType::Uniform,
            has_dynamic_offset: false,
            min_binding_size: wgpu_buffer_size(globals_buffer_size),
        },
        tile_pipeline: PipelinePlan {
            layout: PipelineLayout::Globals,
            shaders: ShaderPair::Tile,
            sample_count: SAMPLE_COUNT,
            mask: false,
        },
        mask_pipeline: PipelinePlan {
            layout: PipelineLayout::Globals,
            shaders: ShaderPair::TileMask,
            sample_count: SAMPLE_COUNT,
            mask: true,
        },
        surface_config,
        depth_texture: plan_depth_texture(&surface_config, SAMPLE_COUNT),
        multisampling_texture: plan_multisampling_texture(&surface_config, SAMPLE_COUNT),
        camera: CameraPlan { x: 0, y: 0, z: 500, yaw: INITIAL_YAW, pitch: 0, size },
        perspective: PerspectivePlan { size, fovy: 45, near: 10, far: 600 },
    }
}

} // verus!
