//! What holds of the plan that a renderer starts with.

use vstd::prelude::*;

use crate::device::{
    default_limits, requested_features, webgl2_limits, BufferRole, DeviceLimits, Platform,
};
use crate::globals::{byte_of, in_memory};
use crate::laws::window::{
    after_events, law_always_consistent, law_events_keep_the_rest, WindowEvent,
};
use crate::render_state::RenderState;
use crate::setup::{
    initial_size, setup_plan, BufferBindingType, PowerPreference, RenderOptions, ShaderPair,
};
use crate::surface::{PhysicalSize, PresentMode};
use crate::upload::{globals_step, UploadStep};

verus! {

/// The plan creates what the state takes for granted.
pub proof fn law_plan_fits_the_state(options: RenderOptions, size: PhysicalSize)
    ensures
        ({
            let plan = setup_plan(options, size);
            let state = RenderState::initial(options, size);
            &&& plan.surface_config == state.surface_config
            &&& plan.depth_texture == state.depth_texture
            &&& plan.multisampling_texture == state.multisampling_texture
            &&& plan.camera.size == state.camera
            &&& plan.perspective.size == state.perspective
        }),
{
}

/// Both pipelines and both textures have the same number of samples, however
/// often the size has changed in between.
pub proof fn law_samples_agree(
    options: RenderOptions,
    size: PhysicalSize,
    events: Seq<WindowEvent>,
)
    ensures
        ({
            let plan = setup_plan(options, size);
            let state = after_events(RenderState::initial(options, size), events);
            &&& plan.tile_pipeline.sample_count == state.depth_texture.sample_count
            &&& plan.mask_pipeline.sample_count == state.depth_texture.sample_count
            &&& state.multisampling_texture matches Some(texture) && texture.sample_count
                == plan.tile_pipeline.sample_count
        }),
{
    law_always_consistent(options, size, events);
    law_events_keep_the_rest(RenderState::initial(options, size), events);
}

/// The buffer of the globals holds the globals, is as large as the platform
/// demands, is no larger than it must be, and is bound in full.
pub proof fn law_globals_fit_their_buffer(options: RenderOptions, size: PhysicalSize)
    ensures
        ({
            let plan = setup_plan(options, size);
            &&& plan.globals_buffer.size >= options.globals_size
            &&& plan.globals_buffer.size >= options.min_buffer_size
            &&& plan.globals_buffer.size == options.globals_size || plan.globals_buffer.size
                == options.min_buffer_size
            &&& plan.globals_buffer.size > 0 ==> plan.globals_binding.min_binding_size == Some(
                plan.globals_buffer.size,
            )
        }),
{
}

/// What a session writes to the buffer of the globals fits in, whatever the
/// byte order: the words of the globals take up their size in bytes.
pub proof fn law_globals_write_fits_its_buffer(
    options: RenderOptions,
    size: PhysicalSize,
    words: Seq<u32>,
    data: Seq<u8>,
)
    requires
        in_memory(words, data),
        4 * words.len() == options.globals_size,
    ensures
        data.len() == options.globals_size,
        globals_step(data) matches UploadStep::WriteGlobals { offset, data: written } && offset
            + written.len() <= setup_plan(options, size).globals_buffer.size,
{
}

/// Each pipeline has the shaders of its own task, and both have one layout.
pub proof fn law_pipelines_have_their_shaders(options: RenderOptions, size: PhysicalSize)
    ensures
        ({
            let plan = setup_plan(options, size);
            &&& !plan.tile_pipeline.mask && plan.tile_pipeline.shaders == ShaderPair::Tile
            &&& plan.mask_pipeline.mask && plan.mask_pipeline.shaders == ShaderPair::TileMask
            &&& plan.tile_pipeline.layout == plan.mask_pipeline.layout
        }),
{
}

/// The buffer of tile metadata has room for exactly as many tiles as it should.
pub proof fn law_tile_metadata_fits_its_buffer(options: RenderOptions, size: PhysicalSize)
    requires
        options.representable(),
    ensures
        setup_plan(options, size).metadata_buffer.size == options.tile_metadata_size
            * options.tile_meta_count,
{
    assert(0 <= options.tile_metadata_size * options.tile_meta_count) by (nonlinear_arith);
}

/// The device is requested with the limits of the platform that the renderer is
/// built for: those of WebGL 2 but for larger textures, on Android the usual ones
/// but for fewer storage textures, and else the usual ones.
pub proof fn law_device_fits_the_platform(options: RenderOptions, size: PhysicalSize)
    ensures
        ({
            let limits = setup_plan(options, size).device.limits;
            &&& options.platform.web_webgl ==> limits == (DeviceLimits {
                max_texture_dimension_2d: 4096,
                ..webgl2_limits()
            })
            &&& !options.platform.web_webgl && options.platform.android ==> limits
                == (DeviceLimits { max_storage_textures_per_shader_stage: 4, ..default_limits() })
            &&& !options.platform.web_webgl && !options.platform.android ==> limits
                == default_limits()
        }),
{
}

/// What a WebGL build asks for can be had there: no compute shaders, no storage
/// buffers or textures, and no more of anything else than elsewhere.
pub proof fn law_webgl_asks_for_less(options: RenderOptions, size: PhysicalSize)
    requires
        options.platform.web_webgl,
    ensures
        ({
            let limits = setup_plan(options, size).device.limits;
            let usual = default_limits();
            &&& limits.max_storage_buffers_per_shader_stage == 0
            &&& limits.max_storage_textures_per_shader_stage == 0
            &&& limits.max_dynamic_storage_buffers_per_pipeline_layout == 0
            &&& limits.max_storage_buffer_binding_size == 0
            &&& limits.max_compute_workgroup_storage_size == 0
            &&& limits.max_compute_invocations_per_workgroup == 0
            &&& limits.max_compute_workgroup_size_x == 0
            &&& limits.max_compute_workgroup_size_y == 0
            &&& limits.max_compute_workgroup_size_z == 0
            &&& limits.max_compute_workgroups_per_dimension == 0
            &&& limits.max_texture_dimension_1d == 2048
            &&& limits.max_texture_dimension_2d == 4096
            &&& limits.max_texture_dimension_3d == 256
            &&& limits.max_uniform_buffers_per_shader_stage == 11
            &&& limits.max_uniform_buffer_binding_size == 16384
            &&& limits.max_vertex_buffer_array_stride == 255
            &&& limits.max_texture_array_layers <= usual.max_texture_array_layers
            &&& limits.max_bind_groups <= usual.max_bind_groups
            &&& limits.max_vertex_buffers <= usual.max_vertex_buffers
            &&& limits.max_vertex_attributes <= usual.max_vertex_attributes
        }),
{
}

/// Any backend will do, the adapter should save power, and polygons can be drawn
/// as lines exactly if wireframes are wanted.
pub proof fn law_device_request(options: RenderOptions, size: PhysicalSize)
    ensures
        ({
            let plan = setup_plan(options, size);
            &&& plan.backends == 0x7e
            &&& plan.adapter.power_preference == PowerPreference::LowPower
            &&& !plan.adapter.force_fallback_adapter
            &&& plan.device.label is None
            &&& options.debug_wireframe ==> plan.device.features == 0x1000_0000
            &&& !options.debug_wireframe ==> plan.device.features == 0
            &&& requested_features(options.debug_wireframe) == plan.device.features
        }),
{
}

/// Buffers of each role can be written, serve as what they are for, and have no
/// further use.
pub proof fn law_buffer_usage(role: BufferRole)
    ensures
        role.usage_bits() & 0x08 == 0x08,
        role.usage_bits() & 0x20 == 0x20 <==> role == BufferRole::Vertex,
        role.usage_bits() & 0x10 == 0x10 <==> role == BufferRole::Index,
        role.usage_bits() & 0x40 == 0x40 <==> role == BufferRole::Uniform,
        role.usage_bits() & !0x78u32 == 0,
{
    assert((0x20u32 | 0x08) & 0x08 == 0x08 && (0x20u32 | 0x08) & 0x20 == 0x20 && (0x20u32 | 0x08)
        & 0x10 == 0 && (0x20u32 | 0x08) & 0x40 == 0 && (0x20u32 | 0x08) & !0x78u32 == 0)
        by (bit_vector);
    assert((0x10u32 | 0x08) & 0x08 == 0x08 && (0x10u32 | 0x08) & 0x20 == 0 && (0x10u32 | 0x08)
        & 0x10 == 0x10 && (0x10u32 | 0x08) & 0x40 == 0 && (0x10u32 | 0x08) & !0x78u32 == 0)
        by (bit_vector);
    assert((0x40u32 | 0x08) & 0x08 == 0x08 && (0x40u32 | 0x08) & 0x20 == 0 && (0x40u32 | 0x08)
        & 0x10 == 0 && (0x40u32 | 0x08) & 0x40 == 0x40 && (0x40u32 | 0x08) & !0x78u32 == 0)
        by (bit_vector);
}

/// Each buffer has the size that the options give for it and serves as what it
/// is for: geometry, styles and tile metadata are read as vertices, indices as
/// indices, and the globals as a uniform. None is mapped.
pub proof fn law_each_buffer_has_its_size_and_role(options: RenderOptions, size: PhysicalSize)
    requires
        options.tile_metadata_size * options.tile_meta_count <= u64::MAX,
    ensures
        ({
            let plan = setup_plan(options, size);
            &&& plan.vertex_buffer.size == options.vertex_buffer_size
            &&& plan.vertex_buffer.usage == 0x28
            &&& plan.vertex_buffer.label is None
            &&& plan.feature_metadata_buffer.size == options.feature_metadata_buffer_size
            &&& plan.feature_metadata_buffer.usage == 0x28
            &&& plan.feature_metadata_buffer.label is None
            &&& plan.indices_buffer.size == options.indices_buffer_size
            &&& plan.indices_buffer.usage == 0x18
            &&& plan.indices_buffer.label is None
            &&& plan.metadata_buffer.size == options.tile_metadata_size * options.tile_meta_count
            &&& plan.metadata_buffer.usage == 0x28
            &&& plan.metadata_buffer.label == Some("Tiles ubo")
            &&& plan.globals_buffer.usage == 0x48
            &&& plan.globals_buffer.label == Some("Globals ubo")
            &&& !plan.vertex_buffer.mapped_at_creation
            &&& !plan.feature_metadata_buffer.mapped_at_creation
            &&& !plan.indices_buffer.mapped_at_creation
            &&& !plan.metadata_buffer.mapped_at_creation
            &&& !plan.globals_buffer.mapped_at_creation
        }),
{
    law_tile_metadata_fits_its_buffer(options, size);
    assert(0x20u32 | 0x08 == 0x28 && 0x10u32 | 0x08 == 0x18 && 0x40u32 | 0x08 == 0x48)
        by (bit_vector);
}

/// The globals are bound at 0 as a uniform that vertex shaders see.
pub proof fn law_globals_binding(options: RenderOptions, size: PhysicalSize)
    ensures
        ({
            let plan = setup_plan(options, size);
            let binding = plan.globals_binding;
            &&& binding.binding == 0
            &&& binding.visibility == 1
            &&& binding.binding_type == BufferBindingType::Uniform
            &&& !binding.has_dynamic_offset
            &&& binding.layout_label == Some("Bind group layout")
            &&& binding.label == Some("Bind group")
            &&& binding.min_binding_size is None <==> plan.globals_buffer.size == 0
            &&& binding.min_binding_size matches Some(bytes) ==> bytes == plan.globals_buffer.size
        }),
{
}

/// The renderer starts with the size of its window, but for Android, where that
/// is not known yet.
pub proof fn law_size_at_the_start(platform: Platform, window_size: PhysicalSize)
    ensures
        !platform.android ==> initial_size(platform, window_size) == window_size,
        platform.android ==> initial_size(platform, window_size).width == 500 && initial_size(
            platform,
            window_size,
        ).height == 500,
{
}

/// Surface, textures, pipelines, camera and perspective at the start.
pub proof fn law_view_at_the_start(options: RenderOptions, size: PhysicalSize)
    ensures
        ({
            let plan = setup_plan(options, size);
            &&& plan.surface_config.width == size.width
            &&& plan.surface_config.height == size.height
            &&& plan.surface_config.format == options.color_format
            &&& plan.surface_config.usage == 0x10
            &&& plan.surface_config.present_mode == PresentMode::Fifo
            &&& plan.depth_texture.surface_config == plan.surface_config
            &&& plan.depth_texture.sample_count == 4
            &&& plan.depth_texture.label == Some("depth_texture")
            &&& plan.multisampling_texture matches Some(texture) && texture.surface_config
                == plan.surface_config && texture.sample_count == 4
            &&& plan.tile_pipeline.sample_count == 4
            &&& plan.mask_pipeline.sample_count == 4
            &&& plan.camera.x == 0 && plan.camera.y == 0 && plan.camera.z == 500
            &&& plan.camera.yaw == -90 && plan.camera.pitch == 0
            &&& plan.camera.size == size
            &&& plan.perspective.size == size
            &&& plan.perspective.fovy == 45
            &&& plan.perspective.near == 10 && plan.perspective.far == 600
        }),
{
}

/// A renderer can start exactly if the size of its tile metadata buffer can be
/// expressed.
pub proof fn law_representable_options(options: RenderOptions)
    ensures
        options.representable() <==> options.tile_metadata_size * options.tile_meta_count
            <= u64::MAX,
{
}

/// The bytes of the globals hold every bit of the words: each word can be read
/// back from its four bytes, in one order for all of them.
pub proof fn law_globals_can_be_read_back(words: Seq<u32>, data: Seq<u8>)
    requires
        in_memory(words, data),
    ensures
        data.len() == 4 * words.len(),
        (forall|i: int|
            0 <= i < words.len() ==> #[trigger] words[i] == data[4 * i] + 0x100 * data[4 * i + 1]
                + 0x1_0000 * data[4 * i + 2] + 0x100_0000 * data[4 * i + 3]) || (forall|i: int|
            0 <= i < words.len() ==> #[trigger] words[i] == data[4 * i + 3] + 0x100 * data[4 * i
                + 2] + 0x1_0000 * data[4 * i + 1] + 0x100_0000 * data[4 * i]),
{
    assert forall|i: int| 0 <= i < words.len() implies (4 * i) / 4 == i && (4 * i + 1) / 4 == i && (
    4 * i + 2) / 4 == i && (4 * i + 3) / 4 == i && #[trigger] words[i] == byte_of(words[i], 0)
        + 0x100 * byte_of(words[i], 1) + 0x1_0000 * byte_of(words[i], 2) + 0x100_0000 * byte_of(
        words[i],
        3,
    ) by {}
}

} // verus!
