use map_render_state::device::{device_features, BufferRole, DeviceLimits, Platform};
use map_render_state::formats::{IndexFormat, TextureFormat};
use map_render_state::render_state::RenderState;
use map_render_state::setup::{
    BufferBindingType, PipelineLayout, PowerPreference, RenderOptions, SetupPlan, ShaderPair,
};
use map_render_state::surface::{PhysicalSize, PresentMode, TexturePlan};
use map_render_state::upload::UploadAction;

const DESKTOP: Platform = Platform { web_webgl: false, android: false };
const ANDROID: Platform = Platform { web_webgl: false, android: true };
const WEB: Platform = Platform { web_webgl: true, android: false };

fn options(platform: Platform) -> RenderOptions {
    RenderOptions {
        platform,
        color_format: TextureFormat::Bgra8UnormSrgb,
        index_format: IndexFormat::Uint32,
        debug_wireframe: false,
        vertex_buffer_size: 1_000_000,
        feature_metadata_buffer_size: 300_000,
        indices_buffer_size: 600_000,
        tile_meta_count: 512,
        tile_metadata_size: 64,
        globals_size: 80,
        min_buffer_size: 32,
    }
}

fn start(options: &RenderOptions, width: u32, height: u32) -> (RenderState, SetupPlan) {
    RenderState::new(options, PhysicalSize { width, height })
}

fn fields(limits: &DeviceLimits) -> Vec<u32> {
    vec![
        limits.max_texture_dimension_1d,
        limits.max_texture_dimension_2d,
        limits.max_texture_dimension_3d,
        limits.max_texture_array_layers,
        limits.max_bind_groups,
        limits.max_dynamic_uniform_buffers_per_pipeline_layout,
        limits.max_dynamic_storage_buffers_per_pipeline_layout,
        limits.max_sampled_textures_per_shader_stage,
        limits.max_samplers_per_shader_stage,
        limits.max_storage_buffers_per_shader_stage,
        limits.max_storage_textures_per_shader_stage,
        limits.max_uniform_buffers_per_shader_stage,
        limits.max_uniform_buffer_binding_size,
        limits.max_storage_buffer_binding_size,
        limits.max_vertex_buffers,
        limits.max_vertex_attributes,
        limits.max_vertex_buffer_array_stride,
        limits.max_push_constant_size,
        limits.min_uniform_buffer_offset_alignment,
        limits.min_storage_buffer_offset_alignment,
        limits.max_inter_stage_shader_components,
        limits.max_compute_workgroup_storage_size,
        limits.max_compute_invocations_per_workgroup,
        limits.max_compute_workgroup_size_x,
        limits.max_compute_workgroup_size_y,
        limits.max_compute_workgroup_size_z,
        limits.max_compute_workgroups_per_dimension,
    ]
}

fn wgpu_fields(limits: &wgpu::Limits) -> Vec<u32> {
    vec![
        limits.max_texture_dimension_1d,
        limits.max_texture_dimension_2d,
        limits.max_texture_dimension_3d,
        limits.max_texture_array_layers,
        limits.max_bind_groups,
        limits.max_dynamic_uniform_buffers_per_pipeline_layout,
        limits.max_dynamic_storage_buffers_per_pipeline_layout,
        limits.max_sampled_textures_per_shader_stage,
        limits.max_samplers_per_shader_stage,
        limits.max_storage_buffers_per_shader_stage,
        limits.max_storage_textures_per_shader_stage,
        limits.max_uniform_buffers_per_shader_stage,
        limits.max_uniform_buffer_binding_size,
        limits.max_storage_buffer_binding_size,
        limits.max_vertex_buffers,
        limits.max_vertex_attributes,
        limits.max_vertex_buffer_array_stride,
        limits.max_push_constant_size,
        limits.min_uniform_buffer_offset_alignment,
        limits.min_storage_buffer_offset_alignment,
        limits.max_inter_stage_shader_components,
        limits.max_compute_workgroup_storage_size,
        limits.max_compute_invocations_per_workgroup,
        limits.max_compute_workgroup_size_x,
        limits.max_compute_workgroup_size_y,
        limits.max_compute_workgroup_size_z,
        limits.max_compute_workgroups_per_dimension,
    ]
}

#[test]
fn desktop_asks_for_the_default_limits() {
    let limits = DESKTOP.device_limits();
    assert_eq!(fields(&limits), wgpu_fields(&wgpu::Limits::default()));
    assert_eq!(
        fields(&limits),
        vec![
            8192, 8192, 2048, 256, 4, 8, 4, 16, 16, 8, 8, 12, 65536, 134217728, 8, 16, 2048, 0,
            256, 256, 60, 16352, 256, 256, 256, 64, 65535,
        ]
    );
}

#[test]
fn android_asks_for_fewer_storage_textures() {
    let limits = ANDROID.device_limits();
    assert_eq!(limits.max_storage_textures_per_shader_stage, 4);
    let expected =
        wgpu::Limits { max_storage_textures_per_shader_stage: 4, ..wgpu::Limits::default() };
    assert_eq!(fields(&limits), wgpu_fields(&expected));
}

#[test]
fn webgl_asks_for_larger_textures() {
    let limits = WEB.device_limits();
    assert_eq!(limits.max_texture_dimension_2d, 4096);
    let expected = wgpu::Limits {
        max_texture_dimension_2d: 4096,
        ..wgpu::Limits::downlevel_webgl2_defaults()
    };
    assert_eq!(fields(&limits), wgpu_fields(&expected));
    assert_eq!(
        fields(&limits),
        vec![
            2048, 4096, 256, 256, 4, 8, 0, 16, 16, 0, 0, 11, 16384, 0, 8, 16, 255, 0, 256, 256,
            60, 0, 0, 0, 0, 0, 0,
        ]
    );
}

#[test]
fn webgl_comes_before_android() {
    let both = Platform { web_webgl: true, android: true };
    assert_eq!(both.device_limits(), WEB.device_limits());
}

#[test]
fn wireframes_need_line_polygons() {
    assert_eq!(device_features(false), wgpu::Features::default().bits());
    assert_eq!(device_features(false), 0);
    assert_eq!(
        device_features(true),
        (wgpu::Features::default() | wgpu::Features::POLYGON_MODE_LINE).bits()
    );
    assert_eq!(device_features(true), 1 << 28);
}

#[test]
fn buffers_can_be_written() {
    let copy = wgpu::BufferUsages::COPY_DST;
    assert_eq!(BufferRole::Vertex.usage(), (wgpu::BufferUsages::VERTEX | copy).bits());
    assert_eq!(BufferRole::Index.usage(), (wgpu::BufferUsages::INDEX | copy).bits());
    assert_eq!(BufferRole::Uniform.usage(), (wgpu::BufferUsages::UNIFORM | copy).bits());
    assert_eq!(BufferRole::Vertex.usage(), 0x28);
    assert_eq!(BufferRole::Index.usage(), 0x18);
    assert_eq!(BufferRole::Uniform.usage(), 0x48);
}

#[test]
fn a_renderer_starts_with_the_size_of_the_window() {
    let (state, plan) = start(&options(DESKTOP), 1280, 720);
    assert_eq!(state.size, PhysicalSize { width: 1280, height: 720 });
    assert_eq!(state.camera, state.size);
    assert_eq!(state.perspective, state.size);
    assert!(!state.suspended);
    assert_eq!(state.sample_count, 4);
    assert_eq!(state.zoom.bits, 0);
    assert_eq!(state.visible_z(), 0);
    assert_eq!(state.surface_config, plan.surface_config);
    assert_eq!(state.depth_texture, plan.depth_texture);
    assert_eq!(state.multisampling_texture, plan.multisampling_texture);
    assert_eq!(plan.surface_config.width, 1280);
    assert_eq!(plan.surface_config.height, 720);
    assert_eq!(plan.surface_config.present_mode, PresentMode::Fifo);
    assert_eq!(plan.surface_config.usage, wgpu::TextureUsages::RENDER_ATTACHMENT.bits());
    assert_eq!(plan.surface_config.format, TextureFormat::Bgra8UnormSrgb);
    let texture =
        TexturePlan { label: None, surface_config: plan.surface_config, sample_count: 4 };
    assert_eq!(plan.depth_texture, TexturePlan { label: Some("depth_texture"), ..texture });
    assert_eq!(plan.multisampling_texture, Some(texture));
    assert_eq!(state.index_format, IndexFormat::Uint32);
}

#[test]
fn android_makes_up_a_size() {
    let (state, plan) = start(&options(ANDROID), 1280, 720);
    let made_up = PhysicalSize { width: 500, height: 500 };
    assert_eq!(state.size, made_up);
    assert_eq!(plan.camera.size, made_up);
    assert_eq!(plan.surface_config.width, 500);
}

#[test]
fn the_plan_asks_for_a_saving_adapter_of_any_backend() {
    let (_, plan) = start(&options(DESKTOP), 10, 10);
    assert_eq!(plan.backends, wgpu::Backends::all().bits());
    assert_eq!(plan.backends, 0x7e);
    assert_eq!(plan.adapter.power_preference, PowerPreference::LowPower);
    assert!(!plan.adapter.force_fallback_adapter);
    assert_eq!(plan.device.label, None);
    assert_eq!(plan.device.features, 0);
    assert_eq!(plan.device.limits, DESKTOP.device_limits());
    let wireframe = RenderOptions { debug_wireframe: true, ..options(DESKTOP) };
    assert_eq!(start(&wireframe, 10, 10).1.device.features, 1 << 28);
}

#[test]
fn the_plan_creates_five_buffers() {
    let (_, plan) = start(&options(DESKTOP), 10, 10);
    assert_eq!(plan.vertex_buffer.size, 1_000_000);
    assert_eq!(plan.vertex_buffer.usage, 0x28);
    assert_eq!(plan.vertex_buffer.label, None);
    assert_eq!(plan.feature_metadata_buffer.size, 300_000);
    assert_eq!(plan.feature_metadata_buffer.usage, 0x28);
    assert_eq!(plan.feature_metadata_buffer.label, None);
    assert_eq!(plan.indices_buffer.size, 600_000);
    assert_eq!(plan.indices_buffer.usage, 0x18);
    assert_eq!(plan.indices_buffer.label, None);
    assert_eq!(plan.metadata_buffer.size, 64 * 512);
    assert_eq!(plan.metadata_buffer.usage, 0x28);
    assert_eq!(plan.metadata_buffer.label, Some("Tiles ubo"));
    assert_eq!(plan.globals_buffer.size, 80);
    assert_eq!(plan.globals_buffer.usage, 0x48);
    assert_eq!(plan.globals_buffer.label, Some("Globals ubo"));
    assert!(!plan.vertex_buffer.mapped_at_creation);
    assert!(!plan.globals_buffer.mapped_at_creation);
}

#[test]
fn small_globals_get_the_least_buffer() {
    let small = RenderOptions { globals_size: 8, ..options(DESKTOP) };
    let (_, plan) = start(&small, 10, 10);
    assert_eq!(plan.globals_buffer.size, 32);
    assert_eq!(plan.globals_binding.min_binding_size, Some(32));
}

#[test]
fn the_globals_are_bound_for_vertex_shaders() {
    let (_, plan) = start(&options(DESKTOP), 10, 10);
    assert_eq!(plan.globals_binding.binding, 0);
    assert_eq!(plan.globals_binding.visibility, wgpu::ShaderStages::VERTEX.bits());
    assert_eq!(plan.globals_binding.visibility, 1);
    assert!(!plan.globals_binding.has_dynamic_offset);
    assert_eq!(plan.globals_binding.binding_type, BufferBindingType::Uniform);
    assert_eq!(plan.globals_binding.layout_label, Some("Bind group layout"));
    assert_eq!(plan.globals_binding.label, Some("Bind group"));
    assert_eq!(plan.globals_binding.min_binding_size, Some(80));
    let none = RenderOptions { globals_size: 0, min_buffer_size: 0, ..options(DESKTOP) };
    assert_eq!(start(&none, 10, 10).1.globals_binding.min_binding_size, None);
}

#[test]
fn pipelines_and_textures_have_the_same_samples() {
    let (_, plan) = start(&options(DESKTOP), 10, 10);
    assert_eq!(plan.tile_pipeline.sample_count, 4);
    assert!(!plan.tile_pipeline.mask);
    assert_eq!(plan.mask_pipeline.sample_count, 4);
    assert!(plan.mask_pipeline.mask);
    assert_eq!(plan.tile_pipeline.shaders, ShaderPair::Tile);
    assert_eq!(plan.mask_pipeline.shaders, ShaderPair::TileMask);
    assert_eq!(plan.tile_pipeline.layout, PipelineLayout::Globals);
    assert_eq!(plan.mask_pipeline.layout, PipelineLayout::Globals);
    assert_eq!(plan.depth_texture.sample_count, 4);
}

#[test]
fn the_camera_starts_above_the_map() {
    let (_, plan) = start(&options(DESKTOP), 640, 480);
    assert_eq!((plan.camera.x, plan.camera.y, plan.camera.z), (0, 0, 500));
    assert_eq!((plan.camera.yaw, plan.camera.pitch), (-90, 0));
    assert_eq!(plan.camera.size, PhysicalSize { width: 640, height: 480 });
    assert_eq!(plan.perspective.size, PhysicalSize { width: 640, height: 480 });
    assert_eq!(plan.perspective.fovy, 45);
    assert_eq!((plan.perspective.near, plan.perspective.far), (10, 600));
}

#[test]
fn the_formats_come_from_the_options() {
    let other = RenderOptions {
        color_format: TextureFormat::Rgba8UnormSrgb,
        index_format: IndexFormat::Uint16,
        ..options(WEB)
    };
    let (mut state, plan) = start(&other, 10, 10);
    assert_eq!(plan.surface_config.format, TextureFormat::Rgba8UnormSrgb);
    assert_eq!(state.index_format, IndexFormat::Uint16);
    state.resize(PhysicalSize { width: 20, height: 30 });
    assert_eq!(state.surface_config.format, TextureFormat::Rgba8UnormSrgb);
    assert_eq!(state.index_format, IndexFormat::Uint16);
}

#[test]
fn a_write_of_the_globals_fits_its_buffer() {
    let options = options(DESKTOP);
    let (state, plan) = start(&options, 10, 10);
    let words = vec![0u32; 20];
    assert_eq!(options.globals_size, 80);
    let mut session = state.upload_tile_geometry(&None, &vec![], &words);
    match session.next_action() {
        Some(UploadAction::WriteGlobals { offset, data }) => {
            assert_eq!(data.len(), 80);
            assert!(offset + data.len() as u64 <= plan.globals_buffer.size);
        }
        _ => panic!("the globals come next"),
    }
}
