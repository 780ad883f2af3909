use map_render_state::device::Platform;
use map_render_state::formats::{IndexFormat, TextureFormat};
use map_render_state::render_state::RenderState;
use map_render_state::setup::RenderOptions;
use map_render_state::surface::{PhysicalSize, SurfaceUpdate, TexturePlan};
use map_render_state::zoom::Zoom;

fn started() -> RenderState {
    let options = RenderOptions {
        platform: Platform { web_webgl: false, android: false },
        color_format: TextureFormat::Bgra8UnormSrgb,
        index_format: IndexFormat::Uint32,
        debug_wireframe: false,
        vertex_buffer_size: 1,
        feature_metadata_buffer_size: 1,
        indices_buffer_size: 1,
        tile_meta_count: 1,
        tile_metadata_size: 1,
        globals_size: 1,
        min_buffer_size: 1,
    };
    RenderState::new(&options, size(800, 600)).0
}

fn size(width: u32, height: u32) -> PhysicalSize {
    PhysicalSize { width, height }
}

#[test]
fn a_resize_reaches_everything_that_has_a_size() {
    let mut state = started();
    let update = state.resize(size(1024, 768));
    let texture =
        TexturePlan { label: None, surface_config: state.surface_config, sample_count: 4 };
    let depth_texture = TexturePlan { label: Some("depth_texture"), ..texture };
    assert_eq!(state.size, size(1024, 768));
    assert_eq!(state.camera, size(1024, 768));
    assert_eq!(state.perspective, size(1024, 768));
    assert_eq!(state.surface_config.width, 1024);
    assert_eq!(state.surface_config.height, 768);
    assert_eq!(state.depth_texture, depth_texture);
    assert_eq!(state.multisampling_texture, Some(texture));
    assert_eq!(
        update,
        Some(SurfaceUpdate {
            surface_config: state.surface_config,
            perspective: size(1024, 768),
            camera: size(1024, 768),
            depth_texture,
            multisampling_texture: Some(texture),
        })
    );
}

#[test]
fn a_resize_keeps_the_rest() {
    let mut state = started();
    state.zoom = Zoom { bits: 3.5f64.to_bits() };
    let before = state;
    state.resize(size(7, 9));
    assert_eq!(state.zoom, before.zoom);
    assert_eq!(state.sample_count, before.sample_count);
    assert_eq!(state.suspended, before.suspended);
    assert_eq!(state.index_format, before.index_format);
    assert_eq!(state.surface_config.format, before.surface_config.format);
    assert_eq!(state.surface_config.usage, before.surface_config.usage);
    assert_eq!(state.surface_config.present_mode, before.surface_config.present_mode);
}

#[test]
fn empty_sizes_are_ignored() {
    let mut state = started();
    let before = state;
    assert_eq!(state.resize(size(0, 600)), None);
    assert_eq!(state.resize(size(800, 0)), None);
    assert_eq!(state.resize(size(0, 0)), None);
    assert_eq!(state, before);
    assert!(state.resize(size(1, 1)).is_some());
}

#[test]
fn a_single_sample_needs_no_multisampling_texture() {
    let mut state = started();
    state.sample_count = 1;
    let update = state.resize(size(20, 10)).unwrap();
    assert_eq!(update.multisampling_texture, None);
    assert_eq!(state.multisampling_texture, None);
    assert_eq!(
        update.depth_texture,
        TexturePlan {
            label: Some("depth_texture"),
            surface_config: state.surface_config,
            sample_count: 1,
        }
    );
}

#[test]
fn sizes_are_lost_while_suspended() {
    let mut state = started();
    state.suspend();
    assert_eq!(state.resize(size(1024, 768)), None);
    assert_eq!(state.size, size(800, 600));
    let config = state.recreate_surface().unwrap();
    assert_eq!((config.width, config.height), (800, 600));
    state.resume();
    assert_eq!(state, started());
    assert!(state.resize(size(1024, 768)).is_some());
}

#[test]
fn a_surface_is_created_anew_only_while_suspended() {
    let mut state = started();
    assert_eq!(state.recreate_surface(), None);
    state.suspend();
    assert_eq!(state.recreate_surface(), Some(state.surface_config));
    state.resume();
    assert_eq!(state.recreate_surface(), None);
}

#[test]
fn resume_undoes_suspend() {
    let mut state = started();
    state.suspend();
    assert!(state.suspended);
    state.suspend();
    assert!(state.suspended);
    state.resume();
    assert_eq!(state, started());
}

#[test]
fn the_last_size_wins() {
    let mut twice = started();
    twice.resize(size(10, 20));
    twice.resize(size(30, 40));
    let mut once = started();
    once.resize(size(30, 40));
    assert_eq!(twice, once);
}

#[test]
fn the_visible_level_follows_the_zoom() {
    let mut state = started();
    assert_eq!(state.visible_z(), 0);
    state.zoom = Zoom { bits: 14.9f64.to_bits() };
    assert_eq!(state.visible_z(), 14);
}

#[test]
fn everything_keeps_one_size_whatever_happens() {
    let mut state = started();
    let sizes = [size(10, 20), size(0, 5), size(640, 480), size(3, 0), size(1, 1)];
    for (i, new_size) in sizes.iter().enumerate() {
        if i % 2 == 0 {
            state.resume();
        } else {
            state.suspend();
        }
        state.resize(*new_size);
        assert!(state.size.width > 0 && state.size.height > 0);
        assert_eq!(state.camera, state.size);
        assert_eq!(state.perspective, state.size);
        assert_eq!(state.surface_config.width, state.size.width);
        assert_eq!(state.surface_config.height, state.size.height);
        let texture =
            TexturePlan { label: None, surface_config: state.surface_config, sample_count: 4 };
        assert_eq!(
            state.depth_texture,
            TexturePlan { label: Some("depth_texture"), ..texture }
        );
        assert_eq!(state.multisampling_texture, Some(texture));
    }
    assert_eq!(state.size, size(1, 1));
}
