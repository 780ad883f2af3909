use map_render_state::device::Platform;
use map_render_state::formats::{IndexFormat, TextureFormat};
use map_render_state::frame::{
    ClearColor, ColorAttachment, DepthStencilAttachment, FinishStep, PassCommand, Pipeline,
    PoolBuffer, SurfaceError, Target,
};
use map_render_state::render_state::RenderState;
use map_render_state::setup::RenderOptions;
use map_render_state::surface::PhysicalSize;
use map_render_state::tiles::{ByteRange, DrawRange, IndexEntry, WorldTileCoords};
use map_render_state::zoom::Zoom;

fn state_at(zoom: f64) -> RenderState {
    let options = RenderOptions {
        platform: Platform { web_webgl: false, android: false },
        color_format: TextureFormat::Bgra8UnormSrgb,
        index_format: IndexFormat::Uint32,
        debug_wireframe: false,
        vertex_buffer_size: 1,
        feature_metadata_buffer_size: 1,
        indices_buffer_size: 1,
        tile_meta_count: 1,
        tile_metadata_size: 1,
        globals_size: 1,
        min_buffer_size: 1,
    };
    let mut state = RenderState::new(&options, PhysicalSize { width: 8, height: 6 }).0;
    state.zoom = Zoom { bits: zoom.to_bits() };
    state
}

fn range(start: u64) -> ByteRange {
    ByteRange { start, end: start + 10 }
}

fn entry(z: u8, stencil_reference: u8) -> IndexEntry {
    let base = u64::from(stencil_reference) * 100;
    IndexEntry {
        coords: WorldTileCoords { x: 1, y: 2, z },
        stencil_reference,
        vertices: range(base),
        indices: range(base + 20),
        metadata: range(base + 40),
        feature_metadata: range(base + 60),
        drawn_indices: DrawRange { start: 0, end: 3 },
    }
}

fn commands_of(e: &IndexEntry) -> Vec<PassCommand> {
    let one = DrawRange { start: 0, end: 1 };
    let reference = PassCommand::SetStencilReference { reference: u32::from(e.stencil_reference) };
    vec![
        PassCommand::SetPipeline { pipeline: Pipeline::Mask },
        reference,
        PassCommand::SetVertexBuffer { slot: 0, buffer: PoolBuffer::Metadata, range: e.metadata },
        PassCommand::Draw { vertices: DrawRange { start: 0, end: 6 }, instances: one },
        PassCommand::SetPipeline { pipeline: Pipeline::Tile },
        reference,
        PassCommand::SetIndexBuffer { range: e.indices, format: IndexFormat::Uint32 },
        PassCommand::SetVertexBuffer { slot: 0, buffer: PoolBuffer::Vertices, range: e.vertices },
        PassCommand::SetVertexBuffer { slot: 1, buffer: PoolBuffer::Metadata, range: e.metadata },
        PassCommand::SetVertexBuffer {
            slot: 2,
            buffer: PoolBuffer::FeatureMetadata,
            range: e.feature_metadata,
        },
        PassCommand::DrawIndexed { indices: e.drawn_indices, base_vertex: 0, instances: one },
    ]
}

#[test]
fn only_the_visible_level_is_drawn() {
    let entries = vec![entry(3, 1), entry(4, 2), entry(3, 3), entry(2, 4)];
    let plan = state_at(3.9).render(Ok(()), &entries).ok().unwrap();
    let mut expected = vec![PassCommand::SetBindGroup { index: 0 }];
    expected.extend(commands_of(&entries[0]));
    expected.extend(commands_of(&entries[2]));
    assert_eq!(plan.commands, expected);
    assert_eq!(plan.commands.len(), 23);
}

#[test]
fn other_levels_leave_no_trace() {
    let state = state_at(3.0);
    let all = vec![entry(9, 7), entry(3, 1), entry(0, 8)];
    let visible = vec![entry(3, 1)];
    assert_eq!(
        state.render(Ok(()), &all).ok().unwrap().commands,
        state.render(Ok(()), &visible).ok().unwrap().commands
    );
}

#[test]
fn an_empty_index_is_a_cleared_frame() {
    let plan = state_at(0.0).render(Ok(()), &Vec::new()).ok().unwrap();
    assert_eq!(plan.commands, vec![PassCommand::SetBindGroup { index: 0 }]);
    assert_eq!(plan.encoder_label, Some("Encoder"));
    assert_eq!(plan.pass_label, None);
    assert_eq!(
        plan.depth_stencil,
        DepthStencilAttachment {
            depth_clear: 0,
            depth_store: true,
            stencil_clear: 0,
            stencil_store: true,
        }
    );
}

#[test]
fn samples_are_resolved_into_the_frame() {
    let plan = state_at(0.0).render(Ok(()), &Vec::new()).ok().unwrap();
    assert_eq!(
        plan.color,
        ColorAttachment {
            target: Target::Multisampling,
            resolve_target: Some(Target::Frame),
            clear: ClearColor::White,
            store: true,
        }
    );
}

#[test]
fn a_single_sample_goes_to_the_frame() {
    let mut state = state_at(0.0);
    state.multisampling_texture = None;
    let plan = state.render(Ok(()), &Vec::new()).ok().unwrap();
    assert_eq!(
        plan.color,
        ColorAttachment {
            target: Target::Frame,
            resolve_target: None,
            clear: ClearColor::White,
            store: true,
        }
    );
}

#[test]
fn without_a_frame_nothing_is_drawn() {
    let state = state_at(3.0);
    let entries = vec![entry(3, 1)];
    for error in [
        SurfaceError::Timeout,
        SurfaceError::Outdated,
        SurfaceError::Lost,
        SurfaceError::OutOfMemory,
    ] {
        assert_eq!(state.render(Err(error), &entries).err(), Some(error));
    }
}

#[test]
fn indices_are_read_in_the_format_of_the_state() {
    let mut state = state_at(3.0);
    state.index_format = IndexFormat::Uint16;
    let entries = vec![entry(3, 1)];
    let plan = state.render(Ok(()), &entries).ok().unwrap();
    assert_eq!(
        plan.commands[7],
        PassCommand::SetIndexBuffer { range: entries[0].indices, format: IndexFormat::Uint16 }
    );
}

#[test]
fn a_frame_is_submitted_presented_and_counted() {
    let plan = state_at(3.0).render(Ok(()), &vec![entry(3, 1)]).ok().unwrap();
    assert_eq!(
        plan.finish,
        vec![FinishStep::Submit, FinishStep::Present, FinishStep::CountFrame]
    );
}
