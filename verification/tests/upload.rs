use map_render_state::device::Platform;
use map_render_state::formats::{IndexFormat, TextureFormat};
use map_render_state::render_state::RenderState;
use map_render_state::setup::RenderOptions;
use map_render_state::style::{feature_metadata, style_of_layer, ShaderFeatureStyle};
use map_render_state::surface::PhysicalSize;
use map_render_state::tiles::{ByteRange, DrawRange, IndexEntry, WorldTileCoords};
use map_render_state::upload::{
    plan_allocations, TessellatedLayer, TessellationResult, UploadAction, UploadSession,
};
use map_render_state::zoom::Zoom;

fn started() -> RenderState {
    let options = RenderOptions {
        platform: Platform { web_webgl: false, android: false },
        color_format: TextureFormat::Bgra8UnormSrgb,
        index_format: IndexFormat::Uint32,
        debug_wireframe: false,
        vertex_buffer_size: 1,
        feature_metadata_buffer_size: 1,
        indices_buffer_size: 1,
        tile_meta_count: 1,
        tile_metadata_size: 1,
        globals_size: 1,
        min_buffer_size: 1,
    };
    let mut state = RenderState::new(&options, PhysicalSize { width: 8, height: 6 }).0;
    state.zoom = Zoom { bits: 2.25f64.to_bits() };
    state
}

fn tile(x: i32) -> WorldTileCoords {
    WorldTileCoords { x, y: 0, z: 2 }
}

fn entry(x: i32) -> IndexEntry {
    let range = ByteRange { start: 0, end: 1 };
    IndexEntry {
        coords: tile(x),
        stencil_reference: 1,
        vertices: range,
        indices: range,
        metadata: range,
        feature_metadata: range,
        drawn_indices: DrawRange { start: 0, end: 1 },
    }
}

fn layer(x: i32, name: &str, feature_indices: Vec<u32>) -> TessellationResult {
    TessellationResult::TessellatedLayer(TessellatedLayer {
        coords: tile(x),
        name: name.to_string(),
        feature_count: feature_indices.len(),
        feature_indices,
    })
}

fn color(style: ShaderFeatureStyle) -> [f32; 4] {
    [
        f32::from_bits(style.red),
        f32::from_bits(style.green),
        f32::from_bits(style.blue),
        f32::from_bits(style.alpha),
    ]
}

fn describe(action: &UploadAction) -> String {
    match action {
        UploadAction::FetchTile(request) => {
            format!("fetch {} {}", request.coords.x, request.layers.join(","))
        }
        UploadAction::UpdateTileMetadata { entry, coords, zoom } => {
            format!("update {} {} {}", entry, coords.x, f64::from_bits(zoom.bits))
        }
        UploadAction::GetLoadedLayers { coords } => format!("lookup {}", coords.x),
        UploadAction::GetTessellatedLayers { coords, loaded_layers } => {
            format!("ask {} [{}]", coords.x, loaded_layers.join(","))
        }
        UploadAction::AllocateTileGeometry(allocation) => format!(
            "allocate {} {} {} {} {}",
            allocation.layer,
            allocation.coords.x,
            allocation.name,
            allocation.feature_metadata.len(),
            f64::from_bits(allocation.zoom.bits)
        ),
        UploadAction::WriteGlobals { offset, data } => format!("globals {} {}", offset, data.len()),
    }
}

fn loaded(x: i32) -> Vec<String> {
    if x == 5 {
        vec!["transportation".to_string(), "boundary".to_string()]
    } else {
        vec![]
    }
}

fn drive(session: &mut UploadSession, mut answers: Vec<Vec<TessellationResult>>) -> Vec<String> {
    let mut done = Vec::new();
    while let Some(action) = session.next_action() {
        done.push(describe(&action));
        match action {
            UploadAction::GetLoadedLayers { coords } => {
                session.supply_loaded_layers(loaded(coords.x));
            }
            UploadAction::GetTessellatedLayers { .. } => {
                session.supply_tessellated_layers(&answers.remove(0));
            }
            _ => {}
        }
    }
    done
}

#[test]
fn a_session_fetches_updates_uploads_and_writes() {
    let view = Some(vec![tile(5), tile(6)]);
    let entries = vec![entry(1), entry(5), entry(1)];
    let mut session = started().upload_tile_geometry(&view, &entries, &vec![1, 2, 3]);
    let answers = vec![
        vec![
            TessellationResult::Unavailable,
            layer(5, "water", vec![2, 3]),
            layer(5, "building", vec![]),
        ],
        vec![layer(6, "boundary", vec![4])],
    ];
    let layers = "transportation,building,boundary,water";
    assert_eq!(
        drive(&mut session, answers),
        vec![
            format!("fetch 5 {}", layers),
            format!("fetch 6 {}", layers),
            "update 0 1 2.25".to_string(),
            "update 1 5 2.25".to_string(),
            "update 2 1 2.25".to_string(),
            "lookup 5".to_string(),
            "ask 5 [transportation,boundary]".to_string(),
            "allocate 1 5 water 5 2.25".to_string(),
            "allocate 2 5 building 0 2.25".to_string(),
            "lookup 6".to_string(),
            "ask 6 []".to_string(),
            "allocate 0 6 boundary 4 2.25".to_string(),
            "globals 0 12".to_string(),
        ]
    );
    assert!(session.next_action().is_none());
}

#[test]
fn each_entry_is_updated_once_and_before_the_uploads() {
    let view = Some(vec![tile(5)]);
    let entries = vec![entry(1), entry(2), entry(3)];
    let mut session = started().upload_tile_geometry(&view, &entries, &vec![]);
    let done = drive(&mut session, vec![vec![layer(5, "water", vec![1])]]);
    let updates: Vec<usize> =
        (0..done.len()).filter(|i| done[*i].starts_with("update")).collect();
    let upload = (0..done.len()).find(|i| done[*i].starts_with("allocate")).unwrap();
    assert_eq!(updates.len(), 3);
    assert!(updates.iter().all(|i| *i < upload));
}

#[test]
fn without_a_view_only_the_index_is_updated() {
    let mut session = started().upload_tile_geometry(&None, &vec![entry(4)], &vec![0]);
    assert_eq!(
        drive(&mut session, vec![]),
        vec!["update 0 4 2.25".to_string(), "globals 0 4".to_string()]
    );
}

#[test]
fn the_globals_are_written_as_they_lie_in_memory() {
    let words = vec![0x0102_0304u32, 1.5f32.to_bits()];
    let mut session = started().upload_tile_geometry(&None, &vec![], &words);
    let mut expected: Vec<u8> = Vec::new();
    expected.extend(0x0102_0304u32.to_ne_bytes());
    expected.extend(1.5f32.to_ne_bytes());
    assert_eq!(expected, bytemuck::cast_slice::<u32, u8>(&words).to_vec());
    match session.next_action() {
        Some(UploadAction::WriteGlobals { offset, data }) => {
            assert_eq!(offset, 0);
            assert_eq!(data, expected);
        }
        _ => panic!("the globals come next"),
    }
}

#[test]
fn a_session_can_be_given_its_bytes() {
    let zoom = Zoom { bits: 1.0f64.to_bits() };
    let mut session = UploadSession::new(&None, &vec![], zoom, vec![9, 8]);
    match session.next_action() {
        Some(UploadAction::WriteGlobals { data, .. }) => assert_eq!(data, vec![9, 8]),
        _ => panic!("the globals come next"),
    }
    assert!(session.next_action().is_none());
}

#[test]
fn layers_have_their_colors() {
    let expected: Vec<(&str, [f32; 4])> = vec![
        ("transportation", [1.0, 0.0, 0.0, 1.0]),
        ("building", [0.0, 1.0, 1.0, 1.0]),
        ("boundary", [0.0, 0.0, 0.0, 1.0]),
        ("water", [0.0, 0.0, 0.7, 1.0]),
        ("waterway", [0.0, 0.0, 7.0, 1.0]),
        ("landcover", [0.0, 0.0, 0.0, 0.0]),
        ("Water", [0.0, 0.0, 0.0, 0.0]),
        ("", [0.0, 0.0, 0.0, 0.0]),
    ];
    for (name, rgba) in expected {
        assert_eq!(color(style_of_layer(&name.to_string())), rgba);
    }
}

#[test]
fn each_vertex_has_a_style() {
    let name = "building".to_string();
    let style = style_of_layer(&name);
    assert_eq!(feature_metadata(&name, 3, &vec![2, 0, 1]), vec![style, style, style]);
    assert_eq!(feature_metadata(&name, 1, &vec![2, 5]), vec![style, style]);
    assert_eq!(feature_metadata(&name, 0, &vec![2, 5]), vec![]);
}

#[test]
fn unavailable_layers_are_passed_over() {
    let zoom = Zoom { bits: 0 };
    let results = vec![
        TessellationResult::Unavailable,
        TessellationResult::Unavailable,
        layer(1, "water", vec![1]),
        TessellationResult::Unavailable,
    ];
    let actions = plan_allocations(&results, zoom);
    assert_eq!(actions.len(), 1);
    assert_eq!(describe(&actions[0]), "allocate 2 1 water 1 0");
    assert_eq!(plan_allocations(&vec![TessellationResult::Unavailable], zoom).len(), 0);
}

#[test]
fn requested_layers_can_be_seen_and_told_apart() {
    let view = Some(vec![tile(5)]);
    let mut session = started().upload_tile_geometry(&view, &vec![], &vec![]);
    match session.next_action() {
        Some(UploadAction::FetchTile(request)) => {
            let styles: Vec<ShaderFeatureStyle> =
                request.layers.iter().map(|name| style_of_layer(name)).collect();
            assert_eq!(styles.len(), 4);
            for i in 0..styles.len() {
                assert_eq!(color(styles[i])[3], 1.0);
                for j in 0..i {
                    assert_ne!(styles[i], styles[j]);
                }
            }
        }
        _ => panic!("the request comes first"),
    }
}

#[test]
fn workers_are_told_the_loaded_layers_of_the_tile() {
    let view = Some(vec![tile(4), tile(5)]);
    let mut session = started().upload_tile_geometry(&view, &vec![], &vec![]);
    let done = drive(&mut session, vec![vec![], vec![]]);
    assert_eq!(
        done[2..],
        [
            "lookup 4".to_string(),
            "ask 4 []".to_string(),
            "lookup 5".to_string(),
            "ask 5 [transportation,boundary]".to_string(),
            "globals 0 0".to_string(),
        ]
    );
    assert!(done[..2].iter().all(|step| step.starts_with("fetch")));
}
