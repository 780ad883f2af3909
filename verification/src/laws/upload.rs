//! What holds of the uploads before a frame.

use vstd::prelude::*;

use crate::laws::style::law_one_style_for_each_vertex;
use crate::style::layer_style;
use crate::tiles::{IndexEntry, WorldTileCoords};
use crate::upload::{
    all_complete, allocation_steps, fetch_steps, globals_step, lookup_steps, question_of, run,
    schedule, steps_of, tiles_of, update_steps, worker_step, Question, TessellationResult,
    TileAnswer, UploadAction, UploadStep,
};
use crate::zoom::Zoom;

verus! {

/// Each tile is looked up in the buffer pool, then asked of the workers, and
/// what they have is uploaded, before it is the turn of the next tile.
pub open spec fn served(
    tiles: Seq<WorldTileCoords>,
    answers: Seq<TileAnswer>,
    zoom: Zoom,
) -> Seq<UploadStep>
    decreases tiles.len(),
{
    if tiles.len() == 0 {
        Seq::empty()
    } else {
        seq![
            UploadStep::GetLoadedLayers { coords: tiles.first() },
            worker_step(tiles.first(), answers.first()),
        ] + allocation_steps(answers.first().results, zoom) + served(
            tiles.drop_first(),
            answers.drop_first(),
            zoom,
        )
    }
}

/// Steps that ask nothing are done as they stand.
proof fn lemma_run_without_questions(
    steps: Seq<UploadStep>,
    rest: Seq<UploadStep>,
    answers: Seq<TileAnswer>,
    zoom: Zoom,
)
    requires
        forall|i: int| 0 <= i < steps.len() ==> question_of(#[trigger] steps[i]) is None,
    ensures
        run(steps + rest, answers, zoom) == steps + run(rest, answers, zoom),
    decreases steps.len(),
{
    if steps.len() == 0 {
        assert(steps + rest == rest);
    } else {
        assert((steps + rest).drop_first() == steps.drop_first() + rest);
        lemma_run_without_questions(steps.drop_first(), rest, answers, zoom);
        assert(seq![steps.first()] + steps.drop_first() == steps);
    }
}

/// What answers turn into is uploads alone.
proof fn lemma_allocations(results: Seq<TessellationResult>, zoom: Zoom)
    ensures
        forall|i: int|
            0 <= i < allocation_steps(results, zoom).len() ==> (#[trigger] allocation_steps(
                results,
                zoom,
            )[i]) is AllocateTileGeometry,
    decreases results.len(),
{
    if results.len() > 0 {
        lemma_allocations(results.drop_last(), zoom);
    }
}

proof fn lemma_run_lookups(
    tiles: Seq<WorldTileCoords>,
    answers: Seq<TileAnswer>,
    zoom: Zoom,
    data: Seq<u8>,
)
    requires
        answers.len() == tiles.len(),
    ensures
        run(lookup_steps(tiles) + seq![globals_step(data)], answers, zoom) == served(
            tiles,
            answers,
            zoom,
        ) + seq![globals_step(data)],
    decreases tiles.len(),
{
    let last = seq![globals_step(data)];
    let steps = lookup_steps(tiles) + last;
    if tiles.len() == 0 {
        assert(steps == last);
        lemma_run_without_questions(last, Seq::empty(), answers, zoom);
        assert(last + Seq::<UploadStep>::empty() == last);
    } else {
        let uploads = allocation_steps(answers.first().results, zoom);
        let rest = lookup_steps(tiles.drop_first()) + last;
        let asked = seq![worker_step(tiles.first(), answers.first())];
        assert(steps.drop_first() == rest);
        assert((asked + rest).drop_first() == rest);
        assert(run(asked + rest, answers, zoom) == asked + run(
            uploads + rest,
            answers.drop_first(),
            zoom,
        ));
        lemma_allocations(answers.first().results, zoom);
        lemma_run_without_questions(uploads, rest, answers.drop_first(), zoom);
        lemma_run_lookups(tiles.drop_first(), answers.drop_first(), zoom, data);
    }
}

/// A session requests all tiles in view, updates all of the index, looks up
/// and uploads tile by tile, and writes the globals, in this order.
pub proof fn law_session_order(
    tiles: Seq<WorldTileCoords>,
    entries: Seq<IndexEntry>,
    answers: Seq<TileAnswer>,
    zoom: Zoom,
    data: Seq<u8>,
)
    requires
        answers.len() == tiles.len(),
    ensures
        run(schedule(tiles, entries, zoom, data), answers, zoom) == fetch_steps(tiles)
            + update_steps(entries, zoom) + served(tiles, answers, zoom) + seq![globals_step(data)],
{
    let first = fetch_steps(tiles) + update_steps(entries, zoom);
    let rest = lookup_steps(tiles) + seq![globals_step(data)];
    assert(schedule(tiles, entries, zoom, data) == first + rest);
    lemma_run_without_questions(first, rest, answers, zoom);
    lemma_run_lookups(tiles, answers, zoom, data);
}

proof fn lemma_filter_all(steps: Seq<UploadStep>, kept: spec_fn(UploadStep) -> bool)
    requires
        forall|i: int| 0 <= i < steps.len() ==> kept(#[trigger] steps[i]),
    ensures
        steps.filter(kept) == steps,
    decreases steps.len(),
{
    reveal(Seq::filter);
    if steps.len() > 0 {
        lemma_filter_all(steps.drop_last(), kept);
        assert(kept(steps[steps.len() - 1]));
        assert(steps.drop_last().push(steps.last()) == steps);
    }
}

proof fn lemma_filter_none(steps: Seq<UploadStep>, kept: spec_fn(UploadStep) -> bool)
    requires
        forall|i: int| 0 <= i < steps.len() ==> !kept(#[trigger] steps[i]),
    ensures
        steps.filter(kept) == Seq::<UploadStep>::empty(),
    decreases steps.len(),
{
    reveal(Seq::filter);
    if steps.len() > 0 {
        lemma_filter_none(steps.drop_last(), kept);
        assert(!kept(steps[steps.len() - 1]));
    }
}

/// While tiles are served there are only questions and uploads.
proof fn lemma_served(
    tiles: Seq<WorldTileCoords>,
    answers: Seq<TileAnswer>,
    zoom: Zoom,
)
    requires
        answers.len() == tiles.len(),
    ensures
        forall|i: int|
            #![trigger served(tiles, answers, zoom)[i]]
            0 <= i < served(tiles, answers, zoom).len() ==> question_of(
                served(tiles, answers, zoom)[i],
            ) is Some || served(tiles, answers, zoom)[i] is AllocateTileGeometry,
    decreases tiles.len(),
{
    if tiles.len() > 0 {
        lemma_served(tiles.drop_first(), answers.drop_first(), zoom);
        lemma_allocations(answers.first().results, zoom);
    }
}

/// What is kept of a whole session is what is kept of its four parts.
proof fn lemma_filter_run(
    tiles: Seq<WorldTileCoords>,
    entries: Seq<IndexEntry>,
    answers: Seq<TileAnswer>,
    zoom: Zoom,
    data: Seq<u8>,
    kept: spec_fn(UploadStep) -> bool,
)
    requires
        answers.len() == tiles.len(),
    ensures
        run(schedule(tiles, entries, zoom, data), answers, zoom).filter(kept) == fetch_steps(
            tiles,
        ).filter(kept) + update_steps(entries, zoom).filter(kept) + served(
            tiles,
            answers,
            zoom,
        ).filter(kept) + seq![globals_step(data)].filter(kept),
{
    let fetches = fetch_steps(tiles);
    let updates = update_steps(entries, zoom);
    let serving = served(tiles, answers, zoom);
    law_session_order(tiles, entries, answers, zoom, data);
    Seq::filter_distributes_over_add(
        fetches + updates + serving,
        seq![globals_step(data)],
        kept,
    );
    Seq::filter_distributes_over_add(fetches + updates, serving, kept);
    Seq::filter_distributes_over_add(fetches, updates, kept);
}

/// In a session the metadata of each entry of the index is updated exactly
/// once, in the order of the index.
pub proof fn law_metadata_is_updated_once(
    tiles: Seq<WorldTileCoords>,
    entries: Seq<IndexEntry>,
    answers: Seq<TileAnswer>,
    zoom: Zoom,
    data: Seq<u8>,
)
    requires
        answers.len() == tiles.len(),
    ensures
        run(schedule(tiles, entries, zoom, data), answers, zoom).filter(
            |step: UploadStep| step is UpdateTileMetadata,
        ) == update_steps(entries, zoom),
{
    let kept = |step: UploadStep| step is UpdateTileMetadata;
    lemma_filter_run(tiles, entries, answers, zoom, data, kept);
    lemma_served(tiles, answers, zoom);
    lemma_filter_none(fetch_steps(tiles), kept);
    lemma_filter_all(update_steps(entries, zoom), kept);
    lemma_filter_none(served(tiles, answers, zoom), kept);
    lemma_filter_none(seq![globals_step(data)], kept);
}

/// In a session everything in the index is updated before anything is
/// uploaded. So what is uploaded in the session is not updated a second time.
pub proof fn law_updates_precede_uploads(
    tiles: Seq<WorldTileCoords>,
    entries: Seq<IndexEntry>,
    answers: Seq<TileAnswer>,
    zoom: Zoom,
    data: Seq<u8>,
    update: int,
    upload: int,
)
    requires
        answers.len() == tiles.len(),
        ({
            let steps = run(schedule(tiles, entries, zoom, data), answers, zoom);
            &&& 0 <= update < steps.len()
            &&& 0 <= upload < steps.len()
            &&& steps[update] is UpdateTileMetadata
            &&& steps[upload] is AllocateTileGeometry
        }),
    ensures
        update < upload,
{
    let head = fetch_steps(tiles) + update_steps(entries, zoom);
    let serving = served(tiles, answers, zoom);
    let steps = head + serving + seq![globals_step(data)];
    law_session_order(tiles, entries, answers, zoom, data);
    lemma_served(tiles, answers, zoom);
    if head.len() <= update < steps.len() - 1 {
        assert(steps[update] == serving[update - head.len()]);
    }
    if upload < head.len() {
        assert(steps[upload] == head[upload]);
    }
}

/// A session requests each tile in view exactly once, in the order of the view.
pub proof fn law_each_tile_is_requested_once(
    tiles: Seq<WorldTileCoords>,
    entries: Seq<IndexEntry>,
    answers: Seq<TileAnswer>,
    zoom: Zoom,
    data: Seq<u8>,
)
    requires
        answers.len() == tiles.len(),
    ensures
        run(schedule(tiles, entries, zoom, data), answers, zoom).filter(
            |step: UploadStep| step is FetchTile,
        ) == fetch_steps(tiles),
{
    let kept = |step: UploadStep| step is FetchTile;
    lemma_filter_run(tiles, entries, answers, zoom, data, kept);
    lemma_served(tiles, answers, zoom);
    lemma_filter_all(fetch_steps(tiles), kept);
    lemma_filter_none(update_steps(entries, zoom), kept);
    lemma_filter_none(served(tiles, answers, zoom), kept);
    lemma_filter_none(seq![globals_step(data)], kept);
}

/// A session writes the globals once, as its last step.
pub proof fn law_globals_are_written_last(
    tiles: Seq<WorldTileCoords>,
    entries: Seq<IndexEntry>,
    answers: Seq<TileAnswer>,
    zoom: Zoom,
    data: Seq<u8>,
)
    requires
        answers.len() == tiles.len(),
    ensures
        ({
            let steps = run(schedule(tiles, entries, zoom, data), answers, zoom);
            &&& steps.len() > 0
            &&& steps.last() == globals_step(data)
            &&& forall|i: int|
                0 <= i < steps.len() ==> ((#[trigger] steps[i]) is WriteGlobals <==> i
                    == steps.len() - 1)
        }),
{
    law_session_order(tiles, entries, answers, zoom, data);
    lemma_served(tiles, answers, zoom);
}

/// Everything that was found for the tiles in view is uploaded, and nothing
/// else: answer by answer, in the order of the view.
pub proof fn law_found_layers_are_uploaded(
    tiles: Seq<WorldTileCoords>,
    entries: Seq<IndexEntry>,
    answers: Seq<TileAnswer>,
    zoom: Zoom,
    data: Seq<u8>,
)
    requires
        answers.len() == tiles.len(),
    ensures
        run(schedule(tiles, entries, zoom, data), answers, zoom).filter(
            |step: UploadStep| step is AllocateTileGeometry,
        ) == answers.map_values(
            |answer: TileAnswer| allocation_steps(answer.results, zoom),
        ).flatten(),
{
    let kept = |step: UploadStep| step is AllocateTileGeometry;
    lemma_filter_run(tiles, entries, answers, zoom, data, kept);
    lemma_filter_none(fetch_steps(tiles), kept);
    lemma_filter_none(update_steps(entries, zoom), kept);
    lemma_filter_none(seq![globals_step(data)], kept);
    lemma_served_uploads(tiles, answers, zoom);
}

proof fn lemma_served_uploads(
    tiles: Seq<WorldTileCoords>,
    answers: Seq<TileAnswer>,
    zoom: Zoom,
)
    requires
        answers.len() == tiles.len(),
    ensures
        served(tiles, answers, zoom).filter(|step: UploadStep| step is AllocateTileGeometry)
            == answers.map_values(
            |answer: TileAnswer| allocation_steps(answer.results, zoom),
        ).flatten(),
    decreases tiles.len(),
{
    let kept = |step: UploadStep| step is AllocateTileGeometry;
    let plan = |answer: TileAnswer| allocation_steps(answer.results, zoom);
    if tiles.len() == 0 {
        reveal(Seq::filter);
    } else {
        let questions = seq![
            UploadStep::GetLoadedLayers { coords: tiles.first() },
            worker_step(tiles.first(), answers.first()),
        ];
        let uploads = allocation_steps(answers.first().results, zoom);
        let rest = served(tiles.drop_first(), answers.drop_first(), zoom);
        lemma_served_uploads(tiles.drop_first(), answers.drop_first(), zoom);
        lemma_allocations(answers.first().results, zoom);
        Seq::filter_distributes_over_add(questions + uploads, rest, kept);
        Seq::filter_distributes_over_add(questions, uploads, kept);
        lemma_filter_none(questions, kept);
        lemma_filter_all(uploads, kept);
        assert(answers.map_values(plan).drop_first() == answers.drop_first().map_values(plan));
        assert(answers.map_values(plan).first() == uploads);
    }
}

/// In a session the workers are asked about each tile in view exactly once, in
/// the order of the view, and are told the layers that the buffer pool has
/// reported as loaded for that tile.
pub proof fn law_workers_are_told_the_loaded_layers(
    tiles: Seq<WorldTileCoords>,
    entries: Seq<IndexEntry>,
    answers: Seq<TileAnswer>,
    zoom: Zoom,
    data: Seq<u8>,
)
    requires
        answers.len() == tiles.len(),
    ensures
        run(schedule(tiles, entries, zoom, data), answers, zoom).filter(
            |step: UploadStep| step is GetTessellatedLayers,
        ) == Seq::new(tiles.len(), |i: int| worker_step(tiles[i], answers[i])),
{
    let kept = |step: UploadStep| step is GetTessellatedLayers;
    lemma_filter_run(tiles, entries, answers, zoom, data, kept);
    lemma_filter_none(fetch_steps(tiles), kept);
    lemma_filter_none(update_steps(entries, zoom), kept);
    lemma_filter_none(seq![globals_step(data)], kept);
    lemma_served_worker_steps(tiles, answers, zoom);
}

proof fn lemma_served_worker_steps(
    tiles: Seq<WorldTileCoords>,
    answers: Seq<TileAnswer>,
    zoom: Zoom,
)
    requires
        answers.len() == tiles.len(),
    ensures
        served(tiles, answers, zoom).filter(|step: UploadStep| step is GetTessellatedLayers)
            == Seq::new(tiles.len(), |i: int| worker_step(tiles[i], answers[i])),
    decreases tiles.len(),
{
    let kept = |step: UploadStep| step is GetTessellatedLayers;
    if tiles.len() == 0 {
        reveal(Seq::filter);
    } else {
        let lookup = seq![UploadStep::GetLoadedLayers { coords: tiles.first() }];
        let asked = seq![worker_step(tiles.first(), answers.first())];
        let uploads = allocation_steps(answers.first().results, zoom);
        let tiles_left = tiles.drop_first();
        let answers_left = answers.drop_first();
        let rest = served(tiles_left, answers_left, zoom);
        lemma_served_worker_steps(tiles_left, answers_left, zoom);
        lemma_allocations(answers.first().results, zoom);
        assert(served(tiles, answers, zoom) == lookup + asked + uploads + rest);
        assert((lookup + asked + uploads + rest).filter(kept) == asked + rest.filter(kept)) by {
            Seq::filter_distributes_over_add(lookup + asked + uploads, rest, kept);
            Seq::filter_distributes_over_add(lookup + asked, uploads, kept);
            Seq::filter_distributes_over_add(lookup, asked, kept);
            lemma_filter_none(lookup, kept);
            lemma_filter_all(asked, kept);
            lemma_filter_none(uploads, kept);
        }
        assert(Seq::new(tiles.len(), |i: int| worker_step(tiles[i], answers[i])) == asked
            + Seq::new(tiles_left.len(), |i: int| worker_step(tiles_left[i], answers_left[i])));
    }
}

/// In a session all tiles are requested before any question is asked.
pub proof fn law_requests_precede_questions(
    tiles: Seq<WorldTileCoords>,
    entries: Seq<IndexEntry>,
    answers: Seq<TileAnswer>,
    zoom: Zoom,
    data: Seq<u8>,
    request: int,
    question: int,
)
    requires
        answers.len() == tiles.len(),
        ({
            let steps = run(schedule(tiles, entries, zoom, data), answers, zoom);
            &&& 0 <= request < steps.len()
            &&& 0 <= question < steps.len()
            &&& steps[request] is FetchTile
            &&& question_of(steps[question]) is Some
        }),
    ensures
        request < question,
{
    let head = fetch_steps(tiles) + update_steps(entries, zoom);
    let serving = served(tiles, answers, zoom);
    let steps = head + serving + seq![globals_step(data)];
    law_session_order(tiles, entries, answers, zoom, data);
    lemma_served(tiles, answers, zoom);
    if head.len() <= request < steps.len() - 1 {
        assert(steps[request] == serving[request - head.len()]);
    }
    if question < head.len() {
        assert(steps[question] == head[question]);
    }
}

/// Where the camera does not look at the map, nothing is requested or
/// uploaded: the index is updated and the globals are written.
pub proof fn law_nothing_in_view(entries: Seq<IndexEntry>, zoom: Zoom, data: Seq<u8>)
    ensures
        schedule(tiles_of(None), entries, zoom, data) == update_steps(entries, zoom)
            + seq![globals_step(data)],
{
}

/// Every result that is a layer is uploaded, whatever the layer is called and
/// however many results there are: as many uploads stand before it as there are
/// layers among the results before it, and it carries its position, tile and name,
/// one style for each vertex of its features, and the zoom.
pub proof fn law_every_layer_is_uploaded(results: Seq<TessellationResult>, zoom: Zoom, i: int)
    requires
        0 <= i < results.len(),
        results[i] matches TessellationResult::TessellatedLayer(layer) && layer.feature_count
            <= layer.feature_indices@.len(),
    ensures
        ({
            let uploads = allocation_steps(results, zoom);
            let before = results.take(i).filter(
                |result: TessellationResult| result is TessellatedLayer,
            ).len() as int;
            let layer = results[i]->TessellatedLayer_0;
            &&& before < uploads.len()
            &&& uploads[before] matches UploadStep::AllocateTileGeometry {
                layer: position,
                coords,
                name,
                feature_metadata,
                zoom: placed,
            } && {
                &&& position == i
                &&& coords == layer.coords
                &&& name == layer.name@
                &&& placed == zoom
                &&& feature_metadata.len() == layer.feature_indices@.take(
                    layer.feature_count as int,
                ).fold_left(0int, |sum: int, count: u32| sum + count)
                &&& forall|k: int|
                    0 <= k < feature_metadata.len() ==> #[trigger] feature_metadata[k]
                        == layer_style(layer.name@)
            }
        }),
    decreases results.len(),
{
    reveal(Seq::filter);
    let rest = results.drop_last();
    if i < rest.len() {
        law_every_layer_is_uploaded(rest, zoom, i);
        assert(rest.take(i) == results.take(i));
    } else {
        let layer = results[i]->TessellatedLayer_0;
        assert(results.take(i) == rest);
        law_as_many_uploads_as_layers(rest, zoom);
        law_one_style_for_each_vertex(
            layer.name@,
            layer.feature_count as int,
            layer.feature_indices@,
        );
    }
}

/// There is one upload for each result that is a layer, and none besides.
pub proof fn law_as_many_uploads_as_layers(results: Seq<TessellationResult>, zoom: Zoom)
    ensures
        allocation_steps(results, zoom).len() == results.filter(
            |result: TessellationResult| result is TessellatedLayer,
        ).len(),
        forall|k: int|
            0 <= k < allocation_steps(results, zoom).len() ==> (#[trigger] allocation_steps(
                results,
                zoom,
            )[k]) is AllocateTileGeometry,
    decreases results.len(),
{
    reveal(Seq::filter);
    lemma_allocations(results, zoom);
    if results.len() > 0 {
        law_as_many_uploads_as_layers(results.drop_last(), zoom);
    }
}

/// What a session starts with, step by step: the tile `i` in view is requested
/// with its own coordinates and looked up behind all requests and updates, the
/// entry `j` of the index is placed anew for the zoom, and the given bytes are
/// written to the start of the globals buffer behind all that.
pub proof fn law_session_starts_with(
    tiles: Seq<WorldTileCoords>,
    entries: Seq<IndexEntry>,
    zoom: Zoom,
    data: Seq<u8>,
)
    ensures
        ({
            let steps = schedule(tiles, entries, zoom, data);
            &&& steps.len() == 2 * tiles.len() + entries.len() + 1
            &&& forall|i: int|
                #![trigger tiles[i]]
                0 <= i < tiles.len() ==> {
                    &&& steps[i] matches UploadStep::FetchTile { coords, layers } && {
                        &&& coords.x == tiles[i].x
                        &&& coords.y == tiles[i].y
                        &&& coords.z == tiles[i].z
                        &&& layers == seq![
                            "transportation"@,
                            "building"@,
                            "boundary"@,
                            "water"@,
                        ]
                    }
                    &&& steps[tiles.len() + entries.len() + i] matches UploadStep::GetLoadedLayers {
                        coords,
                    } && coords.x == tiles[i].x && coords.y == tiles[i].y && coords.z == tiles[i].z
                }
            &&& forall|j: int|
                #![trigger entries[j]]
                0 <= j < entries.len() ==> (steps[tiles.len() + j]
                    matches UploadStep::UpdateTileMetadata { entry, coords, zoom: placed } && entry
                    == j && coords == entries[j].coords && placed == zoom)
            &&& steps.last() matches UploadStep::WriteGlobals { offset, data: written } && offset
                == 0 && written == data
        }),
{
}

/// The request `i` of a whole session is for the tile `i` in view, in all of its
/// coordinates, and asks for the same four layers of each.
pub proof fn law_requests_are_for_the_tiles_in_view(
    tiles: Seq<WorldTileCoords>,
    entries: Seq<IndexEntry>,
    answers: Seq<TileAnswer>,
    zoom: Zoom,
    data: Seq<u8>,
    i: int,
)
    requires
        answers.len() == tiles.len(),
        0 <= i < tiles.len(),
    ensures
        ({
            let requests = run(schedule(tiles, entries, zoom, data), answers, zoom).filter(
                |step: UploadStep| step is FetchTile,
            );
            &&& requests.len() == tiles.len()
            &&& requests[i] matches UploadStep::FetchTile { coords, layers } && {
                &&& coords.x == tiles[i].x
                &&& coords.y == tiles[i].y
                &&& coords.z == tiles[i].z
                &&& layers == seq!["transportation"@, "building"@, "boundary"@, "water"@]
            }
        }),
{
    law_each_tile_is_requested_once(tiles, entries, answers, zoom, data);
    law_session_starts_with(tiles, entries, zoom, data);
    assert(fetch_steps(tiles)[i] == schedule(tiles, entries, zoom, data)[i]);
}

/// The update `j` of a whole session places the entry `j` of the index, by its
/// position and its own coordinates, for the zoom of the session.
pub proof fn law_updates_are_for_the_index(
    tiles: Seq<WorldTileCoords>,
    entries: Seq<IndexEntry>,
    answers: Seq<TileAnswer>,
    zoom: Zoom,
    data: Seq<u8>,
    j: int,
)
    requires
        answers.len() == tiles.len(),
        0 <= j < entries.len(),
    ensures
        ({
            let updates = run(schedule(tiles, entries, zoom, data), answers, zoom).filter(
                |step: UploadStep| step is UpdateTileMetadata,
            );
            &&& updates.len() == entries.len()
            &&& updates[j] matches UploadStep::UpdateTileMetadata { entry, coords, zoom: placed }
                && entry == j && coords == entries[j].coords && placed == zoom
        }),
{
    law_metadata_is_updated_once(tiles, entries, answers, zoom, data);
}

/// The question `i` to the workers in a whole session is about the tile `i` in
/// view and names exactly the layers that were reported as loaded for it.
pub proof fn law_workers_are_asked_for_the_tiles_in_view(
    tiles: Seq<WorldTileCoords>,
    entries: Seq<IndexEntry>,
    answers: Seq<TileAnswer>,
    zoom: Zoom,
    data: Seq<u8>,
    i: int,
)
    requires
        answers.len() == tiles.len(),
        0 <= i < tiles.len(),
    ensures
        ({
            let questions = run(schedule(tiles, entries, zoom, data), answers, zoom).filter(
                |step: UploadStep| step is GetTessellatedLayers,
            );
            &&& questions.len() == tiles.len()
            &&& questions[i] matches UploadStep::GetTessellatedLayers { coords, loaded_layers }
                && coords == tiles[i] && loaded_layers == answers[i].loaded_layers
        }),
{
    law_workers_are_told_the_loaded_layers(tiles, entries, answers, zoom, data);
}

/// In a whole session each layer that was found for a tile in view is uploaded
/// behind the question to the workers about that tile.
pub proof fn law_each_found_layer_reaches_the_gpu(
    tiles: Seq<WorldTileCoords>,
    entries: Seq<IndexEntry>,
    answers: Seq<TileAnswer>,
    zoom: Zoom,
    data: Seq<u8>,
    tile: int,
    i: int,
)
    requires
        answers.len() == tiles.len(),
        0 <= tile < tiles.len(),
        0 <= i < answers[tile].results.len(),
        answers[tile].results[i] matches TessellationResult::TessellatedLayer(layer)
            && layer.feature_count <= layer.feature_indices@.len(),
    ensures
        ({
            let steps = run(schedule(tiles, entries, zoom, data), answers, zoom);
            let layer = answers[tile].results[i]->TessellatedLayer_0;
            exists|question: int, upload: int|
                #![trigger steps[question], steps[upload]]
                0 <= question < upload < steps.len() && {
                    &&& steps[question] matches UploadStep::GetTessellatedLayers {
                        coords,
                        loaded_layers,
                    } && coords == tiles[tile] && loaded_layers == answers[tile].loaded_layers
                    &&& steps[upload] matches UploadStep::AllocateTileGeometry {
                        layer: position,
                        coords,
                        name,
                        ..
                    } && position == i && coords == layer.coords && name == layer.name@
                }
        }),
{
    let head = fetch_steps(tiles) + update_steps(entries, zoom);
    let serving = served(tiles, answers, zoom);
    let steps = run(schedule(tiles, entries, zoom, data), answers, zoom);
    law_session_order(tiles, entries, answers, zoom, data);
    let (question, upload) = lemma_served_layer(tiles, answers, zoom, tile, i);
    assert(steps[head.len() + question] == serving[question]);
    assert(steps[head.len() + upload] == serving[upload]);
}

proof fn lemma_served_layer(
    tiles: Seq<WorldTileCoords>,
    answers: Seq<TileAnswer>,
    zoom: Zoom,
    tile: int,
    i: int,
) -> (found: (int, int))
    requires
        answers.len() == tiles.len(),
        0 <= tile < tiles.len(),
        0 <= i < answers[tile].results.len(),
        answers[tile].results[i] matches TessellationResult::TessellatedLayer(layer)
            && layer.feature_count <= layer.feature_indices@.len(),
    ensures
        ({
            let serving = served(tiles, answers, zoom);
            let layer = answers[tile].results[i]->TessellatedLayer_0;
            &&& 0 <= found.0 < found.1 < serving.len()
            &&& serving[found.0] matches UploadStep::GetTessellatedLayers { coords, loaded_layers }
                && coords == tiles[tile] && loaded_layers == answers[tile].loaded_layers
            &&& serving[found.1] matches UploadStep::AllocateTileGeometry {
                layer: position,
                coords,
                name,
                ..
            } && position == i && coords == layer.coords && name == layer.name@
        }),
    decreases tiles.len(),
{
    let serving = served(tiles, answers, zoom);
    let uploads = allocation_steps(answers.first().results, zoom);
    let rest = served(tiles.drop_first(), answers.drop_first(), zoom);
    if tile == 0 {
        let results = answers.first().results;
        let before = results.take(i).filter(
            |result: TessellationResult| result is TessellatedLayer,
        ).len() as int;
        law_every_layer_is_uploaded(results, zoom, i);
        assert(serving[2 + before] == uploads[before]);
        (1, 2 + before)
    } else {
        let (question, upload) = lemma_served_layer(
            tiles.drop_first(),
            answers.drop_first(),
            zoom,
            tile - 1,
            i,
        );
        assert(serving[2 + uploads.len() + question] == rest[question]);
        assert(serving[2 + uploads.len() + upload] == rest[upload]);
        (2 + uploads.len() + question, 2 + uploads.len() + upload)
    }
}

/// An action means what it holds, field by field.
pub proof fn law_actions_mean_what_they_hold(action: UploadAction)
    ensures
        match action {
            UploadAction::FetchTile(request) => {
                action@ matches UploadStep::FetchTile { coords, layers } && {
                    &&& coords == request.coords
                    &&& layers.len() == request.layers@.len()
                    &&& forall|k: int|
                        0 <= k < layers.len() ==> #[trigger] layers[k] == request.layers@[k]@
                }
            },
            UploadAction::UpdateTileMetadata { entry, coords, zoom } => {
                action@ matches UploadStep::UpdateTileMetadata {
                    entry: position,
                    coords: tile,
                    zoom: placed,
                } && position == entry && tile == coords && placed == zoom
            },
            UploadAction::GetLoadedLayers { coords } => {
                action@ matches UploadStep::GetLoadedLayers { coords: tile } && tile == coords
            },
            UploadAction::GetTessellatedLayers { coords, loaded_layers } => {
                action@ matches UploadStep::GetTessellatedLayers {
                    coords: tile,
                    loaded_layers: names,
                } && {
                    &&& tile == coords
                    &&& names.len() == loaded_layers@.len()
                    &&& forall|k: int|
                        0 <= k < names.len() ==> #[trigger] names[k] == loaded_layers@[k]@
                }
            },
            UploadAction::AllocateTileGeometry(allocation) => {
                action@ matches UploadStep::AllocateTileGeometry {
                    layer,
                    coords,
                    name,
                    feature_metadata,
                    zoom,
                } && {
                    &&& layer == allocation.layer
                    &&& coords == allocation.coords
                    &&& name == allocation.name@
                    &&& feature_metadata == allocation.feature_metadata@
                    &&& zoom == allocation.zoom
                }
            },
            UploadAction::WriteGlobals { offset, data } => {
                action@ matches UploadStep::WriteGlobals { offset: start, data: bytes } && start
                    == offset && bytes == data@
            },
        },
{
}

/// Actions mean their steps one for one, in their order.
pub proof fn law_each_action_is_one_step(actions: Seq<UploadAction>)
    ensures
        steps_of(actions).len() == actions.len(),
        forall|i: int| 0 <= i < actions.len() ==> #[trigger] steps_of(actions)[i] == actions[i]@,
{
}

/// The tiles in view are those that the camera looks at, and none if it does not
/// look at the map.
pub proof fn law_tiles_in_view(tiles: Vec<WorldTileCoords>)
    ensures
        tiles_of(Some(tiles)) == tiles@,
        tiles_of(None).len() == 0,
{
}

/// Two kinds of steps ask a question, each about its own tile. All others ask
/// nothing.
pub proof fn law_questions(step: UploadStep)
    ensures
        match step {
            UploadStep::GetLoadedLayers { coords } => {
                question_of(step) == Some(Question::LoadedLayers(coords))
            },
            UploadStep::GetTessellatedLayers { coords, .. } => {
                question_of(step) == Some(Question::TessellatedLayers(coords))
            },
            _ => question_of(step) is None,
        },
{
}

/// A layer is complete exactly if no feature lacks a vertex count.
pub proof fn law_complete_layers(results: Seq<TessellationResult>)
    ensures
        all_complete(results) <==> (forall|i: int|
            0 <= i < results.len() && (#[trigger] results[i]) is TessellatedLayer
                ==> results[i]->TessellatedLayer_0.feature_count
                <= results[i]->TessellatedLayer_0.feature_indices@.len()),
{
    if forall|i: int|
        0 <= i < results.len() && (#[trigger] results[i]) is TessellatedLayer
            ==> results[i]->TessellatedLayer_0.feature_count
            <= results[i]->TessellatedLayer_0.feature_indices@.len() {
        assert(all_complete(results));
    }
}

} // verus!
