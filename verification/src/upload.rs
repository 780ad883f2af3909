//! The work of bringing tile data to the GPU before a frame is drawn.
//!
//! An [`UploadSession`] hands out one action after the other. Its caller
//! performs each of them. There are two questions about each tile in view:
//! which of its layers the buffer pool has loaded, and, handing these on, which
//! further ones have been tessellated. The caller answers each of them before it
//! asks for the next action.

use std::collections::VecDeque;
use vstd::prelude::*;

use crate::laws::upload::{law_as_many_uploads_as_layers, law_every_layer_is_uploaded};
use crate::style::{
    feature_metadata, names_of, request_layers, requested_layers, vertex_styles, ShaderFeatureStyle,
};
use crate::tiles::{IndexEntry, WorldTileCoords};
use crate::zoom::Zoom;

verus! {

/// A request to fetch and tessellate layers of a tile.
pub struct TileRequest {
    pub coords: WorldTileCoords,
    pub layers: Vec<String>,
}

/// A layer of a tile whose geometry is ready for upload.
pub struct TessellatedLayer {
    pub coords: WorldTileCoords,
    pub name: String,
    /// How many features the layer has.
    pub feature_count: usize,
    /// How many vertices each feature has.
    pub feature_indices: Vec<u32>,
}

impl TessellatedLayer {
    /// Whether there is a vertex count for each feature.
    pub open spec fn complete(self) -> bool {
        self.feature_count <= self.feature_indices@.len()
    }
}

/// What became of a requested layer.
pub enum TessellationResult {
    Unavailable,
    TessellatedLayer(TessellatedLayer),
}

/// Whether every layer among the results is complete.
pub open spec fn all_complete(results: Seq<TessellationResult>) -> bool {
    forall|i: int|
        0 <= i < results.len() ==> (#[trigger] results[i] matches
            TessellationResult::TessellatedLayer(layer) ==> layer.complete())
}

/// An upload of the geometry of one layer of a tile.
pub struct Allocation {
    /// The position of the layer among the results that were supplied.
    pub layer: usize,
    pub coords: WorldTileCoords,
    pub name: String,
    pub feature_metadata: Vec<ShaderFeatureStyle>,
    /// The zoom that the tile is placed for.
    pub zoom: Zoom,
}

/// One piece of work that a session asks for.
pub enum UploadAction {
    FetchTile(TileRequest),
    /// Places the tile of the entry with this position in the index anew.
    UpdateTileMetadata { entry: usize, coords: WorldTileCoords, zoom: Zoom },
    /// Asks the buffer pool which layers of the tile are loaded.
    GetLoadedLayers { coords: WorldTileCoords },
    /// Asks the workers which layers of the tile are tessellated, and tells them
    /// which ones are loaded already.
    GetTessellatedLayers { coords: WorldTileCoords, loaded_layers: Vec<String> },
    AllocateTileGeometry(Allocation),
    /// Writes the bytes to the buffer of the globals.
    WriteGlobals { offset: u64, data: Vec<u8> },
}

/// What an [`UploadAction`] means.
pub enum UploadStep {
    FetchTile { coords: WorldTileCoords, layers: Seq<Seq<char>> },
    UpdateTileMetadata { entry: int, coords: WorldTileCoords, zoom: Zoom },
    GetLoadedLayers { coords: WorldTileCoords },
    GetTessellatedLayers { coords: WorldTileCoords, loaded_layers: Seq<Seq<char>> },
    AllocateTileGeometry {
        layer: int,
        coords: WorldTileCoords,
        name: Seq<char>,
        feature_metadata: Seq<ShaderFeatureStyle>,
        zoom: Zoom,
    },
    WriteGlobals { offset: u64, data: Seq<u8> },
}

impl View for UploadAction {
    type V = UploadStep;

    open spec fn view(&self) -> UploadStep {
        match *self {
            UploadAction::FetchTile(request) => UploadStep::FetchTile {
                coords: request.coords,
                layers: names_of(request.layers@),
            },
            UploadAction::UpdateTileMetadata { entry, coords, zoom } => {
                UploadStep::UpdateTileMetadata { entry: entry as int, coords, zoom }
            },
            UploadAction::GetLoadedLayers { coords } => UploadStep::GetLoadedLayers { coords },
            UploadAction::GetTessellatedLayers { coords, loaded_layers } => {
                UploadStep::GetTessellatedLayers { coords, loaded_layers: names_of(loaded_layers@) }
            },
            UploadAction::AllocateTileGeometry(allocation) => UploadStep::AllocateTileGeometry {
                layer: allocation.layer as int,
                coords: allocation.coords,
                name: allocation.name@,
                feature_metadata: allocation.feature_metadata@,
                zoom: allocation.zoom,
            },
            UploadAction::WriteGlobals { offset, data } => UploadStep::WriteGlobals {
                offset,
                data: data@,
            },
        }
    }
}

/// The tiles in view; none where the camera does not look at the map.
pub open spec fn tiles_of(view: Option<Vec<WorldTileCoords>>) -> Seq<WorldTileCoords> {
    match view {
        Some(tiles) => tiles@,
        None => Seq::empty(),
    }
}

/// The request for the layers of a tile.
pub open spec fn fetch_step(coords: WorldTileCoords) -> UploadStep {
    UploadStep::FetchTile { coords, layers: requested_layers() }
}

/// A request for each tile in view.
pub open spec fn fetch_steps(tiles: Seq<WorldTileCoords>) -> Seq<UploadStep> {
    Seq::new(tiles.len(), |i: int| fetch_step(tiles[i]))
}

/// An update for each entry of the index.
pub open spec fn update_steps(entries: Seq<IndexEntry>, zoom: Zoom) -> Seq<UploadStep> {
    Seq::new(
        entries.len(),
        |i: int|
            UploadStep::UpdateTileMetadata { entry: i, coords: entries[i].coords, zoom },
    )
}

/// A question for the loaded layers of each tile in view.
pub open spec fn lookup_steps(tiles: Seq<WorldTileCoords>) -> Seq<UploadStep> {
    Seq::new(tiles.len(), |i: int| UploadStep::GetLoadedLayers { coords: tiles[i] })
}

/// The write that ends a session.
pub open spec fn globals_step(data: Seq<u8>) -> UploadStep {
    UploadStep::WriteGlobals { offset: 0, data }
}

/// What a session starts with: all tiles in view are requested, then all that
/// is in the index is updated, then the tiles in view are looked up, then the
/// globals are written.
pub open spec fn schedule(
    tiles: Seq<WorldTileCoords>,
    entries: Seq<IndexEntry>,
    zoom: Zoom,
    data: Seq<u8>,
) -> Seq<UploadStep> {
    fetch_steps(tiles) + update_steps(entries, zoom) + lookup_steps(tiles) + seq![
        globals_step(data),
    ]
}

/// The upload of the layer at position `i` of the results.
pub open spec fn allocation_step(i: int, layer: TessellatedLayer, zoom: Zoom) -> UploadStep {
    UploadStep::AllocateTileGeometry {
        layer: i,
        coords: layer.coords,
        name: layer.name@,
        feature_metadata: vertex_styles(
            layer.name@,
            layer.feature_count as int,
            layer.feature_indices@,
        ),
        zoom,
    }
}

/// An upload for each layer among the results, in their order. What is
/// unavailable is passed over.
pub open spec fn allocation_steps(results: Seq<TessellationResult>, zoom: Zoom) -> Seq<UploadStep>
    decreases results.len(),
{
    if results.len() == 0 {
        Seq::empty()
    } else {
        let before = allocation_steps(results.drop_last(), zoom);
        match results.last() {
            TessellationResult::Unavailable => before,
            TessellationResult::TessellatedLayer(layer) => before.push(
                allocation_step(results.len() - 1, layer, zoom),
            ),
        }
    }
}

/// A question that has to be answered before the session goes on.
#[derive(Clone, Copy, PartialEq, Eq, Structural, Debug)]
pub enum Question {
    /// Which layers of the tile are loaded?
    LoadedLayers(WorldTileCoords),
    /// Which layers of the tile are tessellated?
    TessellatedLayers(WorldTileCoords),
}

/// The question that a step asks.
pub open spec fn question_of(step: UploadStep) -> Option<Question> {
    match step {
        UploadStep::GetLoadedLayers { coords } => Some(Question::LoadedLayers(coords)),
        UploadStep::GetTessellatedLayers { coords, .. } => Some(
            Question::TessellatedLayers(coords),
        ),
        _ => None,
    }
}

/// What is answered to the two questions about a tile.
pub struct TileAnswer {
    /// The layers that the buffer pool has loaded.
    pub loaded_layers: Seq<Seq<char>>,
    /// What the workers have tessellated.
    pub results: Seq<TessellationResult>,
}

/// The question to the workers about a tile, with the answer of the buffer pool.
pub open spec fn worker_step(coords: WorldTileCoords, answer: TileAnswer) -> UploadStep {
    UploadStep::GetTessellatedLayers { coords, loaded_layers: answer.loaded_layers }
}

/// All steps of a session in which each question is answered at once: those
/// about the first tile by the first of the answers, and so on.
pub open spec fn run(
    steps: Seq<UploadStep>,
    answers: Seq<TileAnswer>,
    zoom: Zoom,
) -> Seq<UploadStep>
    decreases
        answers.len(),
        steps.len(),
        (if steps.len() > 0 && steps.first() is GetLoadedLayers {
            1int
        } else {
            0int
        }),
{
    if steps.len() == 0 {
        Seq::empty()
    } else {
        let rest = steps.drop_first();
        seq![steps.first()] + match steps.first() {
            UploadStep::GetLoadedLayers { coords } if answers.len() > 0 => run(
                seq![worker_step(coords, answers.first())] + rest,
                answers,
                zoom,
            ),
            UploadStep::GetTessellatedLayers { .. } if answers.len() > 0 => run(
                allocation_steps(answers.first().results, zoom) + rest,
                answers.drop_first(),
                zoom,
            ),
            _ => run(rest, answers, zoom),
        }
    }
}

/// The steps that actions mean.
pub open spec fn steps_of(actions: Seq<UploadAction>) -> Seq<UploadStep> {
    actions.map_values(|action: UploadAction| action@)
}

proof fn lemma_steps_push(actions: Seq<UploadAction>, action: UploadAction)
    ensures
        steps_of(actions.push(action)) == steps_of(actions).push(action@),
{
}

/// The uploads before one frame.
pub struct UploadSession {
    queue: VecDeque<UploadAction>,
    zoom: Zoom,
    awaiting: Option<Question>,
}

impl UploadSession {
    /// What is still to do, as far as it is known.
    pub closed spec fn steps(self) -> Seq<UploadStep> {
        steps_of(self.queue@)
    }

    /// The zoom that tiles are placed for.
    pub closed spec fn zoom(self) -> Zoom {
        self.zoom
    }

    /// The question that has been handed out and not been answered.
    pub closed spec fn awaiting(self) -> Option<Question> {
        self.awaiting
    }

    /// All that the session still does where the questions about the tiles to
    /// come are answered as given. The first answer is for the tile that a
    /// question has been handed out for, if there is one.
    pub open spec fn remaining(self, answers: Seq<TileAnswer>) -> Seq<UploadStep> {
        match self.awaiting() {
            Some(Question::LoadedLayers(coords)) if answers.len() > 0 => run(
                seq![worker_step(coords, answers.first())] + self.steps(),
                answers,
                self.zoom(),
            ),
            Some(Question::TessellatedLayers(_)) if answers.len() > 0 => run(
                allocation_steps(answers.first().results, self.zoom()) + self.steps(),
                answers.drop_first(),
                self.zoom(),
            ),
            _ => run(self.steps(), answers, self.zoom()),
        }
    }

    /// Plans the uploads of a frame. `data` are the bytes of the globals.
    pub fn new(
        view: &Option<Vec<WorldTileCoords>>,
        entries: &Vec<IndexEntry>,
        zoom: Zoom,
        data: Vec<u8>,
    ) -> (session: UploadSession)
        ensures
            session.zoom() == zoom,
            session.awaiting() is None,
            session.steps() == schedule(tiles_of(*view), entries@, zoom, data@),
            view matches Some(tiles) ==> forall|i: int|
                #![trigger tiles@[i]]
                0 <= i < tiles@.len() ==> (session.steps()[i] matches UploadStep::FetchTile {
                    coords,
                    ..
                } && coords == tiles@[i]),
            forall|answers: Seq<TileAnswer>| #[trigger]
                session.remaining(answers) == run(
                    schedule(tiles_of(*view), entries@, zoom, data@),
                    answers,
                    zoom,
                ),
    {
        let mut queue: VecDeque<UploadAction> = VecDeque::new();
        let ghost tiles = tiles_of(*view);
        if let Some(tiles) = view {
            let mut i: usize = 0;
            while i < tiles.len()
                invariant
                    i <= tiles@.len(),
                    steps_of(queue@) == fetch_steps(tiles@.take(i as int)),
                decreases tiles@.len() - i,
            {
                let ghost queued = queue@;
                let action = UploadAction::FetchTile(
                    TileRequest { coords: tiles[i], layers: request_layers() },
                );
                proof {
                    lemma_steps_push(queued, action);
                    assert(fetch_steps(tiles@.take(i + 1)) == fetch_steps(
                        tiles@.take(i as int),
                    ).push(action@));
                }
                queue.push_back(action);
                i = i + 1;
            }
            assert(tiles@.take(i as int) == tiles@);
        }
        assert(steps_of(queue@) == fetch_steps(tiles));
        let mut i: usize = 0;
        while i < entries.len()
            invariant
                i <= entries@.len(),
                steps_of(queue@) == fetch_steps(tiles) + update_steps(
                    entries@.take(i as int),
                    zoom,
                ),
            decreases entries@.len() - i,
        {
            let ghost queued = queue@;
            let action = UploadAction::UpdateTileMetadata {
                entry: i,
                coords: entries[i].coords,
                zoom,
            };
            proof {
                lemma_steps_push(queued, action);
                assert(update_steps(entries@.take(i + 1), zoom) == update_steps(
                    entries@.take(i as int),
                    zoom,
                ).push(action@));
            }
            queue.push_back(action);
            i = i + 1;
        }
        assert(entries@.take(i as int) == entries@);
        let ghost before = steps_of(queue@);
        if let Some(tiles) = view {
            let mut i: usize = 0;
            while i < tiles.len()
                invariant
                    i <= tiles@.len(),
                    steps_of(queue@) == before + lookup_steps(tiles@.take(i as int)),
                decreases tiles@.len() - i,
            {
                let ghost queued = queue@;
                let action = UploadAction::GetLoadedLayers { coords: tiles[i] };
                proof {
                    lemma_steps_push(queued, action);
                    assert(lookup_steps(tiles@.take(i + 1)) == lookup_steps(
                        tiles@.take(i as int),
                    ).push(action@));
                }
                queue.push_back(action);
                i = i + 1;
            }
            assert(tiles@.take(i as int) == tiles@);
        }
        assert(steps_of(queue@) == before + lookup_steps(tiles));
        let ghost bytes = data@;
        queue.push_back(UploadAction::WriteGlobals { offset: 0, data });
        let session = UploadSession { queue, zoom, awaiting: None };
        assert(session.steps() == schedule(tiles, entries@, zoom, bytes));
        session
    }

    /// Hands out the next action; none when the session is over. A question that
    /// was handed out before must have been answered.
    pub fn next_action(&mut self) -> (action: Option<UploadAction>)
        requires
            old(self).awaiting() is None,
        ensures
            final(self).zoom() == old(self).zoom(),
            match action {
                Some(action) => {
                    &&& old(self).steps().len() > 0
                    &&& action@ == old(self).steps().first()
                    &&& final(self).steps() == old(self).steps().drop_first()
                    &&& final(self).awaiting() == question_of(action@)
                    &&& forall|answers: Seq<TileAnswer>| #[trigger]
                        old(self).remaining(answers) == seq![action@] + final(self).remaining(
                            answers,
                        )
                },
                None => {
                    &&& old(self).steps().len() == 0
                    &&& final(self).steps().len() == 0
                    &&& final(self).awaiting() is None
                    &&& forall|answers: Seq<TileAnswer>| #[trigger]
                        old(self).remaining(answers) == Seq::<UploadStep>::empty()
                },
            },
    {
        let ghost before = self.queue@;
        let action = self.queue.pop_front();
        self.awaiting = match &action {
            Some(UploadAction::GetLoadedLayers { coords }) => Some(
                Question::LoadedLayers(*coords),
            ),
            Some(UploadAction::GetTessellatedLayers { coords, .. }) => Some(
                Question::TessellatedLayers(*coords),
            ),
            _ => None,
        };
        proof {
            if action is Some {
                assert(steps_of(self.queue@) == steps_of(before).drop_first());
            }
        }
        action
    }

    /// Takes in which layers of the tile the buffer pool has loaded. They are
    /// handed on to the workers before anything else is done.
    pub fn supply_loaded_layers(&mut self, loaded_layers: Vec<String>)
        requires
            old(self).awaiting() matches Some(Question::LoadedLayers(_)),
        ensures
            final(self).zoom() == old(self).zoom(),
            final(self).awaiting() is None,
            old(self).awaiting() matches Some(Question::LoadedLayers(coords)) && final(self).steps()
                == seq![
                UploadStep::GetTessellatedLayers {
                    coords,
                    loaded_layers: names_of(loaded_layers@),
                },
            ] + old(self).steps(),
            forall|answers: Seq<TileAnswer>|
                answers.len() > 0 && answers.first().loaded_layers == names_of(loaded_layers@)
                    ==> #[trigger] old(self).remaining(answers) == final(self).remaining(answers),
    {
        if let Some(Question::LoadedLayers(coords)) = self.awaiting {
            let ghost queued = self.queue@;
            let action = UploadAction::GetTessellatedLayers { coords, loaded_layers };
            self.awaiting = None;
            self.queue.push_front(action);
            assert(steps_of(self.queue@) == seq![action@] + steps_of(queued));
        }
    }

    /// Takes in the layers that the workers have tessellated. They are uploaded
    /// before anything else is done.
    pub fn supply_tessellated_layers(&mut self, results: &Vec<TessellationResult>)
        requires
            old(self).awaiting() matches Some(Question::TessellatedLayers(_)),
            all_complete(results@),
        ensures
            final(self).zoom() == old(self).zoom(),
            final(self).awaiting() is None,
            final(self).steps() == allocation_steps(results@, old(self).zoom()) + old(
                self,
            ).steps(),
            forall|answers: Seq<TileAnswer>|
                answers.len() > 0 && answers.first().results == results@
                    ==> #[trigger] old(self).remaining(answers) == final(self).remaining(
                    answers.drop_first(),
                ),
    {
        self.awaiting = None;
        let mut actions: Vec<UploadAction> = plan_allocations(results, self.zoom);
        let ghost planned = steps_of(actions@);
        let ghost waiting = self.steps();
        let ghost zoom = self.zoom;
        assert(planned == planned.take(actions@.len() as int));
        while actions.len() > 0
            invariant
                self.zoom == zoom,
                self.awaiting is None,
                actions@.len() <= planned.len(),
                steps_of(actions@) == planned.take(actions@.len() as int),
                self.steps() == planned.skip(actions@.len() as int) + waiting,
            decreases actions@.len(),
        {
            let ghost left = actions@;
            let ghost queued = self.queue@;
            if let Some(action) = actions.pop() {
                assert(action@ == steps_of(left)[left.len() - 1]);
                self.queue.push_front(action);
                assert(steps_of(self.queue@) == seq![action@] + steps_of(queued));
                assert(steps_of(actions@) == steps_of(left).drop_last());
                assert(planned.skip(actions@.len() as int) == seq![action@] + planned.skip(
                    left.len() as int,
                ));
            }
        }
        assert(planned.skip(0) == planned);
    }
}

/// Plans the upload of each layer among the results.
pub fn plan_allocations(results: &Vec<TessellationResult>, zoom: Zoom) -> (actions: Vec<
    UploadAction,
>)
    requires
        all_complete(results@),
    ensures
        steps_of(actions@) == allocation_steps(results@, zoom),
        actions@.len() == results@.filter(
            |result: TessellationResult| result is TessellatedLayer,
        ).len(),
        forall|i: int|
            #![trigger results@[i]]
            0 <= i < results@.len() ==> (results@[i] matches TessellationResult::TessellatedLayer(
                layer,
            ) ==> exists|k: int|
                #![trigger actions@[k]]
                0 <= k < actions@.len() && (actions@[k] matches UploadAction::AllocateTileGeometry(
                    allocation,
                ) && allocation.layer == i && allocation.coords == layer.coords
                    && allocation.name@ == layer.name@ && allocation.zoom == zoom)),
{
    let mut actions: Vec<UploadAction> = Vec::new();
    let mut i: usize = 0;
    while i < results.len()
        invariant
            i <= results@.len(),
            all_complete(results@),
            steps_of(actions@) == allocation_steps(results@.take(i as int), zoom),
        decreases results@.len() - i,
    {
        match &results[i] {
            TessellationResult::Unavailable => {},
            TessellationResult::TessellatedLayer(layer) => {
                let styles = feature_metadata(
                    &layer.name,
                    layer.feature_count,
                    &layer.feature_indices,
                );
                let action = UploadAction::AllocateTileGeometry(
                    Allocation {
                        layer: i,
                        coords: layer.coords,
                        name: layer.name.clone(),
                        feature_metadata: styles,
                        zoom,
                    },
                );
                assert(action@ == allocation_step(i as int, *layer, zoom));
                proof {
                    lemma_steps_push(actions@, action);
                }
                actions.push(action);
            },
        }
        proof {
            let prefix = results@.take(i + 1);
            assert(prefix.drop_last() == results@.take(i as int));
            assert(prefix.last() == results@[i as int]);
        }
        i = i + 1;
    }
    assert(results@.take(i as int) == results@);
    proof {
        law_as_many_uploads_as_layers(results@, zoom);
        assert forall|i: int|
            #![trigger results@[i]]
            0 <= i < results@.len() && results@[i] is TessellatedLayer implies exists|k: int|
            #![trigger actions@[k]]
            0 <= k < actions@.len() && (actions@[k] matches UploadAction::AllocateTileGeometry(
                allocation,
            ) && allocation.layer == i && allocation.coords
                == results@[i]->TessellatedLayer_0.coords && allocation.name@
                == results@[i]->TessellatedLayer_0.name@ && allocation.zoom == zoom) by {
            let layers = |result: TessellationResult| result is TessellatedLayer;
            let k = results@.take(i).filter(layers).len() as int;
            law_every_layer_is_uploaded(results@, zoom, i);
            assert(steps_of(actions@)[k] == actions@[k]@);
        }
    }
    actions
}

} // verus!
