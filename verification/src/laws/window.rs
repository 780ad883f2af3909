//! What holds of the state, whatever happens to the window.

use vstd::prelude::*;

use crate::render_state::RenderState;
use crate::setup::RenderOptions;
use crate::surface::{PhysicalSize, PresentMode};

verus! {

/// What can happen to a renderer between frames.
pub enum WindowEvent {
    Suspend,
    Resume,
    Resize(PhysicalSize),
}

/// The state after one event.
pub open spec fn after_event(state: RenderState, event: WindowEvent) -> RenderState {
    match event {
        WindowEvent::Suspend => state.after_suspend(),
        WindowEvent::Resume => state.after_resume(),
        WindowEvent::Resize(size) => state.resized(size),
    }
}

/// The state after a series of events.
pub open spec fn after_events(state: RenderState, events: Seq<WindowEvent>) -> RenderState
    decreases events.len(),
{
    if events.len() == 0 {
        state
    } else {
        after_event(after_events(state, events.drop_last()), events.last())
    }
}

/// Whatever happens to a renderer after its start, surface, textures, camera
/// and perspective agree on one size.
pub proof fn law_always_consistent(
    options: RenderOptions,
    size: PhysicalSize,
    events: Seq<WindowEvent>,
)
    ensures
        after_events(RenderState::initial(options, size), events).consistent(),
    decreases events.len(),
{
    if events.len() > 0 {
        law_always_consistent(options, size, events.drop_last());
    }
}

/// A renderer that has started with at least one pixel never loses the last
/// one: the surface is never configured with an empty size.
pub proof fn law_always_drawable(
    options: RenderOptions,
    size: PhysicalSize,
    events: Seq<WindowEvent>,
)
    requires
        size.drawable(),
    ensures
        after_events(RenderState::initial(options, size), events).size.drawable(),
        after_events(RenderState::initial(options, size), events).surface_config.width > 0,
        after_events(RenderState::initial(options, size), events).surface_config.height > 0,
    decreases events.len(),
{
    if events.len() > 0 {
        law_always_drawable(options, size, events.drop_last());
    }
}

/// Whatever happens, the zoom, the number of samples, the formats and the way
/// frames get to the screen stay as they are.
pub proof fn law_events_keep_the_rest(state: RenderState, events: Seq<WindowEvent>)
    ensures
        after_events(state, events).zoom == state.zoom,
        after_events(state, events).sample_count == state.sample_count,
        after_events(state, events).index_format == state.index_format,
        after_events(state, events).surface_config.format == state.surface_config.format,
        after_events(state, events).surface_config.usage == state.surface_config.usage,
        after_events(state, events).surface_config.present_mode
            == state.surface_config.present_mode,
    decreases events.len(),
{
    if events.len() > 0 {
        law_events_keep_the_rest(state, events.drop_last());
    }
}

/// A resumption undoes a suspension.
pub proof fn law_resume_undoes_suspend(state: RenderState)
    requires
        !state.suspended,
    ensures
        state.after_suspend().after_resume() == state,
{
}

/// Sizes that are announced during a suspension are lost: a surface that is
/// then created anew, and the renderer that goes on, have the size from before.
pub proof fn law_resize_is_lost_while_suspended(state: RenderState, sizes: Seq<PhysicalSize>)
    ensures
        after_events(
            state.after_suspend(),
            sizes.map_values(|size: PhysicalSize| WindowEvent::Resize(size)),
        ) == state.after_suspend(),
    decreases sizes.len(),
{
    if sizes.len() > 0 {
        law_resize_is_lost_while_suspended(state, sizes.drop_last());
        assert(sizes.map_values(|size: PhysicalSize| WindowEvent::Resize(size)).drop_last()
            == sizes.drop_last().map_values(|size: PhysicalSize| WindowEvent::Resize(size)));
    }
}

/// Of two sizes that take effect one after the other, only the second one
/// leaves a trace.
pub proof fn law_last_resize_wins(state: RenderState, first: PhysicalSize, second: PhysicalSize)
    requires
        state.accepts(second),
    ensures
        state.resized(first).resized(second) == state.resized(second),
{
}

/// A size without pixels is ignored.
pub proof fn law_empty_size_is_ignored(state: RenderState, size: PhysicalSize)
    requires
        !size.drawable(),
    ensures
        state.resized(size) == state,
{
}

/// A size that takes effect reaches everything that has a size, width for width
/// and height for height, and what has to be done says the same. The rest stays.
pub proof fn law_resize_reaches_everything(state: RenderState, new_size: PhysicalSize)
    requires
        !state.suspended,
        new_size.width > 0,
        new_size.height > 0,
    ensures
        ({
            let after = state.resized(new_size);
            let update = after.surface_update();
            &&& state.accepts(new_size)
            &&& after.size == new_size
            &&& after.camera == new_size
            &&& after.perspective == new_size
            &&& after.surface_config.width == new_size.width
            &&& after.surface_config.height == new_size.height
            &&& after.surface_config.format == state.surface_config.format
            &&& after.surface_config.usage == state.surface_config.usage
            &&& after.surface_config.present_mode == state.surface_config.present_mode
            &&& after.depth_texture.surface_config == after.surface_config
            &&& after.depth_texture.sample_count == state.sample_count
            &&& after.depth_texture.label == Some("depth_texture")
            &&& after.multisampling_texture is Some <==> state.sample_count > 1
            &&& after.multisampling_texture matches Some(texture) ==> texture.surface_config
                == after.surface_config && texture.sample_count == state.sample_count
            &&& after.suspended == state.suspended
            &&& after.sample_count == state.sample_count
            &&& after.index_format == state.index_format
            &&& after.zoom == state.zoom
            &&& update.surface_config == after.surface_config
            &&& update.perspective == new_size
            &&& update.camera == new_size
            &&& update.depth_texture == after.depth_texture
            &&& update.multisampling_texture == after.multisampling_texture
        }),
{
}

/// A size takes effect only while the app is not suspended and only if it has at
/// least one pixel. Otherwise nothing changes.
pub proof fn law_refused_resize_changes_nothing(state: RenderState, new_size: PhysicalSize)
    requires
        state.suspended || new_size.width == 0 || new_size.height == 0,
    ensures
        !state.accepts(new_size),
        state.resized(new_size) == state,
{
}

/// Suspending and resuming set the one flag and leave all else alone.
pub proof fn law_suspension_is_one_flag(state: RenderState)
    ensures
        state.after_suspend().suspended,
        !state.after_resume().suspended,
        forall|after: RenderState|
            #![trigger after.surface_update()]
            after == state.after_suspend() || after == state.after_resume() ==> {
                &&& after.surface_config == state.surface_config
                &&& after.size == state.size
                &&& after.sample_count == state.sample_count
                &&& after.index_format == state.index_format
                &&& after.multisampling_texture == state.multisampling_texture
                &&& after.depth_texture == state.depth_texture
                &&& after.camera == state.camera
                &&& after.perspective == state.perspective
                &&& after.zoom == state.zoom
            },
{
}

/// A renderer starts running, at zoom 0, with four samples for each pixel, in the
/// formats of its options, and with its size everywhere.
pub proof fn law_start(options: RenderOptions, size: PhysicalSize)
    ensures
        ({
            let state = RenderState::initial(options, size);
            &&& !state.suspended
            &&& state.zoom.bits == 0
            &&& state.sample_count == 4
            &&& state.index_format == options.index_format
            &&& state.size == size
            &&& state.camera == size
            &&& state.perspective == size
            &&& state.surface_config.width == size.width
            &&& state.surface_config.height == size.height
            &&& state.surface_config.format == options.color_format
            &&& state.surface_config.usage == 0x10
            &&& state.surface_config.present_mode == PresentMode::Fifo
            &&& state.depth_texture.surface_config == state.surface_config
            &&& state.depth_texture.sample_count == 4
            &&& state.depth_texture.label == Some("depth_texture")
            &&& state.multisampling_texture matches Some(texture) && texture.surface_config
                == state.surface_config && texture.sample_count == 4
        }),
{
}

/// What a consistent state says of sizes and samples.
pub proof fn law_consistent_states_have_one_size(state: RenderState)
    requires
        state.consistent(),
    ensures
        state.camera == state.size,
        state.perspective == state.size,
        state.surface_config.width == state.size.width,
        state.surface_config.height == state.size.height,
        state.surface_config.usage == 0x10,
        state.surface_config.present_mode == PresentMode::Fifo,
        state.depth_texture.surface_config == state.surface_config,
        state.depth_texture.sample_count == state.sample_count,
        state.multisampling_texture is Some <==> state.sample_count > 1,
        state.multisampling_texture matches Some(texture) ==> texture.surface_config
            == state.surface_config && texture.sample_count == state.sample_count,
{
}

/// A surface needs at least one pixel in both directions.
pub proof fn law_drawable_sizes(size: PhysicalSize)
    ensures
        size.drawable() <==> size.width > 0 && size.height > 0,
{
}

} // verus!
