//! What holds of the commands of a frame.

use vstd::prelude::*;

use crate::formats::IndexFormat;
use crate::frame::{
    color_attachment, depth_stencil_attachment, entries_at, entry_commands, finish_steps,
    lemma_pass_commands_push, pass_commands, ClearColor, FinishStep, PassCommand, Pipeline,
    PoolBuffer, Target,
};
use crate::render_state::RenderState;
use crate::tiles::{DrawRange, IndexEntry};

verus! {

/// An entry is drawn exactly if it is in the index and of the visible level.
pub proof fn law_drawn_entries_are_the_visible_ones(
    entries: Seq<IndexEntry>,
    z: u8,
    entry: IndexEntry,
)
    ensures
        entries_at(entries, z).contains(entry) <==> entries.contains(entry)
            && entry.coords.z == z,
{
    let shown = |e: IndexEntry| e.coords.z == z;
    if entries.filter(shown).contains(entry) {
        entries.lemma_filter_contains_rev(shown, entry);
        let i = choose|i: int|
            0 <= i < entries.filter(shown).len() && entries.filter(shown)[i] == entry;
        entries.lemma_filter_pred(shown, i);
    }
    if entries.contains(entry) && entry.coords.z == z {
        let i = choose|i: int| 0 <= i < entries.len() && entries[i] == entry;
        entries.lemma_filter_contains(shown, i);
    }
}

/// What is in the index for other tile levels leaves no trace in a frame.
pub proof fn law_other_levels_are_not_drawn(
    entries: Seq<IndexEntry>,
    z: u8,
    format: IndexFormat,
)
    ensures
        pass_commands(entries_at(entries, z), z, format) == pass_commands(entries, z, format),
    decreases entries.len(),
{
    reveal(Seq::filter);
    if entries.len() == 0 {
        assert(entries_at(entries, z) == entries);
    } else {
        let before = entries.drop_last();
        let last = entries.last();
        assert(entries == before.push(last));
        law_other_levels_are_not_drawn(before, z, format);
        lemma_pass_commands_push(before, last, z, format);
        lemma_pass_commands_push(entries_at(before, z), last, z, format);
    }
}

/// The commands of a frame fall into blocks of eleven behind the first one:
/// one block for each visible entry, in the order of the index.
pub proof fn law_one_block_for_each_visible_entry(
    entries: Seq<IndexEntry>,
    z: u8,
    format: IndexFormat,
)
    ensures
        pass_commands(entries, z, format).len() == 1 + 11 * entries_at(entries, z).len(),
        forall|k: int|
            0 <= k < entries_at(entries, z).len() ==> pass_commands(entries, z, format).subrange(
                1 + 11 * k,
                12 + 11 * k,
            ) == entry_commands(#[trigger] entries_at(entries, z)[k], format),
    decreases entries.len(),
{
    reveal(Seq::filter);
    if entries.len() > 0 {
        let before = entries.drop_last();
        let last = entries.last();
        let shown_before = entries_at(before, z);
        let commands_before = pass_commands(before, z, format);
        let shown = entries_at(entries, z);
        let commands = pass_commands(entries, z, format);
        assert(entries == before.push(last));
        law_one_block_for_each_visible_entry(before, z, format);
        lemma_pass_commands_push(before, last, z, format);
        assert forall|k: int| 0 <= k < shown.len() implies commands.subrange(
            1 + 11 * k,
            12 + 11 * k,
        ) == entry_commands(#[trigger] shown[k], format) by {
            if k < shown_before.len() {
                assert(shown[k] == shown_before[k]);
                assert(commands.subrange(1 + 11 * k, 12 + 11 * k) == commands_before.subrange(
                    1 + 11 * k,
                    12 + 11 * k,
                ));
            } else {
                assert(shown[k] == last);
                assert(commands.subrange(1 + 11 * k, 12 + 11 * k) == entry_commands(last, format));
            }
        }
    }
}

/// Each entry is masked before it is drawn, under one stencil reference.
pub proof fn law_masked_before_drawn(entry: IndexEntry, format: IndexFormat)
    ensures
        ({
            let commands = entry_commands(entry, format);
            let reference = PassCommand::SetStencilReference {
                reference: entry.stencil_reference as u32,
            };
            &&& commands.len() == 11
            &&& forall|i: int|
                0 <= i < 11 ==> ((#[trigger] commands[i]) is SetStencilReference <==> commands[i]
                    == reference)
            &&& forall|i: int| 0 <= i < 11 ==> ((#[trigger] commands[i]) is Draw <==> i == 3)
            &&& forall|i: int|
                0 <= i < 11 ==> ((#[trigger] commands[i]) is DrawIndexed <==> i == 10)
            &&& commands[0] == PassCommand::SetPipeline { pipeline: Pipeline::Mask }
            &&& commands[1] == reference
            &&& commands[4] == PassCommand::SetPipeline { pipeline: Pipeline::Tile }
            &&& commands[5] == reference
        }),
{
}

/// Colors go through the multisampling texture exactly if each pixel has more
/// than one sample.
pub proof fn law_multisampling_is_resolved(state: RenderState)
    requires
        state.consistent(),
    ensures
        ({
            let color = color_attachment(state.multisampling_texture is Some);
            &&& state.sample_count > 1 <==> color.target == Target::Multisampling
            &&& state.sample_count > 1 <==> color.resolve_target == Some(Target::Frame)
        }),
{
}

/// The entry `i` of the index, if it is of the level `z`, is masked and drawn in
/// full: behind the first command and the eleven commands for each entry of that
/// level before it stand those that bind exactly the ranges of the entry and
/// draw exactly its indices.
pub proof fn law_visible_entry_is_drawn_in_full(
    entries: Seq<IndexEntry>,
    z: u8,
    format: IndexFormat,
    i: int,
)
    requires
        0 <= i < entries.len(),
        entries[i].coords.z == z,
    ensures
        ({
            let entry = entries[i];
            let before = entries.take(i).filter(|e: IndexEntry| e.coords.z == z).len();
            let first = (1 + 11 * before) as int;
            let commands = pass_commands(entries, z, format);
            &&& first + 11 <= commands.len()
            &&& commands[first] == PassCommand::SetPipeline { pipeline: Pipeline::Mask }
            &&& commands[first + 1] == PassCommand::SetStencilReference {
                reference: entry.stencil_reference as u32,
            }
            &&& commands[first + 2] == PassCommand::SetVertexBuffer {
                slot: 0,
                buffer: PoolBuffer::Metadata,
                range: entry.metadata,
            }
            &&& commands[first + 3] == PassCommand::Draw {
                vertices: DrawRange { start: 0, end: 6 },
                instances: DrawRange { start: 0, end: 1 },
            }
            &&& commands[first + 4] == PassCommand::SetPipeline { pipeline: Pipeline::Tile }
            &&& commands[first + 5] == PassCommand::SetStencilReference {
                reference: entry.stencil_reference as u32,
            }
            &&& commands[first + 6] == PassCommand::SetIndexBuffer { range: entry.indices, format }
            &&& commands[first + 7] == PassCommand::SetVertexBuffer {
                slot: 0,
                buffer: PoolBuffer::Vertices,
                range: entry.vertices,
            }
            &&& commands[first + 8] == PassCommand::SetVertexBuffer {
                slot: 1,
                buffer: PoolBuffer::Metadata,
                range: entry.metadata,
            }
            &&& commands[first + 9] == PassCommand::SetVertexBuffer {
                slot: 2,
                buffer: PoolBuffer::FeatureMetadata,
                range: entry.feature_metadata,
            }
            &&& commands[first + 10] == PassCommand::DrawIndexed {
                indices: entry.drawn_indices,
                base_vertex: 0,
                instances: DrawRange { start: 0, end: 1 },
            }
        }),
{
    let shown = |e: IndexEntry| e.coords.z == z;
    let entry = entries[i];
    let before = entries.take(i).filter(shown);
    let after = entries.skip(i + 1).filter(shown);
    assert(entries == entries.take(i) + seq![entry] + entries.skip(i + 1));
    Seq::filter_distributes_over_add(entries.take(i) + seq![entry], entries.skip(i + 1), shown);
    Seq::filter_distributes_over_add(entries.take(i), seq![entry], shown);
    assert(seq![entry].filter(shown) == seq![entry]) by {
        reveal(Seq::filter);
        assert(seq![entry].drop_last() == Seq::<IndexEntry>::empty());
        assert(Seq::<IndexEntry>::empty().filter(shown) == Seq::<IndexEntry>::empty());
    }
    assert(entries.filter(shown) == before + seq![entry] + after);
    law_one_block_for_each_visible_entry(entries, z, format);
    let commands = pass_commands(entries, z, format);
    let k = before.len() as int;
    assert(entries_at(entries, z)[k] == entry);
    let block = commands.subrange(1 + 11 * k, 12 + 11 * k);
    let first = 1 + 11 * k;
    assert(block == entry_commands(entry, format));
    assert(commands[first] == block[0] && commands[first + 1] == block[1] && commands[first + 2]
        == block[2] && commands[first + 3] == block[3] && commands[first + 4] == block[4]
        && commands[first + 5] == block[5] && commands[first + 6] == block[6]
        && commands[first + 7] == block[7] && commands[first + 8] == block[8]
        && commands[first + 9] == block[9] && commands[first + 10] == block[10]);
}

/// A frame binds the globals first, and has eleven commands for each entry of
/// the level `z`, and no further ones.
pub proof fn law_nothing_else_is_drawn(entries: Seq<IndexEntry>, z: u8, format: IndexFormat)
    ensures
        pass_commands(entries, z, format).len() == 1 + 11 * entries.filter(
            |e: IndexEntry| e.coords.z == z,
        ).len(),
        pass_commands(entries, z, format)[0] == (PassCommand::SetBindGroup { index: 0 }),
{
    law_one_block_for_each_visible_entry(entries, z, format);
}

/// The drawn entries keep the order of the index: an entry behind all others is
/// drawn last, or not at all.
pub proof fn law_drawn_entries_keep_their_order(
    entries: Seq<IndexEntry>,
    entry: IndexEntry,
    z: u8,
)
    ensures
        entries_at(Seq::empty(), z).len() == 0,
        entry.coords.z == z ==> entries_at(entries.push(entry), z) == entries_at(entries, z).push(
            entry,
        ),
        entry.coords.z != z ==> entries_at(entries.push(entry), z) == entries_at(entries, z),
{
    reveal(Seq::filter);
    assert(entries.push(entry).drop_last() == entries);
}

/// A frame starts white, with depth and stencil at zero, and all of it is kept.
/// Colors go to the frame itself, or through the multisampling texture to it.
pub proof fn law_every_frame_starts_blank(multisampled: bool)
    ensures
        ({
            let color = color_attachment(multisampled);
            let depth_stencil = depth_stencil_attachment();
            &&& color.clear == ClearColor::White && color.store
            &&& multisampled ==> color.target == Target::Multisampling && color.resolve_target
                == Some(Target::Frame)
            &&& !multisampled ==> color.target == Target::Frame && color.resolve_target is None
            &&& depth_stencil.depth_clear == 0 && depth_stencil.depth_store
            &&& depth_stencil.stencil_clear == 0 && depth_stencil.stencil_store
        }),
{
}

/// A frame is finished in three steps: it is submitted, then presented, then
/// counted.
pub proof fn law_frames_are_finished_in_order(step: FinishStep)
    ensures
        finish_steps().len() == 3,
        finish_steps().contains(step),
        finish_steps().index_of(FinishStep::Submit) < finish_steps().index_of(FinishStep::Present),
        finish_steps().index_of(FinishStep::Present) < finish_steps().index_of(
            FinishStep::CountFrame,
        ),
{
    let steps = finish_steps();
    assert(steps[0] == FinishStep::Submit && steps[1] == FinishStep::Present && steps[2]
        == FinishStep::CountFrame);
    assert(steps.contains(steps[0]) && steps.contains(steps[1]) && steps.contains(steps[2]));
}

} // verus!
