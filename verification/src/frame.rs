//! What one frame consists of: attachments, clears and draw commands.

use vstd::prelude::*;

use crate::formats::IndexFormat;
use crate::tiles::{ByteRange, DrawRange, IndexEntry};

verus! {

/// Why the surface gave no frame to draw to.
#[derive(Clone, Copy, PartialEq, Eq, Structural, Debug)]
pub enum SurfaceError {
    Timeout,
    Outdated,
    Lost,
    OutOfMemory,
}

/// A texture that a pass draws to.
#[derive(Clone, Copy, PartialEq, Eq, Structural, Debug)]
pub enum Target {
    /// The frame that the surface handed out.
    Frame,
    /// The texture with several samples for each pixel.
    Multisampling,
}

/// The color that a frame starts with.
#[derive(Clone, Copy, PartialEq, Eq, Structural, Debug)]
pub enum ClearColor {
    White,
}

#[derive(Clone, Copy, PartialEq, Eq, Structural, Debug)]
pub struct ColorAttachment {
    pub target: Target,
    pub resolve_target: Option<Target>,
    pub clear: ClearColor,
    pub store: bool,
}

#[derive(Clone, Copy, PartialEq, Eq, Structural, Debug)]
pub struct DepthStencilAttachment {
    /// The depth that every pixel starts with, a whole number.
    pub depth_clear: u32,
    pub depth_store: bool,
    pub stencil_clear: u32,
    pub stencil_store: bool,
}

#[derive(Clone, Copy, PartialEq, Eq, Structural, Debug)]
pub enum Pipeline {
    /// Writes the stencil reference of a tile to its pixels.
    Mask,
    /// Draws the geometry of a tile where the stencil reference matches.
    Tile,
}

/// The vertex buffers of the buffer pool.
#[derive(Clone, Copy, PartialEq, Eq, Structural, Debug)]
pub enum PoolBuffer {
    Vertices,
    Metadata,
    FeatureMetadata,
}

/// One command of a render pass.
#[derive(Clone, Copy, PartialEq, Eq, Structural, Debug)]
pub enum PassCommand {
    /// Binds the globals at the given index.
    SetBindGroup { index: u32 },
    SetPipeline { pipeline: Pipeline },
    SetStencilReference { reference: u32 },
    SetIndexBuffer { range: ByteRange, format: IndexFormat },
    SetVertexBuffer { slot: u32, buffer: PoolBuffer, range: ByteRange },
    Draw { vertices: DrawRange, instances: DrawRange },
    DrawIndexed { indices: DrawRange, base_vertex: i32, instances: DrawRange },
}

/// What is done with a frame once its commands are encoded.
#[derive(Clone, Copy, PartialEq, Eq, Structural, Debug)]
pub enum FinishStep {
    /// Submit the commands to the queue.
    Submit,
    /// Hand the frame to the screen.
    Present,
    /// Count the frame for the frame rate.
    CountFrame,
}

/// Everything that is drawn in one frame, and what is done with it then.
pub struct FramePlan {
    pub encoder_label: Option<&'static str>,
    pub pass_label: Option<&'static str>,
    pub color: ColorAttachment,
    pub depth_stencil: DepthStencilAttachment,
    pub commands: Vec<PassCommand>,
    pub finish: Vec<FinishStep>,
}

/// The attachment that colors go to: the multisampling texture, resolved into
/// the frame, where there is one, else the frame itself.
pub open spec fn color_attachment(multisampled: bool) -> ColorAttachment {
    if multisampled {
        ColorAttachment {
            target: Target::Multisampling,
            resolve_target: Some(Target::Frame),
            clear: ClearColor::White,
            store: true,
        }
    } else {
        ColorAttachment {
            target: Target::Frame,
            resolve_target: None,
            clear: ClearColor::White,
            store: true,
        }
    }
}

/// Depth and stencil both start at zero.
pub open spec fn depth_stencil_attachment() -> DepthStencilAttachment {
    DepthStencilAttachment {
        depth_clear: 0,
        depth_store: true,
        stencil_clear: 0,
        stencil_store: true,
    }
}

/// A frame is submitted before it is presented, and counted when it has been.
pub open spec fn finish_steps() -> Seq<FinishStep> {
    seq![FinishStep::Submit, FinishStep::Present, FinishStep::CountFrame]
}

/// The first instance alone.
pub open spec fn one_instance() -> DrawRange {
    DrawRange { start: 0, end: 1 }
}

/// The commands that mark the pixels of a tile: a quad of two triangles.
pub open spec fn mask_commands(entry: IndexEntry) -> Seq<PassCommand> {
    seq![
        PassCommand::SetPipeline { pipeline: Pipeline::Mask },
        PassCommand::SetStencilReference { reference: entry.stencil_reference as u32 },
        PassCommand::SetVertexBuffer {
            slot: 0,
            buffer: PoolBuffer::Metadata,
            range: entry.metadata,
        },
        PassCommand::Draw { vertices: DrawRange { start: 0, end: 6 }, instances: one_instance() },
    ]
}

/// The commands that draw the geometry of a tile where it is marked.
pub open spec fn geometry_commands(entry: IndexEntry, format: IndexFormat) -> Seq<PassCommand> {
    seq![
        PassCommand::SetPipeline { pipeline: Pipeline::Tile },
        PassCommand::SetStencilReference { reference: entry.stencil_reference as u32 },
        PassCommand::SetIndexBuffer { range: entry.indices, format },
        PassCommand::SetVertexBuffer {
            slot: 0,
            buffer: PoolBuffer::Vertices,
            range: entry.vertices,
        },
        PassCommand::SetVertexBuffer {
            slot: 1,
            buffer: PoolBuffer::Metadata,
            range: entry.metadata,
        },
        PassCommand::SetVertexBuffer {
            slot: 2,
            buffer: PoolBuffer::FeatureMetadata,
            range: entry.feature_metadata,
        },
        PassCommand::DrawIndexed {
            indices: entry.drawn_indices,
            base_vertex: 0,
            instances: one_instance(),
        },
    ]
}

/// The commands for one entry: its mask, then its geometry.
pub open spec fn entry_commands(entry: IndexEntry, format: IndexFormat) -> Seq<PassCommand> {
    mask_commands(entry) + geometry_commands(entry, format)
}

/// The entries that belong to the tile level `z`, in their order.
pub open spec fn entries_at(entries: Seq<IndexEntry>, z: u8) -> Seq<IndexEntry> {
    entries.filter(|entry: IndexEntry| entry.coords.z == z)
}

/// The commands of a pass: the globals are bound, then each entry of the tile
/// level `z` is drawn.
pub open spec fn pass_commands(
    entries: Seq<IndexEntry>,
    z: u8,
    format: IndexFormat,
) -> Seq<PassCommand> {
    seq![PassCommand::SetBindGroup { index: 0 }] + entries_at(entries, z).map_values(
        |entry: IndexEntry| entry_commands(entry, format),
    ).flatten()
}

/// Decides where colors go.
pub(crate) fn attach_color(multisampled: bool) -> (attachment: ColorAttachment)
    ensures
        attachment == color_attachment(multisampled),
{
    if multisampled {
        ColorAttachment {
            target: Target::Multisampling,
            resolve_target: Some(Target::Frame),
            clear: ClearColor::White,
            store: true,
        }
    } else {
        ColorAttachment {
            target: Target::Frame,
            resolve_target: None,
            clear: ClearColor::White,
            store: true,
        }
    }
}

/// Lists what is done with an encoded frame.
pub(crate) fn finish_frame() -> (steps: Vec<FinishStep>)
    ensures
        steps@ == finish_steps(),
{
    let mut steps: Vec<FinishStep> = Vec::new();
    steps.push(FinishStep::Submit);
    steps.push(FinishStep::Present);
    steps.push(FinishStep::CountFrame);
    steps
}

/// Appends the commands that mark the pixels of a tile.
fn push_mask(commands: &mut Vec<PassCommand>, entry: &IndexEntry)
    ensures
        final(commands)@ == old(commands)@ + mask_commands(*entry),
{
    commands.push(PassCommand::SetPipeline { pipeline: Pipeline::Mask });
    commands.push(
        PassCommand::SetStencilReference { reference: entry.stencil_reference as u32 },
    );
    commands.push(
        PassCommand::SetVertexBuffer {
            slot: 0,
            buffer: PoolBuffer::Metadata,
            range: entry.metadata,
        },
    );
    commands.push(
        PassCommand::Draw {
            vertices: DrawRange { start: 0, end: 6 },
            instances: DrawRange { start: 0, end: 1 },
        },
    );
}

/// Appends the commands that draw the geometry of a tile.
fn push_geometry(commands: &mut Vec<PassCommand>, entry: &IndexEntry, format: IndexFormat)
    ensures
        final(commands)@ == old(commands)@ + geometry_commands(*entry, format),
{
    commands.push(PassCommand::SetPipeline { pipeline: Pipeline::Tile });
    commands.push(
        PassCommand::SetStencilReference { reference: entry.stencil_reference as u32 },
    );
    commands.push(PassCommand::SetIndexBuffer { range: entry.indices, format });
    commands.push(
        PassCommand::SetVertexBuffer {
            slot: 0,
            buffer: PoolBuffer::Vertices,
            range: entry.vertices,
        },
    );
    commands.push(
        PassCommand::SetVertexBuffer {
            slot: 1,
            buffer: PoolBuffer::Metadata,
            range: entry.metadata,
        },
    );
    commands.push(
        PassCommand::SetVertexBuffer {
            slot: 2,
            buffer: PoolBuffer::FeatureMetadata,
            range: entry.feature_metadata,
        },
    );
    commands.push(
        PassCommand::DrawIndexed {
            indices: entry.drawn_indices,
            base_vertex: 0,
            instances: DrawRange { start: 0, end: 1 },
        },
    );
}

/// Lists the commands of a pass over the entries of the tile level `z`.
pub(crate) fn draw_entries(entries: &Vec<IndexEntry>, z: u8, format: IndexFormat) -> (commands:
    Vec<PassCommand>)
    ensures
        commands@ == pass_commands(entries@, z, format),
{
    let mut commands: Vec<PassCommand> = Vec::new();
    commands.push(PassCommand::SetBindGroup { index: 0 });
    let mut i: usize = 0;
    proof {
        lemma_pass_commands_of_none(entries@.take(0), z, format);
    }
    while i < entries.len()
        invariant
            i <= entries@.len(),
            commands@ == pass_commands(entries@.take(i as int), z, format),
        decreases entries@.len() - i,
    {
        let entry: &IndexEntry = &entries[i];
        if entry.coords.z == z {
            push_mask(&mut commands, entry);
            push_geometry(&mut commands, entry, format);
        }
        proof {
            let prefix = entries@.take(i as int);
            assert(entries@.take(i + 1) == prefix.push(*entry));
            lemma_pass_commands_push(prefix, *entry, z, format);
        }
        i = i + 1;
    }
    proof {
        assert(entries@.take(i as int) == entries@);
    }
    commands
}

proof fn lemma_pass_commands_of_none(entries: Seq<IndexEntry>, z: u8, format: IndexFormat)
    requires
        entries.len() == 0,
    ensures
        pass_commands(entries, z, format) == seq![PassCommand::SetBindGroup { index: 0 }],
{
    reveal(Seq::filter);
}

/// An entry at the end of the index adds its commands at the end of the pass
/// if it is of the tile level `z`, and nothing otherwise.
pub proof fn lemma_pass_commands_push(
    entries: Seq<IndexEntry>,
    entry: IndexEntry,
    z: u8,
    format: IndexFormat,
)
    ensures
        entry.coords.z == z ==> pass_commands(entries.push(entry), z, format) == pass_commands(
            entries,
            z,
            format,
        ) + entry_commands(entry, format),
        entry.coords.z != z ==> pass_commands(entries.push(entry), z, format) == pass_commands(
            entries,
            z,
            format,
        ),
{
    let shown = entries_at(entries, z);
    assert(entries.push(entry).drop_last() == entries);
    reveal(Seq::filter);
    if entry.coords.z == z {
        assert(entries_at(entries.push(entry), z) == shown.push(entry));
        let blocks = shown.map_values(|e: IndexEntry| entry_commands(e, format));
        assert(shown.push(entry).map_values(|e: IndexEntry| entry_commands(e, format))
            == blocks.push(entry_commands(entry, format)));
        blocks.lemma_flatten_push(entry_commands(entry, format));
    }
}

} // verus!
