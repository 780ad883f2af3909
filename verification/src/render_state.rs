//! The state of the renderer.

use vstd::prelude::*;

use crate::device::requested_features;
use crate::formats::IndexFormat;
use crate::frame::{
    attach_color, color_attachment, depth_stencil_attachment, draw_entries, finish_frame,
    finish_steps, pass_commands, DepthStencilAttachment, FramePlan, PassCommand,
    SurfaceError,
};
use crate::globals::{bytemuck_cast_slice, in_memory};
use crate::laws::frame::{law_nothing_else_is_drawn, law_visible_entry_is_drawn_in_full};
use crate::laws::setup::law_tile_metadata_fits_its_buffer;
use crate::laws::upload::law_session_starts_with;
use crate::laws::zoom::law_level_at_the_ends;
use crate::setup::{
    choose_initial_size, initial_size, plan_setup, setup_plan, RenderOptions, SetupPlan,
    SAMPLE_COUNT,
};
use crate::surface::{
    depth_texture_for, multisampling_texture_for, plan_depth_texture, plan_multisampling_texture,
    PhysicalSize, SurfaceConfiguration, SurfaceUpdate, TexturePlan,
};
use crate::tiles::{DrawRange, IndexEntry, WorldTileCoords};
use crate::upload::{schedule, tiles_of, UploadSession, UploadStep};
use crate::zoom::Zoom;

verus! {

/// What the renderer knows of its surface, its textures and its view.
#[derive(Clone, Copy, PartialEq, Eq, Debug)]
pub struct RenderState {
    pub surface_config: SurfaceConfiguration,
    /// Whether the app is suspended, so that there may be no valid surface.
    pub suspended: bool,
    pub size: PhysicalSize,
    pub sample_count: u32,
    /// The format of the indices that are drawn.
    pub index_format: IndexFormat,
    pub multisampling_texture: Option<TexturePlan>,
    pub depth_texture: TexturePlan,
    /// The size that the camera works with.
    pub camera: PhysicalSize,
    /// The size that the perspective works with.
    pub perspective: PhysicalSize,
    pub zoom: Zoom,
}

impl RenderState {
    /// Surface, textures, camera and perspective all have the size of the
    /// state, and there is a multisampling texture exactly if each pixel has
    /// more than one sample.
    pub open spec fn consistent(self) -> bool {
        &&& self.surface_config == SurfaceConfiguration::of_size(
            self.size,
            self.surface_config.format,
        )
        &&& self.depth_texture == depth_texture_for(
            self.surface_config,
            self.sample_count,
        )
        &&& self.multisampling_texture == multisampling_texture_for(
            self.surface_config,
            self.sample_count,
        )
        &&& self.camera == self.size
        &&& self.perspective == self.size
    }

    /// The state of a renderer that has just started.
    pub open spec fn initial(options: RenderOptions, size: PhysicalSize) -> RenderState {
        let surface_config = SurfaceConfiguration::of_size(size, options.color_format);
        RenderState {
            surface_config,
            suspended: false,
            size,
            sample_count: SAMPLE_COUNT,
            index_format: options.index_format,
            multisampling_texture: multisampling_texture_for(
                surface_config,
                SAMPLE_COUNT,
            ),
            depth_texture: depth_texture_for(surface_config, SAMPLE_COUNT),
            camera: size,
            perspective: size,
            zoom: Zoom { bits: 0 },
        }
    }

    /// Whether a new size takes effect.
    pub open spec fn accepts(self, new_size: PhysicalSize) -> bool {
        !self.suspended && new_size.drawable()
    }

    /// The state after the size has been announced.
    pub open spec fn resized(self, new_size: PhysicalSize) -> RenderState {
        if self.accepts(new_size) {
            let surface_config = SurfaceConfiguration {
                width: new_size.width,
                height: new_size.height,
                ..self.surface_config
            };
            RenderState {
                surface_config,
                size: new_size,
                multisampling_texture: multisampling_texture_for(
                    surface_config,
                    self.sample_count,
                ),
                depth_texture: depth_texture_for(
                    surface_config,
                    self.sample_count,
                ),
                camera: new_size,
                perspective: new_size,
                ..self
            }
        } else {
            self
        }
    }

    /// What has to be done for the size of the state to take effect.
    pub open spec fn surface_update(self) -> SurfaceUpdate {
        SurfaceUpdate {
            surface_config: self.surface_config,
            perspective: self.perspective,
            camera: self.camera,
            depth_texture: self.depth_texture,
            multisampling_texture: self.multisampling_texture,
        }
    }

    /// The state after a suspension.
    pub open spec fn after_suspend(self) -> RenderState {
        RenderState { suspended: true, ..self }
    }

    /// The state after a resumption.
    pub open spec fn after_resume(self) -> RenderState {
        RenderState { suspended: false, ..self }
    }

    /// Starts a renderer for a window of the given size. The plan says what to
    /// create on the GPU.
    pub fn new(options: &RenderOptions, window_size: PhysicalSize) -> (started: (
        RenderState,
        SetupPlan,
    ))
        requires
            options.representable(),
        ensures
            started.0 == RenderState::initial(
                *options,
                initial_size(options.platform, window_size),
            ),
            started.0.consistent(),
            !options.platform.android ==> started.0.size == window_size,
            started.0.camera == started.0.size,
            started.0.perspective == started.0.size,
            started.1.surface_config.width == started.0.size.width,
            started.1.surface_config.height == started.0.size.height,
            started.1 == setup_plan(*options, started.0.size),
            started.0.index_format == options.index_format,
            started.1.surface_config.format == options.color_format,
            started.1.device.limits == options.platform.limits(),
            started.1.device.features == requested_features(options.debug_wireframe),
            started.1.vertex_buffer.size == options.vertex_buffer_size,
            started.1.feature_metadata_buffer.size == options.feature_metadata_buffer_size,
            started.1.indices_buffer.size == options.indices_buffer_size,
            started.1.metadata_buffer.size == options.tile_metadata_size * options.tile_meta_count,
            started.1.globals_buffer.size >= options.globals_size,
            started.1.globals_buffer.size >= options.min_buffer_size,
    {
        let size = choose_initial_size(&options.platform, window_size);
        let plan = plan_setup(options, size);
        proof {
            law_tile_metadata_fits_its_buffer(*options, size);
        }
        let state = RenderState {
            surface_config: plan.surface_config,
            suspended: false,
            size,
            sample_count: SAMPLE_COUNT,
            index_format: options.index_format,
            multisampling_texture: plan.multisampling_texture,
            depth_texture: plan.depth_texture,
            camera: size,
            perspective: size,
            zoom: Zoom::zero(),
        };
        (state, plan)
    }

    /// Decides whether a new surface has to be created, and how it has to be
    /// configured. That is so only while the app is suspended: the surface
    /// gets invalid with the suspension.
    pub fn recreate_surface(&self) -> (config: Option<SurfaceConfiguration>)
        ensures
            config == if self.suspended {
                Some(self.surface_config)
            } else {
                None
            },
            config is Some <==> self.suspended,
            config matches Some(config) ==> config == self.surface_config,
    {
        if self.suspended {
            Some(self.surface_config)
        } else {
            None
        }
    }

    /// Takes over a new size. While the app is suspended the surface cannot be
    /// configured, and a surface without pixels is impossible: in both cases
    /// nothing changes and nothing has to be done.
    pub fn resize(&mut self, new_size: PhysicalSize) -> (update: Option<SurfaceUpdate>)
        ensures
            *final(self) == old(self).resized(new_size),
            update == if old(self).accepts(new_size) {
                Some(final(self).surface_update())
            } else {
                None
            },
            update is Some <==> !old(self).suspended && new_size.width > 0 && new_size.height > 0,
            update is Some ==> {
                &&& final(self).size == new_size
                &&& final(self).camera == new_size
                &&& final(self).perspective == new_size
                &&& final(self).surface_config.width == new_size.width
                &&& final(self).surface_config.height == new_size.height
                &&& update->0.surface_config == final(self).surface_config
                &&& update->0.camera == new_size
                &&& update->0.perspective == new_size
            },
            update is None ==> *final(self) == *old(self),
            old(self).consistent() ==> final(self).consistent(),
    {
        if self.suspended {
            return None;
        }
        if new_size.width > 0 && new_size.height > 0 {
            self.size = new_size;
            self.surface_config.width = new_size.width;
            self.surface_config.height = new_size.height;
            self.perspective = new_size;
            self.camera = new_size;
            self.depth_texture = plan_depth_texture(&self.surface_config, self.sample_count);
            self.multisampling_texture =
            plan_multisampling_texture(&self.surface_config, self.sample_count);
            Some(
                SurfaceUpdate {
                    surface_config: self.surface_config,
                    perspective: self.perspective,
                    camera: self.camera,
                    depth_texture: self.depth_texture,
                    multisampling_texture: self.multisampling_texture,
                },
            )
        } else {
            None
        }
    }

    /// The tile level that is visible at the current zoom.
    pub fn visible_z(&self) -> (z: u8)
        ensures
            z == self.zoom.level(),
            self.zoom.bits < 0x3ff0_0000_0000_0000 ==> z == 0,
            self.zoom.bits > 0x7ff0_0000_0000_0000 ==> z == 0,
            0x4070_0000_0000_0000 <= self.zoom.bits <= 0x7ff0_0000_0000_0000 ==> z == 255,
    {
        proof {
            law_level_at_the_ends(self.zoom);
        }
        self.zoom.floor_to_level()
    }

    /// Plans the uploads before a frame: `view` are the tiles that the camera
    /// looks at, `entries` the index of the buffer pool, and `globals` the
    /// words of the globals.
    pub fn upload_tile_geometry(
        &self,
        view: &Option<Vec<WorldTileCoords>>,
        entries: &Vec<IndexEntry>,
        globals: &Vec<u32>,
    ) -> (session: UploadSession)
        ensures
            session.zoom() == self.zoom,
            session.awaiting() is None,
            exists|data: Seq<u8>|
                {
                    &&& in_memory(globals@, data)
                    &&& session.steps() == #[trigger] schedule(
                        tiles_of(*view),
                        entries@,
                        self.zoom,
                        data,
                    )
                },
            view matches Some(tiles) ==> forall|i: int|
                #![trigger tiles@[i]]
                0 <= i < tiles@.len() ==> (session.steps()[i] matches UploadStep::FetchTile {
                    coords,
                    ..
                } && coords == tiles@[i]),
            session.steps().len() == 2 * tiles_of(*view).len() + entries@.len() + 1,
            forall|j: int|
                #![trigger entries@[j]]
                0 <= j < entries@.len() ==> (session.steps()[tiles_of(*view).len() + j]
                    matches UploadStep::UpdateTileMetadata { entry, coords, zoom } && entry == j
                    && coords == entries@[j].coords && zoom == self.zoom),
            session.steps().last() matches UploadStep::WriteGlobals { offset, data } && offset == 0
                && data.len() == 4 * globals@.len(),
    {
        let data = bytemuck_cast_slice(globals);
        proof {
            law_session_starts_with(tiles_of(*view), entries@, self.zoom, data@);
        }
        UploadSession::new(view, entries, self.zoom, data)
    }

    /// Plans a frame. `acquired` says whether the surface handed out a frame
    /// to draw to; where it did not, nothing is drawn. `entries` is the index
    /// of the buffer pool, of which only the visible tile level is drawn.
    pub fn render(&self, acquired: Result<(), SurfaceError>, entries: &Vec<IndexEntry>) -> (frame:
        Result<FramePlan, SurfaceError>)
        ensures
            match acquired {
                Err(error) => frame == Err::<FramePlan, SurfaceError>(error),
                Ok(_) => frame matches Ok(plan) && {
                    &&& plan.encoder_label == Some("Encoder")
                    &&& plan.pass_label is None
                    &&& plan.color == color_attachment(self.multisampling_texture is Some)
                    &&& plan.depth_stencil == depth_stencil_attachment()
                    &&& plan.commands@ == pass_commands(
                        entries@,
                        self.zoom.level(),
                        self.index_format,
                    )
                    &&& plan.commands@.len() == 1 + 11 * entries@.filter(
                        |entry: IndexEntry| entry.coords.z == self.zoom.level(),
                    ).len()
                    &&& forall|i: int|
                        0 <= i < entries@.len() && (#[trigger] entries@[i]).coords.z
                            == self.zoom.level() ==> plan.commands@.contains(
                            PassCommand::DrawIndexed {
                                indices: entries@[i].drawn_indices,
                                base_vertex: 0,
                                instances: DrawRange { start: 0, end: 1 },
                            },
                        )
                    &&& plan.finish@ == finish_steps()
                },
            },
    {
        proof {
            let z = self.zoom.level();
            let commands = pass_commands(entries@, z, self.index_format);
            law_nothing_else_is_drawn(entries@, z, self.index_format);
            assert forall|i: int|
                0 <= i < entries@.len() && (#[trigger] entries@[i]).coords.z
                    == z implies commands.contains(
                PassCommand::DrawIndexed {
                    indices: entries@[i].drawn_indices,
                    base_vertex: 0,
                    instances: DrawRange { start: 0, end: 1 },
                },
            ) by {
                let shown = |entry: IndexEntry| entry.coords.z == z;
                let last = 11 + 11 * entries@.take(i).filter(shown).len();
                law_visible_entry_is_drawn_in_full(entries@, z, self.index_format, i);
                assert(0 <= last < commands.len());
                assert(commands.contains(commands[last as int]));
            }
        }
        match acquired {
            Err(error) => Err(error),
            Ok(_) => Ok(
                FramePlan {
                    encoder_label: Some("Encoder"),
                    pass_label: None,
                    color: attach_color(self.multisampling_texture.is_some()),
                    depth_stencil: DepthStencilAttachment {
                        depth_clear: 0,
                        depth_store: true,
                        stencil_clear: 0,
                        stencil_store: true,
                    },
                    commands: draw_entries(entries, self.visible_z(), self.index_format),
                    finish: finish_frame(),
                },
            ),
        }
    }

    /// Notes that the app is suspended.
    pub fn suspend(&mut self)
        ensures
            *final(self) == old(self).after_suspend(),
            final(self).suspended,
            final(self).size == old(self).size,
            final(self).zoom == old(self).zoom,
            old(self).consistent() ==> final(self).consistent(),
    {
        self.suspended = true;
    }

    /// Notes that the app runs again.
    pub fn resume(&mut self)
        ensures
            *final(self) == old(self).after_resume(),
            !final(self).suspended,
            final(self).size == old(self).size,
            final(self).zoom == old(self).zoom,
            old(self).consistent() ==> final(self).consistent(),
    {
        self.suspended = false;
    }
}

} // verus!
