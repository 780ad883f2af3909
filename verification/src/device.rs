//! What is asked of the GPU: backends, features, limits and usage flags.
//!
//! Flag sets are held as the bit patterns that `wgpu` gives them.

use vstd::prelude::*;

verus! {

/// The feature that lets polygons be drawn as lines.
pub const POLYGON_MODE_LINE: u64 = 0x1000_0000;

/// Every graphics API that `wgpu` can drive.
pub const ALL_BACKENDS: u32 = 0x7e;

pub const BUFFER_USAGE_COPY_DST: u32 = 0x08;

pub const BUFFER_USAGE_INDEX: u32 = 0x10;

pub const BUFFER_USAGE_VERTEX: u32 = 0x20;

pub const BUFFER_USAGE_UNIFORM: u32 = 0x40;

pub const TEXTURE_USAGE_RENDER_ATTACHMENT: u32 = 0x10;

pub const SHADER_STAGE_VERTEX: u32 = 0x01;

/// The limits a device is requested with; one field for each of `wgpu::Limits`.
#[derive(Clone, Copy, PartialEq, Eq, Structural, Debug)]
pub struct DeviceLimits {
    pub max_texture_dimension_1d: u32,
    pub max_texture_dimension_2d: u32,
    pub max_texture_dimension_3d: u32,
    pub max_texture_array_layers: u32,
    pub max_bind_groups: u32,
    pub max_dynamic_uniform_buffers_per_pipeline_layout: u32,
    pub max_dynamic_storage_buffers_per_pipeline_layout: u32,
    pub max_sampled_textures_per_shader_stage: u32,
    pub max_samplers_per_shader_stage: u32,
    pub max_storage_buffers_per_shader_stage: u32,
    pub max_storage_textures_per_shader_stage: u32,
    pub max_uniform_buffers_per_shader_stage: u32,
    pub max_uniform_buffer_binding_size: u32,
    pub max_storage_buffer_binding_size: u32,
    pub max_vertex_buffers: u32,
    pub max_vertex_attributes: u32,
    pub max_vertex_buffer_array_stride: u32,
    pub max_push_constant_size: u32,
    pub min_uniform_buffer_offset_alignment: u32,
    pub min_storage_buffer_offset_alignment: u32,
    pub max_inter_stage_shader_components: u32,
    pub max_compute_workgroup_storage_size: u32,
    pub max_compute_invocations_per_workgroup: u32,
    pub max_compute_workgroup_size_x: u32,
    pub max_compute_workgroup_size_y: u32,
    pub max_compute_workgroup_size_z: u32,
    pub max_compute_workgroups_per_dimension: u32,
}

/// The limits that `wgpu` asks for unless told otherwise.
pub open spec fn default_limits() -> DeviceLimits {
    DeviceLimits {
        max_texture_dimension_1d: 8192,
        max_texture_dimension_2d: 8192,
        max_texture_dimension_3d: 2048,
        max_texture_array_layers: 256,
        max_bind_groups: 4,
        max_dynamic_uniform_buffers_per_pipeline_layout: 8,
        max_dynamic_storage_buffers_per_pipeline_layout: 4,
        max_sampled_textures_per_shader_stage: 16,
        max_samplers_per_shader_stage: 16,
        max_storage_buffers_per_shader_stage: 8,
        max_storage_textures_per_shader_stage: 8,
        max_uniform_buffers_per_shader_stage: 12,
        max_uniform_buffer_binding_size: 65536,
        max_storage_buffer_binding_size: 134217728,
        max_vertex_buffers: 8,
        max_vertex_attributes: 16,
        max_vertex_buffer_array_stride: 2048,
        max_push_constant_size: 0,
        min_uniform_buffer_offset_alignment: 256,
        min_storage_buffer_offset_alignment: 256,
        max_inter_stage_shader_components: 60,
        max_compute_workgroup_storage_size: 16352,
        max_compute_invocations_per_workgroup: 256,
        max_compute_workgroup_size_x: 256,
        max_compute_workgroup_size_y: 256,
        max_compute_workgroup_size_z: 64,
        max_compute_workgroups_per_dimension: 65535,
    }
}

/// The limits that `wgpu` guarantees to be compatible with WebGL 2.
pub open spec fn webgl2_limits() -> DeviceLimits {
    DeviceLimits {
        max_texture_dimension_1d: 2048,
        max_texture_dimension_2d: 2048,
        max_texture_dimension_3d: 256,
        max_dynamic_storage_buffers_per_pipeline_layout: 0,
        max_storage_buffers_per_shader_stage: 0,
        max_storage_textures_per_shader_stage: 0,
        max_uniform_buffers_per_shader_stage: 11,
        max_uniform_buffer_binding_size: 16384,
        max_storage_buffer_binding_size: 0,
        max_vertex_buffer_array_stride: 255,
        max_compute_workgroup_storage_size: 0,
        max_compute_invocations_per_workgroup: 0,
        max_compute_workgroup_size_x: 0,
        max_compute_workgroup_size_y: 0,
        max_compute_workgroup_size_z: 0,
        max_compute_workgroups_per_dimension: 0,
        ..default_limits()
    }
}

/// The size of a buffer binding: nothing where there are no bytes.
pub open spec fn non_zero_size(bytes: u64) -> Option<u64> {
    if bytes == 0 {
        None
    } else {
        Some(bytes)
    }
}

/// Calls `wgpu::Limits::default` and moves its fields over. Trusted: the
/// values are those that the implementation of that function lists.
#[verifier::external_body]
fn wgpu_default_limits() -> (limits: DeviceLimits)
    ensures
        limits == default_limits(),
{
    let wgpu::Limits { max_texture_dimension_1d, max_texture_dimension_2d, max_texture_dimension_3d, max_texture_array_layers, max_bind_groups,
        max_dynamic_uniform_buffers_per_pipeline_layout, max_dynamic_storage_buffers_per_pipeline_layout, max_sampled_textures_per_shader_stage, max_samplers_per_shader_stage, max_storage_buffers_per_shader_stage,
        max_storage_textures_per_shader_stage, max_uniform_buffers_per_shader_stage, max_uniform_buffer_binding_size, max_storage_buffer_binding_size, max_vertex_buffers,
        max_vertex_attributes, max_vertex_buffer_array_stride, max_push_constant_size, min_uniform_buffer_offset_alignment, min_storage_buffer_offset_alignment,
        max_inter_stage_shader_components, max_compute_workgroup_storage_size, max_compute_invocations_per_workgroup, max_compute_workgroup_size_x, max_compute_workgroup_size_y,
        max_compute_workgroup_size_z, max_compute_workgroups_per_dimension, } = wgpu::Limits::default();
    DeviceLimits { max_texture_dimension_1d, max_texture_dimension_2d, max_texture_dimension_3d, max_texture_array_layers, max_bind_groups,
        max_dynamic_uniform_buffers_per_pipeline_layout, max_dynamic_storage_buffers_per_pipeline_layout, max_sampled_textures_per_shader_stage, max_samplers_per_shader_stage, max_storage_buffers_per_shader_stage,
        max_storage_textures_per_shader_stage, max_uniform_buffers_per_shader_stage, max_uniform_buffer_binding_size, max_storage_buffer_binding_size, max_vertex_buffers,
        max_vertex_attributes, max_vertex_buffer_array_stride, max_push_constant_size, min_uniform_buffer_offset_alignment, min_storage_buffer_offset_alignment,
        max_inter_stage_shader_components, max_compute_workgroup_storage_size, max_compute_invocations_per_workgroup, max_compute_workgroup_size_x, max_compute_workgroup_size_y,
        max_compute_workgroup_size_z, max_compute_workgroups_per_dimension, }
}

/// Calls `wgpu::Limits::downlevel_webgl2_defaults` and moves its fields over.
/// Trusted: the values are those that the implementation of that function
/// lists, and those of `downlevel_defaults` where it lists none.
#[verifier::external_body]
fn wgpu_webgl2_limits() -> (limits: DeviceLimits)
    ensures
        limits == webgl2_limits(),
{
    let wgpu::Limits { max_texture_dimension_1d, max_texture_dimension_2d, max_texture_dimension_3d, max_texture_array_layers, max_bind_groups,
        max_dynamic_uniform_buffers_per_pipeline_layout, max_dynamic_storage_buffers_per_pipeline_layout, max_sampled_textures_per_shader_stage, max_samplers_per_shader_stage, max_storage_buffers_per_shader_stage,
        max_storage_textures_per_shader_stage, max_uniform_buffers_per_shader_stage, max_uniform_buffer_binding_size, max_storage_buffer_binding_size, max_vertex_buffers,
        max_vertex_attributes, max_vertex_buffer_array_stride, max_push_constant_size, min_uniform_buffer_offset_alignment, min_storage_buffer_offset_alignment,
        max_inter_stage_shader_components, max_compute_workgroup_storage_size, max_compute_invocations_per_workgroup, max_compute_workgroup_size_x, max_compute_workgroup_size_y,
        max_compute_workgroup_size_z, max_compute_workgroups_per_dimension, } = wgpu::Limits::downlevel_webgl2_defaults();
    DeviceLimits { max_texture_dimension_1d, max_texture_dimension_2d, max_texture_dimension_3d, max_texture_array_layers, max_bind_groups,
        max_dynamic_uniform_buffers_per_pipeline_layout, max_dynamic_storage_buffers_per_pipeline_layout, max_sampled_textures_per_shader_stage, max_samplers_per_shader_stage, max_storage_buffers_per_shader_stage,
        max_storage_textures_per_shader_stage, max_uniform_buffers_per_shader_stage, max_uniform_buffer_binding_size, max_storage_buffer_binding_size, max_vertex_buffers,
        max_vertex_attributes, max_vertex_buffer_array_stride, max_push_constant_size, min_uniform_buffer_offset_alignment, min_storage_buffer_offset_alignment,
        max_inter_stage_shader_components, max_compute_workgroup_storage_size, max_compute_invocations_per_workgroup, max_compute_workgroup_size_x, max_compute_workgroup_size_y,
        max_compute_workgroup_size_z, max_compute_workgroups_per_dimension, }
}

/// Calls `wgpu::Features::default`. Trusted: no feature is set in it.
#[verifier::external_body]
fn wgpu_default_features() -> (bits: u64)
    ensures
        bits == 0,
{
    wgpu::Features::default().bits()
}

/// Reads the bits of `wgpu::Features::POLYGON_MODE_LINE`. Trusted: it is the
/// one flag with number 28.
#[verifier::external_body]
fn wgpu_polygon_mode_line() -> (bits: u64)
    ensures
        bits == POLYGON_MODE_LINE,
{
    wgpu::Features::POLYGON_MODE_LINE.bits()
}

/// Calls `wgpu::Backends::all`. Trusted: the six backends that `wgpu` knows of
/// have the flags with numbers 1 to 6, and all of them are set.
#[verifier::external_body]
pub(crate) fn wgpu_all_backends() -> (bits: u32)
    ensures
        bits == ALL_BACKENDS,
{
    wgpu::Backends::all().bits()
}

/// Reads the bits of `wgpu::BufferUsages::VERTEX`. Trusted: it is the one flag
/// with number 5.
#[verifier::external_body]
fn wgpu_buffer_usage_vertex() -> (bits: u32)
    ensures
        bits == BUFFER_USAGE_VERTEX,
{
    wgpu::BufferUsages::VERTEX.bits()
}

/// Reads the bits of `wgpu::BufferUsages::INDEX`. Trusted: it is the one flag
/// with number 4.
#[verifier::external_body]
fn wgpu_buffer_usage_index() -> (bits: u32)
    ensures
        bits == BUFFER_USAGE_INDEX,
{
    wgpu::BufferUsages::INDEX.bits()
}

/// Reads the bits of `wgpu::BufferUsages::UNIFORM`. Trusted: it is the one
/// flag with number 6.
#[verifier::external_body]
fn wgpu_buffer_usage_uniform() -> (bits: u32)
    ensures
        bits == BUFFER_USAGE_UNIFORM,
{
    wgpu::BufferUsages::UNIFORM.bits()
}

/// Reads the bits of `wgpu::BufferUsages::COPY_DST`. Trusted: it is the one
/// flag with number 3.
#[verifier::external_body]
fn wgpu_buffer_usage_copy_dst() -> (bits: u32)
    ensures
        bits == BUFFER_USAGE_COPY_DST,
{
    wgpu::BufferUsages::COPY_DST.bits()
}

/// Reads the bits of `wgpu::TextureUsages::RENDER_ATTACHMENT`. Trusted: it is
/// the one flag with number 4.
#[verifier::external_body]
pub(crate) fn wgpu_texture_usage_render_attachment() -> (bits: u32)
    ensures
        bits == TEXTURE_USAGE_RENDER_ATTACHMENT,
{
    wgpu::TextureUsages::RENDER_ATTACHMENT.bits()
}

/// Reads the bits of `wgpu::ShaderStages::VERTEX`. Trusted: it is the one flag
/// with number 0.
#[verifier::external_body]
pub(crate) fn wgpu_shader_stage_vertex() -> (bits: u32)
    ensures
        bits == SHADER_STAGE_VERTEX,
{
    wgpu::ShaderStages::VERTEX.bits()
}

/// Calls `wgpu::BufferSize::new`. Trusted: there is a size for every number of
/// bytes but 0, and it is that number.
#[verifier::external_body]
pub(crate) fn wgpu_buffer_size(bytes: u64) -> (size: Option<u64>)
    ensures
        size == non_zero_size(bytes),
{
    match wgpu::BufferSize::new(bytes) {
        Some(size) => Some(size.get()),
        None => None,
    }
}

/// The platforms that the renderer distinguishes at compile time.
#[derive(Clone, Copy, PartialEq, Eq, Structural, Debug)]
pub struct Platform {
    /// Built for WebGL in a browser.
    pub web_webgl: bool,
    /// Built for Android.
    pub android: bool,
}

impl Platform {
    /// The limits a device is requested with on this platform.
    pub open spec fn limits(self) -> DeviceLimits {
        if self.web_webgl {
            DeviceLimits { max_texture_dimension_2d: 4096, ..webgl2_limits() }
        } else if self.android {
            DeviceLimits { max_storage_textures_per_shader_stage: 4, ..default_limits() }
        } else {
            default_limits()
        }
    }

    /// Chooses the limits to request: WebGL takes what it is compatible with
    /// but for larger textures, Android fewer storage textures than usual.
    pub fn device_limits(&self) -> (limits: DeviceLimits)
        ensures
            limits == self.limits(),
            self.web_webgl ==> limits == (DeviceLimits {
                max_texture_dimension_2d: 4096,
                ..webgl2_limits()
            }),
            !self.web_webgl && self.android ==> limits == (DeviceLimits {
                max_storage_textures_per_shader_stage: 4,
                ..default_limits()
            }),
            !self.web_webgl && !self.android ==> limits == default_limits(),
    {
        if self.web_webgl {
            DeviceLimits { max_texture_dimension_2d: 4096, ..wgpu_webgl2_limits() }
        } else if self.android {
            DeviceLimits { max_storage_textures_per_shader_stage: 4, ..wgpu_default_limits() }
        } else {
            wgpu_default_limits()
        }
    }
}

/// The features to request: line polygons where wireframes are drawn.
pub open spec fn requested_features(debug_wireframe: bool) -> u64 {
    if debug_wireframe {
        POLYGON_MODE_LINE
    } else {
        0
    }
}

/// Chooses the features to request.
pub fn device_features(debug_wireframe: bool) -> (bits: u64)
    ensures
        bits == requested_features(debug_wireframe),
        debug_wireframe ==> bits == 0x1000_0000,
        !debug_wireframe ==> bits == 0,
{
    if debug_wireframe {
        let default_bits: u64 = wgpu_default_features();
        let line_bits: u64 = wgpu_polygon_mode_line();
        assert(default_bits | line_bits == line_bits) by (bit_vector)
            requires
                default_bits == 0,
        ;
        default_bits | line_bits
    } else {
        wgpu_default_features()
    }
}

/// What a buffer serves as; all of them can also be written to.
#[derive(Clone, Copy, PartialEq, Eq, Structural, Debug)]
pub enum BufferRole {
    Vertex,
    Index,
    Uniform,
}

impl BufferRole {
    /// The usage flags of a buffer with this role.
    pub open spec fn usage_bits(self) -> u32 {
        match self {
            BufferRole::Vertex => BUFFER_USAGE_VERTEX | BUFFER_USAGE_COPY_DST,
            BufferRole::Index => BUFFER_USAGE_INDEX | BUFFER_USAGE_COPY_DST,
            BufferRole::Uniform => BUFFER_USAGE_UNIFORM | BUFFER_USAGE_COPY_DST,
        }
    }

    /// Combines the flag of this role with the one that allows writing.
    pub fn usage(&self) -> (bits: u32)
        ensures
            bits == self.usage_bits(),
            self is Vertex ==> bits == 0x28,
            self is Index ==> bits == 0x18,
            self is Uniform ==> bits == 0x48,
    {
        let role_bits: u32 = match self {
            BufferRole::Vertex => wgpu_buffer_usage_vertex(),
            BufferRole::Index => wgpu_buffer_usage_index(),
            BufferRole::Uniform => wgpu_buffer_usage_uniform(),
        };
        assert(0x20u32 | 0x08 == 0x28 && 0x10u32 | 0x08 == 0x18 && 0x40u32 | 0x08 == 0x48)
            by (bit_vector);
        role_bits | wgpu_buffer_usage_copy_dst()
    }
}

} // verus!
