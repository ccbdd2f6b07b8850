//! Declarations of the GPU types this core stores and threads through, and
//! the trusted wrappers around the device, queue and render-pass calls.
//!
//! Every GPU object is opaque here. What the core guarantees about a frame is
//! stated over plain values instead: a [`GpuBuffer`] remembers the usage and
//! the words it was created with, and a [`RecordingPass`] carries a ghost log
//! of the binding and draw operations the core has issued into it so far
//! (`wgpu` may elide a redundant re-bind internally; the log is the sequence
//! of operations issued, which is what the draw contracts speak of).

use vstd::prelude::*;
use wgpu::util::DeviceExt;
use crate::geometries::{AttributeDescriptor, AttributeFormat};

verus! {

#[verifier::external_type_specification]
#[verifier::external_body]
pub struct ExDevice(wgpu::Device);

#[verifier::external_type_specification]
#[verifier::external_body]
pub struct ExQueue(wgpu::Queue);

#[verifier::external_type_specification]
#[verifier::external_body]
pub struct ExBuffer(wgpu::Buffer);

#[verifier::external_type_specification]
#[verifier::external_body]
pub struct ExBindGroup(wgpu::BindGroup);

#[verifier::external_type_specification]
#[verifier::external_body]
pub struct ExBindGroupLayout(wgpu::BindGroupLayout);

#[verifier::external_type_specification]
#[verifier::external_body]
pub struct ExBindGroupLayoutEntry(wgpu::BindGroupLayoutEntry);

#[verifier::external_type_specification]
#[verifier::external_body]
pub struct ExPipelineLayout(wgpu::PipelineLayout);

#[verifier::external_type_specification]
#[verifier::external_body]
pub struct ExRenderPipeline(wgpu::RenderPipeline);

#[verifier::external_type_specification]
#[verifier::external_body]
pub struct ExShaderModule(wgpu::ShaderModule);

#[verifier::external_type_specification]
#[verifier::external_body]
pub struct ExTextureView(wgpu::TextureView);

#[verifier::external_type_specification]
#[verifier::external_body]
pub struct ExSampler(wgpu::Sampler);

#[verifier::external_type_specification]
#[verifier::external_body]
pub struct ExTextureFormat(wgpu::TextureFormat);

#[verifier::external_type_specification]
#[verifier::external_body]
pub struct ExVertexAttribute(wgpu::VertexAttribute);

#[verifier::external_type_specification]
#[verifier::external_body]
pub struct ExDepthStencilState(wgpu::DepthStencilState);

#[verifier::external_type_specification]
#[verifier::external_body]
pub struct ExRenderPass<'a>(wgpu::RenderPass<'a>);

#[verifier::external_type_specification]
#[verifier::external_body]
pub struct ExVertexBufferLayout<'a>(wgpu::VertexBufferLayout<'a>);

/// What a GPU buffer is used for; decides the usage flags it is created with.
#[derive(Clone, Copy, Debug, PartialEq, Eq, Structural)]
pub enum BufferUse {
    /// A vertex attribute stream.
    Vertex,
    /// An index stream.
    Index,
    /// A uniform value, rewritable from the queue.
    Uniform,
}

/// Relies on `wgpu::util::DeviceExt::create_buffer_init`: allocates a GPU
/// buffer holding exactly the given words, with the usage the kind calls for
/// (uniform buffers also get `COPY_DST` so they can be rewritten).
#[verifier::external_body]
pub(crate) fn create_buffer(
    device: &wgpu::Device,
    words: &Vec<u32>,
    kind: BufferUse,
    label: Option<&str>,
) -> (r: wgpu::Buffer) {
    let usage = match kind {
        BufferUse::Vertex => wgpu::BufferUsages::VERTEX,
        BufferUse::Index => wgpu::BufferUsages::INDEX,
        BufferUse::Uniform => wgpu::BufferUsages::UNIFORM | wgpu::BufferUsages::COPY_DST,
    };
    device.create_buffer_init(&wgpu::util::BufferInitDescriptor {
        label,
        contents: bytemuck::cast_slice(words.as_slice()),
        usage,
    })
}

/// A GPU buffer together with the usage and the words it was created with.
///
/// The creation record is ghost: for write-once buffers (vertex and index
/// streams) it is the GPU-visible contents for the buffer's whole lifetime;
/// for uniform buffers, whose contents are rewritten through
/// [`write_buffer_words`], the mirrored current value lives with its owner
/// and only the size and usage are read from here.
pub struct GpuBuffer {
    /// The raw GPU buffer handle.
    pub raw: wgpu::Buffer,
    kind: Ghost<BufferUse>,
    words: Ghost<Seq<u32>>,
}

impl GpuBuffer {
    /// The usage the buffer was created with.
    pub closed spec fn usage(&self) -> BufferUse {
        self.kind@
    }

    /// The words the buffer was created with.
    pub closed spec fn creation_words(&self) -> Seq<u32> {
        self.words@
    }

    /// The buffer's size in words; fixed at creation.
    pub open spec fn size_words(&self) -> nat {
        self.creation_words().len()
    }
}

/// Allocates a GPU buffer holding exactly the given words and records, as
/// ghost state, the usage and words it was created with.
pub(crate) fn make_buffer(
    device: &wgpu::Device,
    words: &Vec<u32>,
    kind: BufferUse,
    label: Option<&str>,
) -> (r: GpuBuffer)
    ensures
        r.usage() == kind,
        r.creation_words() == words@,
{
    GpuBuffer {
        raw: create_buffer(device, words, kind, label),
        kind: Ghost(kind),
        words: Ghost(words@),
    }
}

/// Relies on `wgpu::Queue::write_buffer`: queues a full-size write of the
/// given words into the buffer at offset 0, visible to draws recorded later
/// in the same frame. The buffer must be a uniform one (created with
/// copy-destination usage) and the write must be exactly its size: `wgpu`
/// refuses other writes.
#[verifier::external_body]
pub(crate) fn write_buffer_words(queue: &wgpu::Queue, buffer: &GpuBuffer, words: &Vec<u32>)
    requires
        buffer.usage() == BufferUse::Uniform,
        words@.len() == buffer.size_words(),
{
    queue.write_buffer(&buffer.raw, 0, bytemuck::cast_slice(words.as_slice()));
}

/// Builds the single `wgpu` attribute of one tightly packed stream: the
/// descriptor's format at its shader slot, data at offset 0. Pure
/// conversion, no device call.
#[verifier::external_body]
pub(crate) fn vertex_attributes(desc: &AttributeDescriptor) -> (r: Vec<wgpu::VertexAttribute>) {
    let format = match desc.format {
        AttributeFormat::F32x2 => wgpu::VertexFormat::Float32x2,
        AttributeFormat::F32x3 => wgpu::VertexFormat::Float32x3,
        AttributeFormat::F32x4 => wgpu::VertexFormat::Float32x4,
    };
    vec![wgpu::VertexAttribute { format, offset: 0, shader_location: desc.shader_location }]
}

/// Builds the fixed depth state every pipeline with a depth target uses:
/// the shared 32-bit float depth format, writes enabled, less-than
/// comparison, no stencil and no bias. Pure conversion, no device call.
#[verifier::external_body]
pub(crate) fn depth_less_state() -> (r: wgpu::DepthStencilState) {
    wgpu::DepthStencilState {
        format: wgpu::TextureFormat::Depth32Float,
        depth_write_enabled: true,
        depth_compare: wgpu::CompareFunction::Less,
        stencil: Default::default(),
        bias: Default::default(),
    }
}

/// Relies on `wgpu::Device::create_pipeline_layout`: a pipeline layout whose
/// binding groups are exactly the given layouts, in group-index order. At
/// most four groups: every device guarantees that many, and `wgpu` refuses
/// more than the device's limit.
#[verifier::external_body]
pub(crate) fn create_pipeline_layout<'l>(
    device: &wgpu::Device,
    layouts: &Vec<&'l wgpu::BindGroupLayout>,
) -> (r: wgpu::PipelineLayout)
    requires
        layouts@.len() <= 4,
{
    device.create_pipeline_layout(&wgpu::PipelineLayoutDescriptor {
        label: None,
        bind_group_layouts: layouts.as_slice(),
        push_constant_ranges: &[],
    })
}

/// Builds the per-slot `wgpu` vertex layouts: stride for stride, attribute
/// list for attribute list, always stepped per vertex. Pure conversion, no
/// device call.
#[verifier::external_body]
pub(crate) fn vertex_buffer_layouts<'a>(
    strides: &Vec<u64>,
    attrs: &'a Vec<Vec<wgpu::VertexAttribute>>,
) -> (r: Vec<wgpu::VertexBufferLayout<'a>>) {
    strides.iter().zip(attrs.iter()).map(|(s, a)| wgpu::VertexBufferLayout {
        array_stride: *s,
        step_mode: wgpu::VertexStepMode::Vertex,
        attributes: a.as_slice(),
    }).collect()
}

/// Relies on `wgpu::Device::create_render_pipeline`: an immutable pipeline
/// consuming the given vertex slot layouts, drawing to one target of the
/// given format with replace blending, default primitive state and the
/// given depth state.
#[verifier::external_body]
pub(crate) fn create_render_pipeline(
    device: &wgpu::Device,
    layout: &wgpu::PipelineLayout,
    shader: &wgpu::ShaderModule,
    vs_entry: &str,
    fs_entry: &str,
    buffers: &Vec<wgpu::VertexBufferLayout>,
    format: wgpu::TextureFormat,
    depth: Option<wgpu::DepthStencilState>,
) -> (r: wgpu::RenderPipeline) {
    device.create_render_pipeline(&wgpu::RenderPipelineDescriptor {
        label: None,
        layout: Some(layout),
        vertex: wgpu::VertexState { module: shader, entry_point: vs_entry, buffers },
        fragment: Some(wgpu::FragmentState {
            module: shader,
            entry_point: fs_entry,
            targets: &[Some(wgpu::ColorTargetState { format, blend: Some(wgpu::BlendState::REPLACE), write_mask: wgpu::ColorWrites::ALL })],
        }),
        primitive: Default::default(),
        depth_stencil: depth,
        multisample: Default::default(),
        multiview: Default::default(),
    })
}

/// One recorded render-pass command, as the core models it: the operation,
/// the index it hit, and the object that was bound. Commands exist only as
/// ghost log entries, so they can carry the bound objects as abstract
/// values.
pub enum GpuCommand {
    /// This pipeline object was made current.
    SetPipeline { pipeline: wgpu::RenderPipeline },
    /// This binding group was bound at this group index.
    SetBindGroup { group: u32, bind_group: wgpu::BindGroup },
    /// This buffer was bound as the vertex stream of this slot.
    SetVertexBuffer { slot: u32, buffer: GpuBuffer },
    /// This buffer was bound as the index stream.
    SetIndexBuffer { buffer: GpuBuffer },
    /// A non-indexed draw over this many vertices.
    Draw { vertices: u32 },
    /// An indexed draw over this many indices.
    DrawIndexed { indices: u32 },
}

/// An active render pass together with the ghost log of the commands this
/// core has recorded into it since the pass began.
pub struct RecordingPass<'a> {
    pass: wgpu::RenderPass<'a>,
    log: Ghost<Seq<GpuCommand>>,
}

impl<'a> RecordingPass<'a> {
    /// The binding and draw commands the core has issued into this pass.
    pub closed spec fn commands(&self) -> Seq<GpuCommand> {
        self.log@
    }

    /// Starts recording into a freshly begun pass: nothing is bound yet.
    pub fn new(pass: wgpu::RenderPass<'a>) -> (r: Self)
        ensures
            r.commands() == Seq::<GpuCommand>::empty(),
    {
        RecordingPass { pass, log: Ghost(Seq::empty()) }
    }
}

/// Relies on `wgpu::RenderPass::set_pipeline`: makes the pipeline current for
/// the draws recorded after it.
#[verifier::external_body]
pub(crate) fn pass_set_pipeline<'a>(p: &mut RecordingPass<'a>, pipeline: &'a wgpu::RenderPipeline)
    ensures
        final(p).commands() == old(p).commands().push(
            GpuCommand::SetPipeline { pipeline: *pipeline },
        ),
{
    p.pass.set_pipeline(pipeline);
}

/// Relies on `wgpu::RenderPass::set_bind_group`: binds the set at the group
/// index; groups already bound at other indices are not perturbed.
#[verifier::external_body]
pub(crate) fn pass_set_bind_group<'a>(p: &mut RecordingPass<'a>, index: u32, group: &'a wgpu::BindGroup)
    ensures
        final(p).commands() == old(p).commands().push(
            GpuCommand::SetBindGroup { group: index, bind_group: *group },
        ),
{
    p.pass.set_bind_group(index, group, &[]);
}

/// Relies on `wgpu::RenderPass::set_vertex_buffer`: binds the whole buffer as
/// the vertex stream of the given slot.
#[verifier::external_body]
pub(crate) fn pass_set_vertex_buffer<'a>(p: &mut RecordingPass<'a>, slot: u32, buffer: &'a GpuBuffer)
    ensures
        final(p).commands() == old(p).commands().push(
            GpuCommand::SetVertexBuffer { slot, buffer: *buffer },
        ),
{
    p.pass.set_vertex_buffer(slot, buffer.raw.slice(..));
}

/// Relies on `wgpu::RenderPass::set_index_buffer`: binds the whole buffer as
/// the 32-bit index stream.
#[verifier::external_body]
pub(crate) fn pass_set_index_buffer<'a>(p: &mut RecordingPass<'a>, buffer: &'a GpuBuffer)
    ensures
        final(p).commands() == old(p).commands().push(
            GpuCommand::SetIndexBuffer { buffer: *buffer },
        ),
{
    p.pass.set_index_buffer(buffer.raw.slice(..), wgpu::IndexFormat::Uint32);
}

/// Relies on `wgpu::RenderPass::draw`: records a non-indexed draw of one
/// instance over the given vertex range.
#[verifier::external_body]
pub(crate) fn pass_draw<'a>(p: &mut RecordingPass<'a>, vertices: u32)
    ensures
        final(p).commands() == old(p).commands().push(GpuCommand::Draw { vertices }),
{
    p.pass.draw(0..vertices, 0..1);
}

/// Relies on `wgpu::RenderPass::draw_indexed`: records an indexed draw of one
/// instance over the given index range.
#[verifier::external_body]
pub(crate) fn pass_draw_indexed<'a>(p: &mut RecordingPass<'a>, indices: u32)
    ensures
        final(p).commands() == old(p).commands().push(GpuCommand::DrawIndexed { indices }),
{
    p.pass.draw_indexed(0..indices, 0, 0..1);
}

} // verus!
