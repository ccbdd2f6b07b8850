//! The unlit material pipeline: vertex colors, one texture, one flat diffuse
//! color; no lighting, so no normal stream.
//!
//! Group 0 carries the vertex-stage uniforms (model matrix, texture tiling),
//! group 1 the texture and sampler, group 2 the diffuse color. The vertex
//! slots are position, color and texture coordinates, in that fixed order.

use vstd::prelude::*;
use crate::binding::{
    single_uniform_entries, texture_sampler_entries, uniforms_ok, BindingKind, BindingLayout,
    BindingLayoutEntry, ResourceBindingSet, ResourceRef, ShaderStage,
};
use crate::buffers::geometry::GeometryBuffer;
use crate::buffers::uniform::{UniformBuffer, UniformBufferData};
use crate::errors::WvtError;
use crate::geometries::{
    ColorElement, NormalElement, PositionElement, StreamKind, TexCoordElement,
};
use crate::gpu::{
    create_pipeline_layout, create_render_pipeline, depth_less_state, pass_draw,
    pass_draw_indexed, pass_set_index_buffer, pass_set_pipeline, pass_set_vertex_buffer,
    vertex_attributes, vertex_buffer_layouts, GpuCommand, RecordingPass,
};
use crate::math::{
    identity_words, model_transform, model_transform_words, Mat4Bits, Vec2Bits, Vec3Bits, Vec4,
    WORD_ONE, WORD_ZERO,
};

verus! {

/// Bit pattern of the default vertical tiling factor (three).
pub const UNLIT_TILING_Y: u32 = 0x4040_0000;
/// Bit pattern of the model translation's x component (three tenths).
pub const UNLIT_TRANS_X: u32 = 0x3e99_999a;
/// Bit pattern of the model translation's y component (one half).
pub const UNLIT_TRANS_Y: u32 = 0x3f00_0000;
/// Bit pattern of the model scale's x component (two).
pub const UNLIT_SCALE_X: u32 = 0x4000_0000;
/// Bit pattern of the model scale's y component (two fifths).
pub const UNLIT_SCALE_Y: u32 = 0x3ecc_cccd;
/// The model rotation about the z axis, in whole degrees.
pub const UNLIT_ANGLE_DEG: u32 = 20;

/// The unlit vertex-stage uniform group shape: the model matrix at binding
/// 0, the tiling factors at binding 1.
pub open spec fn unlit_vs_entries() -> Seq<BindingLayoutEntry> {
    seq![
        (BindingLayoutEntry { slot: 0, kind: BindingKind::UniformBuffer, stage: ShaderStage::Vertex }),
        (BindingLayoutEntry { slot: 1, kind: BindingKind::UniformBuffer, stage: ShaderStage::Vertex }),
    ]
}

/// The model matrix the unlit pipeline recomposes each update:
/// translation · rotation · scale.
pub open spec fn unlit_model_words() -> Seq<u32> {
    model_transform_words(
        seq![UNLIT_TRANS_X, UNLIT_TRANS_Y, WORD_ZERO],
        seq![WORD_ZERO, WORD_ZERO, WORD_ONE],
        UNLIT_ANGLE_DEG,
        seq![UNLIT_SCALE_X, UNLIT_SCALE_Y, WORD_ONE],
    )
}

/// The unlit pipeline and everything it draws with.
pub struct UnlitMaterial {
    /// The immutable pipeline object.
    pub render_pipeline: wgpu::RenderPipeline,
    /// The geometry drawn.
    pub geometry_buffer: GeometryBuffer,
    /// Texture tiling factors, vertex stage, group 0 binding 1.
    pub texture_tiling_buffer: UniformBuffer<Vec2Bits>,
    /// The model transform, vertex stage, group 0 binding 0.
    pub model_matrix_buffer: UniformBuffer<Mat4Bits>,
    /// Group 0: the vertex-stage uniforms.
    pub vs_uniforms_bind_group: ResourceBindingSet,
    /// The flat diffuse color, fragment stage, group 2 binding 0.
    pub diffuse_color_buffer: UniformBuffer<Vec4>,
    /// Group 1: the texture and its sampler.
    pub diffuse_bind_group: ResourceBindingSet,
    /// Group 2: the diffuse color.
    pub diffuse_color_bind_group: ResourceBindingSet,
}

impl UnlitMaterial {
    /// Every uniform slot's GPU buffer is well formed (uniform usage, the
    /// type's fixed size); established at construction, preserved by every
    /// method, relied on by the syncs in [`Self::update`].
    pub open spec fn wf(&self) -> bool {
        &&& self.model_matrix_buffer.wf()
        &&& self.texture_tiling_buffer.wf()
        &&& self.diffuse_color_buffer.wf()
    }

    /// The exact command sequence one draw of this material records: bind
    /// its pipeline, its three sets at groups 0, 1 and 2, its three vertex
    /// streams at slots 0, 1 and 2, then an indexed draw over the index
    /// count when an index buffer exists, else a plain draw over the vertex
    /// count.
    pub open spec fn draw_commands(&self) -> Seq<GpuCommand> {
        let head = seq![
            (GpuCommand::SetPipeline { pipeline: self.render_pipeline }),
            (GpuCommand::SetBindGroup { group: 0, bind_group: self.vs_uniforms_bind_group.group() }),
            (GpuCommand::SetBindGroup { group: 1, bind_group: self.diffuse_bind_group.group() }),
            (GpuCommand::SetBindGroup {
                group: 2,
                bind_group: self.diffuse_color_bind_group.group(),
            }),
            (GpuCommand::SetVertexBuffer { slot: 0, buffer: self.geometry_buffer.position_buffer }),
            (GpuCommand::SetVertexBuffer { slot: 1, buffer: self.geometry_buffer.color_buffer }),
            (GpuCommand::SetVertexBuffer { slot: 2, buffer: self.geometry_buffer.texcoord_buffer }),
        ];
        match self.geometry_buffer.index_buffer {
            Some(b) => head + seq![
                (GpuCommand::SetIndexBuffer { buffer: b }),
                (GpuCommand::DrawIndexed { indices: self.geometry_buffer.num_indices }),
            ],
            None => head + seq![
                (GpuCommand::Draw { vertices: self.geometry_buffer.num_vertices }),
            ],
        }
    }

    /// Builds the whole pipeline atomically: geometry, uniform slots with
    /// their defaults (identity transform, tiling (1, 3), red diffuse),
    /// the three binding groups, and the pipeline object whose vertex layout
    /// is exactly the geometry's position, color and texture streams.
    /// Fails — producing nothing — exactly when the position stream is
    /// empty or a stream the layout references (color, texture coordinates)
    /// is absent.
    pub fn new(
        device: &wgpu::Device,
        format: wgpu::TextureFormat,
        positions: &Vec<PositionElement>,
        colors: &Vec<ColorElement>,
        tex_coords: &Vec<TexCoordElement>,
        indices: &Vec<u32>,
        shader: &wgpu::ShaderModule,
        texture_view: &wgpu::TextureView,
        sampler: &wgpu::Sampler,
    ) -> (r: Result<Self, WvtError>)
        requires
            positions@.len() <= u32::MAX,
            indices@.len() <= u32::MAX,
        ensures
            r is Ok <==> positions@.len() > 0 && colors@.len() > 0 && tex_coords@.len() > 0,
            r == Err::<Self, WvtError>(WvtError::MissingPositions) <==> positions@.len() == 0,
            positions@.len() > 0 ==> (r == Err::<Self, WvtError>(
                WvtError::MissingStream { stream: StreamKind::Color },
            ) <==> colors@.len() == 0),
            positions@.len() > 0 && colors@.len() > 0 ==> (r == Err::<Self, WvtError>(
                WvtError::MissingStream { stream: StreamKind::TexCoord },
            ) <==> tex_coords@.len() == 0),
            r matches Ok(m) ==> {
                &&& m.geometry_buffer.num_vertices == positions@.len()
                &&& m.geometry_buffer.num_indices == indices@.len()
                &&& (m.geometry_buffer.has_indices() <==> indices@.len() > 0)
                &&& !m.geometry_buffer.has_normals()
                &&& m.model_matrix_buffer.data@ == identity_words()
                &&& m.model_matrix_buffer.synced()
                &&& m.texture_tiling_buffer.data == (Vec2Bits { x: WORD_ONE, y: UNLIT_TILING_Y })
                &&& m.texture_tiling_buffer.synced()
                &&& m.diffuse_color_buffer.data == (Vec4 {
                    x: WORD_ONE,
                    y: WORD_ZERO,
                    z: WORD_ZERO,
                    w: WORD_ONE,
                })
                &&& m.diffuse_color_buffer.synced()
                &&& m.wf()
                &&& m.vs_uniforms_bind_group.entries() == unlit_vs_entries()
                &&& m.diffuse_bind_group.entries() == texture_sampler_entries()
                &&& m.diffuse_color_bind_group.entries() == single_uniform_entries(
                    ShaderStage::Fragment,
                )
            },
    {
        let empty_normals: Vec<NormalElement> = Vec::new();
        let geometry_buffer = match GeometryBuffer::new(
            device,
            positions,
            &empty_normals,
            colors,
            tex_coords,
            indices,
        ) {
            Ok(g) => g,
            Err(e) => { return Err(e); },
        };
        if colors.len() == 0 {
            return Err(WvtError::MissingStream { stream: StreamKind::Color });
        }
        if tex_coords.len() == 0 {
            return Err(WvtError::MissingStream { stream: StreamKind::TexCoord });
        }

        let texture_tiling_buffer = UniformBuffer::new(
            device,
            Vec2Bits::new(WORD_ONE, UNLIT_TILING_Y),
            Some("unlit texture tiling"),
        );
        let model_matrix_buffer = UniformBuffer::new(
            device,
            Mat4Bits::identity(),
            Some("unlit model matrix"),
        );
        let diffuse_color_buffer = UniformBuffer::new(
            device,
            Vec4::new(WORD_ONE, WORD_ZERO, WORD_ZERO, WORD_ONE),
            Some("unlit diffuse color"),
        );

        let mut vs_entries: Vec<BindingLayoutEntry> = Vec::new();
        vs_entries.push(
            BindingLayoutEntry {
                slot: 0,
                kind: BindingKind::UniformBuffer,
                stage: ShaderStage::Vertex,
            },
        );
        vs_entries.push(
            BindingLayoutEntry {
                slot: 1,
                kind: BindingKind::UniformBuffer,
                stage: ShaderStage::Vertex,
            },
        );
        let vs_layout = match BindingLayout::new(vs_entries) {
            Ok(l) => l,
            Err(_) => vstd::pervasive::unreached(),
        };
        let vs_gpu_layout = vs_layout.gpu_layout(device);
        let mut vs_resources: Vec<ResourceRef> = Vec::new();
        vs_resources.push(ResourceRef::Uniform(&model_matrix_buffer.buffer));
        vs_resources.push(ResourceRef::Uniform(&texture_tiling_buffer.buffer));
        proof {
            assert(uniforms_ok(vs_resources@));
        }
        let vs_uniforms_bind_group = match ResourceBindingSet::create(
            device,
            &vs_layout,
            &vs_resources,
        ) {
            Ok(s) => s,
            Err(_) => vstd::pervasive::unreached(),
        };
        proof {
            assert(vs_uniforms_bind_group.entries() =~= unlit_vs_entries());
        }

        let mut tex_entries: Vec<BindingLayoutEntry> = Vec::new();
        tex_entries.push(
            BindingLayoutEntry { slot: 0, kind: BindingKind::Texture, stage: ShaderStage::Fragment },
        );
        tex_entries.push(
            BindingLayoutEntry { slot: 1, kind: BindingKind::Sampler, stage: ShaderStage::Fragment },
        );
        let tex_layout = match BindingLayout::new(tex_entries) {
            Ok(l) => l,
            Err(_) => vstd::pervasive::unreached(),
        };
        let tex_gpu_layout = tex_layout.gpu_layout(device);
        let mut tex_resources: Vec<ResourceRef> = Vec::new();
        tex_resources.push(ResourceRef::Texture(texture_view));
        tex_resources.push(ResourceRef::Sampler(sampler));
        proof {
            assert(uniforms_ok(tex_resources@));
        }
        let diffuse_bind_group = match ResourceBindingSet::create(
            device,
            &tex_layout,
            &tex_resources,
        ) {
            Ok(s) => s,
            Err(_) => vstd::pervasive::unreached(),
        };
        proof {
            assert(diffuse_bind_group.entries() =~= texture_sampler_entries());
        }

        let mut color_entries: Vec<BindingLayoutEntry> = Vec::new();
        color_entries.push(
            BindingLayoutEntry {
                slot: 0,
                kind: BindingKind::UniformBuffer,
                stage: ShaderStage::Fragment,
            },
        );
        let color_layout = match BindingLayout::new(color_entries) {
            Ok(l) => l,
            Err(_) => vstd::pervasive::unreached(),
        };
        let color_gpu_layout = color_layout.gpu_layout(device);
        let mut color_resources: Vec<ResourceRef> = Vec::new();
        color_resources.push(ResourceRef::Uniform(&diffuse_color_buffer.buffer));
        proof {
            assert(uniforms_ok(color_resources@));
        }
        let diffuse_color_bind_group = match ResourceBindingSet::create(
            device,
            &color_layout,
            &color_resources,
        ) {
            Ok(s) => s,
            Err(_) => vstd::pervasive::unreached(),
        };
        proof {
            assert(diffuse_color_bind_group.entries() =~= single_uniform_entries(
                ShaderStage::Fragment,
            ));
        }

        let mut group_layouts: Vec<&wgpu::BindGroupLayout> = Vec::new();
        group_layouts.push(&vs_gpu_layout);
        group_layouts.push(&tex_gpu_layout);
        group_layouts.push(&color_gpu_layout);
        let pipeline_layout = create_pipeline_layout(device, &group_layouts);

        let mut strides: Vec<u64> = Vec::new();
        let mut attrs: Vec<Vec<wgpu::VertexAttribute>> = Vec::new();
        let d0 = PositionElement::desc(0);
        strides.push(d0.array_stride);
        attrs.push(vertex_attributes(&d0));
        let d1 = ColorElement::desc(1);
        strides.push(d1.array_stride);
        attrs.push(vertex_attributes(&d1));
        let d2 = TexCoordElement::desc(2);
        strides.push(d2.array_stride);
        attrs.push(vertex_attributes(&d2));

        let vertex_layouts = vertex_buffer_layouts(&strides, &attrs);
        let render_pipeline = create_render_pipeline(
            device,
            &pipeline_layout,
            shader,
            "unlit_material_vs",
            "unlit_material_fs",
            &vertex_layouts,
            format,
            Some(depth_less_state()),
        );

        Ok(UnlitMaterial {
            render_pipeline,
            geometry_buffer,
            texture_tiling_buffer,
            model_matrix_buffer,
            vs_uniforms_bind_group,
            diffuse_color_buffer,
            diffuse_bind_group,
            diffuse_color_bind_group,
        })
    }

    /// Recomposes the model transform as translation · rotation · scale and
    /// pushes it to the GPU; the other uniform slots, the binding sets and
    /// the pipeline are untouched.
    pub fn update(&mut self, queue: &wgpu::Queue)
        requires
            old(self).wf(),
        ensures
            final(self).wf(),
            final(self).vs_uniforms_bind_group == old(self).vs_uniforms_bind_group,
            final(self).diffuse_bind_group == old(self).diffuse_bind_group,
            final(self).diffuse_color_bind_group == old(self).diffuse_color_bind_group,
            final(self).model_matrix_buffer.data@ == unlit_model_words(),
            final(self).model_matrix_buffer.synced(),
            final(self).model_matrix_buffer.buffer == old(self).model_matrix_buffer.buffer,
            final(self).texture_tiling_buffer == old(self).texture_tiling_buffer,
            final(self).diffuse_color_buffer == old(self).diffuse_color_buffer,
            final(self).geometry_buffer == old(self).geometry_buffer,
            final(self).render_pipeline == old(self).render_pipeline,
    {
        self.model_matrix_buffer.data = model_transform(
            &Vec3Bits::new(UNLIT_TRANS_X, UNLIT_TRANS_Y, WORD_ZERO),
            &Vec3Bits::new(WORD_ZERO, WORD_ZERO, WORD_ONE),
            UNLIT_ANGLE_DEG,
            &Vec3Bits::new(UNLIT_SCALE_X, UNLIT_SCALE_Y, WORD_ONE),
        );
        self.model_matrix_buffer.update(queue);
    }

    /// Records one draw of this material: exactly [`Self::draw_commands`] is
    /// appended to the pass.
    pub fn draw<'a>(&'a self, render_pass: &mut RecordingPass<'a>)
        ensures
            final(render_pass).commands() == old(render_pass).commands() + self.draw_commands(),
    {
        pass_set_pipeline(render_pass, &self.render_pipeline);
        self.vs_uniforms_bind_group.bind(render_pass, 0);
        self.diffuse_bind_group.bind(render_pass, 1);
        self.diffuse_color_bind_group.bind(render_pass, 2);
        pass_set_vertex_buffer(render_pass, 0, &self.geometry_buffer.position_buffer);
        pass_set_vertex_buffer(render_pass, 1, &self.geometry_buffer.color_buffer);
        pass_set_vertex_buffer(render_pass, 2, &self.geometry_buffer.texcoord_buffer);
        match &self.geometry_buffer.index_buffer {
            Some(index_buffer) => {
                pass_set_index_buffer(render_pass, index_buffer);
                pass_draw_indexed(render_pass, self.geometry_buffer.num_indices);
            },
            None => {
                pass_draw(render_pass, self.geometry_buffer.num_vertices);
            },
        }
        proof {
            assert(render_pass.commands() =~= old(render_pass).commands() + self.draw_commands());
        }
    }
}

/// Drawing selects indexed mode exactly when the geometry has an index
/// buffer: the recorded sequence then ends with an indexed draw over the
/// index count, and otherwise with a plain draw over the vertex count.
pub proof fn lemma_unlit_draw_span(m: &UnlitMaterial)
    ensures
        m.geometry_buffer.has_indices() ==> m.draw_commands().last() == (GpuCommand::DrawIndexed {
            indices: m.geometry_buffer.num_indices,
        }),
        !m.geometry_buffer.has_indices() ==> m.draw_commands().last() == (GpuCommand::Draw {
            vertices: m.geometry_buffer.num_vertices,
        }),
{
}

} // verus!
