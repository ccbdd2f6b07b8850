//! The lit material pipeline: per-vertex normals, a texture, and a
//! material-constants block, drawn with the shared camera group.
//!
//! Group 0 carries the vertex-stage model transform, group 1 is reserved for
//! the camera (one camera binding serves every material in the pass), group
//! 2 the texture and sampler, group 3 the material constants. The vertex
//! slots are position, color, texture coordinates and normal, in that fixed
//! order. The pipeline animates: each update advances a rotation angle one
//! degree (wrapping after a full turn) and recomposes the model transform as
//! translation · rotation · scale.

use vstd::prelude::*;
use crate::binding::{
    single_uniform_entries, texture_sampler_entries, uniforms_ok, BindingKind, BindingLayout,
    BindingLayoutEntry, ResourceBindingSet, ResourceRef, ShaderStage,
};
use crate::buffers::geometry::GeometryBuffer;
use crate::buffers::uniform::{UniformBuffer, UniformBufferData};
use crate::camera::Camera;
use crate::errors::WvtError;
use crate::geometries::{
    ColorElement, NormalElement, PositionElement, StreamKind, TexCoordElement,
};
use crate::gpu::{
    create_pipeline_layout, create_render_pipeline, depth_less_state, pass_draw,
    pass_draw_indexed, pass_set_index_buffer, pass_set_pipeline, pass_set_vertex_buffer,
    vertex_attributes, vertex_buffer_layouts, GpuCommand, RecordingPass,
};
use crate::math::{
    identity_words, model_transform, model_transform_words, Mat4Bits, Vec3Bits, WORD_ONE,
    WORD_ZERO,
};
use crate::renderers::material_buffer::{Material, MaterialBuffer};

verus! {

/// Bit pattern of one half.
pub const MAT_HALF: u32 = 0x3f00_0000;
/// Bit pattern of one fifth.
pub const MAT_FIFTH: u32 = 0x3e4c_cccd;
/// Bit pattern of one tenth.
pub const MAT_TENTH: u32 = 0x3dcc_cccd;
/// Bit pattern of three tenths.
pub const MAT_THREE_TENTHS: u32 = 0x3e99_999a;
/// Bit pattern of two.
pub const MAT_TWO: u32 = 0x4000_0000;
/// Bit pattern of the model translation's z component (three).
pub const MS_TRANS_Z: u32 = 0x4040_0000;

/// The material constants this pipeline starts with.
pub open spec fn default_material() -> Material {
    Material {
        ambient_color: Vec3Bits { x: MAT_HALF, y: MAT_FIFTH, z: MAT_TENTH },
        ambient_intensity: WORD_ONE,
        diffuse_color: Vec3Bits { x: MAT_THREE_TENTHS, y: WORD_ZERO, z: MAT_THREE_TENTHS },
        diffuse_intensity: MAT_TWO,
        specular_color: Vec3Bits { x: MAT_HALF, y: MAT_FIFTH, z: MAT_TENTH },
        specular_intensity: WORD_ONE,
    }
}

/// The rotation angle after one update: one degree further, wrapping to
/// zero after a full turn.
pub open spec fn next_angle(angle_deg: u32) -> u32 {
    if angle_deg >= 359 {
        0
    } else {
        (angle_deg + 1) as u32
    }
}

/// The model matrix this pipeline recomposes for a given rotation angle:
/// translation · rotation-about-x · scale.
pub open spec fn shader_model_words(angle_deg: u32) -> Seq<u32> {
    model_transform_words(
        seq![WORD_ZERO, WORD_ZERO, MS_TRANS_Z],
        seq![WORD_ONE, WORD_ZERO, WORD_ZERO],
        angle_deg,
        seq![WORD_ONE, WORD_ONE, WORD_ONE],
    )
}

/// The lit pipeline and everything it draws with.
pub struct MaterialShader {
    /// The immutable pipeline object.
    pub render_pipeline: wgpu::RenderPipeline,
    /// The geometry drawn; carries a normal stream.
    pub geometry_buffer: GeometryBuffer,
    /// The model transform, vertex stage, group 0 binding 0.
    pub model_matrix_buffer: UniformBuffer<Mat4Bits>,
    /// Group 0: the vertex-stage uniforms.
    pub vs_uniforms_bind_group: ResourceBindingSet,
    /// The material constants.
    pub material_buffer: MaterialBuffer,
    /// Group 3: the material constants.
    pub material_bind_group: ResourceBindingSet,
    /// Group 2: the texture and its sampler.
    pub diffuse_bind_group: ResourceBindingSet,
    /// The animation state: the rotation angle in whole degrees, in
    /// `0 ..= 359`; owned per pipeline, so independently animated instances
    /// never share state.
    pub rot_angle: u32,
}

impl MaterialShader {
    /// Both uniform slots' GPU buffers are well formed (uniform usage, the
    /// type's fixed size); established at construction, preserved by every
    /// method, relied on by the syncs in [`Self::update`].
    pub open spec fn wf(&self) -> bool {
        &&& self.model_matrix_buffer.wf()
        &&& self.material_buffer.buffer.wf()
    }

    /// The exact command sequence one draw of this material with the given
    /// camera records: bind its pipeline, its own sets at groups 0, 2 and 3
    /// with the camera's set at its reserved group 1, the vertex streams
    /// present in the geometry at their fixed slots, then an indexed draw
    /// over the index count when an index buffer exists, else a plain draw
    /// over the vertex count.
    pub open spec fn draw_commands(&self, camera: &Camera) -> Seq<GpuCommand> {
        let head = seq![
            (GpuCommand::SetPipeline { pipeline: self.render_pipeline }),
            (GpuCommand::SetBindGroup { group: 0, bind_group: self.vs_uniforms_bind_group.group() }),
            (GpuCommand::SetBindGroup { group: 1, bind_group: camera.bind_group.group() }),
            (GpuCommand::SetBindGroup { group: 2, bind_group: self.diffuse_bind_group.group() }),
            (GpuCommand::SetBindGroup { group: 3, bind_group: self.material_bind_group.group() }),
            (GpuCommand::SetVertexBuffer { slot: 0, buffer: self.geometry_buffer.position_buffer }),
            (GpuCommand::SetVertexBuffer { slot: 1, buffer: self.geometry_buffer.color_buffer }),
            (GpuCommand::SetVertexBuffer { slot: 2, buffer: self.geometry_buffer.texcoord_buffer }),
        ];
        let bound = match self.geometry_buffer.normal_buffer {
            Some(b) => head + seq![(GpuCommand::SetVertexBuffer { slot: 3, buffer: b })],
            None => head,
        };
        match self.geometry_buffer.index_buffer {
            Some(b) => bound + seq![
                (GpuCommand::SetIndexBuffer { buffer: b }),
                (GpuCommand::DrawIndexed { indices: self.geometry_buffer.num_indices }),
            ],
            None => bound + seq![
                (GpuCommand::Draw { vertices: self.geometry_buffer.num_vertices }),
            ],
        }
    }

    /// Builds the whole pipeline atomically: geometry with normals, the
    /// model-transform slot at identity, the default material constants,
    /// the binding groups, and the pipeline object whose vertex layout is
    /// exactly the geometry's four streams and whose group 1 is the given
    /// camera's layout. Fails — producing nothing — exactly when the
    /// position stream is empty or a stream the layout references (normal,
    /// color, texture coordinates) is absent.
    pub fn new(
        device: &wgpu::Device,
        format: wgpu::TextureFormat,
        positions: &Vec<PositionElement>,
        normals: &Vec<NormalElement>,
        colors: &Vec<ColorElement>,
        tex_coords: &Vec<TexCoordElement>,
        indices: &Vec<u32>,
        shader: &wgpu::ShaderModule,
        texture_view: &wgpu::TextureView,
        sampler: &wgpu::Sampler,
        camera: &Camera,
    ) -> (r: Result<Self, WvtError>)
        requires
            positions@.len() <= u32::MAX,
            indices@.len() <= u32::MAX,
        ensures
            r is Ok <==> positions@.len() > 0 && normals@.len() > 0 && colors@.len() > 0
                && tex_coords@.len() > 0,
            r == Err::<Self, WvtError>(WvtError::MissingPositions) <==> positions@.len() == 0,
            positions@.len() > 0 ==> (r == Err::<Self, WvtError>(
                WvtError::MissingStream { stream: StreamKind::Normal },
            ) <==> normals@.len() == 0),
            positions@.len() > 0 && normals@.len() > 0 ==> (r == Err::<Self, WvtError>(
                WvtError::MissingStream { stream: StreamKind::Color },
            ) <==> colors@.len() == 0),
            positions@.len() > 0 && normals@.len() > 0 && colors@.len() > 0 ==> (r == Err::<
                Self,
                WvtError,
            >(WvtError::MissingStream { stream: StreamKind::TexCoord }) <==> tex_coords@.len()
                == 0),
            r matches Ok(m) ==> {
                &&& m.geometry_buffer.num_vertices == positions@.len()
                &&& m.geometry_buffer.num_indices == indices@.len()
                &&& (m.geometry_buffer.has_indices() <==> indices@.len() > 0)
                &&& m.geometry_buffer.has_normals()
                &&& m.model_matrix_buffer.data@ == identity_words()
                &&& m.model_matrix_buffer.synced()
                &&& m.material_buffer.buffer.data == default_material()
                &&& m.material_buffer.buffer.synced()
                &&& m.rot_angle == 0
                &&& m.wf()
                &&& m.vs_uniforms_bind_group.entries() == single_uniform_entries(
                    ShaderStage::Vertex,
                )
                &&& m.diffuse_bind_group.entries() == texture_sampler_entries()
                &&& m.material_bind_group.entries() == single_uniform_entries(
                    ShaderStage::Fragment,
                )
            },
    {
        let geometry_buffer = match GeometryBuffer::new(
            device,
            positions,
            normals,
            colors,
            tex_coords,
            indices,
        ) {
            Ok(g) => g,
            Err(e) => { return Err(e); },
        };
        if normals.len() == 0 {
            return Err(WvtError::MissingStream { stream: StreamKind::Normal });
        }
        if colors.len() == 0 {
            return Err(WvtError::MissingStream { stream: StreamKind::Color });
        }
        if tex_coords.len() == 0 {
            return Err(WvtError::MissingStream { stream: StreamKind::TexCoord });
        }

        let model_matrix_buffer = UniformBuffer::new(
            device,
            Mat4Bits::identity(),
            Some("material model matrix"),
        );

        let mut vs_entries: Vec<BindingLayoutEntry> = Vec::new();
        vs_entries.push(
            BindingLayoutEntry {
                slot: 0,
                kind: BindingKind::UniformBuffer,
                stage: ShaderStage::Vertex,
            },
        );
        let vs_layout = match BindingLayout::new(vs_entries) {
            Ok(l) => l,
            Err(_) => vstd::pervasive::unreached(),
        };
        let vs_gpu_layout = vs_layout.gpu_layout(device);
        let mut vs_resources: Vec<ResourceRef> = Vec::new();
        vs_resources.push(ResourceRef::Uniform(&model_matrix_buffer.buffer));
        proof {
            assert(uniforms_ok(vs_resources@));
        }
        let vs_uniforms_bind_group = match ResourceBindingSet::create(
            device,
            &vs_layout,
            &vs_resources,
        ) {
            Ok(s) => s,
            Err(_) => vstd::pervasive::unreached(),
        };
        proof {
            assert(vs_uniforms_bind_group.entries() =~= single_uniform_entries(
                ShaderStage::Vertex,
            ));
        }

        let material = Material {
            ambient_color: Vec3Bits::new(MAT_HALF, MAT_FIFTH, MAT_TENTH),
            ambient_intensity: WORD_ONE,
            diffuse_color: Vec3Bits::new(MAT_THREE_TENTHS, WORD_ZERO, MAT_THREE_TENTHS),
            diffuse_intensity: MAT_TWO,
            specular_color: Vec3Bits::new(MAT_HALF, MAT_FIFTH, MAT_TENTH),
            specular_intensity: WORD_ONE,
        };
        let material_buffer = MaterialBuffer::new(device, material, "material constants");

        let binding_index: u32 = 0;
        let mut mat_entries: Vec<BindingLayoutEntry> = Vec::new();
        mat_entries.push(MaterialBuffer::entry_layout(binding_index));
        let mat_layout = match BindingLayout::new(mat_entries) {
            Ok(l) => l,
            Err(_) => vstd::pervasive::unreached(),
        };
        let mat_gpu_layout = mat_layout.gpu_layout(device);
        let mut mat_resources: Vec<ResourceRef> = Vec::new();
        mat_resources.push(material_buffer.binding_resource());
        proof {
            assert(uniforms_ok(mat_resources@));
        }
        let material_bind_group = match ResourceBindingSet::create(
            device,
            &mat_layout,
            &mat_resources,
        ) {
            Ok(s) => s,
            Err(_) => vstd::pervasive::unreached(),
        };
        proof {
            assert(material_bind_group.entries() =~= single_uniform_entries(
                ShaderStage::Fragment,
            ));
        }

        let mut tex_entries: Vec<BindingLayoutEntry> = Vec::new();
        tex_entries.push(
            BindingLayoutEntry { slot: 0, kind: BindingKind::Texture, stage: ShaderStage::Fragment },
        );
        tex_entries.push(
            BindingLayoutEntry { slot: 1, kind: BindingKind::Sampler, stage: ShaderStage::Fragment },
        );
        let tex_layout = match BindingLayout::new(tex_entries) {
            Ok(l) => l,
            Err(_) => vstd::pervasive::unreached(),
        };
        let tex_gpu_layout = tex_layout.gpu_layout(device);
        let mut tex_resources: Vec<ResourceRef> = Vec::new();
        tex_resources.push(ResourceRef::Texture(texture_view));
        tex_resources.push(ResourceRef::Sampler(sampler));
        proof {
            assert(uniforms_ok(tex_resources@));
        }
        let diffuse_bind_group = match ResourceBindingSet::create(
            device,
            &tex_layout,
            &tex_resources,
        ) {
            Ok(s) => s,
            Err(_) => vstd::pervasive::unreached(),
        };
        proof {
            assert(diffuse_bind_group.entries() =~= texture_sampler_entries());
        }

        let mut group_layouts: Vec<&wgpu::BindGroupLayout> = Vec::new();
        group_layouts.push(&vs_gpu_layout);
        group_layouts.push(&camera.bind_group_layout);
        group_layouts.push(&tex_gpu_layout);
        group_layouts.push(&mat_gpu_layout);
        let pipeline_layout = create_pipeline_layout(device, &group_layouts);

        let mut strides: Vec<u64> = Vec::new();
        let mut attrs: Vec<Vec<wgpu::VertexAttribute>> = Vec::new();
        let d0 = PositionElement::desc(0);
        strides.push(d0.array_stride);
        attrs.push(vertex_attributes(&d0));
        let d1 = ColorElement::desc(1);
        strides.push(d1.array_stride);
        attrs.push(vertex_attributes(&d1));
        let d2 = TexCoordElement::desc(2);
        strides.push(d2.array_stride);
        attrs.push(vertex_attributes(&d2));
        let d3 = NormalElement::desc(3);
        strides.push(d3.array_stride);
        attrs.push(vertex_attributes(&d3));

        let vertex_layouts = vertex_buffer_layouts(&strides, &attrs);
        let render_pipeline = create_render_pipeline(
            device,
            &pipeline_layout,
            shader,
            "material_vs",
            "material_flat_fs",
            &vertex_layouts,
            format,
            Some(depth_less_state()),
        );

        Ok(MaterialShader {
            render_pipeline,
            geometry_buffer,
            model_matrix_buffer,
            vs_uniforms_bind_group,
            material_buffer,
            material_bind_group,
            diffuse_bind_group,
            rot_angle: 0,
        })
    }

    /// Advances the rotation angle one degree (wrapping after a full turn),
    /// recomposes the model transform as translation · rotation · scale and
    /// pushes it to the GPU; the material constants, the binding sets and
    /// the pipeline are untouched.
    pub fn update(&mut self, queue: &wgpu::Queue)
        requires
            old(self).wf(),
        ensures
            final(self).wf(),
            final(self).vs_uniforms_bind_group == old(self).vs_uniforms_bind_group,
            final(self).material_bind_group == old(self).material_bind_group,
            final(self).diffuse_bind_group == old(self).diffuse_bind_group,
            final(self).rot_angle == next_angle(old(self).rot_angle),
            final(self).model_matrix_buffer.data@ == shader_model_words(final(self).rot_angle),
            final(self).model_matrix_buffer.synced(),
            final(self).model_matrix_buffer.buffer == old(self).model_matrix_buffer.buffer,
            final(self).material_buffer == old(self).material_buffer,
            final(self).geometry_buffer == old(self).geometry_buffer,
            final(self).render_pipeline == old(self).render_pipeline,
    {
        if self.rot_angle >= 359 {
            self.rot_angle = 0;
        } else {
            self.rot_angle = self.rot_angle + 1;
        }
        self.model_matrix_buffer.data = model_transform(
            &Vec3Bits::new(WORD_ZERO, WORD_ZERO, MS_TRANS_Z),
            &Vec3Bits::new(WORD_ONE, WORD_ZERO, WORD_ZERO),
            self.rot_angle,
            &Vec3Bits::new(WORD_ONE, WORD_ONE, WORD_ONE),
        );
        self.model_matrix_buffer.update(queue);
    }

    /// Records one draw of this material with the given camera: exactly
    /// [`Self::draw_commands`] is appended to the pass, the camera bound at
    /// its reserved group 1.
    pub fn draw<'a>(&'a self, render_pass: &mut RecordingPass<'a>, camera: &'a Camera)
        ensures
            final(render_pass).commands() == old(render_pass).commands() + self.draw_commands(
                camera,
            ),
    {
        pass_set_pipeline(render_pass, &self.render_pipeline);
        self.vs_uniforms_bind_group.bind(render_pass, 0);
        camera.draw(render_pass, 1);
        self.diffuse_bind_group.bind(render_pass, 2);
        self.material_bind_group.bind(render_pass, 3);
        pass_set_vertex_buffer(render_pass, 0, &self.geometry_buffer.position_buffer);
        pass_set_vertex_buffer(render_pass, 1, &self.geometry_buffer.color_buffer);
        pass_set_vertex_buffer(render_pass, 2, &self.geometry_buffer.texcoord_buffer);
        match &self.geometry_buffer.normal_buffer {
            Some(normal_buffer) => {
                pass_set_vertex_buffer(render_pass, 3, normal_buffer);
            },
            None => {},
        }
        match &self.geometry_buffer.index_buffer {
            Some(index_buffer) => {
                pass_set_index_buffer(render_pass, index_buffer);
                pass_draw_indexed(render_pass, self.geometry_buffer.num_indices);
            },
            None => {
                pass_draw(render_pass, self.geometry_buffer.num_vertices);
            },
        }
        proof {
            assert(render_pass.commands() =~= old(render_pass).commands() + self.draw_commands(
                camera,
            ));
        }
    }
}

/// Drawing selects indexed mode exactly when the geometry has an index
/// buffer: the recorded sequence then ends with an indexed draw over the
/// index count, and otherwise with a plain draw over the vertex count —
/// with whichever camera the draw is given.
pub proof fn lemma_shader_draw_span(m: &MaterialShader, camera: &Camera)
    ensures
        m.geometry_buffer.has_indices() ==> m.draw_commands(camera).last() == (
        GpuCommand::DrawIndexed { indices: m.geometry_buffer.num_indices }),
        !m.geometry_buffer.has_indices() ==> m.draw_commands(camera).last() == (GpuCommand::Draw {
            vertices: m.geometry_buffer.num_vertices,
        }),
{
}

} // verus!
