//! The camera: a cached projection·view matrix mirrored into a uniform slot,
//! plus the single-entry binding group every material pipeline shares.
//!
//! The combined matrix is recomputed once per camera update — not per draw —
//! so one 4×4 multiply is amortized over every object drawn with the camera
//! in a frame. The cached matrix is a pure function of the projection and
//! the view parameters: `proj · look_at(eye, center, up)`, nothing hidden.

use vstd::prelude::*;
use crate::binding::{
    uniforms_ok, BindingKind, BindingLayout, BindingLayoutEntry, ResourceBindingSet, ResourceRef,
    ShaderStage,
};
use crate::buffers::uniform::{UniformBuffer, UniformBufferData};
use crate::gpu::{GpuCommand, RecordingPass};
use crate::math::{look_at_bits, look_at_of, mat_mul_bits, mat_mul_of, Mat4Bits, Vec3Bits};

verus! {

/// The words of the combined matrix a camera caches: the projection times
/// the left-handed look-at view matrix.
pub open spec fn proj_view_words(
    proj: Seq<u32>,
    eye: Seq<u32>,
    center: Seq<u32>,
    up: Seq<u32>,
) -> Seq<u32> {
    mat_mul_of(proj, look_at_of(eye, center, up))
}

/// The one slot a camera's binding group declares: its matrix, visible to
/// the vertex stage at binding 0.
pub open spec fn camera_layout_entries() -> Seq<BindingLayoutEntry> {
    seq![
        (BindingLayoutEntry { slot: 0, kind: BindingKind::UniformBuffer, stage: ShaderStage::Vertex }),
    ]
}

/// A camera: view parameters, the cached combined matrix in its uniform
/// slot, and the binding group that makes it visible to vertex stages.
pub struct Camera {
    /// The uniform slot holding the cached `projection · view` matrix.
    pub buffer: UniformBuffer<Mat4Bits>,
    /// The camera's binding set: slot 0, uniform buffer, vertex stage.
    pub bind_group: ResourceBindingSet,
    /// The layout the binding set was validated against; material pipelines
    /// are built against it so one camera binding serves them all.
    pub bind_group_layout: wgpu::BindGroupLayout,
    /// The current projection matrix.
    pub proj_mat: Mat4Bits,
    /// The eye position.
    pub eye: Vec3Bits,
    /// The point looked at.
    pub center: Vec3Bits,
    /// The up direction.
    pub up: Vec3Bits,
}

impl Camera {
    /// The matrix slot is a well-formed uniform buffer and the binding set
    /// declares exactly the camera's one slot.
    pub open spec fn wf(&self) -> bool {
        &&& self.buffer.wf()
        &&& self.bind_group.entries() == camera_layout_entries()
    }

    /// Computes the combined matrix: the projection times the look-at view
    /// matrix of the given parameters.
    pub fn proj_view_mat(proj_mat: &Mat4Bits, eye: &Vec3Bits, center: &Vec3Bits, up: &Vec3Bits) -> (r:
        Mat4Bits)
        ensures
            r@ == proj_view_words(proj_mat@, eye@, center@, up@),
    {
        let view_mat = look_at_bits(eye, center, up);
        mat_mul_bits(proj_mat, &view_mat)
    }

    /// Builds a camera: caches `proj · look_at(eye, center, up)`, uploads it
    /// into a fresh uniform slot, and builds the single-entry binding group
    /// (binding 0, uniform buffer, vertex-stage visible).
    pub fn new(
        device: &wgpu::Device,
        proj_mat: Mat4Bits,
        eye: Vec3Bits,
        center: Vec3Bits,
        up: Vec3Bits,
        label: &str,
    ) -> (r: Self)
        ensures
            r.proj_mat == proj_mat,
            r.eye == eye,
            r.center == center,
            r.up == up,
            r.buffer.data@ == proj_view_words(proj_mat@, eye@, center@, up@),
            r.buffer.synced(),
            r.wf(),
    {
        let buffer = UniformBuffer::new(
            device,
            Self::proj_view_mat(&proj_mat, &eye, &center, &up),
            Some(label),
        );

        let mut entries: Vec<BindingLayoutEntry> = Vec::new();
        entries.push(
            BindingLayoutEntry {
                slot: 0,
                kind: BindingKind::UniformBuffer,
                stage: ShaderStage::Vertex,
            },
        );
        let layout = match BindingLayout::new(entries) {
            Ok(l) => l,
            Err(_) => vstd::pervasive::unreached(),
        };
        let bind_group_layout = layout.gpu_layout(device);

        let mut resources: Vec<ResourceRef> = Vec::new();
        resources.push(ResourceRef::Uniform(&buffer.buffer));
        proof {
            assert(uniforms_ok(resources@));
        }
        let bind_group = match ResourceBindingSet::create(device, &layout, &resources) {
            Ok(set) => set,
            Err(_) => vstd::pervasive::unreached(),
        };
        proof {
            assert(bind_group.entries() =~= camera_layout_entries());
        }

        Camera { buffer, bind_group, bind_group_layout, proj_mat, eye, center, up }
    }

    /// Recomputes the cached matrix from the new projection and the current
    /// eye, center and up, and writes it through to the GPU. Called after
    /// every resize. Nothing else of the camera changes: the view
    /// parameters, the binding set, its layout and the GPU buffer all stay
    /// as they were.
    pub fn update_projection(&mut self, queue: &wgpu::Queue, proj_mat: Mat4Bits)
        requires
            old(self).wf(),
        ensures
            final(self).eye == old(self).eye,
            final(self).center == old(self).center,
            final(self).up == old(self).up,
            final(self).proj_mat == proj_mat,
            final(self).buffer.data@ == proj_view_words(
                proj_mat@,
                old(self).eye@,
                old(self).center@,
                old(self).up@,
            ),
            final(self).buffer.synced(),
            final(self).buffer.buffer == old(self).buffer.buffer,
            final(self).bind_group == old(self).bind_group,
            final(self).bind_group_layout == old(self).bind_group_layout,
            final(self).wf(),
    {
        self.proj_mat = proj_mat;
        self.buffer.data = Self::proj_view_mat(&proj_mat, &self.eye, &self.center, &self.up);
        self.buffer.update(queue);
    }

    /// Binds the camera's group at the given group index; the only effect is
    /// on the active pass state, no GPU memory is touched.
    pub fn draw<'a>(&'a self, render_pass: &mut RecordingPass<'a>, bind_group_nr: u32)
        ensures
            final(render_pass).commands() == old(render_pass).commands().push(
                GpuCommand::SetBindGroup { group: bind_group_nr, bind_group: self.bind_group.group() },
            ),
    {
        self.bind_group.bind(render_pass, bind_group_nr);
    }
}

} // verus!
