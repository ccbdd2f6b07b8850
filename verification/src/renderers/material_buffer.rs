//! The material-constants uniform block and its buffer.
//!
//! The block packs each intensity scalar directly after its color vector, so
//! every color starts a fresh 16-byte block with no extra padding words; this
//! packed layout is the one fixed layout of the library.

use vstd::prelude::*;
use crate::binding::{BindingKind, BindingLayoutEntry, ResourceRef, ShaderStage};
use crate::buffers::uniform::{UniformBuffer, UniformBufferData};
use crate::math::{Vec3Bits, WORD_ONE};

verus! {

/// Ambient, diffuse and specular colors, each with an intensity scalar that
/// fills its block up to the 16-byte boundary.
#[derive(Clone, Copy, Debug, PartialEq, Eq, Structural)]
pub struct Material {
    pub ambient_color: Vec3Bits,
    pub ambient_intensity: u32,
    pub diffuse_color: Vec3Bits,
    pub diffuse_intensity: u32,
    pub specular_color: Vec3Bits,
    pub specular_intensity: u32,
}

impl Material {
    /// A material with the given colors and every intensity at one.
    pub fn new(ambient_color: Vec3Bits, diffuse_color: Vec3Bits, specular_color: Vec3Bits) -> (r:
        Self)
        ensures
            r == (Material {
                ambient_color,
                ambient_intensity: WORD_ONE,
                diffuse_color,
                diffuse_intensity: WORD_ONE,
                specular_color,
                specular_intensity: WORD_ONE,
            }),
    {
        Material {
            ambient_color,
            ambient_intensity: WORD_ONE,
            diffuse_color,
            diffuse_intensity: WORD_ONE,
            specular_color,
            specular_intensity: WORD_ONE,
        }
    }
}

impl UniformBufferData for Material {
    open spec fn word_view(&self) -> Seq<u32> {
        seq![
            self.ambient_color.x,
            self.ambient_color.y,
            self.ambient_color.z,
            self.ambient_intensity,
            self.diffuse_color.x,
            self.diffuse_color.y,
            self.diffuse_color.z,
            self.diffuse_intensity,
            self.specular_color.x,
            self.specular_color.y,
            self.specular_color.z,
            self.specular_intensity,
        ]
    }

    open spec fn word_count() -> nat {
        12
    }

    proof fn words_fixed(&self) {
    }

    fn raw_view(&self) -> (r: Vec<u32>) {
        let mut r: Vec<u32> = Vec::new();
        r.push(self.ambient_color.x);
        r.push(self.ambient_color.y);
        r.push(self.ambient_color.z);
        r.push(self.ambient_intensity);
        r.push(self.diffuse_color.x);
        r.push(self.diffuse_color.y);
        r.push(self.diffuse_color.z);
        r.push(self.diffuse_intensity);
        r.push(self.specular_color.x);
        r.push(self.specular_color.y);
        r.push(self.specular_color.z);
        r.push(self.specular_intensity);
        proof {
            assert(r@ =~= self.word_view());
        }
        r
    }
}

/// A material-constants block mirrored into its GPU buffer.
pub struct MaterialBuffer {
    pub buffer: UniformBuffer<Material>,
}

impl MaterialBuffer {
    /// Allocates the GPU buffer and writes the initial constants.
    pub fn new(device: &wgpu::Device, material: Material, label: &str) -> (r: Self)
        ensures
            r.buffer.data == material,
            r.buffer.synced(),
            r.buffer.wf(),
    {
        MaterialBuffer { buffer: UniformBuffer::new(device, material, Some(label)) }
    }

    /// The whole constants buffer, offered as a uniform binding.
    pub fn binding_resource<'s>(&'s self) -> (r: ResourceRef<'s>)
        ensures
            r == ResourceRef::Uniform(&self.buffer.buffer),
    {
        ResourceRef::Uniform(&self.buffer.buffer)
    }

    /// Pushes the current constants to the GPU.
    pub fn update(&mut self, queue: &wgpu::Queue)
        requires
            old(self).buffer.wf(),
        ensures
            final(self).buffer.data == old(self).buffer.data,
            final(self).buffer.buffer == old(self).buffer.buffer,
            final(self).buffer.wf(),
            final(self).buffer.synced(),
    {
        self.buffer.update(queue);
    }

    /// The layout slot a material-constants block occupies: a uniform buffer
    /// read by the fragment stage.
    pub fn entry_layout(binding_index: u32) -> (r: BindingLayoutEntry)
        ensures
            r == (BindingLayoutEntry {
                slot: binding_index,
                kind: BindingKind::UniformBuffer,
                stage: ShaderStage::Fragment,
            }),
    {
        BindingLayoutEntry {
            slot: binding_index,
            kind: BindingKind::UniformBuffer,
            stage: ShaderStage::Fragment,
        }
    }
}

} // verus!
