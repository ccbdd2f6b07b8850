//! The geometry buffer: one GPU buffer per vertex attribute stream, plus an
//! optional index buffer.
//!
//! Geometry is write-once: every stream is uploaded at construction and
//! never mutated. Animated geometry is modeled through uniform-driven
//! transforms, not vertex mutation. If an index buffer exists, the index
//! count determines the draw span; otherwise the vertex count does.

use vstd::prelude::*;
use crate::errors::WvtError;
use crate::geometries::{
    color_words, color_words_of, normal_words, normal_words_of, position_words,
    position_words_of, texcoord_words, texcoord_words_of, ColorElement, NormalElement,
    PositionElement, TexCoordElement,
};
use crate::gpu::{make_buffer, BufferUse, GpuBuffer};

verus! {

/// GPU-resident vertex attribute streams and their counts. Every buffer is
/// write-once: nothing mutates one after construction, so each buffer's
/// creation words are its GPU-visible contents for its whole lifetime.
pub struct GeometryBuffer {
    /// The position stream; always present.
    pub position_buffer: GpuBuffer,
    /// The color stream (possibly empty).
    pub color_buffer: GpuBuffer,
    /// The texture-coordinate stream (possibly empty).
    pub texcoord_buffer: GpuBuffer,
    /// The index stream, present exactly when indices were supplied.
    pub index_buffer: Option<GpuBuffer>,
    /// The normal stream, present exactly when normals were supplied.
    pub normal_buffer: Option<GpuBuffer>,
    /// How many position elements were uploaded.
    pub num_vertices: u32,
    /// How many indices were uploaded.
    pub num_indices: u32,
}

impl GeometryBuffer {
    /// Whether a normal stream is present.
    pub open spec fn has_normals(&self) -> bool {
        self.normal_buffer is Some
    }

    /// Whether an index stream is present; decides indexed drawing.
    pub open spec fn has_indices(&self) -> bool {
        self.index_buffer is Some
    }

    /// Uploads each stream into its own write-once GPU buffer, holding
    /// exactly the stream's flattened words with vertex usage (index usage
    /// for the indices). Fails exactly when no position element is supplied
    /// — a pipeline cannot draw zero vertices — and creates nothing then.
    /// The vertex count is the number of positions; the index count the
    /// number of indices; the index and normal buffers exist exactly when
    /// their streams are non-empty.
    pub fn new(
        device: &wgpu::Device,
        positions: &Vec<PositionElement>,
        normals: &Vec<NormalElement>,
        colors: &Vec<ColorElement>,
        tex_coords: &Vec<TexCoordElement>,
        indices: &Vec<u32>,
    ) -> (r: Result<Self, WvtError>)
        requires
            positions@.len() <= u32::MAX,
            indices@.len() <= u32::MAX,
        ensures
            r is Ok <==> positions@.len() > 0,
            r == Err::<Self, WvtError>(WvtError::MissingPositions) <==> positions@.len() == 0,
            r matches Ok(g) ==> {
                &&& g.num_vertices == positions@.len()
                &&& g.num_indices == indices@.len()
                &&& g.has_indices() <==> indices@.len() > 0
                &&& g.has_normals() <==> normals@.len() > 0
                &&& g.position_buffer.creation_words() == position_words_of(positions@)
                &&& g.position_buffer.usage() == BufferUse::Vertex
                &&& g.color_buffer.creation_words() == color_words_of(colors@)
                &&& g.color_buffer.usage() == BufferUse::Vertex
                &&& g.texcoord_buffer.creation_words() == texcoord_words_of(tex_coords@)
                &&& g.texcoord_buffer.usage() == BufferUse::Vertex
                &&& (g.normal_buffer matches Some(b) ==> b.creation_words() == normal_words_of(
                    normals@,
                ) && b.usage() == BufferUse::Vertex)
                &&& (g.index_buffer matches Some(b) ==> b.creation_words() == indices@
                    && b.usage() == BufferUse::Index)
            },
    {
        if positions.len() == 0 {
            return Err(WvtError::MissingPositions);
        }

        let pw = position_words(positions);
        let position_buffer = make_buffer(device, &pw, BufferUse::Vertex, Some("positions"));
        let num_vertices = positions.len() as u32;

        let normal_buffer = if normals.len() > 0 {
            let nw = normal_words(normals);
            Some(make_buffer(device, &nw, BufferUse::Vertex, Some("normals")))
        } else {
            None
        };

        let cw = color_words(colors);
        let color_buffer = make_buffer(device, &cw, BufferUse::Vertex, Some("colors"));

        let tw = texcoord_words(tex_coords);
        let texcoord_buffer = make_buffer(device, &tw, BufferUse::Vertex, Some("texcoords"));

        let index_buffer = if indices.len() > 0 {
            Some(make_buffer(device, indices, BufferUse::Index, Some("indices")))
        } else {
            None
        };
        let num_indices = indices.len() as u32;

        Ok(GeometryBuffer {
            position_buffer,
            color_buffer,
            texcoord_buffer,
            index_buffer,
            normal_buffer,
            num_vertices,
            num_indices,
        })
    }
}

} // verus!
