//! Model data: flat attribute streams regrouped into typed elements.
//!
//! A loaded mesh arrives as flat word streams — three words per position or
//! normal, three per color, two per texture coordinate — plus an index list.
//! [`ModelGeometry::from_streams`] regroups them into the element types the
//! geometry buffer uploads; loading and decoding the file itself is outside
//! this core, which only ever sees the plain streams.

use vstd::prelude::*;
use vstd::arithmetic::div_mod::lemma_fundamental_div_mod;
use crate::geometries::{ColorElement, NormalElement, PositionElement, TexCoordElement};
use crate::math::WORD_ONE;

verus! {

/// One GPU-resident mesh of a model.
pub struct Mesh {
    pub name: String,
    pub vertex_buffer: wgpu::Buffer,
    pub index_buffer: wgpu::Buffer,
    pub num_elements: u32,
    pub material: usize,
}

/// One material of a model: a named texture and its binding group.
pub struct Material {
    pub name: String,
    pub diffuse_texture: wgpu::TextureView,
    pub bind_group: wgpu::BindGroup,
}

/// A model: meshes and the materials they index into.
pub struct Model {
    pub meshes: Vec<Mesh>,
    pub materials: Vec<Material>,
}

/// One mesh's attribute streams as typed elements, ready for a geometry
/// buffer.
pub struct ModelGeometry {
    pub positions: Vec<PositionElement>,
    pub colors: Vec<ColorElement>,
    pub normals: Vec<NormalElement>,
    pub tex_coords: Vec<TexCoordElement>,
    pub indices: Vec<u32>,
}

impl ModelGeometry {
    /// Regroups flat word streams into typed elements: positions and
    /// normals three words apiece, colors three words with an opaque alpha
    /// appended, texture coordinates two words apiece; the index list is
    /// carried over unchanged. Each stream's length must be a whole number
    /// of elements.
    pub fn from_streams(
        positions: &Vec<u32>,
        vertex_colors: &Vec<u32>,
        normals: &Vec<u32>,
        texcoords: &Vec<u32>,
        indices: &Vec<u32>,
    ) -> (r: Self)
        requires
            positions@.len() % 3 == 0,
            vertex_colors@.len() % 3 == 0,
            normals@.len() % 3 == 0,
            texcoords@.len() % 2 == 0,
        ensures
            r.positions@.len() == positions@.len() / 3,
            forall|j: int|
                0 <= j < r.positions@.len() ==> r.positions@[j].position@ == seq![
                    positions@[3 * j],
                    positions@[3 * j + 1],
                    positions@[3 * j + 2],
                ],
            r.colors@.len() == vertex_colors@.len() / 3,
            forall|j: int|
                0 <= j < r.colors@.len() ==> r.colors@[j].color@ == seq![
                    vertex_colors@[3 * j],
                    vertex_colors@[3 * j + 1],
                    vertex_colors@[3 * j + 2],
                    WORD_ONE,
                ],
            r.normals@.len() == normals@.len() / 3,
            forall|j: int|
                0 <= j < r.normals@.len() ==> r.normals@[j].normal@ == seq![
                    normals@[3 * j],
                    normals@[3 * j + 1],
                    normals@[3 * j + 2],
                ],
            r.tex_coords@.len() == texcoords@.len() / 2,
            forall|j: int|
                0 <= j < r.tex_coords@.len() ==> r.tex_coords@[j].position@ == seq![
                    texcoords@[2 * j],
                    texcoords@[2 * j + 1],
                ],
            r.indices@ == indices@,
    {
        proof {
            lemma_fundamental_div_mod(positions@.len() as int, 3);
            lemma_fundamental_div_mod(vertex_colors@.len() as int, 3);
            lemma_fundamental_div_mod(normals@.len() as int, 3);
            lemma_fundamental_div_mod(texcoords@.len() as int, 2);
        }

        let plen = positions.len();
        let np = plen / 3;
        let mut ps: Vec<PositionElement> = Vec::new();
        let mut i: usize = 0;
        while i < np
            invariant
                3 * np == plen,
                plen == positions@.len(),
                i <= np,
                ps@.len() == i,
                forall|j: int|
                    0 <= j < i ==> ps@[j].position@ == seq![
                        positions@[3 * j],
                        positions@[3 * j + 1],
                        positions@[3 * j + 2],
                    ],
            decreases np - i,
        {
            ps.push(PositionElement::new(positions[3 * i], positions[3 * i + 1], positions[3 * i + 2]));
            i = i + 1;
        }

        let clen = vertex_colors.len();
        let nc = clen / 3;
        let mut cs: Vec<ColorElement> = Vec::new();
        let mut c: usize = 0;
        while c < nc
            invariant
                3 * nc == clen,
                clen == vertex_colors@.len(),
                c <= nc,
                cs@.len() == c,
                forall|j: int|
                    0 <= j < c ==> cs@[j].color@ == seq![
                        vertex_colors@[3 * j],
                        vertex_colors@[3 * j + 1],
                        vertex_colors@[3 * j + 2],
                        WORD_ONE,
                    ],
            decreases nc - c,
        {
            cs.push(
                ColorElement::new(
                    vertex_colors[3 * c],
                    vertex_colors[3 * c + 1],
                    vertex_colors[3 * c + 2],
                    WORD_ONE,
                ),
            );
            c = c + 1;
        }

        let nlen = normals.len();
        let nn = nlen / 3;
        let mut ns: Vec<NormalElement> = Vec::new();
        let mut k: usize = 0;
        while k < nn
            invariant
                3 * nn == nlen,
                nlen == normals@.len(),
                k <= nn,
                ns@.len() == k,
                forall|j: int|
                    0 <= j < k ==> ns@[j].normal@ == seq![
                        normals@[3 * j],
                        normals@[3 * j + 1],
                        normals@[3 * j + 2],
                    ],
            decreases nn - k,
        {
            ns.push(NormalElement::new(normals[3 * k], normals[3 * k + 1], normals[3 * k + 2]));
            k = k + 1;
        }

        let tlen = texcoords.len();
        let nt = tlen / 2;
        let mut ts: Vec<TexCoordElement> = Vec::new();
        let mut t: usize = 0;
        while t < nt
            invariant
                2 * nt == tlen,
                tlen == texcoords@.len(),
                t <= nt,
                ts@.len() == t,
                forall|j: int|
                    0 <= j < t ==> ts@[j].position@ == seq![texcoords@[2 * j], texcoords@[2 * j + 1]],
            decreases nt - t,
        {
            ts.push(TexCoordElement::new(texcoords[2 * t], texcoords[2 * t + 1]));
            t = t + 1;
        }

        let mut is: Vec<u32> = Vec::new();
        let mut x: usize = 0;
        while x < indices.len()
            invariant
                x <= indices@.len(),
                is@ == indices@.subrange(0, x as int),
            decreases indices@.len() - x,
        {
            is.push(indices[x]);
            proof {
                assert(is@ =~= indices@.subrange(0, (x + 1) as int));
            }
            x = x + 1;
        }
        proof {
            assert(indices@.subrange(0, indices@.len() as int) =~= indices@);
        }

        ModelGeometry { positions: ps, colors: cs, normals: ns, tex_coords: ts, indices: is }
    }
}

} // verus!
