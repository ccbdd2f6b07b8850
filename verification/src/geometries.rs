//! Vertex attribute element types, their layout descriptors, and the quad
//! and cube geometry data.
//!
//! An element's components are raw 32-bit words (IEEE-754 bit patterns); the
//! core never computes with them. Each element type knows its layout
//! descriptor — stride, shader slot, numeric format — and how its stream
//! flattens into the word sequence that its GPU buffer is created from.

use vstd::prelude::*;
use crate::math::{WORD_ONE, WORD_ZERO};

verus! {

/// Bit pattern of `0.5_f32`.
pub const WORD_HALF: u32 = 0x3f00_0000;
/// Bit pattern of `-0.5_f32`.
pub const WORD_NEG_HALF: u32 = 0xbf00_0000;

/// The semantic vertex attribute streams a geometry can carry.
#[derive(Clone, Copy, Debug, PartialEq, Eq, Structural)]
pub enum StreamKind {
    Position,
    Color,
    TexCoord,
    Normal,
}

/// The numeric format of one vertex attribute.
#[derive(Clone, Copy, Debug, PartialEq, Eq, Structural)]
pub enum AttributeFormat {
    /// Two 32-bit floats.
    F32x2,
    /// Three 32-bit floats.
    F32x3,
    /// Four 32-bit floats.
    F32x4,
}

impl AttributeFormat {
    /// The byte width of one element of this format.
    pub open spec fn spec_stride(&self) -> u64 {
        match self {
            AttributeFormat::F32x2 => 8,
            AttributeFormat::F32x3 => 12,
            AttributeFormat::F32x4 => 16,
        }
    }

    /// The byte width of one element of this format.
    pub fn stride(&self) -> (r: u64)
        ensures
            r == self.spec_stride(),
    {
        match self {
            AttributeFormat::F32x2 => 8,
            AttributeFormat::F32x3 => 12,
            AttributeFormat::F32x4 => 16,
        }
    }
}

/// The per-attribute layout a pipeline's vertex state is declared from:
/// tightly packed elements of one format, fed to one shader slot.
#[derive(Clone, Copy, Debug, PartialEq, Eq, Structural)]
pub struct AttributeDescriptor {
    /// Bytes between consecutive elements (one element: data at offset 0).
    pub array_stride: u64,
    /// The shader input slot the stream feeds.
    pub shader_location: u32,
    /// The numeric format of each element.
    pub format: AttributeFormat,
}

/// One position: three raw words (x, y, z).
#[derive(Clone, Copy, Debug)]
pub struct PositionElement {
    pub position: [u32; 3],
}

/// One vertex color: four raw words (r, g, b, a).
#[derive(Clone, Copy, Debug)]
pub struct ColorElement {
    pub color: [u32; 4],
}

/// One texture coordinate: two raw words (u, v).
#[derive(Clone, Copy, Debug)]
pub struct TexCoordElement {
    pub position: [u32; 2],
}

/// One normal: three raw words (x, y, z).
#[derive(Clone, Copy, Debug)]
pub struct NormalElement {
    pub normal: [u32; 3],
}

impl PositionElement {
    pub fn new(x: u32, y: u32, z: u32) -> (r: Self)
        ensures
            r.position@ =~= seq![x, y, z],
    {
        PositionElement { position: [x, y, z] }
    }

    /// The layout descriptor for a position stream at the given shader slot.
    pub fn desc(location: u32) -> (r: AttributeDescriptor)
        ensures
            r == (AttributeDescriptor {
                array_stride: 12,
                shader_location: location,
                format: AttributeFormat::F32x3,
            }),
    {
        AttributeDescriptor {
            array_stride: 12,
            shader_location: location,
            format: AttributeFormat::F32x3,
        }
    }
}

impl ColorElement {
    pub fn new(r0: u32, g: u32, b: u32, a: u32) -> (r: Self)
        ensures
            r.color@ =~= seq![r0, g, b, a],
    {
        ColorElement { color: [r0, g, b, a] }
    }

    /// The layout descriptor for a color stream at the given shader slot.
    pub fn desc(location: u32) -> (r: AttributeDescriptor)
        ensures
            r == (AttributeDescriptor {
                array_stride: 16,
                shader_location: location,
                format: AttributeFormat::F32x4,
            }),
    {
        AttributeDescriptor {
            array_stride: 16,
            shader_location: location,
            format: AttributeFormat::F32x4,
        }
    }
}

impl TexCoordElement {
    pub fn new(u: u32, v: u32) -> (r: Self)
        ensures
            r.position@ =~= seq![u, v],
    {
        TexCoordElement { position: [u, v] }
    }

    /// The layout descriptor for a texture-coordinate stream at the given
    /// shader slot.
    pub fn desc(location: u32) -> (r: AttributeDescriptor)
        ensures
            r == (AttributeDescriptor {
                array_stride: 8,
                shader_location: location,
                format: AttributeFormat::F32x2,
            }),
    {
        AttributeDescriptor {
            array_stride: 8,
            shader_location: location,
            format: AttributeFormat::F32x2,
        }
    }
}

impl NormalElement {
    pub fn new(x: u32, y: u32, z: u32) -> (r: Self)
        ensures
            r.normal@ =~= seq![x, y, z],
    {
        NormalElement { normal: [x, y, z] }
    }

    /// The layout descriptor for a normal stream at the given shader slot.
    pub fn desc(location: u32) -> (r: AttributeDescriptor)
        ensures
            r == (AttributeDescriptor {
                array_stride: 12,
                shader_location: location,
                format: AttributeFormat::F32x3,
            }),
    {
        AttributeDescriptor {
            array_stride: 12,
            shader_location: location,
            format: AttributeFormat::F32x3,
        }
    }
}

/// The word sequence a position stream occupies in its GPU buffer.
pub open spec fn position_words_of(s: Seq<PositionElement>) -> Seq<u32>
    decreases s.len(),
{
    if s.len() == 0 {
        Seq::empty()
    } else {
        position_words_of(s.drop_last()) + s.last().position@
    }
}

/// The word sequence a color stream occupies in its GPU buffer.
pub open spec fn color_words_of(s: Seq<ColorElement>) -> Seq<u32>
    decreases s.len(),
{
    if s.len() == 0 {
        Seq::empty()
    } else {
        color_words_of(s.drop_last()) + s.last().color@
    }
}

/// The word sequence a texture-coordinate stream occupies in its GPU buffer.
pub open spec fn texcoord_words_of(s: Seq<TexCoordElement>) -> Seq<u32>
    decreases s.len(),
{
    if s.len() == 0 {
        Seq::empty()
    } else {
        texcoord_words_of(s.drop_last()) + s.last().position@
    }
}

/// The word sequence a normal stream occupies in its GPU buffer.
pub open spec fn normal_words_of(s: Seq<NormalElement>) -> Seq<u32>
    decreases s.len(),
{
    if s.len() == 0 {
        Seq::empty()
    } else {
        normal_words_of(s.drop_last()) + s.last().normal@
    }
}

/// Flattens a position stream into the exact words its buffer holds.
pub fn position_words(data: &Vec<PositionElement>) -> (r: Vec<u32>)
    ensures
        r@ == position_words_of(data@),
        r@.len() == data@.len() * 3,
{
    let mut r: Vec<u32> = Vec::new();
    let mut i: usize = 0;
    while i < data.len()
        invariant
            i <= data@.len(),
            r@ == position_words_of(data@.subrange(0, i as int)),
            r@.len() == i * 3,
        decreases data@.len() - i,
    {
        let e = data[i];
        r.push(e.position[0]);
        r.push(e.position[1]);
        r.push(e.position[2]);
        proof {
            assert(data@.subrange(0, (i + 1) as int).drop_last() =~= data@.subrange(0, i as int));
            assert(r@ =~= position_words_of(data@.subrange(0, (i + 1) as int)));
        }
        i = i + 1;
    }
    proof {
        assert(data@.subrange(0, data@.len() as int) =~= data@);
    }
    r
}

/// Flattens a color stream into the exact words its buffer holds.
pub fn color_words(data: &Vec<ColorElement>) -> (r: Vec<u32>)
    ensures
        r@ == color_words_of(data@),
        r@.len() == data@.len() * 4,
{
    let mut r: Vec<u32> = Vec::new();
    let mut i: usize = 0;
    while i < data.len()
        invariant
            i <= data@.len(),
            r@ == color_words_of(data@.subrange(0, i as int)),
            r@.len() == i * 4,
        decreases data@.len() - i,
    {
        let e = data[i];
        r.push(e.color[0]);
        r.push(e.color[1]);
        r.push(e.color[2]);
        r.push(e.color[3]);
        proof {
            assert(data@.subrange(0, (i + 1) as int).drop_last() =~= data@.subrange(0, i as int));
            assert(r@ =~= color_words_of(data@.subrange(0, (i + 1) as int)));
        }
        i = i + 1;
    }
    proof {
        assert(data@.subrange(0, data@.len() as int) =~= data@);
    }
    r
}

/// Flattens a texture-coordinate stream into the exact words its buffer
/// holds.
pub fn texcoord_words(data: &Vec<TexCoordElement>) -> (r: Vec<u32>)
    ensures
        r@ == texcoord_words_of(data@),
        r@.len() == data@.len() * 2,
{
    let mut r: Vec<u32> = Vec::new();
    let mut i: usize = 0;
    while i < data.len()
        invariant
            i <= data@.len(),
            r@ == texcoord_words_of(data@.subrange(0, i as int)),
            r@.len() == i * 2,
        decreases data@.len() - i,
    {
        let e = data[i];
        r.push(e.position[0]);
        r.push(e.position[1]);
        proof {
            assert(data@.subrange(0, (i + 1) as int).drop_last() =~= data@.subrange(0, i as int));
            assert(r@ =~= texcoord_words_of(data@.subrange(0, (i + 1) as int)));
        }
        i = i + 1;
    }
    proof {
        assert(data@.subrange(0, data@.len() as int) =~= data@);
    }
    r
}

/// Flattens a normal stream into the exact words its buffer holds.
pub fn normal_words(data: &Vec<NormalElement>) -> (r: Vec<u32>)
    ensures
        r@ == normal_words_of(data@),
        r@.len() == data@.len() * 3,
{
    let mut r: Vec<u32> = Vec::new();
    let mut i: usize = 0;
    while i < data.len()
        invariant
            i <= data@.len(),
            r@ == normal_words_of(data@.subrange(0, i as int)),
            r@.len() == i * 3,
        decreases data@.len() - i,
    {
        let e = data[i];
        r.push(e.normal[0]);
        r.push(e.normal[1]);
        r.push(e.normal[2]);
        proof {
            assert(data@.subrange(0, (i + 1) as int).drop_last() =~= data@.subrange(0, i as int));
            assert(r@ =~= normal_words_of(data@.subrange(0, (i + 1) as int)));
        }
        i = i + 1;
    }
    proof {
        assert(data@.subrange(0, data@.len() as int) =~= data@);
    }
    r
}

/// The vertex color pattern both built-in geometries repeat for each quad
/// face: red, green, blue, yellow.
pub open spec fn face_color_at(i: int) -> Seq<u32> {
    if i % 4 == 0 {
        seq![WORD_ONE, WORD_ZERO, WORD_ZERO, WORD_ONE]
    } else if i % 4 == 1 {
        seq![WORD_ZERO, WORD_ONE, WORD_ZERO, WORD_ONE]
    } else if i % 4 == 2 {
        seq![WORD_ZERO, WORD_ZERO, WORD_ONE, WORD_ONE]
    } else {
        seq![WORD_ONE, WORD_ONE, WORD_ZERO, WORD_ONE]
    }
}

/// The texture coordinate pattern both built-in geometries repeat for each
/// quad face: bottom left, top left, bottom right, top right.
pub open spec fn face_texcoord_at(i: int) -> Seq<u32> {
    if i % 4 == 0 {
        seq![WORD_ZERO, WORD_ONE]
    } else if i % 4 == 1 {
        seq![WORD_ZERO, WORD_ZERO]
    } else if i % 4 == 2 {
        seq![WORD_ONE, WORD_ONE]
    } else {
        seq![WORD_ONE, WORD_ZERO]
    }
}

/// A unit quad in the z = 0 plane: four vertices, two triangles.
pub struct QuadGeometry {
    pub positions: Vec<PositionElement>,
    pub colors: Vec<ColorElement>,
    pub tex_coords: Vec<TexCoordElement>,
    pub indices: Vec<u32>,
}

impl QuadGeometry {
    /// The quad's four corners, their colors and texture coordinates, and
    /// the index list `[0, 1, 2, 1, 3, 2]`.
    pub fn new() -> (r: Self)
        ensures
            r.positions@.len() == 4,
            r.colors@.len() == 4,
            r.tex_coords@.len() == 4,
            r.indices@ == seq![0u32, 1, 2, 1, 3, 2],
            r.positions@[0].position@ == seq![WORD_NEG_HALF, WORD_NEG_HALF, WORD_ZERO],
            r.positions@[1].position@ == seq![WORD_NEG_HALF, WORD_HALF, WORD_ZERO],
            r.positions@[2].position@ == seq![WORD_HALF, WORD_NEG_HALF, WORD_ZERO],
            r.positions@[3].position@ == seq![WORD_HALF, WORD_HALF, WORD_ZERO],
            forall|i: int| 0 <= i < 4 ==> r.colors@[i].color@ == face_color_at(i),
            forall|i: int| 0 <= i < 4 ==> r.tex_coords@[i].position@ == face_texcoord_at(i),
    {
        let mut positions: Vec<PositionElement> = Vec::new();
        positions.push(PositionElement::new(WORD_NEG_HALF, WORD_NEG_HALF, WORD_ZERO));
        positions.push(PositionElement::new(WORD_NEG_HALF, WORD_HALF, WORD_ZERO));
        positions.push(PositionElement::new(WORD_HALF, WORD_NEG_HALF, WORD_ZERO));
        positions.push(PositionElement::new(WORD_HALF, WORD_HALF, WORD_ZERO));

        let colors = face_colors(1);
        let tex_coords = face_texcoords(1);

        let mut indices: Vec<u32> = Vec::new();
        indices.push(0);
        indices.push(1);
        indices.push(2);
        indices.push(1);
        indices.push(3);
        indices.push(2);
        proof {
            assert(indices@ =~= seq![0u32, 1, 2, 1, 3, 2]);
        }
        QuadGeometry { positions, colors, tex_coords, indices }
    }
}

/// Builds `faces` repetitions of the four-color face pattern.
fn face_colors(faces: usize) -> (r: Vec<ColorElement>)
    requires
        faces <= 16,
    ensures
        r@.len() == 4 * faces,
        forall|i: int| 0 <= i < 4 * faces ==> r@[i].color@ == face_color_at(i),
{
    let mut r: Vec<ColorElement> = Vec::new();
    let mut f: usize = 0;
    while f < faces
        invariant
            f <= faces,
            faces <= 16,
            r@.len() == 4 * f,
            forall|i: int| 0 <= i < 4 * f ==> r@[i].color@ == face_color_at(i),
        decreases faces - f,
    {
        r.push(ColorElement::new(WORD_ONE, WORD_ZERO, WORD_ZERO, WORD_ONE));
        r.push(ColorElement::new(WORD_ZERO, WORD_ONE, WORD_ZERO, WORD_ONE));
        r.push(ColorElement::new(WORD_ZERO, WORD_ZERO, WORD_ONE, WORD_ONE));
        r.push(ColorElement::new(WORD_ONE, WORD_ONE, WORD_ZERO, WORD_ONE));
        proof {
            assert forall|i: int| 0 <= i < 4 * (f + 1) implies r@[i].color@ == face_color_at(i) by {
                if i < 4 * f {
                } else {
                    assert((4 * f as int) % 4 == 0) by (nonlinear_arith);
                    assert(i % 4 == i - 4 * f) by (nonlinear_arith)
                        requires 4 * f <= i < 4 * f + 4;
                }
            }
        }
        f = f + 1;
    }
    r
}

/// Builds `faces` repetitions of the four-corner texture coordinate pattern.
fn face_texcoords(faces: usize) -> (r: Vec<TexCoordElement>)
    requires
        faces <= 16,
    ensures
        r@.len() == 4 * faces,
        forall|i: int| 0 <= i < 4 * faces ==> r@[i].position@ == face_texcoord_at(i),
{
    let mut r: Vec<TexCoordElement> = Vec::new();
    let mut f: usize = 0;
    while f < faces
        invariant
            f <= faces,
            faces <= 16,
            r@.len() == 4 * f,
            forall|i: int| 0 <= i < 4 * f ==> r@[i].position@ == face_texcoord_at(i),
        decreases faces - f,
    {
        r.push(TexCoordElement::new(WORD_ZERO, WORD_ONE));
        r.push(TexCoordElement::new(WORD_ZERO, WORD_ZERO));
        r.push(TexCoordElement::new(WORD_ONE, WORD_ONE));
        r.push(TexCoordElement::new(WORD_ONE, WORD_ZERO));
        proof {
            assert forall|i: int| 0 <= i < 4 * (f + 1) implies r@[i].position@ == face_texcoord_at(i) by {
                if i < 4 * f {
                } else {
                    assert((4 * f as int) % 4 == 0) by (nonlinear_arith);
                    assert(i % 4 == i - 4 * f) by (nonlinear_arith)
                        requires 4 * f <= i < 4 * f + 4;
                }
            }
        }
        f = f + 1;
    }
    r
}

/// A unit cube centered at the origin: six quad faces, 24 vertices, 12
/// triangles. Vertices are not shared between faces, so each face can carry
/// its own colors and texture coordinates.
pub struct CubeGeometry {
    pub positions: Vec<PositionElement>,
    pub colors: Vec<ColorElement>,
    pub tex_coords: Vec<TexCoordElement>,
    pub indices: Vec<u32>,
}

impl CubeGeometry {
    /// The cube's 24 corners in face order (front, back, left, right, top,
    /// bottom), the per-face color and texture patterns, and the 36 indices.
    pub fn new() -> (r: Self)
        ensures
            r.positions@.len() == 24,
            r.colors@.len() == 24,
            r.tex_coords@.len() == 24,
            r.indices@ == seq![0u32, 1, 2, 1, 3, 2, 4, 6, 5, 5, 6, 7, 8, 9, 10, 9, 11, 10, 12, 14, 13, 13, 14, 15, 16, 18, 17, 17, 18, 19, 20, 21, 22, 21, 23, 22],
            r.positions@[0].position@ == seq![WORD_NEG_HALF, WORD_NEG_HALF, WORD_HALF],
            r.positions@[1].position@ == seq![WORD_NEG_HALF, WORD_HALF, WORD_HALF],
            r.positions@[2].position@ == seq![WORD_HALF, WORD_NEG_HALF, WORD_HALF],
            r.positions@[3].position@ == seq![WORD_HALF, WORD_HALF, WORD_HALF],
            r.positions@[4].position@ == seq![WORD_NEG_HALF, WORD_NEG_HALF, WORD_NEG_HALF],
            r.positions@[5].position@ == seq![WORD_NEG_HALF, WORD_HALF, WORD_NEG_HALF],
            r.positions@[6].position@ == seq![WORD_HALF, WORD_NEG_HALF, WORD_NEG_HALF],
            r.positions@[7].position@ == seq![WORD_HALF, WORD_HALF, WORD_NEG_HALF],
            r.positions@[8].position@ == seq![WORD_NEG_HALF, WORD_NEG_HALF, WORD_NEG_HALF],
            r.positions@[9].position@ == seq![WORD_NEG_HALF, WORD_HALF, WORD_NEG_HALF],
            r.positions@[10].position@ == seq![WORD_NEG_HALF, WORD_NEG_HALF, WORD_HALF],
            r.positions@[11].position@ == seq![WORD_NEG_HALF, WORD_HALF, WORD_HALF],
            r.positions@[12].position@ == seq![WORD_HALF, WORD_NEG_HALF, WORD_NEG_HALF],
            r.positions@[13].position@ == seq![WORD_HALF, WORD_HALF, WORD_NEG_HALF],
            r.positions@[14].position@ == seq![WORD_HALF, WORD_NEG_HALF, WORD_HALF],
            r.positions@[15].position@ == seq![WORD_HALF, WORD_HALF, WORD_HALF],
            r.positions@[16].position@ == seq![WORD_NEG_HALF, WORD_HALF, WORD_NEG_HALF],
            r.positions@[17].position@ == seq![WORD_NEG_HALF, WORD_HALF, WORD_HALF],
            r.positions@[18].position@ == seq![WORD_HALF, WORD_HALF, WORD_NEG_HALF],
            r.positions@[19].position@ == seq![WORD_HALF, WORD_HALF, WORD_HALF],
            r.positions@[20].position@ == seq![WORD_NEG_HALF, WORD_NEG_HALF, WORD_NEG_HALF],
            r.positions@[21].position@ == seq![WORD_NEG_HALF, WORD_NEG_HALF, WORD_HALF],
            r.positions@[22].position@ == seq![WORD_HALF, WORD_NEG_HALF, WORD_NEG_HALF],
            r.positions@[23].position@ == seq![WORD_HALF, WORD_NEG_HALF, WORD_HALF],
            forall|i: int| 0 <= i < 24 ==> r.colors@[i].color@ == face_color_at(i),
            forall|i: int| 0 <= i < 24 ==> r.tex_coords@[i].position@ == face_texcoord_at(i),
    {
        let mut positions: Vec<PositionElement> = Vec::new();
        positions.push(PositionElement::new(WORD_NEG_HALF, WORD_NEG_HALF, WORD_HALF));
        positions.push(PositionElement::new(WORD_NEG_HALF, WORD_HALF, WORD_HALF));
        positions.push(PositionElement::new(WORD_HALF, WORD_NEG_HALF, WORD_HALF));
        positions.push(PositionElement::new(WORD_HALF, WORD_HALF, WORD_HALF));
        positions.push(PositionElement::new(WORD_NEG_HALF, WORD_NEG_HALF, WORD_NEG_HALF));
        positions.push(PositionElement::new(WORD_NEG_HALF, WORD_HALF, WORD_NEG_HALF));
        positions.push(PositionElement::new(WORD_HALF, WORD_NEG_HALF, WORD_NEG_HALF));
        positions.push(PositionElement::new(WORD_HALF, WORD_HALF, WORD_NEG_HALF));
        positions.push(PositionElement::new(WORD_NEG_HALF, WORD_NEG_HALF, WORD_NEG_HALF));
        positions.push(PositionElement::new(WORD_NEG_HALF, WORD_HALF, WORD_NEG_HALF));
        positions.push(PositionElement::new(WORD_NEG_HALF, WORD_NEG_HALF, WORD_HALF));
        positions.push(PositionElement::new(WORD_NEG_HALF, WORD_HALF, WORD_HALF));
        positions.push(PositionElement::new(WORD_HALF, WORD_NEG_HALF, WORD_NEG_HALF));
        positions.push(PositionElement::new(WORD_HALF, WORD_HALF, WORD_NEG_HALF));
        positions.push(PositionElement::new(WORD_HALF, WORD_NEG_HALF, WORD_HALF));
        positions.push(PositionElement::new(WORD_HALF, WORD_HALF, WORD_HALF));
        positions.push(PositionElement::new(WORD_NEG_HALF, WORD_HALF, WORD_NEG_HALF));
        positions.push(PositionElement::new(WORD_NEG_HALF, WORD_HALF, WORD_HALF));
        positions.push(PositionElement::new(WORD_HALF, WORD_HALF, WORD_NEG_HALF));
        positions.push(PositionElement::new(WORD_HALF, WORD_HALF, WORD_HALF));
        positions.push(PositionElement::new(WORD_NEG_HALF, WORD_NEG_HALF, WORD_NEG_HALF));
        positions.push(PositionElement::new(WORD_NEG_HALF, WORD_NEG_HALF, WORD_HALF));
        positions.push(PositionElement::new(WORD_HALF, WORD_NEG_HALF, WORD_NEG_HALF));
        positions.push(PositionElement::new(WORD_HALF, WORD_NEG_HALF, WORD_HALF));

        let colors = face_colors(6);
        let tex_coords = face_texcoords(6);

        let mut indices: Vec<u32> = Vec::new();
        indices.push(0);
        indices.push(1);
        indices.push(2);
        indices.push(1);
        indices.push(3);
        indices.push(2);
        indices.push(4);
        indices.push(6);
        indices.push(5);
        indices.push(5);
        indices.push(6);
        indices.push(7);
        indices.push(8);
        indices.push(9);
        indices.push(10);
        indices.push(9);
        indices.push(11);
        indices.push(10);
        indices.push(12);
        indices.push(14);
        indices.push(13);
        indices.push(13);
        indices.push(14);
        indices.push(15);
        indices.push(16);
        indices.push(18);
        indices.push(17);
        indices.push(17);
        indices.push(18);
        indices.push(19);
        indices.push(20);
        indices.push(21);
        indices.push(22);
        indices.push(21);
        indices.push(23);
        indices.push(22);
        proof {
            assert(indices@ =~= seq![0u32, 1, 2, 1, 3, 2, 4, 6, 5, 5, 6, 7, 8, 9, 10, 9, 11, 10, 12, 14, 13, 13, 14, 15, 16, 18, 17, 17, 18, 19, 20, 21, 22, 21, 23, 22]);
        }
        CubeGeometry { positions, colors, tex_coords, indices }
    }
}

} // verus!
