use wvt::geometries::{
    color_words, normal_words, position_words, texcoord_words, AttributeFormat, ColorElement,
    CubeGeometry, NormalElement, PositionElement, QuadGeometry, TexCoordElement,
};

const ONE: u32 = 0x3f80_0000;
const ZERO: u32 = 0;
const HALF: u32 = 0x3f00_0000;
const NEG_HALF: u32 = 0xbf00_0000;

fn face_color(i: usize) -> [u32; 4] {
    match i % 4 {
        0 => [ONE, ZERO, ZERO, ONE],
        1 => [ZERO, ONE, ZERO, ONE],
        2 => [ZERO, ZERO, ONE, ONE],
        _ => [ONE, ONE, ZERO, ONE],
    }
}

fn face_texcoord(i: usize) -> [u32; 2] {
    match i % 4 {
        0 => [ZERO, ONE],
        1 => [ZERO, ZERO],
        2 => [ONE, ONE],
        _ => [ONE, ZERO],
    }
}

#[test]
fn quad_counts_and_indices() {
    let quad = QuadGeometry::new();
    assert_eq!(quad.positions.len(), 4);
    assert_eq!(quad.colors.len(), 4);
    assert_eq!(quad.tex_coords.len(), 4);
    assert_eq!(quad.indices, vec![0, 1, 2, 1, 3, 2]);
    // Two triangles over four vertices and six indices.
    assert_eq!(quad.indices.len() / 3, 2);
}

#[test]
fn quad_vertex_data() {
    let quad = QuadGeometry::new();
    assert_eq!(quad.positions[0].position, [NEG_HALF, NEG_HALF, ZERO]);
    assert_eq!(quad.positions[1].position, [NEG_HALF, HALF, ZERO]);
    assert_eq!(quad.positions[2].position, [HALF, NEG_HALF, ZERO]);
    assert_eq!(quad.positions[3].position, [HALF, HALF, ZERO]);
    for i in 0..4 {
        assert_eq!(quad.colors[i].color, face_color(i));
        assert_eq!(quad.tex_coords[i].position, face_texcoord(i));
    }
}

#[test]
fn cube_counts_and_indices() {
    let cube = CubeGeometry::new();
    assert_eq!(cube.positions.len(), 24);
    assert_eq!(cube.colors.len(), 24);
    assert_eq!(cube.tex_coords.len(), 24);
    assert_eq!(cube.indices.len(), 36);
    assert_eq!(
        cube.indices,
        vec![
            0, 1, 2, 1, 3, 2, 4, 6, 5, 5, 6, 7, 8, 9, 10, 9, 11, 10, 12, 14, 13, 13, 14, 15, 16,
            18, 17, 17, 18, 19, 20, 21, 22, 21, 23, 22,
        ],
    );
}

#[test]
fn cube_vertex_data() {
    let cube = CubeGeometry::new();
    // Every coordinate is plus or minus one half; the front face sits at
    // positive z, the back face at negative z.
    for e in &cube.positions {
        for w in e.position {
            assert!(w == HALF || w == NEG_HALF);
        }
    }
    for i in 0..4 {
        assert_eq!(cube.positions[i].position[2], HALF);
        assert_eq!(cube.positions[4 + i].position[2], NEG_HALF);
        assert_eq!(cube.positions[8 + i].position[0], NEG_HALF);
        assert_eq!(cube.positions[12 + i].position[0], HALF);
        assert_eq!(cube.positions[16 + i].position[1], HALF);
        assert_eq!(cube.positions[20 + i].position[1], NEG_HALF);
    }
    for i in 0..24 {
        assert_eq!(cube.colors[i].color, face_color(i));
        assert_eq!(cube.tex_coords[i].position, face_texcoord(i));
    }
}

#[test]
fn attribute_descriptors() {
    let p = PositionElement::desc(0);
    assert_eq!(p.array_stride, 12);
    assert_eq!(p.shader_location, 0);
    assert!(matches!(p.format, AttributeFormat::F32x3));
    let c = ColorElement::desc(1);
    assert_eq!(c.array_stride, 16);
    assert_eq!(c.shader_location, 1);
    assert!(matches!(c.format, AttributeFormat::F32x4));
    let t = TexCoordElement::desc(2);
    assert_eq!(t.array_stride, 8);
    assert_eq!(t.shader_location, 2);
    assert!(matches!(t.format, AttributeFormat::F32x2));
    let n = NormalElement::desc(3);
    assert_eq!(n.array_stride, 12);
    assert_eq!(n.shader_location, 3);
    assert!(matches!(n.format, AttributeFormat::F32x3));
}

#[test]
fn format_strides() {
    assert_eq!(AttributeFormat::F32x2.stride(), 8);
    assert_eq!(AttributeFormat::F32x3.stride(), 12);
    assert_eq!(AttributeFormat::F32x4.stride(), 16);
}

#[test]
fn streams_flatten_in_order() {
    let ps = vec![PositionElement::new(1, 2, 3), PositionElement::new(4, 5, 6)];
    assert_eq!(position_words(&ps), vec![1, 2, 3, 4, 5, 6]);
    let cs = vec![ColorElement::new(7, 8, 9, 10)];
    assert_eq!(color_words(&cs), vec![7, 8, 9, 10]);
    let ts = vec![TexCoordElement::new(11, 12), TexCoordElement::new(13, 14)];
    assert_eq!(texcoord_words(&ts), vec![11, 12, 13, 14]);
    let ns = vec![NormalElement::new(15, 16, 17)];
    assert_eq!(normal_words(&ns), vec![15, 16, 17]);
}

#[test]
fn empty_streams_flatten_empty() {
    assert_eq!(position_words(&vec![]), Vec::<u32>::new());
    assert_eq!(color_words(&vec![]), Vec::<u32>::new());
    assert_eq!(texcoord_words(&vec![]), Vec::<u32>::new());
    assert_eq!(normal_words(&vec![]), Vec::<u32>::new());
}
