use wvt::buffers::uniform::UniformBufferData;
use wvt::math::{Mat4Bits, Vec2Bits, Vec3Bits, Vec4, WORD_ONE};
use wvt::renderers::material_buffer::Material;

#[test]
fn vec2_serializes_both_words() {
    let v = Vec2Bits::new(10, 20);
    assert_eq!(v.raw_view(), vec![10, 20]);
}

#[test]
fn vec4_serializes_four_words() {
    let v = Vec4::new(1, 2, 3, 4);
    assert_eq!(v.raw_view(), vec![1, 2, 3, 4]);
}

#[test]
fn mat4_serializes_sixteen_words_in_order() {
    let mut words = [0u32; 16];
    for (i, w) in words.iter_mut().enumerate() {
        *w = 100 + i as u32;
    }
    let m = Mat4Bits { m: words };
    assert_eq!(m.raw_view(), words.to_vec());
}

#[test]
fn material_packs_intensity_after_each_color() {
    // Each color starts a 16-byte block; its intensity fills the fourth
    // word, so the block layout needs no extra padding.
    let m = Material {
        ambient_color: Vec3Bits::new(1, 2, 3),
        ambient_intensity: 4,
        diffuse_color: Vec3Bits::new(5, 6, 7),
        diffuse_intensity: 8,
        specular_color: Vec3Bits::new(9, 10, 11),
        specular_intensity: 12,
    };
    assert_eq!(m.raw_view(), vec![1, 2, 3, 4, 5, 6, 7, 8, 9, 10, 11, 12]);
}

#[test]
fn material_new_sets_unit_intensities() {
    let m = Material::new(Vec3Bits::new(1, 2, 3), Vec3Bits::new(4, 5, 6), Vec3Bits::new(7, 8, 9));
    assert_eq!(m.ambient_intensity, WORD_ONE);
    assert_eq!(m.diffuse_intensity, WORD_ONE);
    assert_eq!(m.specular_intensity, WORD_ONE);
    assert_eq!(m.ambient_color, Vec3Bits::new(1, 2, 3));
    assert_eq!(m.diffuse_color, Vec3Bits::new(4, 5, 6));
    assert_eq!(m.specular_color, Vec3Bits::new(7, 8, 9));
}
