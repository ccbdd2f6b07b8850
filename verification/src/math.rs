//! Plain-value vector and matrix types.
//!
//! Every component is carried as a raw 32-bit word holding an IEEE-754 bit
//! pattern. The core never computes with these values; it stores them,
//! uploads them, and combines whole matrices through `glam`, which works on
//! the same bit patterns behind trusted wrappers. The result of each `glam`
//! call is given a name (an uninterpreted spec function): contracts speak of
//! those names exactly, and tests compare the wrappers against `glam` itself.

use vstd::prelude::*;
use crate::buffers::uniform::UniformBufferData;

verus! {

/// Bit pattern of `1.0_f32`.
pub const WORD_ONE: u32 = 0x3f80_0000;
/// Bit pattern of `0.0_f32`.
pub const WORD_ZERO: u32 = 0x0000_0000;

/// A two-component vector of raw words.
#[derive(Clone, Copy, Debug, PartialEq, Eq, Structural)]
pub struct Vec2Bits {
    pub x: u32,
    pub y: u32,
}

/// A three-component vector of raw words.
#[derive(Clone, Copy, Debug, PartialEq, Eq, Structural)]
pub struct Vec3Bits {
    pub x: u32,
    pub y: u32,
    pub z: u32,
}

/// A four-component vector of raw words.
#[derive(Clone, Copy, Debug, PartialEq, Eq, Structural)]
pub struct Vec4 {
    pub x: u32,
    pub y: u32,
    pub z: u32,
    pub w: u32,
}

/// A 4x4 matrix as sixteen raw words in column-major order.
#[derive(Clone, Copy, Debug)]
pub struct Mat4Bits {
    pub m: [u32; 16],
}

impl View for Vec2Bits {
    type V = Seq<u32>;

    open spec fn view(&self) -> Seq<u32> {
        seq![self.x, self.y]
    }
}

impl View for Vec3Bits {
    type V = Seq<u32>;

    open spec fn view(&self) -> Seq<u32> {
        seq![self.x, self.y, self.z]
    }
}

impl View for Vec4 {
    type V = Seq<u32>;

    open spec fn view(&self) -> Seq<u32> {
        seq![self.x, self.y, self.z, self.w]
    }
}

impl View for Mat4Bits {
    type V = Seq<u32>;

    open spec fn view(&self) -> Seq<u32> {
        self.m@
    }
}

impl Vec2Bits {
    pub fn new(x: u32, y: u32) -> (r: Self)
        ensures
            r.x == x && r.y == y,
    {
        Vec2Bits { x, y }
    }
}

impl Vec3Bits {
    pub fn new(x: u32, y: u32, z: u32) -> (r: Self)
        ensures
            r.x == x && r.y == y && r.z == z,
    {
        Vec3Bits { x, y, z }
    }
}

impl Vec4 {
    pub fn new(x: u32, y: u32, z: u32, w: u32) -> (r: Self)
        ensures
            r.x == x && r.y == y && r.z == z && r.w == w,
    {
        Vec4 { x, y, z, w }
    }
}

/// The words of the identity matrix, column-major.
pub open spec fn identity_words() -> Seq<u32> {
    seq![
        WORD_ONE, WORD_ZERO, WORD_ZERO, WORD_ZERO,
        WORD_ZERO, WORD_ONE, WORD_ZERO, WORD_ZERO,
        WORD_ZERO, WORD_ZERO, WORD_ONE, WORD_ZERO,
        WORD_ZERO, WORD_ZERO, WORD_ZERO, WORD_ONE,
    ]
}

impl Mat4Bits {
    /// The identity matrix.
    pub fn identity() -> (r: Self)
        ensures
            r@ == identity_words(),
    {
        let r = Mat4Bits {
            m: [
                WORD_ONE, WORD_ZERO, WORD_ZERO, WORD_ZERO,
                WORD_ZERO, WORD_ONE, WORD_ZERO, WORD_ZERO,
                WORD_ZERO, WORD_ZERO, WORD_ONE, WORD_ZERO,
                WORD_ZERO, WORD_ZERO, WORD_ZERO, WORD_ONE,
            ],
        };
        proof {
            assert(r@ =~= identity_words());
        }
        r
    }
}

impl UniformBufferData for Vec2Bits {
    open spec fn word_view(&self) -> Seq<u32> {
        seq![self.x, self.y]
    }

    open spec fn word_count() -> nat {
        2
    }

    proof fn words_fixed(&self) {
    }

    fn raw_view(&self) -> (r: Vec<u32>) {
        let mut r: Vec<u32> = Vec::new();
        r.push(self.x);
        r.push(self.y);
        proof {
            assert(r@ =~= self.word_view());
        }
        r
    }
}

impl UniformBufferData for Vec4 {
    open spec fn word_view(&self) -> Seq<u32> {
        seq![self.x, self.y, self.z, self.w]
    }

    open spec fn word_count() -> nat {
        4
    }

    proof fn words_fixed(&self) {
    }

    fn raw_view(&self) -> (r: Vec<u32>) {
        let mut r: Vec<u32> = Vec::new();
        r.push(self.x);
        r.push(self.y);
        r.push(self.z);
        r.push(self.w);
        proof {
            assert(r@ =~= self.word_view());
        }
        r
    }
}

impl UniformBufferData for Mat4Bits {
    open spec fn word_view(&self) -> Seq<u32> {
        self.m@
    }

    open spec fn word_count() -> nat {
        16
    }

    proof fn words_fixed(&self) {
    }

    fn raw_view(&self) -> (r: Vec<u32>) {
        let mut r: Vec<u32> = Vec::new();
        for i in 0..16usize
            invariant
                r@ =~= self.m@.subrange(0, i as int),
        {
            r.push(self.m[i]);
        }
        proof {
            assert(r@ =~= self.word_view());
        }
        r
    }
}

/// The left-handed view matrix that `glam::Mat4::look_at_lh` computes.
pub uninterp spec fn look_at_of(eye: Seq<u32>, center: Seq<u32>, up: Seq<u32>) -> Seq<u32>;

/// The matrix product that `glam::Mat4::mul_mat4` computes.
pub uninterp spec fn mat_mul_of(a: Seq<u32>, b: Seq<u32>) -> Seq<u32>;

/// The translation matrix that `glam::Mat4::from_translation` computes.
pub uninterp spec fn translation_of(v: Seq<u32>) -> Seq<u32>;

/// The scale matrix that `glam::Mat4::from_scale` computes.
pub uninterp spec fn scale_of(v: Seq<u32>) -> Seq<u32>;

/// The rotation matrix that `glam::Mat4::from_axis_angle` computes, for an
/// axis and an angle in radians (as a raw word).
pub uninterp spec fn axis_angle_of(axis: Seq<u32>, radians: u32) -> Seq<u32>;

/// The radian value (as a raw word) that `f32::to_radians` computes from a
/// whole number of degrees.
pub uninterp spec fn radians_of(degrees: u32) -> u32;

/// Relies on `glam::Mat4::look_at_lh`: the result depends on eye, center and
/// up alone.
#[verifier::external_body]
pub(crate) fn look_at_bits(eye: &Vec3Bits, center: &Vec3Bits, up: &Vec3Bits) -> (r: Mat4Bits)
    ensures
        r@ == look_at_of(eye@, center@, up@),
{
    let e = glam::Vec3::new(bytemuck::cast(eye.x), bytemuck::cast(eye.y), bytemuck::cast(eye.z));
    let c = glam::Vec3::new(
        bytemuck::cast(center.x),
        bytemuck::cast(center.y),
        bytemuck::cast(center.z),
    );
    let u = glam::Vec3::new(bytemuck::cast(up.x), bytemuck::cast(up.y), bytemuck::cast(up.z));
    Mat4Bits { m: bytemuck::cast(glam::Mat4::look_at_lh(e, c, u)) }
}

/// Relies on `glam::Mat4::mul_mat4`: the result depends on the two operands
/// alone.
#[verifier::external_body]
pub(crate) fn mat_mul_bits(a: &Mat4Bits, b: &Mat4Bits) -> (r: Mat4Bits)
    ensures
        r@ == mat_mul_of(a@, b@),
{
    let ga: glam::Mat4 = bytemuck::cast(a.m);
    let gb: glam::Mat4 = bytemuck::cast(b.m);
    Mat4Bits { m: bytemuck::cast(ga.mul_mat4(&gb)) }
}

/// Relies on `glam::Mat4::from_translation`: the result depends on the
/// translation vector alone.
#[verifier::external_body]
pub(crate) fn translation_bits(v: &Vec3Bits) -> (r: Mat4Bits)
    ensures
        r@ == translation_of(v@),
{
    let g = glam::Vec3::new(bytemuck::cast(v.x), bytemuck::cast(v.y), bytemuck::cast(v.z));
    Mat4Bits { m: bytemuck::cast(glam::Mat4::from_translation(g)) }
}

/// Relies on `glam::Mat4::from_scale`: the result depends on the scale vector
/// alone.
#[verifier::external_body]
pub(crate) fn scale_bits(v: &Vec3Bits) -> (r: Mat4Bits)
    ensures
        r@ == scale_of(v@),
{
    let g = glam::Vec3::new(bytemuck::cast(v.x), bytemuck::cast(v.y), bytemuck::cast(v.z));
    Mat4Bits { m: bytemuck::cast(glam::Mat4::from_scale(g)) }
}

/// Relies on `glam::Mat4::from_axis_angle`: the result depends on the axis
/// and the angle alone. The angle is a radian value as a raw word.
#[verifier::external_body]
pub(crate) fn axis_angle_bits(axis: &Vec3Bits, radians: u32) -> (r: Mat4Bits)
    ensures
        r@ == axis_angle_of(axis@, radians),
{
    let g = glam::Vec3::new(
        bytemuck::cast(axis.x),
        bytemuck::cast(axis.y),
        bytemuck::cast(axis.z),
    );
    Mat4Bits { m: bytemuck::cast(glam::Mat4::from_axis_angle(g, bytemuck::cast(radians))) }
}

/// Relies on `f32::to_radians`: the result depends on the degree count alone.
/// `glam::Vec2::splat` only carries the integer argument into a float value.
#[verifier::external_body]
pub(crate) fn radians_bits(degrees: u32) -> (r: u32)
    ensures
        r == radians_of(degrees),
{
    glam::Vec2::splat(degrees as _).x.to_radians().to_bits()
}

/// The words of a composed model transform: translation, then a rotation of
/// the given whole-degree angle about the given axis, then a scale.
pub open spec fn model_transform_words(
    translation: Seq<u32>,
    axis: Seq<u32>,
    angle_deg: u32,
    scale: Seq<u32>,
) -> Seq<u32> {
    mat_mul_of(
        mat_mul_of(translation_of(translation), axis_angle_of(axis, radians_of(angle_deg))),
        scale_of(scale),
    )
}

/// Composes a model transform as translation · rotation · scale, the shape
/// every animated pipeline recomputes each update.
pub fn model_transform(
    translation: &Vec3Bits,
    axis: &Vec3Bits,
    angle_deg: u32,
    scale: &Vec3Bits,
) -> (r: Mat4Bits)
    ensures
        r@ == model_transform_words(translation@, axis@, angle_deg, scale@),
{
    let t = translation_bits(translation);
    let rot = axis_angle_bits(axis, radians_bits(angle_deg));
    let s = scale_bits(scale);
    let t_rot = mat_mul_bits(&t, &rot);
    mat_mul_bits(&t_rot, &s)
}

} // verus!
