use glam::{Mat4, Vec3};
use wvt::camera::Camera;
use wvt::math::{model_transform, Mat4Bits, Vec3Bits};

fn bits3(v: Vec3) -> Vec3Bits {
    Vec3Bits { x: v.x.to_bits(), y: v.y.to_bits(), z: v.z.to_bits() }
}

fn mat_words(m: Mat4) -> [u32; 16] {
    bytemuck::cast(m)
}

#[test]
fn identity_matches_glam() {
    assert_eq!(Mat4Bits::identity().m, mat_words(Mat4::IDENTITY));
}

#[test]
fn proj_view_composes_exactly() {
    // The camera's cached matrix is the projection times the left-handed
    // look-at view matrix, exactly as glam computes them.
    let eye = Vec3::new(0.0, 1.0, -2.0);
    let center = Vec3::new(0.0, 0.0, 1.0);
    let up = Vec3::Y;
    let proj = Mat4::perspective_lh(90.0_f32.to_radians(), 800.0 / 600.0, 0.01, 5.0);
    let got = Camera::proj_view_mat(
        &Mat4Bits { m: bytemuck::cast(proj) },
        &bits3(eye),
        &bits3(center),
        &bits3(up),
    );
    assert_eq!(got.m, mat_words(proj.mul_mat4(&Mat4::look_at_lh(eye, center, up))));
}

#[test]
fn proj_view_depends_on_view_parameters() {
    let proj = Mat4::perspective_lh(90.0_f32.to_radians(), 1.0, 0.01, 5.0);
    let pb = Mat4Bits { m: bytemuck::cast(proj) };
    let up = bits3(Vec3::Y);
    let a = Camera::proj_view_mat(&pb, &bits3(Vec3::new(0.0, 1.0, -2.0)), &bits3(Vec3::ZERO), &up);
    let b = Camera::proj_view_mat(&pb, &bits3(Vec3::new(3.0, 1.0, -2.0)), &bits3(Vec3::ZERO), &up);
    assert_ne!(a.m, b.m);
}

#[test]
fn model_transform_matches_glam() {
    // translation · rotation(axis, degrees) · scale, with the angle given in
    // whole degrees; a wrapper that returned its argument unchanged would
    // change every entry here.
    let t = Vec3::new(0.3, 0.5, 0.0);
    let axis = Vec3::Z;
    let s = Vec3::new(2.0, 0.4, 1.0);
    let got = model_transform(&bits3(t), &bits3(axis), 20, &bits3(s));
    let expected = Mat4::from_translation(t)
        .mul_mat4(&Mat4::from_axis_angle(axis, (20.0_f32).to_radians()))
        .mul_mat4(&Mat4::from_scale(s));
    assert_eq!(got.m, mat_words(expected));
}

#[test]
fn model_transform_about_x_axis() {
    let t = Vec3::new(0.0, 0.0, 3.0);
    let axis = Vec3::X;
    let s = Vec3::ONE;
    for deg in [0u32, 1, 90, 359] {
        let got = model_transform(&bits3(t), &bits3(axis), deg, &bits3(s));
        let expected = Mat4::from_translation(t)
            .mul_mat4(&Mat4::from_axis_angle(axis, (deg as f32).to_radians()))
            .mul_mat4(&Mat4::from_scale(s));
        assert_eq!(got.m, mat_words(expected));
    }
}

#[test]
fn resize_changes_only_aspect_terms() {
    // A resize from 800x600 to 1600x900 changes the projection's aspect
    // ratio; in a left-handed perspective matrix only the top row depends on
    // it, so in the combined matrix the top row changes and every other
    // entry — all derived from eye, center and up — stays identical.
    let eye = Vec3::new(1.0, 2.0, -3.0);
    let center = Vec3::new(0.25, -0.5, 4.0);
    let up = Vec3::Y;
    let fov = 90.0_f32.to_radians();
    let p1 = Mat4::perspective_lh(fov, 800.0 / 600.0, 0.01, 5.0);
    let p2 = Mat4::perspective_lh(fov, 1600.0 / 900.0, 0.01, 5.0);
    let m1 = Camera::proj_view_mat(
        &Mat4Bits { m: bytemuck::cast(p1) },
        &bits3(eye),
        &bits3(center),
        &bits3(up),
    );
    let m2 = Camera::proj_view_mat(
        &Mat4Bits { m: bytemuck::cast(p2) },
        &bits3(eye),
        &bits3(center),
        &bits3(up),
    );
    assert_eq!(m1.m, mat_words(p1.mul_mat4(&Mat4::look_at_lh(eye, center, up))));
    assert_eq!(m2.m, mat_words(p2.mul_mat4(&Mat4::look_at_lh(eye, center, up))));
    let mut top_row_changed = 0;
    for col in 0..4 {
        let i = 4 * col; // column-major: row 0 of each column
        if m1.m[i] != m2.m[i] {
            top_row_changed += 1;
        }
        for row in 1..4 {
            assert_eq!(m1.m[4 * col + row], m2.m[4 * col + row]);
        }
    }
    assert!(top_row_changed > 0);
}
