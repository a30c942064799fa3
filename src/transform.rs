//! Matrices and vectors, held as glam values and combined through glam.
use glam::{Mat4, Vec3, Vec4};
use vstd::prelude::*;

verus! {

#[verifier::external_type_specification]
#[verifier::external_body]
pub struct ExMat4(Mat4);

#[verifier::external_type_specification]
#[verifier::external_body]
pub struct ExVec3(Vec3);

#[verifier::external_type_specification]
#[verifier::external_body]
pub struct ExVec4(Vec4);

/// The product `a * b` of two matrices.
pub uninterp spec fn product_of(a: Mat4, b: Mat4) -> Mat4;

/// The translation matrix for an offset.
pub uninterp spec fn translation_of(v: Vec3) -> Mat4;

/// The scaling matrix for three factors.
pub uninterp spec fn scaling_of(v: Vec3) -> Mat4;

/// The left-handed view matrix for an eye, a focal point and an up vector.
pub uninterp spec fn look_at_of(eye: Vec3, center: Vec3, up: Vec3) -> Mat4;

/// The inverse of a matrix.
pub uninterp spec fn inverse_of(m: Mat4) -> Mat4;

/// Relies on glam's `Mat4::IDENTITY`.
#[verifier::external_body]
pub(crate) fn identity() -> (r: Mat4) {
    Mat4::IDENTITY
}

/// Relies on glam's `Mat4 * Mat4`, which depends on its two operands alone.
#[verifier::external_body]
pub(crate) fn mat_mul(a: &Mat4, b: &Mat4) -> (r: Mat4)
    ensures
        r == product_of(*a, *b),
{
    *a * *b
}

/// Relies on glam's `Mat4::from_translation`.
#[verifier::external_body]
pub(crate) fn from_translation(v: &Vec3) -> (r: Mat4)
    ensures
        r == translation_of(*v),
{
    Mat4::from_translation(*v)
}

/// Relies on glam's `Mat4::from_scale`, which does not panic without the
/// `glam-assert` features.
#[verifier::external_body]
pub(crate) fn from_scale(v: &Vec3) -> (r: Mat4)
    ensures
        r == scaling_of(*v),
{
    Mat4::from_scale(*v)
}

/// Relies on glam's `Mat4::from_axis_angle`; the angle is `v.x`, the axis
/// `(v.y, v.z, v.w)`. Its sine and cosine come from std, whose precision is
/// not fixed, so nothing is claimed of the result.
#[verifier::external_body]
pub(crate) fn from_angle_axis(v: &Vec4) -> (r: Mat4)
{
    Mat4::from_axis_angle(Vec3::new(v.y, v.z, v.w), v.x)
}

/// Relies on glam's `camera::lh::view::look_at_mat4`.
#[verifier::external_body]
pub(crate) fn look_at(eye: &Vec3, center: &Vec3, up: &Vec3) -> (r: Mat4)
    ensures
        r == look_at_of(*eye, *center, *up),
{
    glam::camera::lh::view::look_at_mat4(*eye, *center, *up)
}

/// Relies on glam's `Mat4::inverse`, which does not panic without the
/// `glam-assert` features.
#[verifier::external_body]
pub(crate) fn inverse(m: &Mat4) -> (r: Mat4)
    ensures
        r == inverse_of(*m),
{
    m.inverse()
}

} // verus!
