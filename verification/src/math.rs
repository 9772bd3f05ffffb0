//! The math kernel: 3-component vectors, 4-component homogeneous vectors,
//! and 4x3 affine matrices (a rotation/scale block and a translation
//! column), all over the fixed-point scalar.
//!
//! Every operation's contract states the result exactly as a composition
//! of the scalar operations.  The adjugate round-trip law
//! (`lemma_affine_inverse_round_trip`) is stated over an exact integer
//! model of the same formulas, where no rounding intervenes.

use vstd::prelude::*;

use crate::fixed::Fx;

verus! {

/// A 3-component vector.
#[derive(Clone, Copy, Debug, PartialEq, Eq, Structural)]
pub struct Vec3(pub Fx, pub Fx, pub Fx);

/// A homogeneous 4-component vector: `w == 1` for points, `w == 0` for
/// displacements, which translation then leaves unchanged.
#[derive(Clone, Copy, Debug, PartialEq, Eq, Structural)]
pub struct Vec4(pub Fx, pub Fx, pub Fx, pub Fx);

/// A 4x3 affine matrix: three rows of four columns; the fourth column is
/// the translation.  Acting on `(x, y, z, w)` it yields
/// `(row_i . (x, y, z) + m_i3 * w)` per component.
#[derive(Clone, Copy, Debug, PartialEq, Eq, Structural)]
pub struct Mat4(pub Vec4, pub Vec4, pub Vec4);

pub open spec fn dot3_v(a: Fx, b: Fx, c: Fx, x: Fx, y: Fx, z: Fx) -> Fx {
    a.mul_v(x).add_v(b.mul_v(y)).add_v(c.mul_v(z))
}

pub fn dot3(a: Fx, b: Fx, c: Fx, x: Fx, y: Fx, z: Fx) -> (r: Fx)
    ensures
        r == dot3_v(a, b, c, x, y, z),
{
    a.mul(x).add(b.mul(y)).add(c.mul(z))
}

impl Vec3 {
    pub open spec fn add_v(self, o: Vec3) -> Vec3 {
        Vec3(self.0.add_v(o.0), self.1.add_v(o.1), self.2.add_v(o.2))
    }

    /// Component-wise vector addition.
    pub fn add(self, o: Vec3) -> (r: Vec3)
        ensures
            r == self.add_v(o),
    {
        Vec3(self.0.add(o.0), self.1.add(o.1), self.2.add(o.2))
    }

    pub open spec fn sub_v(self, o: Vec3) -> Vec3 {
        Vec3(self.0.sub_v(o.0), self.1.sub_v(o.1), self.2.sub_v(o.2))
    }

    /// Component-wise vector subtraction.
    pub fn sub(self, o: Vec3) -> (r: Vec3)
        ensures
            r == self.sub_v(o),
    {
        Vec3(self.0.sub(o.0), self.1.sub(o.1), self.2.sub(o.2))
    }

    pub open spec fn scale_v(self, s: Fx) -> Vec3 {
        Vec3(self.0.mul_v(s), self.1.mul_v(s), self.2.mul_v(s))
    }

    /// Scaling by a scalar.
    pub fn scale(self, s: Fx) -> (r: Vec3)
        ensures
            r == self.scale_v(s),
    {
        Vec3(self.0.mul(s), self.1.mul(s), self.2.mul(s))
    }

    pub open spec fn div_scalar_v(self, s: Fx) -> Vec3 {
        Vec3(self.0.div_v(s), self.1.div_v(s), self.2.div_v(s))
    }

    /// Division by a scalar; a zero divisor yields the zero vector.
    pub fn div_scalar(self, s: Fx) -> (r: Vec3)
        ensures
            r == self.div_scalar_v(s),
    {
        Vec3(self.0.div(s), self.1.div(s), self.2.div(s))
    }

    pub open spec fn dot_v(self, o: Vec3) -> Fx {
        dot3_v(self.0, self.1, self.2, o.0, o.1, o.2)
    }

    /// The dot product.
    pub fn dot(self, o: Vec3) -> (r: Fx)
        ensures
            r == self.dot_v(o),
    {
        dot3(self.0, self.1, self.2, o.0, o.1, o.2)
    }

    pub open spec fn cross_v(self, o: Vec3) -> Vec3 {
        Vec3(
            self.1.mul_v(o.2).sub_v(self.2.mul_v(o.1)),
            self.2.mul_v(o.0).sub_v(self.0.mul_v(o.2)),
            self.0.mul_v(o.1).sub_v(self.1.mul_v(o.0)),
        )
    }

    /// The cross product, orthogonal to both arguments.
    pub fn cross(self, o: Vec3) -> (r: Vec3)
        ensures
            r == self.cross_v(o),
    {
        Vec3(
            self.1.mul(o.2).sub(self.2.mul(o.1)),
            self.2.mul(o.0).sub(self.0.mul(o.2)),
            self.0.mul(o.1).sub(self.1.mul(o.0)),
        )
    }

    pub open spec fn inverse_v(self) -> Vec3 {
        Vec3(
            Fx::one_v().div_v(self.0),
            Fx::one_v().div_v(self.1),
            Fx::one_v().div_v(self.2),
        )
    }

    /// The component-wise reciprocal; zero components yield zero.
    pub fn inverse(self) -> (r: Vec3)
        ensures
            r == self.inverse_v(),
    {
        Vec3(
            Fx::one().div(self.0),
            Fx::one().div(self.1),
            Fx::one().div(self.2),
        )
    }

    pub open spec fn length_squared_v(self) -> Fx {
        self.dot_v(self)
    }

    /// The squared Euclidean length.
    pub fn length_squared(self) -> (r: Fx)
        ensures
            r == self.length_squared_v(),
    {
        self.dot(self)
    }

    pub open spec fn length_v(self) -> Fx {
        self.length_squared_v().sqrt_v()
    }

    /// The Euclidean length, rounded down to the fixed-point grid.
    pub fn length(self) -> (r: Fx)
        ensures
            r == self.length_v(),
    {
        self.length_squared().sqrt()
    }

    pub open spec fn normalize_v(self) -> Vec3 {
        self.div_scalar_v(self.length_v())
    }

    /// The vector scaled to unit length; the zero vector (or any vector
    /// whose squared length rounds to zero) yields the zero vector.
    pub fn normalize(self) -> (r: Vec3)
        ensures
            r == self.normalize_v(),
    {
        self.div_scalar(self.length())
    }

    pub open spec fn neg_v(self) -> Vec3 {
        Vec3(self.0.neg_v(), self.1.neg_v(), self.2.neg_v())
    }

    /// The opposite vector.
    pub fn neg(self) -> (r: Vec3)
        ensures
            r == self.neg_v(),
    {
        Vec3(self.0.neg(), self.1.neg(), self.2.neg())
    }

    pub open spec fn from_vec4_v(v: Vec4) -> Vec3 {
        Vec3(v.0, v.1, v.2)
    }

    /// The spatial components of a homogeneous vector.
    pub fn from_vec4(v: Vec4) -> (r: Vec3)
        ensures
            r == Vec3::from_vec4_v(v),
    {
        Vec3(v.0, v.1, v.2)
    }
}

impl Vec4 {
    pub open spec fn from_position_v(position: Vec3) -> Vec4 {
        Vec4(position.0, position.1, position.2, Fx::one_v())
    }

    /// Lift a point to homogeneous coordinates (`w == 1`).
    pub fn from_position(position: Vec3) -> (r: Vec4)
        ensures
            r == Vec4::from_position_v(position),
    {
        Vec4(position.0, position.1, position.2, Fx::one())
    }

    pub open spec fn from_movement_v(movement: Vec3) -> Vec4 {
        Vec4(movement.0, movement.1, movement.2, Fx::zero_v())
    }

    /// Lift a displacement to homogeneous coordinates (`w == 0`), so that
    /// the translation column of a matrix does not affect it.
    pub fn from_movement(movement: Vec3) -> (r: Vec4)
        ensures
            r == Vec4::from_movement_v(movement),
    {
        Vec4(movement.0, movement.1, movement.2, Fx::zero())
    }

    pub open spec fn apply_v(self, m: Mat4) -> Vec4 {
        Vec4(
            dot3_v(m.0.0, m.0.1, m.0.2, self.0, self.1, self.2).add_v(m.0.3.mul_v(self.3)),
            dot3_v(m.1.0, m.1.1, m.1.2, self.0, self.1, self.2).add_v(m.1.3.mul_v(self.3)),
            dot3_v(m.2.0, m.2.1, m.2.2, self.0, self.1, self.2).add_v(m.2.3.mul_v(self.3)),
            self.3,
        )
    }

    /// Apply an affine matrix to a homogeneous vector: the linear block
    /// acts on the spatial part and the translation column is weighted by
    /// `w`, which itself is kept.
    pub fn apply(self, m: Mat4) -> (r: Vec4)
        ensures
            r == self.apply_v(m),
    {
        Vec4(
            dot3(m.0.0, m.0.1, m.0.2, self.0, self.1, self.2).add(m.0.3.mul(self.3)),
            dot3(m.1.0, m.1.1, m.1.2, self.0, self.1, self.2).add(m.1.3.mul(self.3)),
            dot3(m.2.0, m.2.1, m.2.2, self.0, self.1, self.2).add(m.2.3.mul(self.3)),
            self.3,
        )
    }
}

impl Mat4 {
    pub open spec fn mul_v(self, o: Mat4) -> Mat4 {
        Mat4(
            Vec4(
                dot3_v(self.0.0, self.0.1, self.0.2, o.0.0, o.1.0, o.2.0),
                dot3_v(self.0.0, self.0.1, self.0.2, o.0.1, o.1.1, o.2.1),
                dot3_v(self.0.0, self.0.1, self.0.2, o.0.2, o.1.2, o.2.2),
                dot3_v(self.0.0, self.0.1, self.0.2, o.0.3, o.1.3, o.2.3).add_v(self.0.3),
            ),
            Vec4(
                dot3_v(self.1.0, self.1.1, self.1.2, o.0.0, o.1.0, o.2.0),
                dot3_v(self.1.0, self.1.1, self.1.2, o.0.1, o.1.1, o.2.1),
                dot3_v(self.1.0, self.1.1, self.1.2, o.0.2, o.1.2, o.2.2),
                dot3_v(self.1.0, self.1.1, self.1.2, o.0.3, o.1.3, o.2.3).add_v(self.1.3),
            ),
            Vec4(
                dot3_v(self.2.0, self.2.1, self.2.2, o.0.0, o.1.0, o.2.0),
                dot3_v(self.2.0, self.2.1, self.2.2, o.0.1, o.1.1, o.2.1),
                dot3_v(self.2.0, self.2.1, self.2.2, o.0.2, o.1.2, o.2.2),
                dot3_v(self.2.0, self.2.1, self.2.2, o.0.3, o.1.3, o.2.3).add_v(self.2.3),
            ),
        )
    }

    /// Matrix composition: applying the product applies `o` first, then
    /// `self`; the translation column accumulates additively.
    pub fn mul(self, o: Mat4) -> (r: Mat4)
        ensures
            r == self.mul_v(o),
    {
        Mat4(
            Vec4(
                dot3(self.0.0, self.0.1, self.0.2, o.0.0, o.1.0, o.2.0),
                dot3(self.0.0, self.0.1, self.0.2, o.0.1, o.1.1, o.2.1),
                dot3(self.0.0, self.0.1, self.0.2, o.0.2, o.1.2, o.2.2),
                dot3(self.0.0, self.0.1, self.0.2, o.0.3, o.1.3, o.2.3).add(self.0.3),
            ),
            Vec4(
                dot3(self.1.0, self.1.1, self.1.2, o.0.0, o.1.0, o.2.0),
                dot3(self.1.0, self.1.1, self.1.2, o.0.1, o.1.1, o.2.1),
                dot3(self.1.0, self.1.1, self.1.2, o.0.2, o.1.2, o.2.2),
                dot3(self.1.0, self.1.1, self.1.2, o.0.3, o.1.3, o.2.3).add(self.1.3),
            ),
            Vec4(
                dot3(self.2.0, self.2.1, self.2.2, o.0.0, o.1.0, o.2.0),
                dot3(self.2.0, self.2.1, self.2.2, o.0.1, o.1.1, o.2.1),
                dot3(self.2.0, self.2.1, self.2.2, o.0.2, o.1.2, o.2.2),
                dot3(self.2.0, self.2.1, self.2.2, o.0.3, o.1.3, o.2.3).add(self.2.3),
            ),
        )
    }

    pub open spec fn inverse_v(self) -> Mat4 {
        let Mat4(
            Vec4(m00, m01, m02, m03),
            Vec4(m10, m11, m12, m13),
            Vec4(m20, m21, m22, m23),
        ) = self;
        let c00 = m11.mul_v(m22).sub_v(m12.mul_v(m21));
        let c01 = m10.mul_v(m22).sub_v(m12.mul_v(m20));
        let c02 = m10.mul_v(m21).sub_v(m11.mul_v(m20));
        let det = m00.mul_v(c00).sub_v(m01.mul_v(c01)).add_v(m02.mul_v(c02));
        let inv00 = c00.div_v(det);
        let inv01 = m01.mul_v(m22).sub_v(m02.mul_v(m21)).neg_v().div_v(det);
        let inv02 = m01.mul_v(m12).sub_v(m02.mul_v(m11)).div_v(det);
        let inv10 = c01.neg_v().div_v(det);
        let inv11 = m00.mul_v(m22).sub_v(m02.mul_v(m20)).div_v(det);
        let inv12 = m00.mul_v(m12).sub_v(m02.mul_v(m10)).neg_v().div_v(det);
        let inv20 = c02.div_v(det);
        let inv21 = m00.mul_v(m21).sub_v(m01.mul_v(m20)).neg_v().div_v(det);
        let inv22 = m00.mul_v(m11).sub_v(m01.mul_v(m10)).div_v(det);
        let inv03 = dot3_v(m03, m13, m23, inv00, inv01, inv02).neg_v();
        let inv13 = dot3_v(m03, m13, m23, inv10, inv11, inv12).neg_v();
        let inv23 = dot3_v(m03, m13, m23, inv20, inv21, inv22).neg_v();
        Mat4(
            Vec4(inv00, inv01, inv02, inv03),
            Vec4(inv10, inv11, inv12, inv13),
            Vec4(inv20, inv21, inv22, inv23),
        )
    }

    /// Inversion by the cofactor/adjugate method: each cofactor is divided
    /// by the determinant, then the translation column is solved.  A
    /// singular linear block makes the divisor zero, and by the division
    /// policy the result is then meaningless, as documented: callers must
    /// supply invertible transforms.
    pub fn inverse(self) -> (r: Mat4)
        ensures
            r == self.inverse_v(),
    {
        let Mat4(
            Vec4(m00, m01, m02, m03),
            Vec4(m10, m11, m12, m13),
            Vec4(m20, m21, m22, m23),
        ) = self;
        let c00 = m11.mul(m22).sub(m12.mul(m21));
        let c01 = m10.mul(m22).sub(m12.mul(m20));
        let c02 = m10.mul(m21).sub(m11.mul(m20));
        let det = m00.mul(c00).sub(m01.mul(c01)).add(m02.mul(c02));
        let inv00 = c00.div(det);
        let inv01 = m01.mul(m22).sub(m02.mul(m21)).neg().div(det);
        let inv02 = m01.mul(m12).sub(m02.mul(m11)).div(det);
        let inv10 = c01.neg().div(det);
        let inv11 = m00.mul(m22).sub(m02.mul(m20)).div(det);
        let inv12 = m00.mul(m12).sub(m02.mul(m10)).neg().div(det);
        let inv20 = c02.div(det);
        let inv21 = m00.mul(m21).sub(m01.mul(m20)).neg().div(det);
        let inv22 = m00.mul(m11).sub(m01.mul(m10)).div(det);
        let inv03 = dot3(m03, m13, m23, inv00, inv01, inv02).neg();
        let inv13 = dot3(m03, m13, m23, inv10, inv11, inv12).neg();
        let inv23 = dot3(m03, m13, m23, inv20, inv21, inv22).neg();
        Mat4(
            Vec4(inv00, inv01, inv02, inv03),
            Vec4(inv10, inv11, inv12, inv13),
            Vec4(inv20, inv21, inv22, inv23),
        )
    }

    pub open spec fn identity_v() -> Mat4 {
        Mat4(
            Vec4(Fx::one_v(), Fx::zero_v(), Fx::zero_v(), Fx::zero_v()),
            Vec4(Fx::zero_v(), Fx::one_v(), Fx::zero_v(), Fx::zero_v()),
            Vec4(Fx::zero_v(), Fx::zero_v(), Fx::one_v(), Fx::zero_v()),
        )
    }

    /// The identity map.
    pub fn identity() -> (r: Mat4)
        ensures
            r == Mat4::identity_v(),
    {
        Mat4(
            Vec4(Fx::one(), Fx::zero(), Fx::zero(), Fx::zero()),
            Vec4(Fx::zero(), Fx::one(), Fx::zero(), Fx::zero()),
            Vec4(Fx::zero(), Fx::zero(), Fx::one(), Fx::zero()),
        )
    }

    pub open spec fn translate_v(x: Fx, y: Fx, z: Fx) -> Mat4 {
        Mat4(
            Vec4(Fx::one_v(), Fx::zero_v(), Fx::zero_v(), x),
            Vec4(Fx::zero_v(), Fx::one_v(), Fx::zero_v(), y),
            Vec4(Fx::zero_v(), Fx::zero_v(), Fx::one_v(), z),
        )
    }

    /// The translation by `(x, y, z)`.
    pub fn translate(x: Fx, y: Fx, z: Fx) -> (r: Mat4)
        ensures
            r == Mat4::translate_v(x, y, z),
    {
        Mat4(
            Vec4(Fx::one(), Fx::zero(), Fx::zero(), x),
            Vec4(Fx::zero(), Fx::one(), Fx::zero(), y),
            Vec4(Fx::zero(), Fx::zero(), Fx::one(), z),
        )
    }

    pub open spec fn rotate_x_by_trigonometric_v(cos: Fx, sin: Fx) -> Mat4 {
        Mat4(
            Vec4(Fx::one_v(), Fx::zero_v(), Fx::zero_v(), Fx::zero_v()),
            Vec4(Fx::zero_v(), cos, sin.neg_v(), Fx::zero_v()),
            Vec4(Fx::zero_v(), sin, cos, Fx::zero_v()),
        )
    }

    /// The rotation about the x axis with the given cosine and sine.
    pub fn rotate_x_by_trigonometric(cos: Fx, sin: Fx) -> (r: Mat4)
        ensures
            r == Mat4::rotate_x_by_trigonometric_v(cos, sin),
    {
        Mat4(
            Vec4(Fx::one(), Fx::zero(), Fx::zero(), Fx::zero()),
            Vec4(Fx::zero(), cos, sin.neg(), Fx::zero()),
            Vec4(Fx::zero(), sin, cos, Fx::zero()),
        )
    }

    pub open spec fn rotate_y_by_trigonometric_v(cos: Fx, sin: Fx) -> Mat4 {
        Mat4(
            Vec4(cos, Fx::zero_v(), sin, Fx::zero_v()),
            Vec4(Fx::zero_v(), Fx::one_v(), Fx::zero_v(), Fx::zero_v()),
            Vec4(sin.neg_v(), Fx::zero_v(), cos, Fx::zero_v()),
        )
    }

    /// The rotation about the y axis with the given cosine and sine.
    pub fn rotate_y_by_trigonometric(cos: Fx, sin: Fx) -> (r: Mat4)
        ensures
            r == Mat4::rotate_y_by_trigonometric_v(cos, sin),
    {
        Mat4(
            Vec4(cos, Fx::zero(), sin, Fx::zero()),
            Vec4(Fx::zero(), Fx::one(), Fx::zero(), Fx::zero()),
            Vec4(sin.neg(), Fx::zero(), cos, Fx::zero()),
        )
    }

    pub open spec fn rotate_z_by_trigonometric_v(cos: Fx, sin: Fx) -> Mat4 {
        Mat4(
            Vec4(cos, sin.neg_v(), Fx::zero_v(), Fx::zero_v()),
            Vec4(sin, cos, Fx::zero_v(), Fx::zero_v()),
            Vec4(Fx::zero_v(), Fx::zero_v(), Fx::one_v(), Fx::zero_v()),
        )
    }

    /// The rotation about the z axis with the given cosine and sine.
    pub fn rotate_z_by_trigonometric(cos: Fx, sin: Fx) -> (r: Mat4)
        ensures
            r == Mat4::rotate_z_by_trigonometric_v(cos, sin),
    {
        Mat4(
            Vec4(cos, sin.neg(), Fx::zero(), Fx::zero()),
            Vec4(sin, cos, Fx::zero(), Fx::zero()),
            Vec4(Fx::zero(), Fx::zero(), Fx::one(), Fx::zero()),
        )
    }

    pub open spec fn scale3_v(x: Fx, y: Fx, z: Fx) -> Mat4 {
        Mat4(
            Vec4(x, Fx::zero_v(), Fx::zero_v(), Fx::zero_v()),
            Vec4(Fx::zero_v(), y, Fx::zero_v(), Fx::zero_v()),
            Vec4(Fx::zero_v(), Fx::zero_v(), z, Fx::zero_v()),
        )
    }

    /// The non-uniform scaling by `(x, y, z)`.
    pub fn scale3(x: Fx, y: Fx, z: Fx) -> (r: Mat4)
        ensures
            r == Mat4::scale3_v(x, y, z),
    {
        Mat4(
            Vec4(x, Fx::zero(), Fx::zero(), Fx::zero()),
            Vec4(Fx::zero(), y, Fx::zero(), Fx::zero()),
            Vec4(Fx::zero(), Fx::zero(), z, Fx::zero()),
        )
    }

    pub open spec fn scale1_v(scale: Fx) -> Mat4 {
        Mat4::scale3_v(scale, scale, scale)
    }

    /// The uniform scaling by `scale`.
    pub fn scale1(scale: Fx) -> (r: Mat4)
        ensures
            r == Mat4::scale1_v(scale),
    {
        Mat4::scale3(scale, scale, scale)
    }

    pub open spec fn rotate_x_by_angle_v(angle: Fx) -> Mat4 {
        Mat4::rotate_x_by_trigonometric_v(crate::approx::cos_v(angle), crate::approx::sin_v(angle))
    }

    /// The rotation about the x axis by an angle in radians.
    pub fn rotate_x_by_angle(angle: Fx) -> (r: Mat4)
        ensures
            r == Mat4::rotate_x_by_angle_v(angle),
    {
        let c = crate::approx::cos(angle);
        let s = crate::approx::sin(angle);
        Mat4::rotate_x_by_trigonometric(c, s)
    }

    pub open spec fn rotate_y_by_angle_v(angle: Fx) -> Mat4 {
        Mat4::rotate_y_by_trigonometric_v(crate::approx::cos_v(angle), crate::approx::sin_v(angle))
    }

    /// The rotation about the y axis by an angle in radians.
    pub fn rotate_y_by_angle(angle: Fx) -> (r: Mat4)
        ensures
            r == Mat4::rotate_y_by_angle_v(angle),
    {
        let c = crate::approx::cos(angle);
        let s = crate::approx::sin(angle);
        Mat4::rotate_y_by_trigonometric(c, s)
    }

    pub open spec fn rotate_z_by_angle_v(angle: Fx) -> Mat4 {
        Mat4::rotate_z_by_trigonometric_v(crate::approx::cos_v(angle), crate::approx::sin_v(angle))
    }

    /// The rotation about the z axis by an angle in radians.
    pub fn rotate_z_by_angle(angle: Fx) -> (r: Mat4)
        ensures
            r == Mat4::rotate_z_by_angle_v(angle),
    {
        let c = crate::approx::cos(angle);
        let s = crate::approx::sin(angle);
        Mat4::rotate_z_by_trigonometric(c, s)
    }

    pub open spec fn rotate_v(yaw: Fx, pitch: Fx, roll: Fx) -> Mat4 {
        Mat4::rotate_z_by_angle_v(yaw).mul_v(Mat4::rotate_x_by_angle_v(pitch)).mul_v(
            Mat4::rotate_y_by_angle_v(roll),
        )
    }

    /// The rotation given by yaw, pitch and roll, composed as Z then X
    /// then Y.
    pub fn rotate(yaw: Fx, pitch: Fx, roll: Fx) -> (r: Mat4)
        ensures
            r == Mat4::rotate_v(yaw, pitch, roll),
    {
        Mat4::rotate_z_by_angle(yaw).mul(Mat4::rotate_x_by_angle(pitch)).mul(
            Mat4::rotate_y_by_angle(roll),
        )
    }
}

// ---------------------------------------------------------------------
// The exact integer model of affine inversion.
//
// The executable inverse works on the fixed-point grid, where each entry
// is rounded; the algebra behind it is exact.  The model below restates
// the same formulas over unbounded integers, with one difference: where
// the executable inverse divides a cofactor by the determinant, the model
// keeps the cofactor, so the round trip reproduces every point scaled by
// the determinant -- division by it is exactly what the executable code
// performs entry by entry.

/// The exact integer model of an affine matrix.
pub ghost struct MatModel {
    pub m00: int, pub m01: int, pub m02: int, pub m03: int,
    pub m10: int, pub m11: int, pub m12: int, pub m13: int,
    pub m20: int, pub m21: int, pub m22: int, pub m23: int,
}

/// The exact integer model of a point.
pub ghost struct PointModel {
    pub x: int,
    pub y: int,
    pub z: int,
}

pub open spec fn apply_model(m: MatModel, p: PointModel) -> PointModel {
    PointModel {
        x: m.m00 * p.x + m.m01 * p.y + m.m02 * p.z + m.m03,
        y: m.m10 * p.x + m.m11 * p.y + m.m12 * p.z + m.m13,
        z: m.m20 * p.x + m.m21 * p.y + m.m22 * p.z + m.m23,
    }
}

pub open spec fn det_model(m: MatModel) -> int {
    m.m00 * (m.m11 * m.m22 - m.m12 * m.m21)
    - m.m01 * (m.m10 * m.m22 - m.m12 * m.m20)
    + m.m02 * (m.m10 * m.m21 - m.m11 * m.m20)
}

/// The adjugate of the linear block together with the translation solve:
/// the inverse scaled by the determinant.
pub open spec fn adjugate_model(m: MatModel) -> MatModel {
    let a00 = m.m11 * m.m22 - m.m12 * m.m21;
    let a01 = -(m.m01 * m.m22 - m.m02 * m.m21);
    let a02 = m.m01 * m.m12 - m.m02 * m.m11;
    let a10 = -(m.m10 * m.m22 - m.m12 * m.m20);
    let a11 = m.m00 * m.m22 - m.m02 * m.m20;
    let a12 = -(m.m00 * m.m12 - m.m02 * m.m10);
    let a20 = m.m10 * m.m21 - m.m11 * m.m20;
    let a21 = -(m.m00 * m.m21 - m.m01 * m.m20);
    let a22 = m.m00 * m.m11 - m.m01 * m.m10;
    MatModel {
        m00: a00, m01: a01, m02: a02, m03: -(m.m03 * a00 + m.m13 * a01 + m.m23 * a02),
        m10: a10, m11: a11, m12: a12, m13: -(m.m03 * a10 + m.m13 * a11 + m.m23 * a12),
        m20: a20, m21: a21, m22: a22, m23: -(m.m03 * a20 + m.m13 * a21 + m.m23 * a22),
    }
}

pub open spec fn scale_model(k: int, p: PointModel) -> PointModel {
    PointModel { x: k * p.x, y: k * p.y, z: k * p.z }
}

// The nine entries of the product of the adjugate block with the
// linear block: the diagonal is the determinant, the rest vanish.
proof fn lemma_adjugate_entry_00(
    m00: int, m01: int, m02: int,
    m10: int, m11: int, m12: int,
    m20: int, m21: int, m22: int,
)
    ensures
        (m11 * m22 - m12 * m21) * m00 + (-(m01 * m22 - m02 * m21)) * m10 + (m01 * m12 - m02 * m11) * m20
            == m00 * (m11 * m22 - m12 * m21) - m01 * (m10 * m22 - m12 * m20) + m02 * (m10 * m21 - m11 * m20),
{
    assert((m11 * m22 - m12 * m21) * m00 == m00 * (m11 * m22) - m00 * (m12 * m21))
        by (nonlinear_arith);
    assert((-(m01 * m22 - m02 * m21)) * m10 == -(m01 * (m10 * m22)) + m02 * (m10 * m21))
        by (nonlinear_arith);
    assert((m01 * m12 - m02 * m11) * m20 == m01 * (m12 * m20) - m02 * (m11 * m20))
        by (nonlinear_arith);
    assert(m00 * (m11 * m22 - m12 * m21) == m00 * (m11 * m22) - m00 * (m12 * m21))
        by (nonlinear_arith);
    assert(m01 * (m10 * m22 - m12 * m20) == m01 * (m10 * m22) - m01 * (m12 * m20))
        by (nonlinear_arith);
    assert(m02 * (m10 * m21 - m11 * m20) == m02 * (m10 * m21) - m02 * (m11 * m20))
        by (nonlinear_arith);
}

proof fn lemma_adjugate_entry_01(
    m00: int, m01: int, m02: int,
    m10: int, m11: int, m12: int,
    m20: int, m21: int, m22: int,
) by (nonlinear_arith)
    ensures
        (m11 * m22 - m12 * m21) * m01 + (-(m01 * m22 - m02 * m21)) * m11 + (m01 * m12 - m02 * m11) * m21
            == 0,
{
}

proof fn lemma_adjugate_entry_02(
    m00: int, m01: int, m02: int,
    m10: int, m11: int, m12: int,
    m20: int, m21: int, m22: int,
) by (nonlinear_arith)
    ensures
        (m11 * m22 - m12 * m21) * m02 + (-(m01 * m22 - m02 * m21)) * m12 + (m01 * m12 - m02 * m11) * m22
            == 0,
{
}

proof fn lemma_adjugate_entry_10(
    m00: int, m01: int, m02: int,
    m10: int, m11: int, m12: int,
    m20: int, m21: int, m22: int,
) by (nonlinear_arith)
    ensures
        (-(m10 * m22 - m12 * m20)) * m00 + (m00 * m22 - m02 * m20) * m10 + (-(m00 * m12 - m02 * m10)) * m20
            == 0,
{
}

proof fn lemma_adjugate_entry_11(
    m00: int, m01: int, m02: int,
    m10: int, m11: int, m12: int,
    m20: int, m21: int, m22: int,
)
    ensures
        (-(m10 * m22 - m12 * m20)) * m01 + (m00 * m22 - m02 * m20) * m11 + (-(m00 * m12 - m02 * m10)) * m21
            == m00 * (m11 * m22 - m12 * m21) - m01 * (m10 * m22 - m12 * m20) + m02 * (m10 * m21 - m11 * m20),
{
    assert((-(m10 * m22 - m12 * m20)) * m01 == -(m01 * (m10 * m22)) + m01 * (m12 * m20))
        by (nonlinear_arith);
    assert((m00 * m22 - m02 * m20) * m11 == m00 * (m11 * m22) - m02 * (m11 * m20))
        by (nonlinear_arith);
    assert((-(m00 * m12 - m02 * m10)) * m21 == -(m00 * (m12 * m21)) + m02 * (m10 * m21))
        by (nonlinear_arith);
    assert(m00 * (m11 * m22 - m12 * m21) == m00 * (m11 * m22) - m00 * (m12 * m21))
        by (nonlinear_arith);
    assert(m01 * (m10 * m22 - m12 * m20) == m01 * (m10 * m22) - m01 * (m12 * m20))
        by (nonlinear_arith);
    assert(m02 * (m10 * m21 - m11 * m20) == m02 * (m10 * m21) - m02 * (m11 * m20))
        by (nonlinear_arith);
}

proof fn lemma_adjugate_entry_12(
    m00: int, m01: int, m02: int,
    m10: int, m11: int, m12: int,
    m20: int, m21: int, m22: int,
)
    ensures
        (-(m10 * m22 - m12 * m20)) * m02 + (m00 * m22 - m02 * m20) * m12 + (-(m00 * m12 - m02 * m10)) * m22
            == 0,
{
    assert((-(m10 * m22 - m12 * m20)) * m02 == -(m02 * (m10 * m22)) + m02 * (m12 * m20))
        by (nonlinear_arith);
    assert((m00 * m22 - m02 * m20) * m12 == m00 * (m12 * m22) - m02 * (m12 * m20))
        by (nonlinear_arith);
    assert((-(m00 * m12 - m02 * m10)) * m22 == -(m00 * (m12 * m22)) + m02 * (m10 * m22))
        by (nonlinear_arith);
}

proof fn lemma_adjugate_entry_20(
    m00: int, m01: int, m02: int,
    m10: int, m11: int, m12: int,
    m20: int, m21: int, m22: int,
) by (nonlinear_arith)
    ensures
        (m10 * m21 - m11 * m20) * m00 + (-(m00 * m21 - m01 * m20)) * m10 + (m00 * m11 - m01 * m10) * m20
            == 0,
{
}

proof fn lemma_adjugate_entry_21(
    m00: int, m01: int, m02: int,
    m10: int, m11: int, m12: int,
    m20: int, m21: int, m22: int,
) by (nonlinear_arith)
    ensures
        (m10 * m21 - m11 * m20) * m01 + (-(m00 * m21 - m01 * m20)) * m11 + (m00 * m11 - m01 * m10) * m21
            == 0,
{
}

proof fn lemma_adjugate_entry_22(
    m00: int, m01: int, m02: int,
    m10: int, m11: int, m12: int,
    m20: int, m21: int, m22: int,
)
    ensures
        (m10 * m21 - m11 * m20) * m02 + (-(m00 * m21 - m01 * m20)) * m12 + (m00 * m11 - m01 * m10) * m22
            == m00 * (m11 * m22 - m12 * m21) - m01 * (m10 * m22 - m12 * m20) + m02 * (m10 * m21 - m11 * m20),
{
    assert((m10 * m21 - m11 * m20) * m02 == m02 * (m10 * m21) - m02 * (m11 * m20))
        by (nonlinear_arith);
    assert((-(m00 * m21 - m01 * m20)) * m12 == -(m00 * (m12 * m21)) + m01 * (m12 * m20))
        by (nonlinear_arith);
    assert((m00 * m11 - m01 * m10) * m22 == m00 * (m11 * m22) - m01 * (m10 * m22))
        by (nonlinear_arith);
    assert(m00 * (m11 * m22 - m12 * m21) == m00 * (m11 * m22) - m00 * (m12 * m21))
        by (nonlinear_arith);
    assert(m01 * (m10 * m22 - m12 * m20) == m01 * (m10 * m22) - m01 * (m12 * m20))
        by (nonlinear_arith);
    assert(m02 * (m10 * m21 - m11 * m20) == m02 * (m10 * m21) - m02 * (m11 * m20))
        by (nonlinear_arith);
}

/// One row of the composition: a row of the adjugate applied to the image
/// of a point, given what the row does to each column of the matrix.
proof fn lemma_row_combine(
    a0: int, a1: int, a2: int,
    m00: int, m01: int, m02: int, m03: int,
    m10: int, m11: int, m12: int, m13: int,
    m20: int, m21: int, m22: int, m23: int,
    x: int, y: int, z: int,
    dx: int, dy: int, dz: int,
)
    requires
        a0 * m00 + a1 * m10 + a2 * m20 == dx,
        a0 * m01 + a1 * m11 + a2 * m21 == dy,
        a0 * m02 + a1 * m12 + a2 * m22 == dz,
    ensures
        a0 * (m00 * x + m01 * y + m02 * z + m03) + a1 * (m10 * x + m11 * y + m12 * z + m13)
            + a2 * (m20 * x + m21 * y + m22 * z + m23)
            + (-(m03 * a0 + m13 * a1 + m23 * a2))
            == dx * x + dy * y + dz * z,
{
    assert(a0 * (m00 * x + m01 * y + m02 * z + m03)
        == a0 * (m00 * x) + a0 * (m01 * y) + a0 * (m02 * z) + a0 * m03)
        by (nonlinear_arith);
    assert(a0 * (m00 * x) == (a0 * m00) * x) by (nonlinear_arith);
    assert(a0 * (m01 * y) == (a0 * m01) * y) by (nonlinear_arith);
    assert(a0 * (m02 * z) == (a0 * m02) * z) by (nonlinear_arith);
    assert(a0 * m03 == m03 * a0) by (nonlinear_arith);
    assert(a1 * (m10 * x + m11 * y + m12 * z + m13)
        == a1 * (m10 * x) + a1 * (m11 * y) + a1 * (m12 * z) + a1 * m13)
        by (nonlinear_arith);
    assert(a1 * (m10 * x) == (a1 * m10) * x) by (nonlinear_arith);
    assert(a1 * (m11 * y) == (a1 * m11) * y) by (nonlinear_arith);
    assert(a1 * (m12 * z) == (a1 * m12) * z) by (nonlinear_arith);
    assert(a1 * m13 == m13 * a1) by (nonlinear_arith);
    assert(a2 * (m20 * x + m21 * y + m22 * z + m23)
        == a2 * (m20 * x) + a2 * (m21 * y) + a2 * (m22 * z) + a2 * m23)
        by (nonlinear_arith);
    assert(a2 * (m20 * x) == (a2 * m20) * x) by (nonlinear_arith);
    assert(a2 * (m21 * y) == (a2 * m21) * y) by (nonlinear_arith);
    assert(a2 * (m22 * z) == (a2 * m22) * z) by (nonlinear_arith);
    assert(a2 * m23 == m23 * a2) by (nonlinear_arith);
    assert((a0 * m00) * x + (a1 * m10) * x + (a2 * m20) * x == dx * x) by (nonlinear_arith)
        requires
            a0 * m00 + a1 * m10 + a2 * m20 == dx,
    ;
    assert((a0 * m01) * y + (a1 * m11) * y + (a2 * m21) * y == dy * y) by (nonlinear_arith)
        requires
            a0 * m01 + a1 * m11 + a2 * m21 == dy,
    ;
    assert((a0 * m02) * z + (a1 * m12) * z + (a2 * m22) * z == dz * z) by (nonlinear_arith)
        requires
            a0 * m02 + a1 * m12 + a2 * m22 == dz,
    ;
}

/// Inverting an affine map by the adjugate method undoes the map: for
/// every matrix and every point, applying the matrix and then its
/// adjugate-with-translation-solve reproduces the point scaled by the
/// determinant -- the exact content of dividing the adjugate by the
/// determinant to invert, stated without rounding.
pub proof fn lemma_affine_inverse_round_trip(m: MatModel, p: PointModel)
    ensures
        apply_model(adjugate_model(m), apply_model(m, p)) == scale_model(det_model(m), p),
{
    lemma_adjugate_entry_00(
        m.m00, m.m01, m.m02,
        m.m10, m.m11, m.m12,
        m.m20, m.m21, m.m22,
    );
    lemma_adjugate_entry_01(
        m.m00, m.m01, m.m02,
        m.m10, m.m11, m.m12,
        m.m20, m.m21, m.m22,
    );
    lemma_adjugate_entry_02(
        m.m00, m.m01, m.m02,
        m.m10, m.m11, m.m12,
        m.m20, m.m21, m.m22,
    );
    lemma_adjugate_entry_10(
        m.m00, m.m01, m.m02,
        m.m10, m.m11, m.m12,
        m.m20, m.m21, m.m22,
    );
    lemma_adjugate_entry_11(
        m.m00, m.m01, m.m02,
        m.m10, m.m11, m.m12,
        m.m20, m.m21, m.m22,
    );
    lemma_adjugate_entry_12(
        m.m00, m.m01, m.m02,
        m.m10, m.m11, m.m12,
        m.m20, m.m21, m.m22,
    );
    lemma_adjugate_entry_20(
        m.m00, m.m01, m.m02,
        m.m10, m.m11, m.m12,
        m.m20, m.m21, m.m22,
    );
    lemma_adjugate_entry_21(
        m.m00, m.m01, m.m02,
        m.m10, m.m11, m.m12,
        m.m20, m.m21, m.m22,
    );
    lemma_adjugate_entry_22(
        m.m00, m.m01, m.m02,
        m.m10, m.m11, m.m12,
        m.m20, m.m21, m.m22,
    );
    let d = det_model(m);
    let a = adjugate_model(m);
    lemma_row_combine(
        a.m00, a.m01, a.m02,
        m.m00, m.m01, m.m02, m.m03,
        m.m10, m.m11, m.m12, m.m13,
        m.m20, m.m21, m.m22, m.m23,
        p.x, p.y, p.z,
        d, 0, 0,
    );
    lemma_row_combine(
        a.m10, a.m11, a.m12,
        m.m00, m.m01, m.m02, m.m03,
        m.m10, m.m11, m.m12, m.m13,
        m.m20, m.m21, m.m22, m.m23,
        p.x, p.y, p.z,
        0, d, 0,
    );
    lemma_row_combine(
        a.m20, a.m21, a.m22,
        m.m00, m.m01, m.m02, m.m03,
        m.m10, m.m11, m.m12, m.m13,
        m.m20, m.m21, m.m22, m.m23,
        p.x, p.y, p.z,
        0, 0, d,
    );
}

} // verus!
