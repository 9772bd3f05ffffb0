//! The base value types: points, displacements, unit directions, affine
//! transforms, and the two color spaces.
//!
//! `LdrColor` clamps every channel into `[0, 1]` at construction;
//! `HdrColor` clamps negative channels to zero and is unbounded above.
//! A `Movement` transforms with homogeneous weight zero, so translations
//! leave it unchanged; a `Position` transforms with weight one.

use vstd::prelude::*;

use crate::fixed::{Fx, SCALE};
use crate::math::{Mat4, Vec3, Vec4};

verus! {

/// A point in world space.
#[derive(Clone, Copy, Debug, PartialEq, Eq, Structural)]
pub struct Position {
    pub vec: Vec3,
}

/// A displacement in world space.
#[derive(Clone, Copy, Debug, PartialEq, Eq, Structural)]
pub struct Movement {
    pub vec: Vec3,
}

/// A direction: a displacement normalized at construction.
#[derive(Clone, Copy, Debug, PartialEq, Eq, Structural)]
pub struct Direction {
    pub vec: Vec3,
}

/// A displayable color: every channel lies in `[0, 1]`.
#[derive(Clone, Copy, Debug, PartialEq, Eq, Structural)]
pub struct LdrColor {
    pub r: Fx,
    pub g: Fx,
    pub b: Fx,
}

/// A radiance color: every channel is nonnegative, unbounded above.
#[derive(Clone, Copy, Debug, PartialEq, Eq, Structural)]
pub struct HdrColor {
    pub r: Fx,
    pub g: Fx,
    pub b: Fx,
}

/// An invertible affine map.
#[derive(Clone, Copy, Debug, PartialEq, Eq, Structural)]
pub struct Transform {
    pub mat: Mat4,
}

impl Position {
    /// The point with the given coordinates.
    pub fn new(x: Fx, y: Fx, z: Fx) -> (r: Position)
        ensures
            r == (Position { vec: Vec3(x, y, z) }),
    {
        Position { vec: Vec3(x, y, z) }
    }

    pub open spec fn add_v(self, rhs: Movement) -> Position {
        Position { vec: self.vec.add_v(rhs.vec) }
    }

    /// Translate the point by a displacement.
    pub fn add(self, rhs: Movement) -> (r: Position)
        ensures
            r == self.add_v(rhs),
    {
        Position { vec: self.vec.add(rhs.vec) }
    }

    pub open spec fn sub_v(self, rhs: Position) -> Movement {
        Movement { vec: self.vec.sub_v(rhs.vec) }
    }

    /// The displacement from `rhs` to `self`.
    pub fn sub(self, rhs: Position) -> (r: Movement)
        ensures
            r == self.sub_v(rhs),
    {
        Movement { vec: self.vec.sub(rhs.vec) }
    }

    pub open spec fn apply_v(self, transform: Transform) -> Position {
        Position {
            vec: Vec3::from_vec4_v(Vec4::from_position_v(self.vec).apply_v(transform.mat)),
        }
    }

    /// Apply an affine map to the point: lifted with weight one, so the
    /// translation column takes effect.
    pub fn apply(self, transform: Transform) -> (r: Position)
        ensures
            r == self.apply_v(transform),
    {
        Position { vec: Vec3::from_vec4(Vec4::from_position(self.vec).apply(transform.mat)) }
    }
}

impl Movement {
    /// The displacement with the given components.
    pub fn new(x: Fx, y: Fx, z: Fx) -> (r: Movement)
        ensures
            r == (Movement { vec: Vec3(x, y, z) }),
    {
        Movement { vec: Vec3(x, y, z) }
    }

    pub open spec fn distance_squared_v(self) -> Fx {
        self.vec.length_squared_v()
    }

    /// The squared length of the displacement.
    pub fn distance_squared(self) -> (r: Fx)
        ensures
            r == self.distance_squared_v(),
    {
        self.vec.length_squared()
    }

    pub open spec fn distance_v(self) -> Fx {
        self.vec.length_v()
    }

    /// The length of the displacement.
    pub fn distance(self) -> (r: Fx)
        ensures
            r == self.distance_v(),
    {
        self.vec.length()
    }

    pub open spec fn mul_v(self, rhs: Fx) -> Movement {
        Movement { vec: self.vec.scale_v(rhs) }
    }

    /// Scale the displacement by a scalar.
    pub fn mul(self, rhs: Fx) -> (r: Movement)
        ensures
            r == self.mul_v(rhs),
    {
        Movement { vec: self.vec.scale(rhs) }
    }

    pub open spec fn neg_v(self) -> Movement {
        Movement { vec: self.vec.neg_v() }
    }

    /// The opposite displacement.
    pub fn neg(self) -> (r: Movement)
        ensures
            r == self.neg_v(),
    {
        Movement { vec: self.vec.neg() }
    }

    pub open spec fn apply_v(self, rhs: Transform) -> Movement {
        Movement {
            vec: Vec3::from_vec4_v(Vec4::from_movement_v(self.vec).apply_v(rhs.mat)),
        }
    }

    /// Apply an affine map to the displacement: lifted with weight zero,
    /// so the translation column has no effect.
    pub fn apply(self, rhs: Transform) -> (r: Movement)
        ensures
            r == self.apply_v(rhs),
    {
        Movement { vec: Vec3::from_vec4(Vec4::from_movement(self.vec).apply(rhs.mat)) }
    }
}

impl Direction {
    pub open spec fn from_movement_v(movement: Movement) -> Direction {
        Direction { vec: movement.vec.normalize_v() }
    }

    /// The direction of a displacement: the displacement normalized.  A
    /// zero displacement (or one whose squared length rounds to zero)
    /// yields the zero vector, the documented degenerate fallback.
    pub fn from_movement(movement: Movement) -> (r: Direction)
        ensures
            r == Direction::from_movement_v(movement),
    {
        Direction { vec: movement.vec.normalize() }
    }

    pub open spec fn sum_of(dirs: Seq<Direction>) -> Vec3
        decreases dirs.len(),
    {
        if dirs.len() == 0 {
            Vec3(Fx { raw: 0 }, Fx { raw: 0 }, Fx { raw: 0 })
        } else {
            Direction::sum_of(dirs.drop_last()).add_v(dirs.last().vec)
        }
    }

    pub open spec fn from_directions_v(dirs: Seq<Direction>) -> Direction {
        Direction { vec: Direction::sum_of(dirs).normalize_v() }
    }

    /// The normalized sum of several directions (the half vector, for
    /// two of them).
    pub fn from_directions(directions: &[Direction]) -> (r: Direction)
        ensures
            r == Direction::from_directions_v(directions@),
    {
        let mut acc = Vec3(Fx::zero(), Fx::zero(), Fx::zero());
        let mut i: usize = 0;
        while i < directions.len()
            invariant
                i <= directions.len(),
                acc == Direction::sum_of(directions@.take(i as int)),
            decreases directions.len() - i,
        {
            acc = acc.add(directions[i].vec);
            proof {
                assert(directions@.take(i + 1 as int).drop_last() == directions@.take(i as int));
                assert(directions@.take(i + 1 as int).last() == directions@[i as int]);
            }
            i = i + 1;
        }
        proof {
            assert(directions@.take(directions@.len() as int) == directions@);
        }
        Direction { vec: acc.normalize() }
    }

    pub open spec fn cos_angle_between_v(self, rhs: Direction) -> Fx {
        self.vec.dot_v(rhs.vec)
    }

    /// The cosine of the angle between two directions: their dot product.
    pub fn cos_angle_between(self, rhs: Direction) -> (r: Fx)
        ensures
            r == self.cos_angle_between_v(rhs),
    {
        self.vec.dot(rhs.vec)
    }

    pub open spec fn perpendicular_to_v(self, rhs: Direction) -> Direction {
        Direction { vec: self.vec.cross_v(rhs.vec) }
    }

    /// A direction orthogonal to both: the cross product.  Callers must
    /// re-normalize unless the arguments are orthogonal unit vectors.
    pub fn perpendicular_to(self, rhs: Direction) -> (r: Direction)
        ensures
            r == self.perpendicular_to_v(rhs),
    {
        Direction { vec: self.vec.cross(rhs.vec) }
    }

    pub open spec fn mul_v(self, rhs: Fx) -> Movement {
        Movement { vec: self.vec.scale_v(rhs) }
    }

    /// The displacement of the given length along the direction.
    pub fn mul(self, rhs: Fx) -> (r: Movement)
        ensures
            r == self.mul_v(rhs),
    {
        Movement { vec: self.vec.scale(rhs) }
    }

    pub open spec fn neg_v(self) -> Direction {
        Direction { vec: self.vec.neg_v() }
    }

    /// The opposite direction.
    pub fn neg(self) -> (r: Direction)
        ensures
            r == self.neg_v(),
    {
        Direction { vec: self.vec.neg() }
    }
}

impl Transform {
    pub open spec fn inverse_v(self) -> Transform {
        Transform { mat: self.mat.inverse_v() }
    }

    /// The inverse map, by the adjugate method; meaningless for a
    /// singular linear block, as documented.
    pub fn inverse(self) -> (r: Transform)
        ensures
            r == self.inverse_v(),
    {
        Transform { mat: self.mat.inverse() }
    }

    /// The identity map.
    pub fn identity() -> (r: Transform)
        ensures
            r == (Transform { mat: Mat4::identity_v() }),
    {
        Transform { mat: Mat4::identity() }
    }

    /// The translation by `(x, y, z)`.
    pub fn translate(x: Fx, y: Fx, z: Fx) -> (r: Transform)
        ensures
            r == (Transform { mat: Mat4::translate_v(x, y, z) }),
    {
        Transform { mat: Mat4::translate(x, y, z) }
    }

    /// The rotation about the x axis with the given cosine and sine.
    pub fn rotate_x_by_trigonometric(cos: Fx, sin: Fx) -> (r: Transform)
        ensures
            r == (Transform { mat: Mat4::rotate_x_by_trigonometric_v(cos, sin) }),
    {
        Transform { mat: Mat4::rotate_x_by_trigonometric(cos, sin) }
    }

    /// The rotation about the y axis with the given cosine and sine.
    pub fn rotate_y_by_trigonometric(cos: Fx, sin: Fx) -> (r: Transform)
        ensures
            r == (Transform { mat: Mat4::rotate_y_by_trigonometric_v(cos, sin) }),
    {
        Transform { mat: Mat4::rotate_y_by_trigonometric(cos, sin) }
    }

    /// The rotation about the z axis with the given cosine and sine.
    pub fn rotate_z_by_trigonometric(cos: Fx, sin: Fx) -> (r: Transform)
        ensures
            r == (Transform { mat: Mat4::rotate_z_by_trigonometric_v(cos, sin) }),
    {
        Transform { mat: Mat4::rotate_z_by_trigonometric(cos, sin) }
    }

    /// The rotation about the x axis by an angle in radians.
    pub fn rotate_x_by_angle(angle: Fx) -> (r: Transform)
        ensures
            r == (Transform { mat: Mat4::rotate_x_by_angle_v(angle) }),
    {
        Transform { mat: Mat4::rotate_x_by_angle(angle) }
    }

    /// The rotation about the y axis by an angle in radians.
    pub fn rotate_y_by_angle(angle: Fx) -> (r: Transform)
        ensures
            r == (Transform { mat: Mat4::rotate_y_by_angle_v(angle) }),
    {
        Transform { mat: Mat4::rotate_y_by_angle(angle) }
    }

    /// The rotation about the z axis by an angle in radians.
    pub fn rotate_z_by_angle(angle: Fx) -> (r: Transform)
        ensures
            r == (Transform { mat: Mat4::rotate_z_by_angle_v(angle) }),
    {
        Transform { mat: Mat4::rotate_z_by_angle(angle) }
    }

    /// The rotation given by yaw, pitch and roll, applied as Z then X
    /// then Y.
    pub fn rotate(yaw: Fx, pitch: Fx, roll: Fx) -> (r: Transform)
        ensures
            r == (Transform { mat: Mat4::rotate_v(yaw, pitch, roll) }),
    {
        Transform { mat: Mat4::rotate(yaw, pitch, roll) }
    }

    /// The non-uniform scaling by `(x, y, z)`.
    pub fn scale3(x: Fx, y: Fx, z: Fx) -> (r: Transform)
        ensures
            r == (Transform { mat: Mat4::scale3_v(x, y, z) }),
    {
        Transform { mat: Mat4::scale3(x, y, z) }
    }

    /// The uniform scaling by `scale`.
    pub fn scale1(scale: Fx) -> (r: Transform)
        ensures
            r == (Transform { mat: Mat4::scale1_v(scale) }),
    {
        Transform { mat: Mat4::scale1(scale) }
    }
}

/// A channel clamped into `[0, 1]`.
pub open spec fn clamp01_v(f: Fx) -> Fx {
    if f.raw < 0 {
        Fx { raw: 0 }
    } else if f.raw > SCALE {
        Fx { raw: SCALE }
    } else {
        f
    }
}

/// A channel clamped into `[0, +infinity)`.
pub open spec fn clamp_lo_v(f: Fx) -> Fx {
    if f.raw < 0 {
        Fx { raw: 0 }
    } else {
        f
    }
}

impl LdrColor {
    pub open spec fn new_v(r: Fx, g: Fx, b: Fx) -> LdrColor {
        LdrColor { r: clamp01_v(r), g: clamp01_v(g), b: clamp01_v(b) }
    }

    /// All channels lie in `[0, 1]` after construction.
    pub open spec fn wf(self) -> bool {
        &&& 0 <= self.r.raw <= SCALE
        &&& 0 <= self.g.raw <= SCALE
        &&& 0 <= self.b.raw <= SCALE
    }

    /// A displayable color: every channel is clamped into `[0, 1]`, so a
    /// channel below zero becomes zero and one above one becomes one.
    pub fn new(r: Fx, g: Fx, b: Fx) -> (c: LdrColor)
        ensures
            c == LdrColor::new_v(r, g, b),
            c.wf(),
    {
        LdrColor { r: LdrColor::in_range(r), g: LdrColor::in_range(g), b: LdrColor::in_range(b) }
    }

    fn in_range(f: Fx) -> (r: Fx)
        ensures
            r == clamp01_v(f),
    {
        if f.raw < 0 {
            Fx::zero()
        } else if f.raw > SCALE {
            Fx::one()
        } else {
            f
        }
    }

    pub open spec fn mul_v(self, rhs: Fx) -> HdrColor {
        HdrColor::new_v(self.r.mul_v(rhs), self.g.mul_v(rhs), self.b.mul_v(rhs))
    }

    /// Scale each channel, clamped below zero into an `HdrColor`.
    pub fn mul(self, rhs: Fx) -> (c: HdrColor)
        ensures
            c == self.mul_v(rhs),
    {
        HdrColor::new(self.r.mul(rhs), self.g.mul(rhs), self.b.mul(rhs))
    }

    pub open spec fn mul_hdr_v(self, rhs: HdrColor) -> HdrColor {
        HdrColor::new_v(self.r.mul_v(rhs.r), self.g.mul_v(rhs.g), self.b.mul_v(rhs.b))
    }

    /// Modulate a radiance color channel by channel.
    pub fn mul_hdr(self, rhs: HdrColor) -> (c: HdrColor)
        ensures
            c == self.mul_hdr_v(rhs),
    {
        HdrColor::new(self.r.mul(rhs.r), self.g.mul(rhs.g), self.b.mul(rhs.b))
    }
}

impl HdrColor {
    pub open spec fn new_v(r: Fx, g: Fx, b: Fx) -> HdrColor {
        HdrColor { r: clamp_lo_v(r), g: clamp_lo_v(g), b: clamp_lo_v(b) }
    }

    /// All channels are nonnegative after construction.
    pub open spec fn wf(self) -> bool {
        &&& 0 <= self.r.raw
        &&& 0 <= self.g.raw
        &&& 0 <= self.b.raw
    }

    /// A radiance color: negative channels are clamped to zero; channels
    /// above one are kept as they are.
    pub fn new(r: Fx, g: Fx, b: Fx) -> (c: HdrColor)
        ensures
            c == HdrColor::new_v(r, g, b),
            c.wf(),
    {
        HdrColor { r: HdrColor::in_range(r), g: HdrColor::in_range(g), b: HdrColor::in_range(b) }
    }

    fn in_range(f: Fx) -> (r: Fx)
        ensures
            r == clamp_lo_v(f),
    {
        if f.raw < 0 {
            Fx::zero()
        } else {
            f
        }
    }

    pub open spec fn from_ldr_v(value: LdrColor) -> HdrColor {
        HdrColor::new_v(value.r, value.g, value.b)
    }

    /// The radiance color with the channels of a displayable color.
    pub fn from_ldr(value: LdrColor) -> (c: HdrColor)
        ensures
            c == HdrColor::from_ldr_v(value),
    {
        HdrColor::new(value.r, value.g, value.b)
    }

    pub open spec fn mul_v(self, rhs: Fx) -> HdrColor {
        HdrColor::new_v(self.r.mul_v(rhs), self.g.mul_v(rhs), self.b.mul_v(rhs))
    }

    /// Scale each channel, clamped below zero.
    pub fn mul(self, rhs: Fx) -> (c: HdrColor)
        ensures
            c == self.mul_v(rhs),
    {
        HdrColor::new(self.r.mul(rhs), self.g.mul(rhs), self.b.mul(rhs))
    }

    pub open spec fn mul_color_v(self, rhs: HdrColor) -> HdrColor {
        HdrColor::new_v(self.r.mul_v(rhs.r), self.g.mul_v(rhs.g), self.b.mul_v(rhs.b))
    }

    /// Attenuate channel by channel.
    pub fn mul_color(self, rhs: HdrColor) -> (c: HdrColor)
        ensures
            c == self.mul_color_v(rhs),
    {
        HdrColor::new(self.r.mul(rhs.r), self.g.mul(rhs.g), self.b.mul(rhs.b))
    }

    pub open spec fn add_v(self, rhs: HdrColor) -> HdrColor {
        HdrColor::new_v(self.r.add_v(rhs.r), self.g.add_v(rhs.g), self.b.add_v(rhs.b))
    }

    /// Add radiance channel by channel.
    pub fn add(self, rhs: HdrColor) -> (c: HdrColor)
        ensures
            c == self.add_v(rhs),
    {
        HdrColor::new(self.r.add(rhs.r), self.g.add(rhs.g), self.b.add(rhs.b))
    }
}

/// Normalizing yields unit length, up to the fixed-point grid: for any
/// movement whose components are at most 256 in magnitude and whose
/// computed squared length is at least one, the normalized vector's
/// squared length is one to within 4096 raw units (about one millionth).
/// Shorter movements degrade: one whose squared length rounds to zero
/// (such as a single raw unit per component) normalizes to the zero
/// vector, which is why the band below one is excluded.
pub proof fn lemma_normalize_unit_length(m: Movement)
    requires
        -0x10000000000 <= m.vec.0.raw <= 0x10000000000,
        -0x10000000000 <= m.vec.1.raw <= 0x10000000000,
        -0x10000000000 <= m.vec.2.raw <= 0x10000000000,
        m.distance_squared_v().raw >= SCALE,
    ensures
        ({
            let n = Direction::from_movement_v(m).vec.length_squared_v();
            SCALE - 4096 <= n.raw <= SCALE + 4096
        }),
{
    let s_int = SCALE as int;
    let b = 0x10000000000int;
    let x = m.vec.0.raw as int;
    let y = m.vec.1.raw as int;
    let z = m.vec.2.raw as int;
    let ax = crate::fixed::abs_i(x);
    let ay = crate::fixed::abs_i(y);
    let az = crate::fixed::abs_i(z);
    assert(ax >= 0 && (ax == x || ax == -x));
    assert(ay >= 0 && (ay == y || ay == -y));
    assert(az >= 0 && (az == z || az == -z));
    assert(x * x == ax * ax && 0 <= x * x && x * x <= b * b) by (nonlinear_arith)
        requires
            ax == x || ax == -x,
            0 <= ax <= b,
    ;
    assert(y * y == ay * ay && 0 <= y * y && y * y <= b * b) by (nonlinear_arith)
        requires
            ay == y || ay == -y,
            0 <= ay <= b,
    ;
    assert(z * z == az * az && 0 <= z * z && z * z <= b * b) by (nonlinear_arith)
        requires
            az == z || az == -z,
            0 <= az <= b,
    ;
    // the computed per-channel squares are exact floors
    let sqx = (x * x) / s_int;
    let sqy = (y * y) / s_int;
    let sqz = (z * z) / s_int;
    vstd::arithmetic::div_mod::lemma_div_pos_is_pos(x * x, s_int);
    vstd::arithmetic::div_mod::lemma_div_pos_is_pos(y * y, s_int);
    vstd::arithmetic::div_mod::lemma_div_pos_is_pos(z * z, s_int);
    vstd::arithmetic::div_mod::lemma_div_is_ordered(x * x, b * b, s_int);
    vstd::arithmetic::div_mod::lemma_div_is_ordered(y * y, b * b, s_int);
    vstd::arithmetic::div_mod::lemma_div_is_ordered(z * z, b * b, s_int);
    assert(m.vec.0.mul_v(m.vec.0).raw == sqx);
    assert(m.vec.1.mul_v(m.vec.1).raw == sqy);
    assert(m.vec.2.mul_v(m.vec.2).raw == sqz);
    let lsum = sqx + sqy + sqz;
    assert(m.distance_squared_v().raw == lsum);
    let t = x * x + y * y + z * z;
    vstd::arithmetic::div_mod::lemma_fundamental_div_mod(x * x, s_int);
    vstd::arithmetic::div_mod::lemma_fundamental_div_mod(y * y, s_int);
    vstd::arithmetic::div_mod::lemma_fundamental_div_mod(z * z, s_int);
    assert(s_int * lsum <= t && t < s_int * lsum + 3 * s_int);
    // the computed length is the floored square root
    let ls = lsum * s_int;
    crate::fixed::lemma_sqrt_floor_correct(ls);
    let s = crate::fixed::sqrt_floor(ls);
    assert(s <= 0x20000000000int) by (nonlinear_arith)
        requires
            s * s <= ls,
            ls <= 0x300000000000000000000int,
            0 <= s,
    ;
    assert(s_int <= s) by (nonlinear_arith)
        requires
            s_int * s_int <= ls,
            ls < (s + 1) * (s + 1),
            0 <= s,
            0 < s_int,
    ;
    assert(m.distance_v().raw == s);
    // the normalized components are floored quotients, up to sign
    let qx = (ax * s_int) / s;
    let qy = (ay * s_int) / s;
    let qz = (az * s_int) / s;
    vstd::arithmetic::div_mod::lemma_fundamental_div_mod(ax * s_int, s);
    vstd::arithmetic::div_mod::lemma_fundamental_div_mod(ay * s_int, s);
    vstd::arithmetic::div_mod::lemma_fundamental_div_mod(az * s_int, s);
    vstd::arithmetic::div_mod::lemma_mod_division_less_than_divisor(ax * s_int, s);
    vstd::arithmetic::div_mod::lemma_mod_division_less_than_divisor(ay * s_int, s);
    vstd::arithmetic::div_mod::lemma_mod_division_less_than_divisor(az * s_int, s);
    vstd::arithmetic::div_mod::lemma_div_pos_is_pos(ax * s_int, s);
    vstd::arithmetic::div_mod::lemma_div_pos_is_pos(ay * s_int, s);
    vstd::arithmetic::div_mod::lemma_div_pos_is_pos(az * s_int, s);
    assert(qx <= b && qy <= b && qz <= b) by (nonlinear_arith)
        requires
            s * qx <= ax * s_int,
            s * qy <= ay * s_int,
            s * qz <= az * s_int,
            ax <= b,
            ay <= b,
            az <= b,
            s_int <= s,
            0 < s_int,
            0 <= qx,
            0 <= qy,
            0 <= qz,
    ;
    let len_fx = Fx { raw: s as i64 };
    let rx = m.vec.0.div_v(len_fx);
    let ry = m.vec.1.div_v(len_fx);
    let rz = m.vec.2.div_v(len_fx);
    assert(rx.raw == if x >= 0 { qx } else { -qx });
    assert(ry.raw == if y >= 0 { qy } else { -qy });
    assert(rz.raw == if z >= 0 { qz } else { -qz });
    assert(Direction::from_movement_v(m).vec == Vec3(rx, ry, rz));
    // the squared length of the result, again as exact floors
    assert((rx.raw as int) * (rx.raw as int) == qx * qx && 0 <= qx * qx <= b * b)
        by (nonlinear_arith)
        requires
            rx.raw as int == qx || rx.raw as int == -qx,
            0 <= qx <= b,
    ;
    assert((ry.raw as int) * (ry.raw as int) == qy * qy && 0 <= qy * qy <= b * b)
        by (nonlinear_arith)
        requires
            ry.raw as int == qy || ry.raw as int == -qy,
            0 <= qy <= b,
    ;
    assert((rz.raw as int) * (rz.raw as int) == qz * qz && 0 <= qz * qz <= b * b)
        by (nonlinear_arith)
        requires
            rz.raw as int == qz || rz.raw as int == -qz,
            0 <= qz <= b,
    ;
    let outx = (qx * qx) / s_int;
    let outy = (qy * qy) / s_int;
    let outz = (qz * qz) / s_int;
    vstd::arithmetic::div_mod::lemma_div_pos_is_pos(qx * qx, s_int);
    vstd::arithmetic::div_mod::lemma_div_pos_is_pos(qy * qy, s_int);
    vstd::arithmetic::div_mod::lemma_div_pos_is_pos(qz * qz, s_int);
    vstd::arithmetic::div_mod::lemma_div_is_ordered(qx * qx, b * b, s_int);
    vstd::arithmetic::div_mod::lemma_div_is_ordered(qy * qy, b * b, s_int);
    vstd::arithmetic::div_mod::lemma_div_is_ordered(qz * qz, b * b, s_int);
    let out = outx + outy + outz;
    assert(Direction::from_movement_v(m).vec.length_squared_v().raw == out);
    let qq = qx * qx + qy * qy + qz * qz;
    vstd::arithmetic::div_mod::lemma_fundamental_div_mod(qx * qx, s_int);
    vstd::arithmetic::div_mod::lemma_fundamental_div_mod(qy * qy, s_int);
    vstd::arithmetic::div_mod::lemma_fundamental_div_mod(qz * qz, s_int);
    assert(s_int * out <= qq && qq < s_int * out + 3 * s_int);
    // upper bound on the squared quotients
    assert(qx * qx * (s * s) <= (ax * s_int) * (ax * s_int)) by (nonlinear_arith)
        requires
            0 <= qx,
            0 < s,
            s * qx <= ax * s_int,
    ;
    assert(qy * qy * (s * s) <= (ay * s_int) * (ay * s_int)) by (nonlinear_arith)
        requires
            0 <= qy,
            0 < s,
            s * qy <= ay * s_int,
    ;
    assert(qz * qz * (s * s) <= (az * s_int) * (az * s_int)) by (nonlinear_arith)
        requires
            0 <= qz,
            0 < s,
            s * qz <= az * s_int,
    ;
    assert((ax * s_int) * (ax * s_int) == s_int * s_int * (ax * ax)) by (nonlinear_arith);
    assert((ay * s_int) * (ay * s_int) == s_int * s_int * (ay * ay)) by (nonlinear_arith);
    assert((az * s_int) * (az * s_int) == s_int * s_int * (az * az)) by (nonlinear_arith);
    assert(s_int * s_int * (ax * ax) + s_int * s_int * (ay * ay) + s_int * s_int * (az * az)
        == s_int * s_int * t) by (nonlinear_arith)
        requires
            t == x * x + y * y + z * z,
            x * x == ax * ax,
            y * y == ay * ay,
            z * z == az * az,
    ;
    assert((ax * s_int) * (ax * s_int) + (ay * s_int) * (ay * s_int) + (az * s_int) * (az
        * s_int) == s_int * s_int * t);
    assert(ls == s_int * lsum) by (nonlinear_arith)
        requires
            ls == lsum * s_int,
    ;
    assert(s * s <= t);
    assert((s + 1) * (s + 1) == s * s + 2 * s + 1) by (nonlinear_arith);
    assert(t <= s * s + 2 * s + 3 * s_int + 1);
    assert(qq * (s * s) <= s_int * s_int * t) by (nonlinear_arith)
        requires
            qq == qx * qx + qy * qy + qz * qz,
            qx * qx * (s * s) <= (ax * s_int) * (ax * s_int),
            qy * qy * (s * s) <= (ay * s_int) * (ay * s_int),
            qz * qz * (s * s) <= (az * s_int) * (az * s_int),
            (ax * s_int) * (ax * s_int) + (ay * s_int) * (ay * s_int) + (az * s_int) * (az
                * s_int) == s_int * s_int * t,
    ;
    assert(s_int * s_int * t <= (s_int * s_int + 4 * b + 3 * s_int + 1) * (s * s))
        by (nonlinear_arith)
        requires
            t <= s * s + 2 * s + 3 * s_int + 1,
            s_int <= s,
            s <= 2 * b,
            0 < s_int,
            s_int <= b,
    ;
    assert(qq <= s_int * s_int + 4 * b + 3 * s_int + 1) by (nonlinear_arith)
        requires
            qq * (s * s) <= (s_int * s_int + 4 * b + 3 * s_int + 1) * (s * s),
            1 <= s,
    ;
    // lower bound on the squared quotients
    assert((ax * s_int) * (ax * s_int) - 2 * (ax * s_int) * s <= qx * qx * (s * s))
        by (nonlinear_arith)
        requires
            0 <= qx,
            0 < s,
            0 <= ax * s_int,
            ax * s_int <= s * qx + s,
    ;
    assert((ay * s_int) * (ay * s_int) - 2 * (ay * s_int) * s <= qy * qy * (s * s))
        by (nonlinear_arith)
        requires
            0 <= qy,
            0 < s,
            0 <= ay * s_int,
            ay * s_int <= s * qy + s,
    ;
    assert((az * s_int) * (az * s_int) - 2 * (az * s_int) * s <= qz * qz * (s * s))
        by (nonlinear_arith)
        requires
            0 <= qz,
            0 < s,
            0 <= az * s_int,
            az * s_int <= s * qz + s,
    ;
    assert(s_int * s_int * t - 2 * (ax * s_int) * s - 2 * (ay * s_int) * s - 2 * (az * s_int)
        * s <= qq * (s * s)) by (nonlinear_arith)
        requires
            qq == qx * qx + qy * qy + qz * qz,
            (ax * s_int) * (ax * s_int) - 2 * (ax * s_int) * s <= qx * qx * (s * s),
            (ay * s_int) * (ay * s_int) - 2 * (ay * s_int) * s <= qy * qy * (s * s),
            (az * s_int) * (az * s_int) - 2 * (az * s_int) * s <= qz * qz * (s * s),
            (ax * s_int) * (ax * s_int) + (ay * s_int) * (ay * s_int) + (az * s_int) * (az
                * s_int) == s_int * s_int * t,
    ;
    assert(2 * (ax * s_int) * s + 2 * (ay * s_int) * s + 2 * (az * s_int) * s <= 6 * b * s_int
        * s) by (nonlinear_arith)
        requires
            0 <= ax <= b,
            0 <= ay <= b,
            0 <= az <= b,
            0 <= s,
            0 < s_int,
    ;
    assert(s_int * s_int * t - 6 * b * s_int * s <= qq * (s * s));
    assert((s_int * s_int - 12 * b) * (s * s) <= qq * (s * s)) by (nonlinear_arith)
        requires
            s_int * s_int * t - 6 * b * s_int * s <= qq * (s * s),
            s * s <= t,
            s_int <= s,
            0 < s_int,
            0 <= b,
    ;
    assert(s_int * s_int - 12 * b <= qq) by (nonlinear_arith)
        requires
            (s_int * s_int - 12 * b) * (s * s) <= qq * (s * s),
            1 <= s,
    ;
    // 12 * b == 3072 * SCALE and 4 * b == 1024 * SCALE, so the band follows
    assert(SCALE - 4096 <= out <= SCALE + 4096);
}

} // verus!
