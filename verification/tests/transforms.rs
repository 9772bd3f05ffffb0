use microray::base_types::{Direction, HdrColor, LdrColor, Movement, Position, Transform};
use microray::fixed::Fx;
use microray::math::{Mat4, Vec3, Vec4};

use rand::rngs::StdRng;
use rand::Rng;
use rand::SeedableRng;

fn fx(v: f64) -> Fx {
    Fx::from_raw((v * 4294967296.0).round() as i64)
}

fn to_f64(x: Fx) -> f64 {
    x.raw as f64 / 4294967296.0
}

fn identity_mat4() -> Mat4 {
    Mat4::identity()
}

fn random_translation_mat4(rng: &mut StdRng) -> Mat4 {
    Mat4::translate(
        fx(rng.gen_range(-100.0f32..100.0f32) as f64),
        fx(rng.gen_range(-100.0f32..100.0f32) as f64),
        fx(rng.gen_range(-100.0f32..100.0f32) as f64),
    )
}

fn random_rotation_mat4(rng: &mut StdRng) -> Mat4 {
    match rng.gen_range(0..3) {
        0 => Mat4::rotate_x_by_angle(fx(rng.gen_range(0.0f32..std::f32::consts::PI) as f64)),
        1 => Mat4::rotate_y_by_angle(fx(rng.gen_range(0.0f32..std::f32::consts::PI) as f64)),
        _ => Mat4::rotate_z_by_angle(fx(rng.gen_range(0.0f32..std::f32::consts::PI) as f64)),
    }
}

fn random_scale_mat4(rng: &mut StdRng) -> Mat4 {
    Mat4::scale3(
        fx(rng.gen_range(0.5f32..2.0f32) as f64),
        fx(rng.gen_range(0.5f32..2.0f32) as f64),
        fx(rng.gen_range(0.5f32..2.0f32) as f64),
    )
}

fn random_transformation_mat4(rng: &mut StdRng) -> Mat4 {
    match rng.gen_range(0..3) {
        0 => random_translation_mat4(rng),
        1 => random_rotation_mat4(rng),
        _ => random_scale_mat4(rng),
    }
}

fn random_transformation_composition_mat4(rng: &mut StdRng) -> Mat4 {
    (0..10).fold(identity_mat4(), |acc, _| acc.mul(random_transformation_mat4(rng)))
}

fn approx_eq_fx(a: Fx, b: Fx, epsilon: f64) -> bool {
    (to_f64(a) - to_f64(b)).abs() < epsilon
}

fn approx_eq_mat4(a: Mat4, b: Mat4, epsilon: f64) -> bool {
    approx_eq_fx(a.0 .0, b.0 .0, epsilon)
        && approx_eq_fx(a.0 .1, b.0 .1, epsilon)
        && approx_eq_fx(a.0 .2, b.0 .2, epsilon)
        && approx_eq_fx(a.0 .3, b.0 .3, epsilon)
        && approx_eq_fx(a.1 .0, b.1 .0, epsilon)
        && approx_eq_fx(a.1 .1, b.1 .1, epsilon)
        && approx_eq_fx(a.1 .2, b.1 .2, epsilon)
        && approx_eq_fx(a.1 .3, b.1 .3, epsilon)
        && approx_eq_fx(a.2 .0, b.2 .0, epsilon)
        && approx_eq_fx(a.2 .1, b.2 .1, epsilon)
        && approx_eq_fx(a.2 .2, b.2 .2, epsilon)
        && approx_eq_fx(a.2 .3, b.2 .3, epsilon)
}

#[test]
fn test_inverse_of_random_transformations_mat4() {
    let mut rng = StdRng::seed_from_u64(42);

    for _ in 0..42 {
        let mat = random_transformation_composition_mat4(&mut rng);
        let inv_mat = mat.inverse();
        let result = mat.mul(inv_mat);

        assert!(approx_eq_mat4(result, identity_mat4(), 0.00042f32 as f64));
    }
}

#[test]
fn inverse_of_translation_is_exact() {
    let m = Mat4::translate(fx(3.0), fx(-4.0), fx(5.5));
    let r = m.mul(m.inverse());
    assert!(approx_eq_mat4(r, identity_mat4(), 1e-9));
}

#[test]
fn normalize_yields_unit_length() {
    let cases = [
        (3.0, 4.0, 0.0),
        (1.0, 2.0, 3.0),
        (-5.0, 0.25, 7.75),
        (0.0, 0.001, 0.0),
        (100.0, -100.0, 42.0),
    ];
    for (x, y, z) in cases {
        let d = Direction::from_movement(Movement::new(fx(x), fx(y), fx(z)));
        let len = to_f64(d.vec.length());
        assert!((len - 1.0).abs() < 1e-3, "length {len} for ({x}, {y}, {z})");
    }
}

#[test]
fn ldr_color_clamps_both_ends() {
    let c = LdrColor::new(fx(-1.0), fx(0.5), fx(2.0));
    assert_eq!(c.r, fx(0.0));
    assert_eq!(c.g, fx(0.5));
    assert_eq!(c.b, fx(1.0));
}

#[test]
fn hdr_color_clamps_only_below_zero() {
    let c = HdrColor::new(fx(-1.0), fx(2.0), fx(5.0));
    assert_eq!(c.r, fx(0.0));
    assert_eq!(c.g, fx(2.0));
    assert_eq!(c.b, fx(5.0));
}

#[test]
fn sqrt_of_perfect_square_is_exact() {
    assert_eq!(Fx::from_int(9).sqrt(), Fx::from_int(3));
    assert_eq!(Fx::from_int(0).sqrt(), Fx::from_int(0));
    assert_eq!(Fx::from_int(-4).sqrt(), Fx::from_int(0));
}

#[test]
fn division_by_zero_yields_zero() {
    assert_eq!(Fx::from_int(7).div(Fx::from_int(0)), Fx::from_int(0));
    let v = Vec3(fx(1.0), fx(2.0), fx(3.0)).div_scalar(Fx::from_int(0));
    assert_eq!(v, Vec3(fx(0.0), fx(0.0), fx(0.0)));
}

#[test]
fn multiplication_saturates() {
    let big = Fx::from_raw(i64::MAX);
    assert_eq!(big.mul(Fx::from_int(2)).raw, i64::MAX);
    assert_eq!(big.neg().mul(Fx::from_int(2)).raw, i64::MIN);
}

#[test]
fn sine_and_cosine_match_reference() {
    let half_pi = std::f64::consts::FRAC_PI_2;
    assert!((to_f64(microray::approx::sin(fx(half_pi))) - 1.0).abs() < 1e-4);
    assert!((to_f64(microray::approx::sin(fx(-half_pi))) + 1.0).abs() < 1e-4);
    assert!((to_f64(microray::approx::cos(fx(std::f64::consts::PI))) + 1.0).abs() < 1e-4);
    assert_eq!(microray::approx::sin(fx(0.0)), fx(0.0));
    assert_eq!(microray::approx::cos(fx(0.0)), fx(1.0));
    for k in 0..20 {
        let a = -6.0 + 0.63 * k as f64;
        assert!((to_f64(microray::approx::sin(fx(a))) - a.sin()).abs() < 1e-3);
        assert!((to_f64(microray::approx::cos(fx(a))) - a.cos()).abs() < 1e-3);
    }
}

#[test]
fn movement_is_translation_invariant() {
    let t = Transform::translate(fx(10.0), fx(20.0), fx(30.0));
    let m = Movement::new(fx(1.0), fx(2.0), fx(3.0)).apply(t);
    assert_eq!(m, Movement::new(fx(1.0), fx(2.0), fx(3.0)));
    let p = Position::new(fx(1.0), fx(2.0), fx(3.0)).apply(t);
    assert_eq!(p, Position::new(fx(11.0), fx(22.0), fx(33.0)));
}

#[test]
fn homogeneous_weights_differ() {
    let v = Vec3(fx(1.0), fx(1.0), fx(1.0));
    assert_eq!(Vec4::from_position(v).3, fx(1.0));
    assert_eq!(Vec4::from_movement(v).3, fx(0.0));
}

#[test]
fn cross_product_is_orthogonal_axis() {
    let x = Vec3(fx(1.0), fx(0.0), fx(0.0));
    let y = Vec3(fx(0.0), fx(1.0), fx(0.0));
    assert_eq!(x.cross(y), Vec3(fx(0.0), fx(0.0), fx(1.0)));
}

#[test]
fn scale_one_is_uniform() {
    let m = Mat4::scale1(fx(2.0));
    assert_eq!(m, Mat4::scale3(fx(2.0), fx(2.0), fx(2.0)));
}

#[test]
fn inverse_transform_returns_position() {
    let mat = Mat4::translate(fx(3.0), fx(-2.0), fx(7.0))
        .mul(Mat4::rotate_z_by_angle(fx(0.7)))
        .mul(Mat4::scale3(fx(1.5), fx(0.75), fx(1.25)));
    let t = Transform { mat };
    let p = Position::new(fx(1.0), fx(2.0), fx(3.0));
    let back = p.apply(t).apply(t.inverse());
    assert!((to_f64(back.vec.0) - 1.0).abs() < 0.00042);
    assert!((to_f64(back.vec.1) - 2.0).abs() < 0.00042);
    assert!((to_f64(back.vec.2) - 3.0).abs() < 0.00042);
}
