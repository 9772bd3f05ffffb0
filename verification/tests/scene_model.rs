use microray::base_types::{Direction, HdrColor, LdrColor, Movement, Position, Transform};
use microray::fixed::Fx;
use microray::scene::{
    Light, Material, MaterialWrapper, Object, PerspectiveCamera, Plane, PointLight, Ray,
};

fn fx(v: f64) -> Fx {
    Fx::from_raw((v * 4294967296.0).round() as i64)
}

fn to_f64(x: Fx) -> f64 {
    x.raw as f64 / 4294967296.0
}

fn gray(v: f64) -> Material {
    Material { albedo: LdrColor::new(fx(v), fx(v), fx(v)), roughness: fx(0.5), f0: fx(0.04) }
}

fn plane_y0() -> Plane {
    Plane::new(
        Transform::identity(),
        fx(0.0),
        fx(0.0),
        fx(1.0),
        fx(0.0),
        MaterialWrapper::Uniform(gray(0.5)),
    )
}

#[test]
fn perspective_center_ray_is_forward() {
    let cam = PerspectiveCamera::by_x(
        Position::new(fx(1.0), fx(2.0), fx(3.0)),
        fx(0.0),
        fx(0.0),
        fx(0.0),
        fx(2.0),
        fx(1.0),
    );
    let ray = cam.get_ray((fx(0.5), fx(0.5)));
    assert_eq!(ray.origin, Position::new(fx(1.0), fx(2.0), fx(3.0)));
    assert_eq!(ray.direction.vec, microray::math::Vec3(fx(0.0), fx(1.0), fx(0.0)));
}

#[test]
fn plane_hit_from_above_is_exact() {
    let plane = plane_y0();
    let ray = Ray {
        origin: Position::new(fx(0.0), fx(5.0), fx(0.0)),
        direction: Direction::from_movement(Movement::new(fx(0.0), fx(-1.0), fx(0.0))),
    };
    let hit = plane.intersect(&ray).expect("the downward ray must hit the plane");
    assert_eq!(hit.position, Position::new(fx(0.0), fx(0.0), fx(0.0)));
    assert_eq!(hit.real_normal.vec, microray::math::Vec3(fx(0.0), fx(1.0), fx(0.0)));
    assert_eq!(hit.adjusted_normal, hit.real_normal);
    assert_eq!(hit.material, gray(0.5));
    // the hit lies five units along the ray
    let t = hit.position.sub(ray.origin).distance();
    assert_eq!(t, fx(5.0));
}

#[test]
fn plane_behind_origin_is_missed() {
    let plane = plane_y0();
    let ray = Ray {
        origin: Position::new(fx(0.0), fx(5.0), fx(0.0)),
        direction: Direction::from_movement(Movement::new(fx(0.0), fx(1.0), fx(0.0))),
    };
    assert!(plane.intersect(&ray).is_none());
}

#[test]
fn parallel_ray_misses_plane() {
    let plane = plane_y0();
    let ray = Ray {
        origin: Position::new(fx(0.0), fx(5.0), fx(0.0)),
        direction: Direction::from_movement(Movement::new(fx(1.0), fx(0.0), fx(0.0))),
    };
    assert!(plane.intersect(&ray).is_none());
}

#[test]
fn striped_material_alternates() {
    let plane = Plane::new(
        Transform::identity(),
        fx(0.0),
        fx(0.0),
        fx(1.0),
        fx(0.0),
        MaterialWrapper::Stripes(gray(0.25), gray(0.75)),
    );
    let hit_at = |x: f64| {
        let ray = Ray {
            origin: Position::new(fx(x), fx(5.0), fx(0.0)),
            direction: Direction::from_movement(Movement::new(fx(0.0), fx(-1.0), fx(0.0))),
        };
        plane.intersect(&ray).expect("hit").material
    };
    assert_eq!(hit_at(0.5), gray(0.25));
    assert_eq!(hit_at(1.5), gray(0.75));
    assert_eq!(hit_at(2.5), gray(0.25));
    assert_eq!(hit_at(-0.5), gray(0.75));
}

#[test]
fn unoccluded_light_reaches_the_point() {
    let world = Object::Plane(plane_y0());
    let light = Light::Point(PointLight {
        position: Position::new(fx(0.0), fx(3.0), fx(0.0)),
        color: HdrColor::new(fx(1.0), fx(0.5), fx(0.25)),
    });
    let shading_point = Position::new(fx(0.0), fx(0.001), fx(0.0));
    let (color, direction) = light.illuminate(shading_point, &world).expect("unoccluded");
    assert_eq!(color, HdrColor::new(fx(1.0), fx(0.5), fx(0.25)));
    // direction of travel points from the light down toward the surface
    assert!(to_f64(direction.vec.1) < -0.99);
}

#[test]
fn occluded_light_is_absent() {
    let world = Object::Plane(plane_y0());
    let light = Light::Point(PointLight {
        position: Position::new(fx(0.0), fx(-3.0), fx(0.0)),
        color: HdrColor::new(fx(1.0), fx(1.0), fx(1.0)),
    });
    // the shading point sits just above the plane; the plane blocks the
    // path down to the light
    let shading_point = Position::new(fx(0.0), fx(0.001), fx(0.0));
    assert!(light.illuminate(shading_point, &world).is_none());
}

#[test]
fn grazing_brdf_is_zero() {
    let n = Direction::from_movement(Movement::new(fx(0.0), fx(1.0), fx(0.0)));
    let away = Direction::from_movement(Movement::new(fx(0.0), fx(-1.0), fx(0.0)));
    let l = Direction::from_movement(Movement::new(fx(0.0), fx(1.0), fx(0.0)));
    assert_eq!(microray::brdf(away, l, n, fx(0.5), fx(0.04)), fx(0.0));
}

#[test]
fn head_on_brdf_matches_reference_formula() {
    // view, light and normal all aligned: H == N == V == L, so
    // D = alpha^2 / pi, F = f0, G = (1/(2-k))^2, specular = D*F*G/4.
    let n = Direction::from_movement(Movement::new(fx(0.0), fx(1.0), fx(0.0)));
    let r = 0.5f64;
    let f0 = 0.04f64;
    let alpha = r * r;
    let alpha2 = alpha * alpha;
    let denom = 1.0 * (alpha2 - 1.0) + 1.0;
    let d = alpha2 / (std::f64::consts::PI * denom * denom);
    let k = (r + 1.0) * (r + 1.0) / 8.0;
    let g1 = 1.0 / (1.0 * (1.0 - k) + k);
    let expected = d * f0 * (g1 * g1) / 4.0;
    let got = to_f64(microray::brdf(n, n, n, fx(r), fx(f0)));
    assert!((got - expected).abs() < 1e-4, "got {got}, expected {expected}");
}

#[test]
fn orthogonal_camera_offsets_by_half_extents() {
    let cam = microray::scene::OrthogonalCamera::by_width(
        Position::new(fx(0.0), fx(0.0), fx(0.0)),
        fx(0.0),
        fx(0.0),
        fx(0.0),
        fx(2.0),
        fx(4.0),
    );
    let corner = cam.get_ray((fx(0.0), fx(0.0)));
    assert_eq!(corner.origin, Position::new(fx(-2.0), fx(0.0), fx(-1.0)));
    assert_eq!(corner.direction.vec, microray::math::Vec3(fx(0.0), fx(1.0), fx(0.0)));
    let center = cam.get_ray((fx(0.5), fx(0.5)));
    assert_eq!(center.origin, Position::new(fx(0.0), fx(0.0), fx(0.0)));
}

#[test]
fn by_y_and_by_x_tangents_agree() {
    let pos = Position::new(fx(0.0), fx(0.0), fx(0.0));
    let a = PerspectiveCamera::by_x(pos, fx(0.0), fx(0.0), fx(0.0), fx(2.0), fx(1.0));
    let b = PerspectiveCamera::by_y(pos, fx(0.0), fx(0.0), fx(0.0), fx(2.0), fx(1.0));
    assert!((to_f64(a.tan_fov.0) - 1.0f64.tan()).abs() < 1e-3);
    assert!((to_f64(a.tan_fov.1) - 1.0f64.tan() / 2.0).abs() < 1e-3);
    assert!((to_f64(b.tan_fov.1) - 1.0f64.tan()).abs() < 1e-3);
    assert!((to_f64(b.tan_fov.0) - 1.0f64.tan() * 2.0).abs() < 1e-3);
}
