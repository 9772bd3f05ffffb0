use microray::base_types::{HdrColor, LdrColor, Position, Transform};
use microray::fixed::Fx;
use microray::scene::{
    Camera, Light, Material, MaterialWrapper, Object, OrthogonalCamera, PerspectiveCamera, Plane,
    PointLight, Scene,
};
use microray::{render, render_hdr_image, render_ldr_image, resize, tone_map, LdrImage};

fn fx(v: f64) -> Fx {
    Fx::from_raw((v * 4294967296.0).round() as i64)
}

fn to_f64(x: Fx) -> f64 {
    x.raw as f64 / 4294967296.0
}

/// A camera at `y == -5` looking along `+y` onto the plane `y == 0`,
/// which fills the whole frame; no lights.
fn ambient_scene(albedo: f64, ambient: f64) -> Scene {
    let camera = Camera::Orthogonal(OrthogonalCamera::by_width(
        Position::new(fx(0.0), fx(-5.0), fx(0.0)),
        fx(0.0),
        fx(0.0),
        fx(0.0),
        fx(1.0),
        fx(4.0),
    ));
    let world = Object::Plane(Plane::new(
        Transform::identity(),
        fx(0.0),
        fx(0.0),
        fx(1.0),
        fx(0.0),
        MaterialWrapper::Uniform(Material {
            albedo: LdrColor::new(fx(albedo), fx(albedo), fx(albedo)),
            roughness: fx(0.42),
            f0: fx(0.04),
        }),
    ));
    Scene::new(camera, world, HdrColor::new(fx(ambient), fx(ambient), fx(ambient)), Vec::new())
}

#[test]
fn ambient_only_pixel_is_albedo_times_ambient() {
    let scene = ambient_scene(0.5, 2.0);
    let sample = render(&scene, (fx(0.25), fx(0.75))).expect("the plane fills the frame");
    assert_eq!(sample, HdrColor::new(fx(1.0), fx(1.0), fx(1.0)));
}

#[test]
fn ambient_only_image_is_constant() {
    let scene = ambient_scene(0.5, 1.0);
    let image = render_hdr_image(&scene, 3, 2, 1);
    assert_eq!(image.width, 3);
    assert_eq!(image.height, 2);
    assert_eq!(image.content.len(), 6);
    for cell in &image.content {
        assert_eq!(*cell, Some(HdrColor::new(fx(0.5), fx(0.5), fx(0.5))));
    }
}

#[test]
fn supersampling_constant_scene_reproduces_single_sample_render() {
    let scene = ambient_scene(0.5, 1.0);
    let plain = render_ldr_image(
        render_hdr_image(&scene, 4, 4, 1),
        fx(1.0),
        fx(2.2),
        1,
        LdrColor::new(fx(0.0), fx(0.0), fx(0.0)),
    );
    let supersampled = render_ldr_image(
        render_hdr_image(&scene, 4, 4, 2),
        fx(1.0),
        fx(2.2),
        2,
        LdrColor::new(fx(0.0), fx(0.0), fx(0.0)),
    );
    assert_eq!(plain.width, supersampled.width);
    assert_eq!(plain.height, supersampled.height);
    assert_eq!(plain.content, supersampled.content);
}

#[test]
fn tone_map_matches_reference_curve() {
    let c = tone_map(HdrColor::new(fx(1.0), fx(0.0), fx(4.0)), fx(1.0), fx(2.0));
    let curve = |v: f64| (1.0 - (-v).exp()).powf(0.5);
    assert!((to_f64(c.r) - curve(1.0)).abs() < 1e-3);
    assert_eq!(c.g, fx(0.0));
    assert!((to_f64(c.b) - curve(4.0)).abs() < 1e-3);
}

#[test]
fn tone_map_with_unit_gamma_is_plain_exponential() {
    let c = tone_map(HdrColor::new(fx(1.0), fx(1.0), fx(1.0)), fx(2.0), fx(1.0));
    let expected = 1.0 - (-2.0f64).exp();
    assert!((to_f64(c.r) - expected).abs() < 1e-4);
}

#[test]
fn resize_averages_blocks() {
    // a 2x2 image with three dark and one bright pixel, averaged to one
    let dark = LdrColor::new(fx(0.2), fx(0.2), fx(0.2));
    let bright = LdrColor::new(fx(1.0), fx(1.0), fx(1.0));
    let image = LdrImage { width: 2, height: 2, content: vec![dark, dark, dark, bright] };
    let small = resize(&image, 2);
    assert_eq!(small.width, 1);
    assert_eq!(small.height, 1);
    assert!((to_f64(small.content[0].r) - 0.4).abs() < 1e-6);
}

#[test]
fn resize_with_rate_one_is_identity() {
    let a = LdrColor::new(fx(0.1), fx(0.2), fx(0.3));
    let b = LdrColor::new(fx(0.4), fx(0.5), fx(0.6));
    let image = LdrImage { width: 2, height: 1, content: vec![a, b] };
    let same = resize(&image, 1);
    assert_eq!(same.width, 2);
    assert_eq!(same.height, 1);
    assert_eq!(same.content, vec![a, b]);
}

#[test]
fn void_pixels_take_the_void_color() {
    // an orthogonal camera looking along +y with the plane x == 5 only
    // partly in some frames; simplest: a plane parallel to every ray,
    // so every sample misses and every pixel is the void color
    let camera = Camera::Orthogonal(OrthogonalCamera::by_width(
        Position::new(fx(0.0), fx(-5.0), fx(0.0)),
        fx(0.0),
        fx(0.0),
        fx(0.0),
        fx(1.0),
        fx(4.0),
    ));
    let world = Object::Plane(Plane::new(
        Transform::identity(),
        fx(1.0),
        fx(0.0),
        fx(0.0),
        fx(0.0),
        MaterialWrapper::Uniform(Material {
            albedo: LdrColor::new(fx(1.0), fx(1.0), fx(1.0)),
            roughness: fx(0.5),
            f0: fx(0.04),
        }),
    ));
    let scene = Scene::new(camera, world, HdrColor::new(fx(1.0), fx(1.0), fx(1.0)), Vec::new());
    let void_color = LdrColor::new(fx(0.25), fx(0.5), fx(0.75));
    let image = render_ldr_image(render_hdr_image(&scene, 2, 2, 1), fx(1.0), fx(2.2), 1, void_color);
    for cell in &image.content {
        assert_eq!(*cell, void_color);
    }
}

#[test]
fn a_light_brightens_the_sample() {
    // a camera above the plane looking straight down (pitch of pi turns
    // the local forward axis around), with one unoccluded light above
    let camera = Camera::Perspective(PerspectiveCamera::by_x(
        Position::new(fx(0.0), fx(5.0), fx(0.0)),
        fx(0.0),
        fx(std::f64::consts::PI),
        fx(0.0),
        fx(1.0),
        fx(0.5),
    ));
    let world = Object::Plane(Plane::new(
        Transform::identity(),
        fx(0.0),
        fx(0.0),
        fx(1.0),
        fx(0.0),
        MaterialWrapper::Uniform(Material {
            albedo: LdrColor::new(fx(0.8), fx(0.8), fx(0.8)),
            roughness: fx(0.42),
            f0: fx(0.75),
        }),
    ));
    let ambient = HdrColor::new(fx(0.25), fx(0.25), fx(0.25));
    let lights = vec![Light::Point(PointLight {
        position: Position::new(fx(0.0), fx(8.0), fx(0.0)),
        color: HdrColor::new(fx(1.0), fx(1.0), fx(1.0)),
    })];
    let lit = Scene::new(camera, world, ambient, lights);
    let sample = render(&lit, (fx(0.5), fx(0.5))).expect("the plane is below the camera");
    let base = render(
        &Scene::new(camera, world, ambient, Vec::new()),
        (fx(0.5), fx(0.5)),
    )
    .expect("the plane is below the camera");
    assert!(to_f64(sample.r) > to_f64(base.r));
    assert!(to_f64(sample.g) > to_f64(base.g));
    assert!(to_f64(sample.b) > to_f64(base.b));
}
