//! A small physically-based renderer with a verified core: fixed-point
//! scalar arithmetic, an affine math kernel, a scene model (cameras, an
//! infinite plane, point lights), Cook-Torrance shading, and image
//! post-processing (Reinhard tone mapping and box-filter supersampling).
//!
//! This crate root holds the render pipeline: per-sample shading, the
//! high-dynamic-range pass, tone mapping and downsampling.

use vstd::prelude::*;

pub mod approx;
pub mod base_types;
pub mod fixed;
pub mod math;
pub mod scene;

use crate::approx::{exp_neg_v, pow_frac_v, PI_RAW};
use crate::base_types::{Direction, HdrColor, LdrColor, Position};
use crate::fixed::{Fx, SCALE};
use crate::scene::{Intersection, Light, Object, Scene};

verus! {

/// The fixed offset (in raw units) applied along the adjusted normal
/// before shadow rays are cast, to avoid immediate self-intersection.
pub const EPSILON_RAW: i64 = 1803886;

/// A radiance buffer: a row-major grid of optional radiance samples,
/// where an absent sample is a ray miss (distinct from black).
pub struct HdrImage {
    pub width: usize,
    pub height: usize,
    pub content: Vec<Option<HdrColor>>,
}

impl HdrImage {
    /// The buffer holds exactly one sample per grid cell.
    pub open spec fn wf(self) -> bool {
        self.content@.len() == self.width * self.height
    }
}

/// A displayable raster: a row-major grid of displayable colors.
pub struct LdrImage {
    pub width: usize,
    pub height: usize,
    pub content: Vec<LdrColor>,
}

impl LdrImage {
    /// The raster holds exactly one color per grid cell.
    pub open spec fn wf(self) -> bool {
        self.content@.len() == self.width * self.height
    }
}

/// The Cook-Torrance specular term: GGX normal distribution, Schlick
/// Fresnel, and Smith geometric attenuation; at or past grazing angles
/// (a nonpositive cosine toward the view or the light) the sample is
/// zero, the documented fallback instead of a division blow-up.
pub open spec fn brdf_v(
    surface_to_view: Direction,
    surface_to_light: Direction,
    surface_normal: Direction,
    roughness: Fx,
    f0: Fx,
) -> Fx {
    let h = Direction::from_directions_v(seq![surface_to_view, surface_to_light]);
    let cos_n_h = surface_normal.cos_angle_between_v(h);
    let cos_h_v = h.cos_angle_between_v(surface_to_view);
    let cos_n_v = surface_normal.cos_angle_between_v(surface_to_view);
    let cos_n_l = surface_normal.cos_angle_between_v(surface_to_light);
    if cos_n_v.raw <= 0 || cos_n_l.raw <= 0 {
        Fx { raw: 0 }
    } else {
        let alpha = roughness.mul_v(roughness);
        let alpha2 = alpha.mul_v(alpha);
        let cos_n_h2 = cos_n_h.mul_v(cos_n_h);
        let denom = cos_n_h2.mul_v(alpha2).add_v(Fx { raw: SCALE }.sub_v(cos_n_h2));
        let d = alpha2.div_v(Fx { raw: PI_RAW }.mul_v(denom).mul_v(denom));
        let base = Fx { raw: SCALE }.sub_v(cos_h_v);
        let base2 = base.mul_v(base);
        let base5 = base2.mul_v(base2).mul_v(base);
        let f = f0.add_v(Fx { raw: SCALE }.sub_v(f0).mul_v(base5));
        let k = roughness.add_v(Fx { raw: SCALE }).mul_v(
            roughness.add_v(Fx { raw: SCALE }),
        ).div_int_v(8);
        let g_v = cos_n_v.div_v(cos_n_v.mul_v(Fx { raw: SCALE }.sub_v(k)).add_v(k));
        let g_l = cos_n_l.div_v(cos_n_l.mul_v(Fx { raw: SCALE }.sub_v(k)).add_v(k));
        let g = g_v.mul_v(g_l);
        d.mul_v(f).mul_v(g).div_v(Fx::from_int_v(4).mul_v(cos_n_v).mul_v(cos_n_l))
    }
}

/// The Cook-Torrance specular scalar for the given view direction, light
/// direction, surface normal, roughness and normal-incidence Fresnel
/// reflectance.
pub fn brdf(
    surface_to_view: Direction,
    surface_to_light: Direction,
    surface_normal: Direction,
    roughness: Fx,
    f0: Fx,
) -> (r: Fx)
    ensures
        r == brdf_v(surface_to_view, surface_to_light, surface_normal, roughness, f0),
{
    let mut pair: Vec<Direction> = Vec::new();
    pair.push(surface_to_view);
    pair.push(surface_to_light);
    let h = Direction::from_directions(pair.as_slice());
    proof {
        assert(pair@ =~= seq![surface_to_view, surface_to_light]);
    }
    let cos_n_h = surface_normal.cos_angle_between(h);
    let cos_h_v = h.cos_angle_between(surface_to_view);
    let cos_n_v = surface_normal.cos_angle_between(surface_to_view);
    let cos_n_l = surface_normal.cos_angle_between(surface_to_light);
    if cos_n_v.raw <= 0 || cos_n_l.raw <= 0 {
        return Fx { raw: 0 };
    }
    let alpha = roughness.mul(roughness);
    let alpha2 = alpha.mul(alpha);
    let cos_n_h2 = cos_n_h.mul(cos_n_h);
    let denom = cos_n_h2.mul(alpha2).add(Fx::one().sub(cos_n_h2));
    let d = alpha2.div(Fx { raw: PI_RAW }.mul(denom).mul(denom));
    let base = Fx::one().sub(cos_h_v);
    let base2 = base.mul(base);
    let base5 = base2.mul(base2).mul(base);
    let f = f0.add(Fx::one().sub(f0).mul(base5));
    let k = roughness.add(Fx::one()).mul(roughness.add(Fx::one())).div_int(8);
    let g_v = cos_n_v.div(cos_n_v.mul(Fx::one().sub(k)).add(k));
    let g_l = cos_n_l.div(cos_n_l.mul(Fx::one().sub(k)).add(k));
    let g = g_v.mul(g_l);
    d.mul(f).mul(g).div(Fx::from_int(4).mul(cos_n_v).mul(cos_n_l))
}

/// The illumination fold over a prefix of the lights: the base is the
/// albedo-modulated ambient radiance, and each light that reaches the
/// shading point adds its albedo-modulated, specular-weighted radiance.
pub open spec fn lights_fold_v(
    lights: Seq<Light>,
    world: Object,
    ambient: HdrColor,
    camera_position: Position,
    hit: Intersection,
    adjusted_position: Position,
) -> HdrColor
    decreases lights.len(),
{
    if lights.len() == 0 {
        hit.material.albedo.mul_hdr_v(ambient)
    } else {
        let prev = lights_fold_v(
            lights.drop_last(),
            world,
            ambient,
            camera_position,
            hit,
            adjusted_position,
        );
        match lights.last().illuminate_v(adjusted_position, world) {
            Some(cd) => prev.add_v(
                hit.material.albedo.mul_hdr_v(cd.0).mul_v(
                    brdf_v(
                        Direction::from_movement_v(camera_position.sub_v(hit.position)),
                        cd.1.neg_v(),
                        hit.adjusted_normal,
                        hit.material.roughness,
                        hit.material.f0,
                    ),
                ),
            ),
            None => prev,
        }
    }
}

/// One radiance sample: the camera ray is intersected with the world; a
/// miss is an absent sample, and a hit accumulates ambient light and
/// per-light Cook-Torrance contributions at the shading point offset by
/// `EPSILON_RAW` along the adjusted normal.
pub open spec fn render_v(scene: Scene, position_in_image: (Fx, Fx)) -> Option<HdrColor> {
    let ray = scene.camera.get_ray_v(position_in_image);
    match scene.world.intersect_v(ray) {
        None => None,
        Some(hit) => {
            let adjusted_position = hit.position.add_v(
                hit.adjusted_normal.mul_v(Fx { raw: EPSILON_RAW }),
            );
            Some(
                lights_fold_v(
                    scene.lights@,
                    scene.world,
                    scene.ambient_light,
                    scene.camera.position_v(),
                    hit,
                    adjusted_position,
                ),
            )
        },
    }
}

/// The radiance sample at normalized image coordinates, or nothing when
/// the camera ray misses the world.
#[verifier::rlimit(60)]
pub fn render(scene: &Scene, position_in_image: (Fx, Fx)) -> (r: Option<HdrColor>)
    ensures
        r == render_v(*scene, position_in_image),
{
    let ray = scene.camera.get_ray(position_in_image);
    let hit_opt = scene.world.intersect(&ray);
    match hit_opt {
        None => None,
        Some(hit) => {
            let adjusted_position = hit.position.add(
                hit.adjusted_normal.mul(Fx::from_raw(EPSILON_RAW)),
            );
            let camera_position = scene.camera.position();
            let mut acc = hit.material.albedo.mul_hdr(scene.ambient_light);
            let mut i: usize = 0;
            while i < scene.lights.len()
                invariant
                    i <= scene.lights.len(),
                    acc == lights_fold_v(
                        scene.lights@.take(i as int),
                        scene.world,
                        scene.ambient_light,
                        camera_position,
                        hit,
                        adjusted_position,
                    ),
                decreases scene.lights.len() - i,
            {
                match scene.lights[i].illuminate(adjusted_position, &scene.world) {
                    Some((color, direction)) => {
                        let b = brdf(
                            Direction::from_movement(camera_position.sub(hit.position)),
                            direction.neg(),
                            hit.adjusted_normal,
                            hit.material.roughness,
                            hit.material.f0,
                        );
                        acc = acc.add(hit.material.albedo.mul_hdr(color).mul(b));
                    },
                    None => {},
                }
                proof {
                    assert(scene.lights@.take(i + 1 as int).drop_last() == scene.lights@.take(
                        i as int,
                    ));
                    assert(scene.lights@.take(i + 1 as int).last() == scene.lights@[i as int]);
                }
                i = i + 1;
            }
            proof {
                assert(scene.lights@.take(scene.lights@.len() as int) == scene.lights@);
            }
            Some(acc)
        },
    }
}

/// With no lights, every present sample is exactly the hit material's
/// albedo modulated by the ambient radiance, and a miss stays absent:
/// no specular term fires.
pub proof fn lemma_ambient_only(scene: Scene, position_in_image: (Fx, Fx))
    requires
        scene.lights@.len() == 0,
    ensures
        ({
            let ray = scene.camera.get_ray_v(position_in_image);
            match scene.world.intersect_v(ray) {
                Some(hit) => render_v(scene, position_in_image) == Some(
                    hit.material.albedo.mul_hdr_v(scene.ambient_light),
                ),
                None => render_v(scene, position_in_image) is None,
            }
        }),
{
}

/// The normalized image coordinates of a sample: column `x` of `w` maps
/// left to right onto `[0, 1]`, and row `y` of `h` maps top to bottom
/// onto `[1, 0]` (row zero is the top of the image).
pub open spec fn sample_uv_v(x: int, y: int, w: int, h: int) -> (Fx, Fx) {
    (
        Fx::from_int_v(x).div_v(Fx::from_int_v(w - 1)),
        Fx { raw: SCALE }.sub_v(Fx::from_int_v(y).div_v(Fx::from_int_v(h - 1))),
    )
}

/// One radiance sample per grid cell, in row-major order, at the
/// supersampled resolution `(width * rate) x (height * rate)`.
pub fn render_hdr_image(
    scene: &Scene,
    width: usize,
    height: usize,
    sqrt_super_sampling_rate: usize,
) -> (r: HdrImage)
    requires
        width * sqrt_super_sampling_rate <= 0x8000,
        height * sqrt_super_sampling_rate <= 0x8000,
    ensures
        r.width == width * sqrt_super_sampling_rate,
        r.height == height * sqrt_super_sampling_rate,
        r.wf(),
        forall|y: int, x: int|
            0 <= y < r.height && 0 <= x < r.width ==> r.content@[y * r.width + x] == render_v(
                *scene,
                sample_uv_v(x, y, r.width as int, r.height as int),
            ),
{
    let w2: usize = width * sqrt_super_sampling_rate;
    let h2: usize = height * sqrt_super_sampling_rate;
    proof {
        assert((w2 as int) * (h2 as int) <= 0x40000000int) by (nonlinear_arith)
            requires
                0 <= w2 as int <= 0x8000,
                0 <= h2 as int <= 0x8000,
        ;
    }
    let total: usize = w2 * h2;
    let mut content: Vec<Option<HdrColor>> = Vec::new();
    let mut idx: usize = 0;
    while idx < total
        invariant
            idx <= total,
            total == w2 * h2,
            w2 <= 0x8000,
            h2 <= 0x8000,
            content@.len() == idx,
            forall|j: int|
                0 <= j < idx ==> content@[j] == render_v(
                    *scene,
                    sample_uv_v(j % (w2 as int), j / (w2 as int), w2 as int, h2 as int),
                ),
        decreases total - idx,
    {
        proof {
            assert(w2 > 0) by {
                if w2 == 0 {
                    assert(total == 0);
                }
            }
        }
        let x: usize = idx % w2;
        let y: usize = idx / w2;
        let u = Fx::from_usize(x).div(Fx::from_usize(w2 - 1));
        let v = Fx::one().sub(Fx::from_usize(y).div(Fx::from_usize(h2 - 1)));
        content.push(render(scene, (u, v)));
        idx = idx + 1;
    }
    let r = HdrImage { width: w2, height: h2, content };
    proof {
        assert forall|y: int, x: int| 0 <= y < h2 && 0 <= x < w2 implies r.content@[y * (
        w2 as int) + x] == render_v(*scene, sample_uv_v(x, y, w2 as int, h2 as int)) by {
            let j = y * (w2 as int) + x;
            assert(y * (w2 as int) + x < (h2 as int) * (w2 as int)) by (nonlinear_arith)
                requires
                    0 <= y,
                    y < h2 as int,
                    0 <= x < w2 as int,
            ;
            vstd::arithmetic::div_mod::lemma_fundamental_div_mod_converse(j, w2 as int, y, x);
        }
    }
    r
}

/// One channel tone-mapped: the saturating Reinhard-style curve
/// `(1 - exp(-value * exposure)) ^ (1 / gamma)`.
pub open spec fn tone_channel_v(value: Fx, exposure: Fx, gamma: Fx) -> Fx {
    pow_frac_v(
        Fx { raw: SCALE }.sub_v(exp_neg_v(value.mul_v(exposure))),
        Fx { raw: SCALE }.div_v(gamma),
    )
}

/// A radiance sample tone-mapped to a displayable color.
pub open spec fn tone_map_v(c: HdrColor, exposure: Fx, gamma: Fx) -> LdrColor {
    LdrColor::new_v(
        tone_channel_v(c.r, exposure, gamma),
        tone_channel_v(c.g, exposure, gamma),
        tone_channel_v(c.b, exposure, gamma),
    )
}

/// Tone-map one radiance sample with the saturating exponential curve
/// and gamma correction, clamped into the displayable range.
pub fn tone_map(c: HdrColor, exposure: Fx, gamma: Fx) -> (r: LdrColor)
    ensures
        r == tone_map_v(c, exposure, gamma),
{
    let p = Fx::one().div(gamma);
    LdrColor::new(
        crate::approx::pow_frac(Fx::one().sub(crate::approx::exp_neg(c.r.mul(exposure))), p),
        crate::approx::pow_frac(Fx::one().sub(crate::approx::exp_neg(c.g.mul(exposure))), p),
        crate::approx::pow_frac(Fx::one().sub(crate::approx::exp_neg(c.b.mul(exposure))), p),
    )
}

/// The running sum of the first `k` cells of one `rate x rate` block
/// whose top-left sample is `(x0, y0)` of a row-major grid `w_big` wide.
pub open spec fn block_sum_v(
    content: Seq<LdrColor>,
    w_big: int,
    x0: int,
    y0: int,
    rate: int,
    k: int,
) -> (Fx, Fx, Fx)
    decreases k,
{
    if k <= 0 {
        (Fx { raw: 0 }, Fx { raw: 0 }, Fx { raw: 0 })
    } else {
        let p = block_sum_v(content, w_big, x0, y0, rate, k - 1);
        let c = content[(y0 + (k - 1) / rate) * w_big + x0 + (k - 1) % rate];
        (p.0.add_v(c.r), p.1.add_v(c.g), p.2.add_v(c.b))
    }
}

/// One output pixel of the box filter: the block average, re-clamped
/// into the displayable range.
pub open spec fn downsample_pixel_v(
    content: Seq<LdrColor>,
    w_big: int,
    rate: int,
    x: int,
    y: int,
) -> LdrColor {
    let s = block_sum_v(content, w_big, x * rate, y * rate, rate, rate * rate);
    LdrColor::new_v(
        s.0.div_int_v((rate * rate) as i64),
        s.1.div_int_v((rate * rate) as i64),
        s.2.div_int_v((rate * rate) as i64),
    )
}

/// Box-downsample a raster by averaging each `rate x rate` block into
/// one output pixel and re-clamping; `rate == 1` passes pixels through.
pub fn resize(image: &LdrImage, sqrt_super_sampling_rate: usize) -> (r: LdrImage)
    requires
        image.wf(),
        1 <= sqrt_super_sampling_rate <= 0x8000,
        image.width <= 0x8000,
        image.height <= 0x8000,
    ensures
        r.width == image.width / sqrt_super_sampling_rate,
        r.height == image.height / sqrt_super_sampling_rate,
        r.wf(),
        forall|y: int, x: int|
            0 <= y < r.height && 0 <= x < r.width ==> r.content@[y * r.width + x]
                == downsample_pixel_v(
                image.content@,
                image.width as int,
                sqrt_super_sampling_rate as int,
                x,
                y,
            ),
{
    let rate = sqrt_super_sampling_rate;
    let w_big = image.width;
    let h_big = image.height;
    let w: usize = w_big / rate;
    let h: usize = h_big / rate;
    proof {
        vstd::arithmetic::div_mod::lemma_fundamental_div_mod(w_big as int, rate as int);
        vstd::arithmetic::div_mod::lemma_fundamental_div_mod(h_big as int, rate as int);
        assert((w as int) * (rate as int) <= w_big as int && (h as int) * (rate as int)
            <= h_big as int) by (nonlinear_arith)
            requires
                w_big as int == (rate as int) * (w as int) + (w_big as int) % (rate as int),
                h_big as int == (rate as int) * (h as int) + (h_big as int) % (rate as int),
                (w_big as int) % (rate as int) >= 0,
                (h_big as int) % (rate as int) >= 0,
        ;
        vstd::arithmetic::div_mod::lemma_div_nonincreasing(w_big as int, rate as int);
        vstd::arithmetic::div_mod::lemma_div_nonincreasing(h_big as int, rate as int);
        assert((w as int) * (h as int) <= 0x40000000int && 1 <= (rate as int) * (rate as int)
            <= 0x40000000int) by (nonlinear_arith)
            requires
                0 <= w as int <= 0x8000,
                0 <= h as int <= 0x8000,
                1 <= rate as int <= 0x8000,
        ;
    }
    let total: usize = w * h;
    let count: usize = rate * rate;
    let mut content: Vec<LdrColor> = Vec::new();
    let mut idx: usize = 0;
    while idx < total
        invariant
            idx <= total,
            total == w * h,
            w == w_big / rate,
            h == h_big / rate,
            count == rate * rate,
            1 <= count <= 0x40000000,
            1 <= rate <= 0x8000,
            w <= 0x8000,
            h <= 0x8000,
            w_big <= 0x8000,
            h_big <= 0x8000,
            (w as int) * (rate as int) <= w_big as int,
            (h as int) * (rate as int) <= h_big as int,
            image.wf(),
            w_big == image.width,
            h_big == image.height,
            content@.len() == idx,
            forall|j: int|
                0 <= j < idx ==> content@[j] == downsample_pixel_v(
                    image.content@,
                    w_big as int,
                    rate as int,
                    j % (w as int),
                    j / (w as int),
                ),
        decreases total - idx,
    {
        proof {
            assert(w > 0) by {
                if w == 0 {
                    assert(total == 0);
                }
            }
        }
        let x: usize = idx % w;
        let y: usize = idx / w;
        proof {
            assert(0 <= y < h) by {
                vstd::arithmetic::div_mod::lemma_fundamental_div_mod(idx as int, w as int);
                assert((idx as int) / (w as int) < h as int) by (nonlinear_arith)
                    requires
                        idx as int == (w as int) * ((idx as int) / (w as int)) + (idx as int) % (
                        w as int),
                        (idx as int) % (w as int) >= 0,
                        idx < total,
                        total == (w as int) * (h as int),
                        w > 0,
                ;
            }
            assert((x as int) * (rate as int) + (rate as int) <= w_big as int && (y as int) * (
            rate as int) + (rate as int) <= h_big as int) by (nonlinear_arith)
                requires
                    x as int <= (w as int) - 1,
                    y as int <= (h as int) - 1,
                    rate as int >= 1,
                    (w as int) * (rate as int) <= w_big as int,
                    (h as int) * (rate as int) <= h_big as int,
            ;
        }
        let x0: usize = x * rate;
        let y0: usize = y * rate;
        let mut sr = Fx::zero();
        let mut sg = Fx::zero();
        let mut sb = Fx::zero();
        let mut k: usize = 0;
        while k < count
            invariant
                k <= count,
                count == rate * rate,
                1 <= rate <= 0x8000,
                x0 == x * rate,
                y0 == y * rate,
                x0 + rate <= w_big,
                y0 + rate <= h_big,
                w_big <= 0x8000,
                h_big <= 0x8000,
                image.wf(),
                w_big == image.width,
                h_big == image.height,
                (sr, sg, sb) == block_sum_v(
                    image.content@,
                    w_big as int,
                    x0 as int,
                    y0 as int,
                    rate as int,
                    k as int,
                ),
            decreases count - k,
        {
            let i: usize = k / rate;
            let j: usize = k % rate;
            proof {
                assert(i < rate) by {
                    vstd::arithmetic::div_mod::lemma_fundamental_div_mod(k as int, rate as int);
                    assert((k as int) / (rate as int) < rate as int) by (nonlinear_arith)
                        requires
                            k as int == (rate as int) * ((k as int) / (rate as int)) + (k as int)
                                % (rate as int),
                            (k as int) % (rate as int) >= 0,
                            k < count,
                            count == (rate as int) * (rate as int),
                            rate >= 1,
                    ;
                }
                assert((y0 as int + i) * (w_big as int) + (x0 as int + j) < (h_big as int) * (
                w_big as int) && (h_big as int) * (w_big as int) <= 0x40000000int)
                    by (nonlinear_arith)
                    requires
                        0 <= y0 as int + i < h_big as int,
                        0 <= x0 as int + j < w_big as int,
                        h_big as int <= 0x8000,
                        w_big as int <= 0x8000,
                ;
                assert((h_big as int) * (w_big as int) == image.content@.len());
            }
            let cell: LdrColor = image.content[(y0 + i) * w_big + (x0 + j)];
            sr = sr.add(cell.r);
            sg = sg.add(cell.g);
            sb = sb.add(cell.b);
            k = k + 1;
        }
        proof {
            assert(count >= 1);
        }
        let divisor: i64 = count as i64;
        content.push(LdrColor::new(sr.div_int(divisor), sg.div_int(divisor), sb.div_int(divisor)));
        idx = idx + 1;
    }
    let r = LdrImage { width: w, height: h, content };
    proof {
        assert forall|y: int, x: int| 0 <= y < h && 0 <= x < w implies r.content@[y * (w as int)
            + x] == downsample_pixel_v(image.content@, w_big as int, rate as int, x, y) by {
            let j = y * (w as int) + x;
            assert(y * (w as int) + x < (h as int) * (w as int)) by (nonlinear_arith)
                requires
                    0 <= y,
                    y < h as int,
                    0 <= x < w as int,
            ;
            vstd::arithmetic::div_mod::lemma_fundamental_div_mod_converse(j, w as int, y, x);
        }
    }
    r
}

/// The tone-mapped view of a radiance buffer: present samples through
/// the curve, absent samples as the void color.
pub open spec fn tone_mapped_v(
    content: Seq<Option<HdrColor>>,
    exposure: Fx,
    gamma: Fx,
    void_color: LdrColor,
) -> Seq<LdrColor> {
    content.map(
        |i: int, c: Option<HdrColor>|
            match c {
                Some(hc) => tone_map_v(hc, exposure, gamma),
                None => void_color,
            },
    )
}

/// Tone-map a supersampled radiance buffer (absent samples become the
/// void color) and box-downsample the result by the supersampling rate.
pub fn render_ldr_image(
    hdr_image: HdrImage,
    exposure: Fx,
    gamma: Fx,
    sqrt_super_sampling_rate: usize,
    void_color: LdrColor,
) -> (r: LdrImage)
    requires
        hdr_image.wf(),
        1 <= sqrt_super_sampling_rate <= 0x8000,
        hdr_image.width <= 0x8000,
        hdr_image.height <= 0x8000,
    ensures
        r.width == hdr_image.width / sqrt_super_sampling_rate,
        r.height == hdr_image.height / sqrt_super_sampling_rate,
        r.wf(),
        forall|y: int, x: int|
            0 <= y < r.height && 0 <= x < r.width ==> r.content@[y * r.width + x]
                == downsample_pixel_v(
                tone_mapped_v(hdr_image.content@, exposure, gamma, void_color),
                hdr_image.width as int,
                sqrt_super_sampling_rate as int,
                x,
                y,
            ),
{
    let mut mapped: Vec<LdrColor> = Vec::new();
    let mut i: usize = 0;
    let n = hdr_image.content.len();
    while i < n
        invariant
            i <= n,
            n == hdr_image.content@.len(),
            mapped@.len() == i,
            forall|j: int|
                0 <= j < i ==> mapped@[j] == tone_mapped_v(
                    hdr_image.content@,
                    exposure,
                    gamma,
                    void_color,
                )[j],
        decreases n - i,
    {
        let cell: LdrColor = match hdr_image.content[i] {
            Some(hc) => tone_map(hc, exposure, gamma),
            None => void_color,
        };
        mapped.push(cell);
        i = i + 1;
    }
    proof {
        assert(mapped@ =~= tone_mapped_v(hdr_image.content@, exposure, gamma, void_color));
    }
    let big = LdrImage { width: hdr_image.width, height: hdr_image.height, content: mapped };
    resize(&big, sqrt_super_sampling_rate)
}

proof fn lemma_block_sum_constant(
    content: Seq<LdrColor>,
    w_big: int,
    x0: int,
    y0: int,
    rate: int,
    k: int,
    c: LdrColor,
)
    requires
        c.wf(),
        0 <= k <= 0x40000000,
        forall|j: int| 0 <= j < content.len() ==> content[j] == c,
        forall|j: int|
            0 <= j < k ==> 0 <= (y0 + j / rate) * w_big + x0 + #[trigger] (j % rate)
                < content.len(),
    ensures
        ({
            let s = block_sum_v(content, w_big, x0, y0, rate, k);
            s.0.raw == k * c.r.raw && s.1.raw == k * c.g.raw && s.2.raw == k * c.b.raw
        }),
    decreases k,
{
    if k > 0 {
        lemma_block_sum_constant(content, w_big, x0, y0, rate, k - 1, c);
        let idx = (y0 + (k - 1) / rate) * w_big + x0 + (k - 1) % rate;
        assert(0 <= idx < content.len());
        assert(content[idx] == c);
        assert(0 <= (k - 1) * c.r.raw <= 0x4000000000000000int && 0 <= (k - 1) * c.g.raw
            <= 0x4000000000000000int && 0 <= (k - 1) * c.b.raw <= 0x4000000000000000int
            && (k - 1) * c.r.raw + c.r.raw == k * c.r.raw && (k - 1) * c.g.raw + c.g.raw == k
            * c.g.raw && (k - 1) * c.b.raw + c.b.raw == k * c.b.raw) by (nonlinear_arith)
            requires
                0 <= k - 1 <= 0x40000000,
                0 <= c.r.raw <= 0x100000000,
                0 <= c.g.raw <= 0x100000000,
                0 <= c.b.raw <= 0x100000000,
        ;
    }
}

/// Supersampling a constant raster is exact: when every sample of the
/// grid is the same displayable color, each box-averaged output pixel is
/// exactly that color again, for every rate -- so a supersampled render
/// of a constant-valued scene, downsampled, reproduces the single-sample
/// render.
pub proof fn lemma_downsample_constant(
    content: Seq<LdrColor>,
    w_big: int,
    rate: int,
    x: int,
    y: int,
    c: LdrColor,
)
    requires
        c.wf(),
        1 <= rate <= 0x8000,
        forall|j: int| 0 <= j < content.len() ==> content[j] == c,
        forall|j: int|
            0 <= j < rate * rate ==> 0 <= (y * rate + j / rate) * w_big + x * rate + #[trigger] (
            j % rate) < content.len(),
    ensures
        downsample_pixel_v(content, w_big, rate, x, y) == c,
{
    assert(1 <= rate * rate <= 0x40000000) by (nonlinear_arith)
        requires
            1 <= rate <= 0x8000,
    ;
    lemma_block_sum_constant(content, w_big, x * rate, y * rate, rate, rate * rate, c);
    let k = rate * rate;
    let s = block_sum_v(content, w_big, x * rate, y * rate, rate, k);
    assert(s.0.div_int_v(k as i64) == c.r && s.1.div_int_v(k as i64) == c.g && s.2.div_int_v(
        k as i64,
    ) == c.b) by {
        vstd::arithmetic::div_mod::lemma_div_multiples_vanish(c.r.raw as int, k);
        vstd::arithmetic::div_mod::lemma_div_multiples_vanish(c.g.raw as int, k);
        vstd::arithmetic::div_mod::lemma_div_multiples_vanish(c.b.raw as int, k);
    }
}

} // verus!
