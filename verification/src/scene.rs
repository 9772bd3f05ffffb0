//! The scene model: cameras that turn image-plane coordinates into rays,
//! the infinite-plane object with its intersection test, point lights
//! with shadow-ray occlusion, and the scene that bundles them.
//!
//! The capability sets (camera, object, light, per-point material) are
//! tagged variants, with dispatch at the scene boundary only.

use vstd::prelude::*;

use crate::base_types::{Direction, HdrColor, LdrColor, Movement, Position, Transform};
use crate::fixed::{Fx, SCALE};
use crate::math::Vec3;

verus! {

/// A ray: an origin and a unit direction.
#[derive(Clone, Copy, Debug, PartialEq, Eq, Structural)]
pub struct Ray {
    pub origin: Position,
    pub direction: Direction,
}

/// A surface description: albedo, microfacet roughness in `[0, 1]`, and
/// the normal-incidence Fresnel reflectance.
#[derive(Clone, Copy, Debug, PartialEq, Eq, Structural)]
pub struct Material {
    pub albedo: LdrColor,
    pub roughness: Fx,
    pub f0: Fx,
}

/// The per-point material capability: the material may vary over a
/// surface without allocating one per intersection ahead of time.
#[derive(Clone, Copy, Debug, PartialEq, Eq, Structural)]
pub enum MaterialWrapper {
    /// The same material everywhere.
    Uniform(Material),
    /// Unit-width stripes along the x axis, alternating two materials.
    Stripes(Material, Material),
}

impl MaterialWrapper {
    pub open spec fn get_material_v(self, position: Position) -> Material {
        match self {
            MaterialWrapper::Uniform(m) => m,
            MaterialWrapper::Stripes(even, odd) => {
                if (position.vec.0.raw as int) % ((2 * SCALE) as int) < SCALE as int {
                    even
                } else {
                    odd
                }
            },
        }
    }

    /// The material at a point of the surface.
    pub fn get_material(&self, position: Position) -> (m: Material)
        ensures
            m == self.get_material_v(position),
    {
        match self {
            MaterialWrapper::Uniform(m) => *m,
            MaterialWrapper::Stripes(even, odd) => {
                let x = position.vec.0.raw;
                let m0: i64 = x % (2 * SCALE);
                let m1: i64 = if m0 < 0 {
                    proof {
                        let nx = -(x as int);
                        let d = (2 * SCALE) as int;
                        vstd::arithmetic::div_mod::lemma_fundamental_div_mod(nx, d);
                        vstd::arithmetic::div_mod::lemma_fundamental_div_mod_converse_mod(
                            x as int,
                            d,
                            -(nx / d) - 1,
                            d - nx % d,
                        );
                    }
                    m0 + 2 * SCALE
                } else {
                    m0
                };
                if m1 < SCALE {
                    *even
                } else {
                    *odd
                }
            },
        }
    }
}

/// A surface hit: the point, the geometrically true normal, the normal
/// used to bias shadow-ray origins (equal to the true one for planes),
/// and the material sampled at the point.
#[derive(Clone, Copy, Debug, PartialEq, Eq, Structural)]
pub struct Intersection {
    pub position: Position,
    pub real_normal: Direction,
    pub adjusted_normal: Direction,
    pub material: Material,
}

/// An infinite plane, given implicitly by the zero set of the affine
/// scalar field with the four coefficients, evaluated in plane-local
/// space: the stored transform maps world space into plane-local space.
#[derive(Clone, Copy, Debug, PartialEq, Eq, Structural)]
pub struct Plane {
    pub transform: Transform,
    pub coefficient_x0y0z0: Fx,
    pub coefficient_x1y0z0: Fx,
    pub coefficient_x0y1z0: Fx,
    pub coefficient_x0y0z1: Fx,
    pub material: MaterialWrapper,
}

impl Plane {
    /// The plane with the given placement, field coefficients and
    /// per-point material.
    pub fn new(
        transform: Transform,
        coefficient_x0y0z0: Fx,
        coefficient_x1y0z0: Fx,
        coefficient_x0y1z0: Fx,
        coefficient_x0y0z1: Fx,
        material: MaterialWrapper,
    ) -> (r: Plane)
        ensures
            r == (Plane {
                transform,
                coefficient_x0y0z0,
                coefficient_x1y0z0,
                coefficient_x0y1z0,
                coefficient_x0y0z1,
                material,
            }),
    {
        Plane {
            transform,
            coefficient_x0y0z0,
            coefficient_x1y0z0,
            coefficient_x0y1z0,
            coefficient_x0y0z1,
            material,
        }
    }

    /// The world-space field gradient: the local gradient carried
    /// through the transpose of the world-to-local linear block.
    pub open spec fn world_normal_v(self) -> Movement {
        let m = self.transform.mat;
        let g = Vec3(self.coefficient_x1y0z0, self.coefficient_x0y1z0, self.coefficient_x0y0z1);
        Movement {
            vec: Vec3(
                crate::math::dot3_v(m.0.0, m.1.0, m.2.0, g.0, g.1, g.2),
                crate::math::dot3_v(m.0.1, m.1.1, m.2.1, g.0, g.1, g.2),
                crate::math::dot3_v(m.0.2, m.1.2, m.2.2, g.0, g.1, g.2),
            ),
        }
    }

    fn world_normal(&self) -> (r: Movement)
        ensures
            r == self.world_normal_v(),
    {
        let m = self.transform.mat;
        let g = Vec3(self.coefficient_x1y0z0, self.coefficient_x0y1z0, self.coefficient_x0y0z1);
        Movement {
            vec: Vec3(
                crate::math::dot3(m.0.0, m.1.0, m.2.0, g.0, g.1, g.2),
                crate::math::dot3(m.0.1, m.1.1, m.2.1, g.0, g.1, g.2),
                crate::math::dot3(m.0.2, m.1.2, m.2.2, g.0, g.1, g.2),
            ),
        }
    }

    pub open spec fn intersect_v(self, ray: Ray) -> Option<Intersection> {
        let local_origin = ray.origin.apply_v(self.transform);
        let local_direction = Movement { vec: ray.direction.vec }.apply_v(self.transform);
        let coefficient_t1 = crate::math::dot3_v(
            self.coefficient_x1y0z0,
            self.coefficient_x0y1z0,
            self.coefficient_x0y0z1,
            local_direction.vec.0,
            local_direction.vec.1,
            local_direction.vec.2,
        );
        let coefficient_t0 = self.coefficient_x0y0z0.add_v(
            crate::math::dot3_v(
                self.coefficient_x1y0z0,
                self.coefficient_x0y1z0,
                self.coefficient_x0y0z1,
                local_origin.vec.0,
                local_origin.vec.1,
                local_origin.vec.2,
            ),
        );
        if coefficient_t1.raw == 0 {
            None
        } else {
            let t = coefficient_t0.neg_v().div_v(coefficient_t1);
            if t.raw < 0 {
                None
            } else {
                let position = ray.origin.add_v(ray.direction.mul_v(t));
                let normal = Direction::from_movement_v(self.world_normal_v());
                Some(
                    Intersection {
                        position,
                        real_normal: normal,
                        adjusted_normal: normal,
                        material: self.material.get_material_v(position),
                    },
                )
            }
        }
    }

    /// The nearest intersection of the ray with the plane, if any: the
    /// field is linear along the ray, so a single parameter solves it.
    /// A ray parallel to the plane (zero linear coefficient) misses, as
    /// does a solution behind the origin (`t < 0`); `t == 0` is a hit.
    pub fn intersect(&self, ray: &Ray) -> (r: Option<Intersection>)
        ensures
            r == self.intersect_v(*ray),
    {
        let local_origin = ray.origin.apply(self.transform);
        let local_direction = Movement { vec: ray.direction.vec }.apply(self.transform);
        let coefficient_t1 = crate::math::dot3(
            self.coefficient_x1y0z0,
            self.coefficient_x0y1z0,
            self.coefficient_x0y0z1,
            local_direction.vec.0,
            local_direction.vec.1,
            local_direction.vec.2,
        );
        let coefficient_t0 = self.coefficient_x0y0z0.add(
            crate::math::dot3(
                self.coefficient_x1y0z0,
                self.coefficient_x0y1z0,
                self.coefficient_x0y0z1,
                local_origin.vec.0,
                local_origin.vec.1,
                local_origin.vec.2,
            ),
        );
        if coefficient_t1.raw == 0 {
            return None;
        }
        let t = coefficient_t0.neg().div(coefficient_t1);
        if t.raw < 0 {
            return None;
        }
        let position = ray.origin.add(ray.direction.mul(t));
        let normal = Direction::from_movement(self.world_normal());
        Some(
            Intersection {
                position,
                real_normal: normal,
                adjusted_normal: normal,
                material: self.material.get_material(position),
            },
        )
    }
}

/// The object capability: the traceable world.  The infinite plane is
/// the one implemented primitive; further primitives plug in as new
/// variants.
#[derive(Clone, Copy, Debug, PartialEq, Eq, Structural)]
pub enum Object {
    Plane(Plane),
}

impl Object {
    pub open spec fn intersect_v(self, ray: Ray) -> Option<Intersection> {
        match self {
            Object::Plane(p) => p.intersect_v(ray),
        }
    }

    /// The nearest hit of the ray with the world, or nothing on a miss.
    pub fn intersect(&self, ray: &Ray) -> (r: Option<Intersection>)
        ensures
            r == self.intersect_v(*ray),
    {
        match self {
            Object::Plane(p) => p.intersect(ray),
        }
    }
}

/// An orthogonal camera: parallel rays along one view direction, with
/// origins offset inside an image-plane rectangle.
#[derive(Clone, Copy, Debug, PartialEq, Eq)]
pub struct OrthogonalCamera {
    pub position: Position,
    pub direction: Direction,
    pub half_size: (Fx, Fx),
    pub transform: Transform,
}

impl OrthogonalCamera {
    pub open spec fn with_size_v(
        position: Position,
        yaw: Fx,
        pitch: Fx,
        roll: Fx,
        half_width: Fx,
        half_height: Fx,
    ) -> OrthogonalCamera {
        let transform = Transform { mat: crate::math::Mat4::rotate_v(yaw, pitch, roll) };
        OrthogonalCamera {
            position,
            direction: Direction::from_movement_v(
                Movement {
                    vec: Vec3(Fx { raw: 0 }, Fx { raw: SCALE }, Fx { raw: 0 }),
                }.apply_v(transform),
            ),
            half_size: (half_width, half_height),
            transform,
        }
    }

    /// The orthogonal camera with the given width; the height follows
    /// from the aspect ratio.  The view direction is the local forward
    /// axis rotated by yaw, pitch and roll.
    pub fn by_width(
        position: Position,
        yaw: Fx,
        pitch: Fx,
        roll: Fx,
        aspect_ratio: Fx,
        width: Fx,
    ) -> (r: OrthogonalCamera)
        ensures
            r == OrthogonalCamera::with_size_v(
                position,
                yaw,
                pitch,
                roll,
                width.div_int_v(2),
                width.div_v(aspect_ratio).div_int_v(2),
            ),
    {
        let half_width = width.div_int(2);
        let half_height = width.div(aspect_ratio).div_int(2);
        OrthogonalCamera::with_size(position, yaw, pitch, roll, half_width, half_height)
    }

    /// The orthogonal camera with the given height; the width follows
    /// from the aspect ratio.
    pub fn by_height(
        position: Position,
        yaw: Fx,
        pitch: Fx,
        roll: Fx,
        aspect_ratio: Fx,
        height: Fx,
    ) -> (r: OrthogonalCamera)
        ensures
            r == OrthogonalCamera::with_size_v(
                position,
                yaw,
                pitch,
                roll,
                height.mul_v(aspect_ratio).div_int_v(2),
                height.div_int_v(2),
            ),
    {
        let half_width = height.mul(aspect_ratio).div_int(2);
        let half_height = height.div_int(2);
        OrthogonalCamera::with_size(position, yaw, pitch, roll, half_width, half_height)
    }

    fn with_size(
        position: Position,
        yaw: Fx,
        pitch: Fx,
        roll: Fx,
        half_width: Fx,
        half_height: Fx,
    ) -> (r: OrthogonalCamera)
        ensures
            r == OrthogonalCamera::with_size_v(position, yaw, pitch, roll, half_width, half_height),
    {
        let transform = Transform::rotate(yaw, pitch, roll);
        let forward = Movement::new(Fx::zero(), Fx::one(), Fx::zero());
        let direction = Direction::from_movement(forward.apply(transform));
        OrthogonalCamera { position, direction, half_size: (half_width, half_height), transform }
    }

    pub open spec fn get_ray_v(self, position_in_image: (Fx, Fx)) -> Ray {
        let u = position_in_image.0;
        let v = position_in_image.1;
        let offset = Movement {
            vec: Vec3(
                self.half_size.0.mul_v(u.add_v(u).sub_v(Fx { raw: SCALE })),
                Fx { raw: 0 },
                self.half_size.1.mul_v(v.add_v(v).sub_v(Fx { raw: SCALE })),
            ),
        };
        Ray {
            origin: self.position.add_v(offset.apply_v(self.transform)),
            direction: self.direction,
        }
    }

    /// The parallel ray for normalized image coordinates in
    /// `[0, 1] x [0, 1]`: the offset maps them linearly to `[-1, 1]`,
    /// scales by the half extents, and is rotated by the orientation.
    pub fn get_ray(&self, position_in_image: (Fx, Fx)) -> (r: Ray)
        ensures
            r == self.get_ray_v(position_in_image),
    {
        let u = position_in_image.0;
        let v = position_in_image.1;
        let offset = Movement::new(
            self.half_size.0.mul(u.add(u).sub(Fx::one())),
            Fx::zero(),
            self.half_size.1.mul(v.add(v).sub(Fx::one())),
        );
        let rotated = offset.apply(self.transform);
        Ray { origin: self.position.add(rotated), direction: self.direction }
    }

    /// The camera's eye point.
    pub fn position(&self) -> (r: Position)
        ensures
            r == self.position,
    {
        self.position
    }
}

/// A perspective camera: rays diverge from one eye point; the local
/// forward axis is `+y`.
#[derive(Clone, Copy, Debug, PartialEq, Eq)]
pub struct PerspectiveCamera {
    pub position: Position,
    pub transform: Transform,
    pub tan_fov: (Fx, Fx),
}

impl PerspectiveCamera {
    /// The perspective camera with the given horizontal field of view
    /// (half-angle, radians); the vertical tangent follows from the
    /// aspect ratio.
    pub fn by_x(
        position: Position,
        yaw: Fx,
        pitch: Fx,
        roll: Fx,
        aspect_ratio: Fx,
        fov_x: Fx,
    ) -> (r: PerspectiveCamera)
        ensures
            r == (PerspectiveCamera {
                position,
                transform: Transform { mat: crate::math::Mat4::rotate_v(yaw, pitch, roll) },
                tan_fov: (
                    crate::approx::tan_v(fov_x),
                    crate::approx::tan_v(fov_x).div_v(aspect_ratio),
                ),
            }),
    {
        let tan_fov_x = crate::approx::tan(fov_x);
        PerspectiveCamera {
            position,
            transform: Transform::rotate(yaw, pitch, roll),
            tan_fov: (tan_fov_x, tan_fov_x.div(aspect_ratio)),
        }
    }

    /// The perspective camera with the given vertical field of view
    /// (half-angle, radians); the horizontal tangent follows from the
    /// aspect ratio.
    pub fn by_y(
        position: Position,
        yaw: Fx,
        pitch: Fx,
        roll: Fx,
        aspect_ratio: Fx,
        fov_y: Fx,
    ) -> (r: PerspectiveCamera)
        ensures
            r == (PerspectiveCamera {
                position,
                transform: Transform { mat: crate::math::Mat4::rotate_v(yaw, pitch, roll) },
                tan_fov: (
                    crate::approx::tan_v(fov_y).mul_v(aspect_ratio),
                    crate::approx::tan_v(fov_y),
                ),
            }),
    {
        let tan_fov_y = crate::approx::tan(fov_y);
        PerspectiveCamera {
            position,
            transform: Transform::rotate(yaw, pitch, roll),
            tan_fov: (tan_fov_y.mul(aspect_ratio), tan_fov_y),
        }
    }

    pub open spec fn get_ray_v(self, position_in_image: (Fx, Fx)) -> Ray {
        let u = position_in_image.0;
        let v = position_in_image.1;
        let local = Movement {
            vec: Vec3(
                self.tan_fov.0.mul_v(u.add_v(u).sub_v(Fx { raw: SCALE })),
                Fx { raw: SCALE },
                self.tan_fov.1.mul_v(v.add_v(v).sub_v(Fx { raw: SCALE })),
            ),
        };
        Ray {
            origin: self.position,
            direction: Direction::from_movement_v(local.apply_v(self.transform)),
        }
    }

    /// The ray through normalized image coordinates: built in camera
    /// space as `(tan_x * (2u - 1), 1, tan_y * (2v - 1))`, rotated into
    /// world space and normalized.
    pub fn get_ray(&self, position_in_image: (Fx, Fx)) -> (r: Ray)
        ensures
            r == self.get_ray_v(position_in_image),
    {
        let u = position_in_image.0;
        let v = position_in_image.1;
        let local = Movement::new(
            self.tan_fov.0.mul(u.add(u).sub(Fx::one())),
            Fx::one(),
            self.tan_fov.1.mul(v.add(v).sub(Fx::one())),
        );
        let direction = Direction::from_movement(local.apply(self.transform));
        Ray { origin: self.position, direction }
    }

    /// The camera's eye point.
    pub fn position(&self) -> (r: Position)
        ensures
            r == self.position,
    {
        self.position
    }
}

/// The camera capability: one of the two implemented variants.
#[derive(Clone, Copy, Debug, PartialEq, Eq)]
pub enum Camera {
    Orthogonal(OrthogonalCamera),
    Perspective(PerspectiveCamera),
}

impl Camera {
    pub open spec fn get_ray_v(self, position_in_image: (Fx, Fx)) -> Ray {
        match self {
            Camera::Orthogonal(c) => c.get_ray_v(position_in_image),
            Camera::Perspective(c) => c.get_ray_v(position_in_image),
        }
    }

    /// The camera ray for normalized image coordinates.
    pub fn get_ray(&self, position_in_image: (Fx, Fx)) -> (r: Ray)
        ensures
            r == self.get_ray_v(position_in_image),
    {
        match self {
            Camera::Orthogonal(c) => c.get_ray(position_in_image),
            Camera::Perspective(c) => c.get_ray(position_in_image),
        }
    }

    pub open spec fn position_v(self) -> Position {
        match self {
            Camera::Orthogonal(c) => c.position,
            Camera::Perspective(c) => c.position,
        }
    }

    /// The camera's eye point.
    pub fn position(&self) -> (r: Position)
        ensures
            r == self.position_v(),
    {
        match self {
            Camera::Orthogonal(c) => c.position(),
            Camera::Perspective(c) => c.position(),
        }
    }
}

/// A point light: radiance emitted from one point, with shadow-ray
/// occlusion.
#[derive(Clone, Copy, Debug, PartialEq, Eq, Structural)]
pub struct PointLight {
    pub position: Position,
    pub color: HdrColor,
}

/// The light capability.
#[derive(Clone, Copy, Debug, PartialEq, Eq, Structural)]
pub enum Light {
    Point(PointLight),
}

impl Light {
    pub open spec fn illuminate_v(self, adjusted_position: Position, world: Object) -> Option<
        (HdrColor, Direction),
    > {
        match self {
            Light::Point(light) => {
                let to_light = light.position.sub_v(adjusted_position);
                let distance_squared = to_light.distance_squared_v();
                let toward = Direction::from_movement_v(to_light);
                let shadow = Ray { origin: adjusted_position, direction: toward };
                match world.intersect_v(shadow) {
                    Some(hit) => {
                        if hit.position.sub_v(adjusted_position).distance_squared_v().raw
                            < distance_squared.raw {
                            None
                        } else {
                            Some((light.color, toward.neg_v()))
                        }
                    },
                    None => Some((light.color, toward.neg_v())),
                }
            },
        }
    }

    /// The incident radiance at a shading point, or nothing if occluded:
    /// a shadow ray is cast toward the light, and any hit closer than
    /// the light blocks it.  The returned direction is the light's
    /// direction of travel, from the light toward the surface.
    pub fn illuminate(&self, adjusted_position: Position, world: &Object) -> (r: Option<
        (HdrColor, Direction),
    >)
        ensures
            r == self.illuminate_v(adjusted_position, *world),
    {
        match self {
            Light::Point(light) => {
                let to_light = light.position.sub(adjusted_position);
                let distance_squared = to_light.distance_squared();
                let toward = Direction::from_movement(to_light);
                let shadow = Ray { origin: adjusted_position, direction: toward };
                match world.intersect(&shadow) {
                    Some(hit) => {
                        if hit.position.sub(adjusted_position).distance_squared().raw
                            < distance_squared.raw {
                            None
                        } else {
                            Some((light.color, toward.neg()))
                        }
                    },
                    None => Some((light.color, toward.neg())),
                }
            },
        }
    }
}

/// A scene: one camera, the traceable world, an unconditional ambient
/// radiance, and the lights (their order has no semantic effect).
pub struct Scene {
    pub camera: Camera,
    pub world: Object,
    pub ambient_light: HdrColor,
    pub lights: Vec<Light>,
}

impl Scene {
    /// The scene bundling the given parts.
    pub fn new(camera: Camera, world: Object, ambient_light: HdrColor, lights: Vec<Light>) -> (r:
        Scene)
        ensures
            r.camera == camera,
            r.world == world,
            r.ambient_light == ambient_light,
            r.lights == lights,
    {
        Scene { camera, world, ambient_light, lights }
    }
}

/// A perspective camera with zero yaw, pitch and roll maps the image
/// center (`u == v == 1/2`) to its unrotated local forward axis: the ray
/// starts at the eye point and points exactly along `+y`, whatever the
/// field of view.
pub proof fn lemma_perspective_center_ray(cam: PerspectiveCamera)
    requires
        cam.transform == (Transform {
            mat: crate::math::Mat4::rotate_v(Fx { raw: 0 }, Fx { raw: 0 }, Fx { raw: 0 }),
        }),
    ensures
        ({
            let ray = cam.get_ray_v((Fx { raw: 2147483648i64 }, Fx { raw: 2147483648i64 }));
            ray.origin == cam.position && ray.direction == (Direction {
                vec: Vec3(Fx { raw: 0 }, Fx { raw: SCALE }, Fx { raw: 0 }),
            })
        }),
{
    let zero = Fx { raw: 0 };
    let one = Fx { raw: SCALE };
    assert(crate::approx::cos_v(zero) == one);
    assert(crate::approx::sin_v(zero) == zero);
    assert(crate::math::Mat4::rotate_v(zero, zero, zero) == crate::math::Mat4::identity_v());
    let half = Fx { raw: 2147483648i64 };
    assert(half.add_v(half).sub_v(one) == zero);
    assert(cam.tan_fov.0.mul_v(zero) == zero);
    assert(cam.tan_fov.1.mul_v(zero) == zero);
    let local = Movement { vec: Vec3(zero, one, zero) };
    assert(local.apply_v(cam.transform) == local);
    assert(one.sqrt_v() == one) by {
        crate::fixed::lemma_sqrt_floor_unique((SCALE as int) * (SCALE as int), SCALE as int);
    }
    assert(local.vec.length_squared_v() == one);
    assert(local.vec.normalize_v() == local.vec);
}

} // verus!
