//! What a scene looks like along a ray, as mathematics.
//!
//! The functions here define the colour that a ray returns from a scene:
//! which sphere it meets first, how much light reaches the point it meets,
//! and what the surface mirrors.

use crate::color::Color;
use crate::error::SceneError;
use crate::light::{Light, LightType};
use crate::scalar::{Scalar, SCALE};
use crate::sphere::Sphere;
use crate::vector::Vector;
use crate::viewport::Viewport;
use vstd::prelude::*;

verus! {

/// How far along a mirrored ray the search for the next surface starts, in
/// millionths: far enough not to meet the surface that the ray leaves.
pub const EPSILON_MICROS: i64 = 1_000;

/// How many times a ray is mirrored unless the scene says otherwise.
pub const DEFAULT_DEPTH: i32 = 4;

/// A scene: a camera, the plane it looks through, and the spheres and lights
/// in the order in which they were given.
pub struct SceneModel {
    pub camera: Vector,
    pub viewport: Viewport,
    pub spheres: Seq<Sphere>,
    pub lights: Seq<Light>,
    pub depth: int,
}

/// The mirror image of `light_direction` in the plane across `normal`:
/// twice the part along the normal, less the direction itself.
pub open spec fn reflection(normal: Vector, light_direction: Vector) -> Vector {
    normal.scaled(normal.dot(light_direction)).scaled(Scalar::whole(2)).difference(light_direction)
}

/// The cosine of the angle between two vectors, or zero where the angle is
/// obtuse. Vectors too short to have a length have no angle.
pub open spec fn cosine(v1: Vector, v2: Vector) -> Result<Scalar, SceneError> {
    let lengths = v1.length().product(v2.length());
    if lengths.raw == 0 {
        Err(SceneError::DegenerateGeometry)
    } else {
        let cos = v1.dot(v2).ratio(lengths);
        Ok(
            if cos.raw < 0 {
                Scalar { raw: 0 }
            } else {
                cos
            },
        )
    }
}

/// The end of the stretch of a ray toward a light on which a sphere casts a
/// shadow: without end for a directional light, the light itself for a
/// point light.
pub open spec fn shadow_limit(light_type: LightType) -> Scalar {
    match light_type {
        LightType::DIRECTIONAL => Scalar { raw: i64::MAX },
        LightType::POINT => Scalar { raw: SCALE },
        LightType::AMBIENT => Scalar { raw: 0 },
    }
}

/// The direction from `point` toward a light that has one. For a point light
/// it spans the whole way to the light.
pub open spec fn light_direction(light: Light, point: Vector) -> Vector {
    match light.light_type {
        LightType::POINT => light.position.difference(point),
        _ => light.position,
    }
}

/// The share of a light's intensity that a surface with the given normal
/// scatters back, whatever the viewer's place.
pub open spec fn diffuse(light: Light, direction: Vector, normal: Vector) -> Result<
    Scalar,
    SceneError,
> {
    match direction.unit() {
        Err(e) => Err(e),
        Ok(toward) => match cosine(toward, normal) {
            Err(e) => Err(e),
            Ok(cos) => Ok(light.intensity.product(cos)),
        },
    }
}

/// The highlight that a viewer looking along `view` sees of a light: the
/// cosine between the mirrored light and the way back to the viewer, raised
/// to the surface's exponent.
pub open spec fn highlight(
    light: Light,
    direction: Vector,
    normal: Vector,
    view: Vector,
    exponent: u32,
) -> Result<Scalar, SceneError> {
    match cosine(reflection(normal, direction), view.scaled(Scalar::whole(-1))) {
        Err(e) => Err(e),
        Ok(cos) => Ok(light.intensity.product(cos.pow_spec(exponent as nat))),
    }
}

/// The colour of a surface of colour `local` that mirrors `mirrored` with
/// the given reflectivity.
pub open spec fn blend(local: Color, mirrored: Color, reflective: Scalar) -> Color {
    local.scaled(Scalar { raw: SCALE }.difference(reflective)).sum(mirrored.scaled(reflective))
}

impl SceneModel {
    /// The parameter at which the ray meets sphere `i`, if that lies strictly
    /// between `min` and `max`.
    pub open spec fn candidate(
        self,
        i: int,
        origin: Vector,
        direction: Vector,
        min: Scalar,
        max: Scalar,
    ) -> Option<Scalar> {
        match self.spheres[i].hit_parameter(origin, direction) {
            Some(t) => if min.raw < t.raw && t.raw < max.raw {
                Some(t)
            } else {
                None
            },
            None => None,
        }
    }

    /// The nearest of the first `n` spheres that the ray meets strictly
    /// between `min` and `max`, with the parameter at which it meets it; of
    /// several at the same parameter, the first.
    pub open spec fn nearest_among(
        self,
        n: nat,
        origin: Vector,
        direction: Vector,
        min: Scalar,
        max: Scalar,
    ) -> Option<(int, Scalar)>
        decreases n,
    {
        if n == 0 {
            None
        } else {
            let before = self.nearest_among((n - 1) as nat, origin, direction, min, max);
            let bound = match before {
                Some((_, t)) => t,
                None => max,
            };
            match self.candidate(n - 1, origin, direction, min, bound) {
                Some(t) => Some((n - 1, t)),
                None => before,
            }
        }
    }

    /// The nearest sphere that the ray meets strictly between `min` and
    /// `max`.
    pub open spec fn nearest(self, origin: Vector, direction: Vector, min: Scalar, max: Scalar)
        -> Option<(int, Scalar)> {
        self.nearest_among(self.spheres.len(), origin, direction, min, max)
    }

    /// Whether a sphere stands between `point` and the light, on the ray
    /// along `direction`.
    pub open spec fn in_shadow(self, point: Vector, direction: Vector, light: Light) -> bool {
        self.nearest(point, direction, Scalar { raw: 0 }, shadow_limit(light.light_type)) is Some
    }

    /// The light gathered at `point` once `light` is added to `so_far`.
    /// Ambient light always arrives; any other only where no sphere casts a
    /// shadow, and then as its diffuse share and its highlight.
    pub open spec fn lit_by(
        self,
        so_far: Scalar,
        light: Light,
        point: Vector,
        sphere: Sphere,
        view: Vector,
    ) -> Result<Scalar, SceneError> {
        if light.light_type == LightType::AMBIENT {
            Ok(so_far.sum(light.intensity))
        } else {
            let direction = light_direction(light, point);
            if self.in_shadow(point, direction, light) {
                Ok(so_far)
            } else {
                match sphere.normal_at(point) {
                    Err(e) => Err(e),
                    Ok(normal) => match diffuse(light, direction, normal) {
                        Err(e) => Err(e),
                        Ok(d) => match highlight(light, direction, normal, view, sphere.specular) {
                            Err(e) => Err(e),
                            Ok(h) => Ok(so_far.sum(d).sum(h)),
                        },
                    },
                }
            }
        }
    }

    /// The light gathered at `point` from the first `n` lights.
    pub open spec fn lit_among(self, n: nat, point: Vector, sphere: Sphere, view: Vector) -> Result<
        Scalar,
        SceneError,
    >
        decreases n,
    {
        if n == 0 {
            Ok(Scalar { raw: 0 })
        } else {
            match self.lit_among((n - 1) as nat, point, sphere, view) {
                Err(e) => Err(e),
                Ok(so_far) => self.lit_by(so_far, self.lights[n - 1], point, sphere, view),
            }
        }
    }

    /// The share of its colour that the surface of `sphere` shows at
    /// `point`: the light gathered from all lights, and no more than one.
    pub open spec fn light_coeff(self, point: Vector, sphere: Sphere, view: Vector) -> Result<
        Scalar,
        SceneError,
    > {
        match self.lit_among(self.lights.len(), point, sphere, view) {
            Err(e) => Err(e),
            Ok(total) => Ok(
                if total.raw > SCALE {
                    Scalar { raw: SCALE }
                } else {
                    total
                },
            ),
        }
    }

    /// The point that the ray reaches at parameter `t`.
    pub open spec fn reach(origin: Vector, direction: Vector, t: Scalar) -> Vector {
        origin.sum(direction.scaled(t))
    }

    /// The colour that the light of the scene gives sphere `i` where the ray
    /// meets it at parameter `t`, nothing mirrored.
    pub open spec fn local_color(self, i: int, origin: Vector, direction: Vector, t: Scalar)
        -> Result<Color, SceneError> {
        let sphere = self.spheres[i];
        match self.light_coeff(Self::reach(origin, direction, t), sphere, direction) {
            Err(e) => Err(e),
            Ok(coeff) => Ok(sphere.color.scaled(coeff)),
        }
    }

    /// The ray that leaves sphere `i` as the mirror image of the ray that
    /// meets it at parameter `t`, by its origin and direction.
    pub open spec fn mirrored_ray(self, i: int, origin: Vector, direction: Vector, t: Scalar)
        -> Result<(Vector, Vector), SceneError> {
        let point = Self::reach(origin, direction, t);
        match self.spheres[i].normal_at(point) {
            Err(e) => Err(e),
            Ok(normal) => Ok((point, reflection(normal, direction.scaled(Scalar::whole(-1))))),
        }
    }

    /// The colour that the ray from `origin` along `direction` returns,
    /// looking strictly between `min` and `max` and mirrored at most `depth`
    /// times: black where it meets nothing; else the colour of the nearest
    /// surface, blended with what that surface mirrors where it mirrors
    /// anything and `depth` allows.
    pub open spec fn trace(
        self,
        origin: Vector,
        direction: Vector,
        min: Scalar,
        max: Scalar,
        depth: int,
    ) -> Result<Color, SceneError>
        decreases depth,
    {
        match self.nearest(origin, direction, min, max) {
            None => Ok(Color { r: 0, g: 0, b: 0 }),
            Some((i, t)) => match self.local_color(i, origin, direction, t) {
                Err(e) => Err(e),
                Ok(local) => if depth <= 0 || self.spheres[i].reflective.raw <= 0 {
                    Ok(local)
                } else {
                    match self.mirrored_ray(i, origin, direction, t) {
                        Err(e) => Err(e),
                        Ok((point, mirrored)) => match self.trace(
                            point,
                            mirrored,
                            Scalar { raw: EPSILON_MICROS },
                            max,
                            depth - 1,
                        ) {
                            Err(e) => Err(e),
                            Ok(rest) => Ok(blend(local, rest, self.spheres[i].reflective)),
                        },
                    }
                },
            },
        }
    }

    /// The colour of the pixel `(x, y)` of the window: what the ray from the
    /// camera through the pixel's point on the viewport returns, from that
    /// point onward.
    pub open spec fn pixel(self, x: int, y: int) -> Result<Color, SceneError> {
        self.trace(
            self.camera,
            self.viewport.project(x, y).difference(self.camera),
            Scalar { raw: SCALE },
            Scalar { raw: i64::MAX },
            self.depth,
        )
    }
}

} // verus!
