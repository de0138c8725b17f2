//! Scenes, and the colour of each pixel of a window that looks at one.

use crate::color::Color;
use crate::error::SceneError;
use crate::light::{Light, LightType};
use crate::model::{
    cosine, diffuse, highlight, reflection, SceneModel, DEFAULT_DEPTH, EPSILON_MICROS,
};
use crate::scalar::Scalar;
use crate::sphere::Sphere;
use crate::theory::lemma_light_coeff_in_unit_range;
use crate::vector::Vector;
use crate::viewport::Viewport;
use vstd::prelude::*;

verus! {

/// A camera at the origin, the viewport it looks through, and the spheres
/// and lights before it.
pub struct Scene {
    camera: Vector,
    viewport: Viewport,
    spheres: Vec<Sphere>,
    lights: Vec<Light>,
    depth: i32,
}

impl View for Scene {
    type V = SceneModel;

    closed spec fn view(&self) -> SceneModel {
        SceneModel {
            camera: self.camera,
            viewport: self.viewport,
            spheres: self.spheres@,
            lights: self.lights@,
            depth: self.depth as int,
        }
    }
}

/// No light has a negative intensity.
pub open spec fn intensities_valid(lights: Seq<Light>) -> bool {
    forall|i: int| 0 <= i < lights.len() ==> (#[trigger] lights[i]).intensity.raw >= 0
}

/// Every directional light comes from a direction long enough to have a
/// length.
pub open spec fn directions_valid(lights: Seq<Light>) -> bool {
    forall|i: int|
        0 <= i < lights.len() && (#[trigger] lights[i]).light_type == LightType::DIRECTIONAL
            ==> lights[i].position.length().raw != 0
}

/// Every sphere has a positive radius.
pub open spec fn radii_valid(spheres: Seq<Sphere>) -> bool {
    forall|i: int| 0 <= i < spheres.len() ==> (#[trigger] spheres[i]).radius.raw > 0
}

/// The accumulator of the search for the nearest sphere, as the result it
/// stands for.
spec fn found(selected: Option<usize>, closest: Scalar) -> Option<(int, Scalar)> {
    match selected {
        Some(j) => Some((j as int, closest)),
        None => None,
    }
}

/// Once the light gathered from the first `n` lights is an error, it stays
/// that error however many more lights are added.
proof fn lemma_failure_lasts(
    scene: SceneModel,
    n: nat,
    m: nat,
    point: Vector,
    sphere: Sphere,
    view: Vector,
)
    requires
        n <= m,
        scene.lit_among(n, point, sphere, view) is Err,
    ensures
        scene.lit_among(m, point, sphere, view) == scene.lit_among(n, point, sphere, view),
    decreases m,
{
    if n < m {
        lemma_failure_lasts(scene, n, (m - 1) as nat, point, sphere, view);
    }
}

fn lights_valid(lights: &Vec<Light>) -> (r: (bool, bool))
    ensures
        r.0 == intensities_valid(lights@),
        r.1 == directions_valid(lights@),
{
    let mut intensities = true;
    let mut directions = true;
    let mut i: usize = 0;
    while i < lights.len()
        invariant
            i <= lights.len(),
            intensities == (forall|j: int|
                0 <= j < i ==> (#[trigger] lights@[j]).intensity.raw >= 0),
            directions == (forall|j: int|
                0 <= j < i && (#[trigger] lights@[j]).light_type == LightType::DIRECTIONAL
                    ==> lights@[j].position.length().raw != 0),
        decreases lights.len() - i,
    {
        let light = &lights[i];
        if light.intensity.raw < 0 {
            intensities = false;
        }
        let short = match light.light_type {
            LightType::DIRECTIONAL => light.position.get_len().raw == 0,
            _ => false,
        };
        if short {
            directions = false;
        }
        i += 1;
    }
    (intensities, directions)
}

fn spheres_valid(spheres: &Vec<Sphere>) -> (r: bool)
    ensures
        r == radii_valid(spheres@),
{
    let mut i: usize = 0;
    while i < spheres.len()
        invariant
            i <= spheres.len(),
            forall|j: int| 0 <= j < i ==> (#[trigger] spheres@[j]).radius.raw > 0,
        decreases spheres.len() - i,
    {
        if spheres[i].radius.raw <= 0 {
            return false;
        }
        i += 1;
    }
    true
}

fn diffuse_share(light: &Light, direction: Vector, normal: Vector) -> (r: Result<
    Scalar,
    SceneError,
>)
    ensures
        r == diffuse(*light, direction, normal),
{
    match direction.normalized() {
        Err(e) => Err(e),
        Ok(toward) => match Scene::calculate_cos(toward, normal) {
            Err(e) => Err(e),
            Ok(cos) => Ok(light.get_intensity() * cos),
        },
    }
}

fn highlight_share(
    light: &Light,
    direction: Vector,
    normal: Vector,
    view_point: Vector,
    exponent: u32,
) -> (r: Result<Scalar, SceneError>)
    ensures
        r == highlight(*light, direction, normal, view_point, exponent),
{
    let mirrored = Scene::calc_reflection_vector(normal, direction);
    match Scene::calculate_cos(mirrored, view_point * Scalar::from_int(-1)) {
        Err(e) => Err(e),
        Ok(cos) => Ok(light.get_intensity() * cos.powi(exponent)),
    }
}

impl Scene {
    /// What every scene was held to when it was made.
    #[verifier::type_invariant]
    spec fn valid(self) -> bool {
        &&& intensities_valid(self.lights@)
        &&& directions_valid(self.lights@)
        &&& radii_valid(self.spheres@)
    }

    /// A scene of the given spheres and lights, seen through `viewport` from
    /// the origin, in which a ray is mirrored up to four times.
    ///
    /// A light of negative intensity makes the configuration invalid; a
    /// sphere without a positive radius, or a directional light without a
    /// direction, makes the geometry degenerate.
    pub fn new(viewport: Viewport, spheres: Vec<Sphere>, lights: Vec<Light>) -> (r: Result<
        Scene,
        SceneError,
    >)
        ensures
            r is Ok <==> intensities_valid(lights@) && directions_valid(lights@) && radii_valid(
                spheres@,
            ),
            r matches Ok(scene) ==> scene@ == (SceneModel {
                camera: Vector { x: Scalar { raw: 0 }, y: Scalar { raw: 0 }, z: Scalar { raw: 0 } },
                viewport,
                spheres: spheres@,
                lights: lights@,
                depth: DEFAULT_DEPTH as int,
            }),
            r matches Err(e) ==> e == if intensities_valid(lights@) {
                SceneError::DegenerateGeometry
            } else {
                SceneError::InvalidConfiguration
            },
    {
        let (intensities, directions) = lights_valid(&lights);
        if !intensities {
            return Err(SceneError::InvalidConfiguration);
        }
        if !directions || !spheres_valid(&spheres) {
            return Err(SceneError::DegenerateGeometry);
        }
        let camera = Vector::null_vec();
        Ok(Scene { camera, viewport, spheres, lights, depth: DEFAULT_DEPTH })
    }

    /// Sets how many times a ray is mirrored. With zero or less, surfaces
    /// mirror nothing.
    pub fn set_depth(&mut self, depth: i32)
        ensures
            final(self)@ == (SceneModel {
                camera: old(self)@.camera,
                viewport: old(self)@.viewport,
                spheres: old(self)@.spheres,
                lights: old(self)@.lights,
                depth: depth as int,
            }),
    {
        proof {
            use_type_invariant(&*self);
        }
        self.depth = depth;
    }

    /// The spheres of the scene, in the order in which they are searched.
    pub fn spheres(&self) -> (r: &Vec<Sphere>)
        ensures
            r@ == self@.spheres,
    {
        &self.spheres
    }

    /// The colour of the pixel `(x, y)` of the window, counted from the
    /// window's centre.
    pub fn get_color_for_window_cords(&self, x: i32, y: i32) -> (r: Result<Color, SceneError>)
        ensures
            r == self@.pixel(x as int, y as int),
    {
        let view_vec = self.viewport.get_vector_on_viewport(x, y);
        let direction = view_vec - self.camera;
        self.trace_ray(self.camera, direction, Scalar::one(), Scalar::max_value(), self.depth)
    }

    /// The colour that the ray from `point` along `direction` returns,
    /// looking strictly between `min` and `max` and mirrored at most `depth`
    /// times.
    pub fn trace_ray(&self, point: Vector, direction: Vector, min: Scalar, max: Scalar, depth: i32)
        -> (r: Result<Color, SceneError>)
        ensures
            r == self@.trace(point, direction, min, max, depth as int),
        decreases depth,
    {
        let (index, coeff) = match self.calculate_closest_sphere_and_coeff(
            point,
            direction,
            min,
            max,
        ) {
            None => {
                return Ok(Color::black());
            },
            Some(hit) => hit,
        };
        let sphere = self.spheres[index];
        let point_on_sphere: Vector = point + direction * coeff;
        let light_coeff = match self.calculate_light_coeff(point_on_sphere, &sphere, direction) {
            Err(e) => {
                return Err(e);
            },
            Ok(light_coeff) => light_coeff,
        };
        let color = sphere.color * light_coeff;
        if depth <= 0 || sphere.reflective.raw <= 0 {
            return Ok(color);
        }
        let normal = match sphere.get_normal(point_on_sphere) {
            Err(e) => {
                return Err(e);
            },
            Ok(normal) => normal,
        };
        let reflect_ray = Scene::calc_reflection_vector(normal, direction * Scalar::from_int(-1));
        match self.trace_ray(
            point_on_sphere,
            reflect_ray,
            Scalar::from_micros(EPSILON_MICROS),
            max,
            depth - 1,
        ) {
            Err(e) => Err(e),
            Ok(rest) => Ok(
                color * (Scalar::one() - sphere.reflective) + rest * sphere.reflective,
            ),
        }
    }

    /// The nearest sphere that the ray from `point` along `direction` meets
    /// strictly between `min` and `max`: its place among the spheres, and
    /// the parameter at which the ray meets it.
    pub fn calculate_closest_sphere_and_coeff(
        &self,
        point: Vector,
        direction: Vector,
        min: Scalar,
        max: Scalar,
    ) -> (r: Option<(usize, Scalar)>)
        ensures
            r matches Some((index, coeff)) ==> index < self@.spheres.len() && self@.nearest(
                point,
                direction,
                min,
                max,
            ) == Some((index as int, coeff)),
            r is None ==> self@.nearest(point, direction, min, max) is None,
    {
        let mut closest_coeff = max;
        let mut selected: Option<usize> = None;
        let mut i: usize = 0;
        while i < self.spheres.len()
            invariant
                i <= self.spheres.len(),
                self@.nearest_among(i as nat, point, direction, min, max) == found(
                    selected,
                    closest_coeff,
                ),
                selected is None ==> closest_coeff == max,
                selected matches Some(j) ==> j < i,
            decreases self.spheres.len() - i,
        {
            match self.spheres[i].intersect(point, direction) {
                Some(coeff) => {
                    if coeff.raw < closest_coeff.raw && coeff.raw > min.raw {
                        selected = Some(i);
                        closest_coeff = coeff;
                    }
                },
                None => {},
            }
            i += 1;
        }
        match selected {
            Some(index) => Some((index, closest_coeff)),
            None => None,
        }
    }

    /// The share of its colour that the surface of `sphere` shows at
    /// `point` to a viewer who looks along `view_point`.
    pub fn calculate_light_coeff(&self, point: Vector, sphere: &Sphere, view_point: Vector) -> (r:
        Result<Scalar, SceneError>)
        ensures
            r == self@.light_coeff(point, *sphere, view_point),
            r matches Ok(coeff) ==> 0 <= coeff.raw <= 1_000_000,
    {
        proof {
            use_type_invariant(self);
            lemma_light_coeff_in_unit_range(self@, point, *sphere, view_point);
        }
        let mut light_coeff = Scalar::zero();
        let mut i: usize = 0;
        while i < self.lights.len()
            invariant
                i <= self.lights.len(),
                self@.lit_among(i as nat, point, *sphere, view_point) == Ok::<Scalar, SceneError>(
                    light_coeff,
                ),
            decreases self.lights.len() - i,
        {
            match self.add_light(light_coeff, &self.lights[i], point, sphere, view_point) {
                Ok(total) => {
                    light_coeff = total;
                },
                Err(e) => {
                    proof {
                        lemma_failure_lasts(
                            self@,
                            (i + 1) as nat,
                            self.lights.len() as nat,
                            point,
                            *sphere,
                            view_point,
                        );
                    }
                    return Err(e);
                },
            }
            i += 1;
        }
        if light_coeff.raw > Scalar::one().raw {
            light_coeff = Scalar::one();
        }
        Ok(light_coeff)
    }

    /// The light gathered at `point` once `light` is added to `so_far`.
    fn add_light(
        &self,
        so_far: Scalar,
        light: &Light,
        point: Vector,
        sphere: &Sphere,
        view_point: Vector,
    ) -> (r: Result<Scalar, SceneError>)
        ensures
            r == self@.lit_by(so_far, *light, point, *sphere, view_point),
    {
        match light.get_type() {
            LightType::AMBIENT => Ok(so_far + light.get_intensity()),
            LightType::DIRECTIONAL | LightType::POINT => {
                let direction = match light.get_type() {
                    LightType::POINT => light.get_position() - point,
                    _ => light.get_position(),
                };
                if self.point_in_shadow(point, direction, light) {
                    return Ok(so_far);
                }
                let normal = match sphere.get_normal(point) {
                    Err(e) => {
                        return Err(e);
                    },
                    Ok(normal) => normal,
                };
                let d = match diffuse_share(light, direction, normal) {
                    Err(e) => {
                        return Err(e);
                    },
                    Ok(d) => d,
                };
                match highlight_share(light, direction, normal, view_point, sphere.specular) {
                    Err(e) => Err(e),
                    Ok(h) => Ok(so_far + d + h),
                }
            },
        }
    }

    /// Whether a sphere stands between `point` and `light`, on the ray from
    /// `point` along `direction`.
    pub fn point_in_shadow(&self, point: Vector, direction: Vector, light: &Light) -> (r: bool)
        ensures
            r == self@.in_shadow(point, direction, *light),
    {
        let start_coeff = match light.get_type() {
            LightType::DIRECTIONAL => Scalar::max_value(),
            LightType::POINT => Scalar::one(),
            LightType::AMBIENT => Scalar::zero(),
        };
        self.calculate_closest_sphere_and_coeff(
            point,
            direction,
            Scalar::zero(),
            start_coeff,
        ).is_some()
    }

    /// The mirror image of `light_direction` in the plane across `normal`.
    pub fn calc_reflection_vector(normal: Vector, light_direction: Vector) -> (r: Vector)
        ensures
            r == reflection(normal, light_direction),
    {
        let len = normal * light_direction;
        let vec_n = normal * len;
        (vec_n * Scalar::from_int(2)) - light_direction
    }

    /// The cosine of the angle between two vectors, or zero where the angle
    /// is obtuse.
    pub fn calculate_cos(vec1: Vector, vec2: Vector) -> (r: Result<Scalar, SceneError>)
        ensures
            r == cosine(vec1, vec2),
    {
        let lengths = vec1.get_len() * vec2.get_len();
        if lengths.raw == 0 {
            return Err(SceneError::DegenerateGeometry);
        }
        let cos = (vec1 * vec2) / lengths;
        if cos.raw < 0 {
            Ok(Scalar::zero())
        } else {
            Ok(cos)
        }
    }
}

} // verus!
