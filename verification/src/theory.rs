//! What holds of every scene and every ray.

use crate::color::{lemma_scaled_by_one, Color};
use crate::error::SceneError;
use crate::light::{Light, LightType};
use crate::model::{
    blend, cosine, light_direction, reflection, shadow_limit, SceneModel, EPSILON_MICROS,
};
use crate::scalar::{lemma_pow_nonneg, lemma_product_nonneg, Scalar, SCALE};
use crate::sphere::Sphere;
use crate::vector::Vector;
use vstd::prelude::*;
use vstd::seq_lib::to_multiset_contains;

verus! {

impl SceneModel {
    /// `found` is the nearest of the first `n` spheres that the ray meets
    /// strictly between `min` and `max`: where it is nothing, the ray meets
    /// none of them there; where it is sphere `i` at parameter `t`, the ray
    /// meets no sphere sooner, and none before `i` as soon.
    pub open spec fn is_closest_among(
        self,
        n: nat,
        origin: Vector,
        direction: Vector,
        min: Scalar,
        max: Scalar,
        found: Option<(int, Scalar)>,
    ) -> bool {
        match found {
            None => forall|j: int|
                0 <= j < n ==> (#[trigger] self.candidate(j, origin, direction, min, max)) is None,
            Some((i, t)) => {
                &&& 0 <= i < n
                &&& self.candidate(i, origin, direction, min, max) == Some(t)
                &&& forall|j: int|
                    0 <= j < n ==> ((#[trigger] self.candidate(j, origin, direction, min, max))
                        matches Some(u) ==> t.raw <= u.raw && (u.raw == t.raw ==> i <= j))
            },
        }
    }
}

/// The search among the first `n` spheres finds the closest of them.
pub proof fn lemma_nearest_among_is_closest(
    scene: SceneModel,
    n: nat,
    origin: Vector,
    direction: Vector,
    min: Scalar,
    max: Scalar,
)
    ensures
        scene.is_closest_among(
            n,
            origin,
            direction,
            min,
            max,
            scene.nearest_among(n, origin, direction, min, max),
        ),
    decreases n,
{
    if n > 0 {
        lemma_nearest_among_is_closest(scene, (n - 1) as nat, origin, direction, min, max);
    }
}

/// The nearest sphere is the one that the ray meets first within the
/// interval, whatever the order of the spheres; only among spheres met at
/// the very same parameter does the order decide, for the first.
pub proof fn lemma_nearest_is_closest(
    scene: SceneModel,
    origin: Vector,
    direction: Vector,
    min: Scalar,
    max: Scalar,
)
    ensures
        scene.is_closest_among(
            scene.spheres.len(),
            origin,
            direction,
            min,
            max,
            scene.nearest(origin, direction, min, max),
        ),
{
    lemma_nearest_among_is_closest(scene, scene.spheres.len(), origin, direction, min, max);
}

/// A sphere of one scene that occurs among the spheres of another is met
/// there at the same parameter.
proof fn lemma_candidate_found_elsewhere(
    a: SceneModel,
    b: SceneModel,
    i: int,
    origin: Vector,
    direction: Vector,
    min: Scalar,
    max: Scalar,
) -> (j: int)
    requires
        a.spheres.to_multiset() == b.spheres.to_multiset(),
        0 <= i < a.spheres.len(),
    ensures
        0 <= j < b.spheres.len(),
        b.spheres[j] == a.spheres[i],
        b.candidate(j, origin, direction, min, max) == a.candidate(i, origin, direction, min, max),
{
    let sphere = a.spheres[i];
    assert(a.spheres.contains(sphere));
    to_multiset_contains(a.spheres, sphere);
    to_multiset_contains(b.spheres, sphere);
    choose|j: int| 0 <= j < b.spheres.len() && b.spheres[j] == sphere
}

/// How far a ray travels before it meets a sphere does not depend on the
/// order of the spheres: two scenes of the same spheres in any order agree
/// on whether the ray meets one and on the parameter at which it does. They
/// agree on the sphere too, unless the ray meets another at the very same
/// parameter.
pub proof fn lemma_nearest_ignores_order(
    a: SceneModel,
    b: SceneModel,
    origin: Vector,
    direction: Vector,
    min: Scalar,
    max: Scalar,
)
    requires
        a.spheres.to_multiset() == b.spheres.to_multiset(),
    ensures
        a.nearest(origin, direction, min, max) is None <==> b.nearest(origin, direction, min, max)
            is None,
        a.nearest(origin, direction, min, max) matches Some((i, t)) ==> (b.nearest(
            origin,
            direction,
            min,
            max,
        ) matches Some((j, u)) && u == t && ((forall|k: int|
            0 <= k < a.spheres.len() && k != i ==> (#[trigger] a.candidate(
                k,
                origin,
                direction,
                min,
                max,
            )) != Some(t)) ==> b.spheres[j] == a.spheres[i])),
{
    lemma_nearest_is_closest(a, origin, direction, min, max);
    lemma_nearest_is_closest(b, origin, direction, min, max);
    match a.nearest(origin, direction, min, max) {
        None => {
            if let Some((j, u)) = b.nearest(origin, direction, min, max) {
                let i = lemma_candidate_found_elsewhere(b, a, j, origin, direction, min, max);
                assert(a.candidate(i, origin, direction, min, max) is None);
            }
        },
        Some((i, t)) => {
            let j0 = lemma_candidate_found_elsewhere(a, b, i, origin, direction, min, max);
            assert(b.candidate(j0, origin, direction, min, max) == Some(t));
            match b.nearest(origin, direction, min, max) {
                None => {
                    assert(b.candidate(j0, origin, direction, min, max) is None);
                },
                Some((j, u)) => {
                    let i0 = lemma_candidate_found_elsewhere(
                        b,
                        a,
                        j,
                        origin,
                        direction,
                        min,
                        max,
                    );
                    assert(a.candidate(i0, origin, direction, min, max) == Some(u));
                    assert(t.raw <= u.raw);
                    assert(u.raw <= t.raw);
                    assert(u == t);
                },
            }
        },
    }
}

/// A ray that meets no sphere strictly between `min` and `max` returns
/// black, whatever the depth.
pub proof fn lemma_miss_is_black(
    scene: SceneModel,
    origin: Vector,
    direction: Vector,
    min: Scalar,
    max: Scalar,
    depth: int,
)
    requires
        forall|j: int|
            0 <= j < scene.spheres.len() ==> (#[trigger] scene.candidate(
                j,
                origin,
                direction,
                min,
                max,
            )) is None,
    ensures
        scene.trace(origin, direction, min, max, depth) == Ok::<Color, SceneError>(
            Color { r: 0, g: 0, b: 0 },
        ),
{
    lemma_nearest_is_closest(scene, origin, direction, min, max);
    match scene.nearest(origin, direction, min, max) {
        Some((i, t)) => {
            assert(scene.candidate(i, origin, direction, min, max) is None);
        },
        None => {},
    }
}

/// With no depth left nothing is mirrored: the ray returns the colour that
/// the lights give the surface it meets, however reflective the surface.
pub proof fn lemma_depth_zero_is_local(
    scene: SceneModel,
    origin: Vector,
    direction: Vector,
    min: Scalar,
    max: Scalar,
    depth: int,
    i: int,
    t: Scalar,
)
    requires
        depth <= 0,
        scene.nearest(origin, direction, min, max) == Some((i, t)),
    ensures
        scene.trace(origin, direction, min, max, depth) == scene.local_color(
            i,
            origin,
            direction,
            t,
        ),
{
}

/// A surface that reflects nothing returns the colour that the lights give
/// it, whatever the depth.
pub proof fn lemma_matte_ignores_depth(
    scene: SceneModel,
    origin: Vector,
    direction: Vector,
    min: Scalar,
    max: Scalar,
    depth: int,
    i: int,
    t: Scalar,
)
    requires
        scene.nearest(origin, direction, min, max) == Some((i, t)),
        scene.spheres[i].reflective.raw <= 0,
    ensures
        scene.trace(origin, direction, min, max, depth) == scene.local_color(
            i,
            origin,
            direction,
            t,
        ),
{
}

/// Where depth is left and the surface reflects, the ray returns the blend,
/// by the surface's reflectivity, of the colour that the lights give the
/// surface with what the mirrored ray returns at one depth less.
pub proof fn lemma_reflection_blend(
    scene: SceneModel,
    origin: Vector,
    direction: Vector,
    min: Scalar,
    max: Scalar,
    depth: int,
    i: int,
    t: Scalar,
    local: Color,
    point: Vector,
    mirrored: Vector,
)
    requires
        depth > 0,
        scene.nearest(origin, direction, min, max) == Some((i, t)),
        scene.spheres[i].reflective.raw > 0,
        scene.local_color(i, origin, direction, t) == Ok::<Color, SceneError>(local),
        scene.mirrored_ray(i, origin, direction, t) == Ok::<(Vector, Vector), SceneError>(
            (point, mirrored),
        ),
    ensures
        scene.trace(origin, direction, min, max, depth) == match scene.trace(
            point,
            mirrored,
            Scalar { raw: EPSILON_MICROS },
            max,
            depth - 1,
        ) {
            Ok(rest) => Ok(blend(local, rest, scene.spheres[i].reflective)),
            Err(e) => Err(e),
        },
{
}

/// Under a single ambient light, a surface that mirrors nothing shows its
/// own colour scaled by the light's intensity, or unscaled where the
/// intensity exceeds one.
pub proof fn lemma_single_ambient_light(
    scene: SceneModel,
    origin: Vector,
    direction: Vector,
    min: Scalar,
    max: Scalar,
    depth: int,
    i: int,
    t: Scalar,
)
    requires
        scene.lights.len() == 1,
        scene.lights[0].light_type == LightType::AMBIENT,
        scene.nearest(origin, direction, min, max) == Some((i, t)),
        depth <= 0 || scene.spheres[i].reflective.raw <= 0,
    ensures
        scene.trace(origin, direction, min, max, depth) == Ok::<Color, SceneError>(
            scene.spheres[i].color.scaled(
                if scene.lights[0].intensity.raw > SCALE {
                    Scalar { raw: SCALE }
                } else {
                    scene.lights[0].intensity
                },
            ),
        ),
{
    reveal_with_fuel(SceneModel::lit_among, 2);
}

/// Under a single ambient light of intensity one or more, a surface that
/// mirrors nothing shows its own colour.
pub proof fn lemma_full_ambient_light_shows_the_colour(
    scene: SceneModel,
    origin: Vector,
    direction: Vector,
    min: Scalar,
    max: Scalar,
    depth: int,
    i: int,
    t: Scalar,
)
    requires
        scene.lights.len() == 1,
        scene.lights[0].light_type == LightType::AMBIENT,
        scene.lights[0].intensity.raw >= SCALE,
        scene.nearest(origin, direction, min, max) == Some((i, t)),
        depth <= 0 || scene.spheres[i].reflective.raw <= 0,
    ensures
        scene.trace(origin, direction, min, max, depth) == Ok::<Color, SceneError>(
            scene.spheres[i].color,
        ),
{
    lemma_single_ambient_light(scene, origin, direction, min, max, depth, i, t);
    lemma_scaled_by_one(scene.spheres[i].color);
}

/// A light other than ambient adds nothing at a point from which the ray
/// toward the light meets a sphere before it reaches the light.
pub proof fn lemma_occluded_light_adds_nothing(
    scene: SceneModel,
    so_far: Scalar,
    light: Light,
    point: Vector,
    sphere: Sphere,
    view: Vector,
    j: int,
)
    requires
        light.light_type != LightType::AMBIENT,
        0 <= j < scene.spheres.len(),
        scene.candidate(
            j,
            point,
            light_direction(light, point),
            Scalar { raw: 0 },
            shadow_limit(light.light_type),
        ) is Some,
    ensures
        scene.in_shadow(point, light_direction(light, point), light),
        scene.lit_by(so_far, light, point, sphere, view) == Ok::<Scalar, SceneError>(so_far),
{
    lemma_nearest_is_closest(
        scene,
        point,
        light_direction(light, point),
        Scalar { raw: 0 },
        shadow_limit(light.light_type),
    );
}

/// A light of an intensity that is not negative never takes light away:
/// what is gathered with it is at least what was gathered without it. So a
/// light that is occluded leaves a point no brighter than the same light
/// would if nothing stood between.
pub proof fn lemma_light_never_darkens(
    scene: SceneModel,
    so_far: Scalar,
    light: Light,
    point: Vector,
    sphere: Sphere,
    view: Vector,
)
    requires
        light.intensity.raw >= 0,
    ensures
        scene.lit_by(so_far, light, point, sphere, view) matches Ok(total) ==> total.raw
            >= so_far.raw,
{
    if light.light_type != LightType::AMBIENT {
        let direction = light_direction(light, point);
        if !scene.in_shadow(point, direction, light) {
            if let Ok(normal) = sphere.normal_at(point) {
                if let Ok(toward) = direction.unit() {
                    if let Ok(cos) = cosine(toward, normal) {
                        lemma_product_nonneg(light.intensity, cos);
                    }
                }
                if let Ok(cos) = cosine(
                    reflection(normal, direction),
                    view.scaled(Scalar::whole(-1)),
                ) {
                    lemma_pow_nonneg(cos, sphere.specular as nat);
                    lemma_product_nonneg(light.intensity, cos.pow_spec(sphere.specular as nat));
                }
            }
        }
    }
}

/// Where no light has a negative intensity, the light gathered from the
/// first `n` lights is not negative.
pub proof fn lemma_gathered_light_nonneg(
    scene: SceneModel,
    n: nat,
    point: Vector,
    sphere: Sphere,
    view: Vector,
)
    requires
        n <= scene.lights.len(),
        forall|k: int| 0 <= k < scene.lights.len() ==> (#[trigger] scene.lights[k]).intensity.raw >= 0,
    ensures
        scene.lit_among(n, point, sphere, view) matches Ok(total) ==> total.raw >= 0,
    decreases n,
{
    if n > 0 {
        lemma_gathered_light_nonneg(scene, (n - 1) as nat, point, sphere, view);
        if let Ok(before) = scene.lit_among((n - 1) as nat, point, sphere, view) {
            lemma_light_never_darkens(scene, before, scene.lights[n - 1], point, sphere, view);
        }
    }
}

/// Where no light has a negative intensity, the share of its colour that a
/// surface shows lies between zero and one.
pub proof fn lemma_light_coeff_in_unit_range(
    scene: SceneModel,
    point: Vector,
    sphere: Sphere,
    view: Vector,
)
    requires
        forall|k: int| 0 <= k < scene.lights.len() ==> (#[trigger] scene.lights[k]).intensity.raw >= 0,
    ensures
        scene.light_coeff(point, sphere, view) matches Ok(coeff) ==> 0 <= coeff.raw <= SCALE,
{
    lemma_gathered_light_nonneg(scene, scene.lights.len(), point, sphere, view);
}

/// A ray fails for one reason only: a vector on its way was too short to be
/// given a direction.
pub proof fn lemma_trace_fails_only_degenerate(
    scene: SceneModel,
    origin: Vector,
    direction: Vector,
    min: Scalar,
    max: Scalar,
    depth: int,
)
    ensures
        scene.trace(origin, direction, min, max, depth) matches Err(e) ==> e
            == SceneError::DegenerateGeometry,
    decreases depth,
{
    match scene.nearest(origin, direction, min, max) {
        None => {},
        Some((i, t)) => {
            let point = SceneModel::reach(origin, direction, t);
            lemma_gathering_fails_only_degenerate(
                scene,
                scene.lights.len(),
                point,
                scene.spheres[i],
                direction,
            );
            if depth > 0 {
                if let Ok((p, mirrored)) = scene.mirrored_ray(i, origin, direction, t) {
                    lemma_trace_fails_only_degenerate(
                        scene,
                        p,
                        mirrored,
                        Scalar { raw: EPSILON_MICROS },
                        max,
                        depth - 1,
                    );
                }
            }
        },
    }
}

proof fn lemma_gathering_fails_only_degenerate(
    scene: SceneModel,
    n: nat,
    point: Vector,
    sphere: Sphere,
    view: Vector,
)
    ensures
        scene.lit_among(n, point, sphere, view) matches Err(e) ==> e
            == SceneError::DegenerateGeometry,
    decreases n,
{
    if n > 0 {
        lemma_gathering_fails_only_degenerate(scene, (n - 1) as nat, point, sphere, view);
    }
}

} // verus!
