use raytrace::color::Color;
use raytrace::error::SceneError;
use raytrace::light::{Light, LightType};
use raytrace::scalar::Scalar;
use raytrace::scene::Scene;
use raytrace::sphere::Sphere;
use raytrace::vector::Vector;

const ONE: i64 = 1_000_000;

fn s(raw: i64) -> Scalar {
    Scalar::from_micros(raw)
}

fn v(x: i64, y: i64, z: i64) -> Vector {
    Vector::new(s(x), s(y), s(z))
}

fn unit_sphere_at_five() -> Sphere {
    Sphere::new(v(0, 0, 5 * ONE), s(ONE), Color::new(255, 0, 0), 0, s(0))
}

#[test]
fn sphere_new_keeps_its_parts() {
    let sphere = Sphere::new(v(1, 2, 3), s(4), Color::new(5, 6, 7), 8, s(9));
    assert_eq!(sphere.center, v(1, 2, 3));
    assert_eq!(sphere.radius, s(4));
    assert_eq!(sphere.color, Color::new(5, 6, 7));
    assert_eq!(sphere.specular, 8);
    assert_eq!(sphere.reflective, s(9));
}

#[test]
fn zero_sphere_is_a_black_point() {
    let zero = Sphere::zero();
    assert_eq!(zero.center, Vector::null_vec());
    assert_eq!(zero.radius, Scalar::zero());
    assert!(zero.color.is_black());
    assert_eq!(zero.specular, 0);
    assert_eq!(zero.reflective, Scalar::zero());
}

#[test]
fn light_getters_return_the_parts() {
    let light = Light::new(LightType::POINT, s(700_000), v(0, 500_000, 6_500_000));
    assert_eq!(*light.get_type(), LightType::POINT);
    assert_eq!(light.get_intensity(), s(700_000));
    assert_eq!(light.get_position(), v(0, 500_000, 6_500_000));
}

#[test]
fn normal_points_away_from_the_centre() {
    let sphere = unit_sphere_at_five();
    assert_eq!(sphere.get_normal(v(0, ONE, 5 * ONE)), Ok(v(0, ONE, 0)));
    assert_eq!(sphere.get_normal(v(0, 0, 4 * ONE)), Ok(v(0, 0, -ONE)));
    assert_eq!(sphere.get_normal(v(3 * ONE, 4 * ONE, 5 * ONE)), Ok(v(600_000, 800_000, 0)));
}

#[test]
fn the_centre_has_no_normal() {
    let sphere = unit_sphere_at_five();
    assert_eq!(sphere.get_normal(v(0, 0, 5 * ONE)), Err(SceneError::DegenerateGeometry));
}

#[test]
fn ray_along_the_axis_meets_the_near_side() {
    let sphere = unit_sphere_at_five();
    assert_eq!(sphere.intersect(Vector::null_vec(), v(0, 0, ONE)), Some(s(4 * ONE)));
}

#[test]
fn parameter_scales_with_the_direction() {
    let sphere = unit_sphere_at_five();
    assert_eq!(sphere.intersect(Vector::null_vec(), v(0, 0, 2 * ONE)), Some(s(2 * ONE)));
    assert_eq!(sphere.intersect(Vector::null_vec(), v(0, 0, 500_000)), Some(s(8 * ONE)));
}

#[test]
fn ray_off_the_axis_meets_the_sphere_later() {
    let sphere = unit_sphere_at_five();
    assert_eq!(sphere.intersect(Vector::null_vec(), v(100_000, 0, ONE)), Some(s(4_087_347)));
}

#[test]
fn ray_that_passes_by_meets_nothing() {
    let sphere = unit_sphere_at_five();
    assert_eq!(sphere.intersect(Vector::null_vec(), v(500_000, 500_000, ONE)), None);
}

#[test]
fn ray_from_inside_reports_the_root_behind() {
    let sphere = unit_sphere_at_five();
    assert_eq!(sphere.intersect(v(0, 0, 5 * ONE), v(0, 0, ONE)), Some(s(-ONE)));
}

#[test]
fn ray_without_direction_meets_nothing() {
    let sphere = unit_sphere_at_five();
    assert_eq!(sphere.intersect(v(0, 0, 5 * ONE), Vector::null_vec()), None);
}

#[test]
fn mirror_image_about_the_normal() {
    assert_eq!(
        Scene::calc_reflection_vector(v(0, ONE, 0), v(ONE, ONE, 0)),
        v(-ONE, ONE, 0)
    );
    assert_eq!(
        Scene::calc_reflection_vector(v(0, 0, -ONE), v(0, 0, -ONE)),
        v(0, 0, -ONE)
    );
    assert_eq!(
        Scene::calc_reflection_vector(v(0, ONE, 0), v(ONE, 0, 0)),
        v(-ONE, 0, 0)
    );
}

#[test]
fn cosine_of_known_angles() {
    assert_eq!(Scene::calculate_cos(v(0, 2 * ONE, 0), v(0, 5 * ONE, 0)), Ok(s(ONE)));
    assert_eq!(Scene::calculate_cos(v(ONE, 0, 0), v(0, ONE, 0)), Ok(s(0)));
    assert_eq!(Scene::calculate_cos(v(ONE, 0, 0), v(ONE, ONE, 0)), Ok(s(707_107)));
}

#[test]
fn cosine_of_an_obtuse_angle_is_zero() {
    assert_eq!(Scene::calculate_cos(v(ONE, 0, 0), v(-ONE, 0, 0)), Ok(s(0)));
    assert_eq!(Scene::calculate_cos(v(ONE, 0, 0), v(-ONE, ONE, 0)), Ok(s(0)));
}

#[test]
fn cosine_with_the_null_vector_is_refused() {
    assert_eq!(
        Scene::calculate_cos(Vector::null_vec(), v(ONE, 0, 0)),
        Err(SceneError::DegenerateGeometry)
    );
    assert_eq!(
        Scene::calculate_cos(v(ONE, 0, 0), Vector::null_vec()),
        Err(SceneError::DegenerateGeometry)
    );
}
