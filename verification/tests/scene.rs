use raytrace::color::Color;
use raytrace::error::SceneError;
use raytrace::light::{Light, LightType};
use raytrace::scalar::Scalar;
use raytrace::scene::Scene;
use raytrace::sphere::Sphere;
use raytrace::vector::Vector;
use raytrace::viewport::Viewport;

const ONE: i64 = 1_000_000;

fn s(raw: i64) -> Scalar {
    Scalar::from_micros(raw)
}

fn v(x: i64, y: i64, z: i64) -> Vector {
    Vector::new(s(x), s(y), s(z))
}

fn ambient(intensity: i64) -> Light {
    Light::new(LightType::AMBIENT, s(intensity), Vector::null_vec())
}

fn scene(spheres: Vec<Sphere>, lights: Vec<Light>) -> Scene {
    let viewport = Viewport::new(Scalar::one(), 100, 100).unwrap();
    Scene::new(viewport, spheres, lights).unwrap()
}

fn refused(spheres: Vec<Sphere>, lights: Vec<Light>) -> SceneError {
    let viewport = Viewport::new(Scalar::one(), 100, 100).unwrap();
    match Scene::new(viewport, spheres, lights) {
        Ok(_) => panic!("the scene was accepted"),
        Err(e) => e,
    }
}

fn red_sphere() -> Sphere {
    Sphere::new(v(0, 0, 5 * ONE), s(ONE), Color::new(255, 0, 0), 0, s(0))
}

fn white_sphere() -> Sphere {
    Sphere::new(v(0, 0, 5 * ONE), s(ONE), Color::new(255, 255, 255), 10, s(0))
}

fn occluder(height: i64) -> Sphere {
    Sphere::new(v(0, height, 5 * ONE), s(500_000), Color::new(0, 255, 0), 10, s(0))
}

fn mirror(color: Color, reflective: i64) -> Sphere {
    Sphere::new(v(0, 0, 5 * ONE), s(ONE), color, 0, s(reflective))
}

fn blue_sphere_behind() -> Sphere {
    Sphere::new(v(0, 0, -5 * ONE), s(ONE), Color::new(0, 0, 255), 0, s(0))
}

fn along_z() -> Vector {
    v(0, 0, ONE)
}

fn trace(scene: &Scene, depth: i32) -> Result<Color, SceneError> {
    scene.trace_ray(Vector::null_vec(), along_z(), Scalar::one(), Scalar::max_value(), depth)
}

#[test]
fn a_light_of_negative_intensity_is_refused() {
    assert_eq!(refused(vec![red_sphere()], vec![ambient(-1)]), SceneError::InvalidConfiguration);
}

#[test]
fn a_sphere_without_radius_is_refused() {
    assert_eq!(refused(vec![Sphere::zero()], vec![ambient(ONE)]), SceneError::DegenerateGeometry);
    let inside_out = Sphere::new(v(0, 0, 5 * ONE), s(-ONE), Color::new(255, 0, 0), 0, s(0));
    assert_eq!(refused(vec![red_sphere(), inside_out], vec![]), SceneError::DegenerateGeometry);
}

#[test]
fn a_directional_light_without_direction_is_refused() {
    let light = Light::new(LightType::DIRECTIONAL, s(ONE), Vector::null_vec());
    assert_eq!(refused(vec![red_sphere()], vec![light]), SceneError::DegenerateGeometry);
}

#[test]
fn a_negative_intensity_counts_before_the_geometry() {
    let lights = vec![Light::new(LightType::DIRECTIONAL, s(ONE), Vector::null_vec()), ambient(-5)];
    assert_eq!(refused(vec![Sphere::zero()], lights), SceneError::InvalidConfiguration);
}

#[test]
fn lights_that_need_no_direction_may_sit_at_the_origin() {
    let lights = vec![ambient(ONE), Light::new(LightType::POINT, s(ONE), Vector::null_vec())];
    let viewport = Viewport::new(Scalar::one(), 100, 100).unwrap();
    assert!(Scene::new(viewport, vec![red_sphere()], lights).is_ok());
}

#[test]
fn an_empty_scene_is_black() {
    let empty = scene(vec![], vec![]);
    assert_eq!(empty.get_color_for_window_cords(0, 0), Ok(Color::black()));
    assert_eq!(empty.get_color_for_window_cords(-50, 50), Ok(Color::black()));
}

#[test]
fn the_nearest_sphere_wins_whatever_the_order() {
    let near = red_sphere();
    let far = Sphere::new(v(0, 0, 10 * ONE), s(2 * ONE), Color::new(0, 255, 0), 0, s(0));
    let a = scene(vec![near, far], vec![]);
    let b = scene(vec![far, near], vec![]);
    let origin = Vector::null_vec();
    assert_eq!(
        a.calculate_closest_sphere_and_coeff(origin, along_z(), s(ONE), Scalar::max_value()),
        Some((0, s(4 * ONE)))
    );
    assert_eq!(
        b.calculate_closest_sphere_and_coeff(origin, along_z(), s(ONE), Scalar::max_value()),
        Some((1, s(4 * ONE)))
    );
}

#[test]
fn of_two_spheres_met_at_once_the_first_wins() {
    let green = Sphere::new(v(0, 0, 5 * ONE), s(ONE), Color::new(0, 255, 0), 0, s(0));
    let both = scene(vec![red_sphere(), green], vec![ambient(ONE)]);
    assert_eq!(
        both.calculate_closest_sphere_and_coeff(
            Vector::null_vec(),
            along_z(),
            s(ONE),
            Scalar::max_value()
        ),
        Some((0, s(4 * ONE)))
    );
    assert_eq!(trace(&both, 0), Ok(Color::new(255, 0, 0)));
}

#[test]
fn the_interval_is_open_at_both_ends() {
    let far = Sphere::new(v(0, 0, 10 * ONE), s(2 * ONE), Color::new(0, 255, 0), 0, s(0));
    let two = scene(vec![red_sphere(), far], vec![]);
    let origin = Vector::null_vec();
    assert_eq!(
        two.calculate_closest_sphere_and_coeff(origin, along_z(), s(4 * ONE), Scalar::max_value()),
        Some((1, s(8 * ONE)))
    );
    assert_eq!(
        two.calculate_closest_sphere_and_coeff(origin, along_z(), s(ONE), s(4 * ONE)),
        None
    );
    assert_eq!(
        two.calculate_closest_sphere_and_coeff(origin, along_z(), s(4 * ONE - 1), s(4 * ONE + 1)),
        Some((0, s(4 * ONE)))
    );
    assert_eq!(
        two.calculate_closest_sphere_and_coeff(origin, along_z(), s(4 * ONE), s(8 * ONE)),
        None
    );
}

#[test]
fn a_ray_that_meets_nothing_in_the_interval_is_black() {
    let lit = scene(vec![red_sphere()], vec![ambient(ONE)]);
    let origin = Vector::null_vec();
    for depth in [0, 1, 4] {
        assert_eq!(
            lit.trace_ray(origin, along_z(), s(ONE), s(3 * ONE), depth),
            Ok(Color::black())
        );
        assert_eq!(
            lit.trace_ray(origin, along_z(), s(4 * ONE), Scalar::max_value(), depth),
            Ok(Color::black())
        );
        assert_eq!(
            lit.trace_ray(origin, v(0, ONE, 0), s(ONE), Scalar::max_value(), depth),
            Ok(Color::black())
        );
    }
}

#[test]
fn a_single_ambient_light_scales_the_colour() {
    for (intensity, expected) in [
        (0, Color::new(0, 0, 0)),
        (250_000, Color::new(63, 0, 0)),
        (500_000, Color::new(127, 0, 0)),
        (ONE, Color::new(255, 0, 0)),
        (2 * ONE, Color::new(255, 0, 0)),
    ] {
        let lit = scene(vec![red_sphere()], vec![ambient(intensity)]);
        assert_eq!(trace(&lit, 4), Ok(expected));
        let brightness = if intensity > ONE { Scalar::one() } else { s(intensity) };
        assert_eq!(trace(&lit, 4), Ok(red_sphere().color * brightness));
    }
}

#[test]
fn the_light_on_a_surface_is_clamped_to_one() {
    let lit = scene(vec![white_sphere()], vec![ambient(600_000), ambient(700_000)]);
    let top = v(0, ONE, 5 * ONE);
    assert_eq!(lit.calculate_light_coeff(top, &white_sphere(), v(0, -ONE, ONE)), Ok(s(ONE)));
    let dim = scene(vec![white_sphere()], vec![ambient(100_000), ambient(200_000)]);
    assert_eq!(dim.calculate_light_coeff(top, &white_sphere(), v(0, -ONE, ONE)), Ok(s(300_000)));
}

#[test]
fn a_point_light_gives_diffuse_light_and_a_highlight() {
    let lights = vec![ambient(200_000), Light::new(LightType::POINT, s(600_000), v(0, 6 * ONE, 5 * ONE))];
    let lit = scene(vec![white_sphere()], lights);
    let top = v(0, ONE, 5 * ONE);
    assert_eq!(lit.calculate_light_coeff(top, &white_sphere(), v(0, -ONE, 0)), Ok(s(ONE)));
    assert_eq!(lit.calculate_light_coeff(top, &white_sphere(), v(0, -ONE, ONE)), Ok(s(818_749)));
}

#[test]
fn a_sphere_before_a_point_light_takes_its_light_away() {
    let lights = vec![ambient(200_000), Light::new(LightType::POINT, s(600_000), v(0, 6 * ONE, 5 * ONE))];
    let open = scene(vec![white_sphere()], lights.clone());
    let shaded = scene(vec![white_sphere(), occluder(3 * ONE)], lights.clone());
    let top = v(0, ONE, 5 * ONE);
    let view = v(0, -ONE, ONE);
    let toward = lights[1].get_position() - top;
    assert!(!open.point_in_shadow(top, toward, &lights[1]));
    assert!(shaded.point_in_shadow(top, toward, &lights[1]));
    let bright = open.calculate_light_coeff(top, &white_sphere(), view).unwrap();
    let dark = shaded.calculate_light_coeff(top, &white_sphere(), view).unwrap();
    assert_eq!(bright, s(818_749));
    assert_eq!(dark, s(200_000));
    assert!(dark.raw < bright.raw);
}

#[test]
fn a_sphere_beyond_a_point_light_casts_no_shadow() {
    let lights = vec![ambient(200_000), Light::new(LightType::POINT, s(600_000), v(0, 6 * ONE, 5 * ONE))];
    let behind = scene(vec![white_sphere(), occluder(8 * ONE)], lights.clone());
    let top = v(0, ONE, 5 * ONE);
    let toward = lights[1].get_position() - top;
    assert!(!behind.point_in_shadow(top, toward, &lights[1]));
    assert_eq!(
        behind.calculate_light_coeff(top, &white_sphere(), v(0, -ONE, ONE)),
        Ok(s(818_749))
    );
}

#[test]
fn a_sphere_anywhere_toward_a_directional_light_casts_a_shadow() {
    let lights = vec![Light::new(LightType::DIRECTIONAL, s(500_000), v(0, ONE, 0))];
    let open = scene(vec![white_sphere()], lights.clone());
    let shaded = scene(vec![white_sphere(), occluder(8 * ONE)], lights.clone());
    let top = v(0, ONE, 5 * ONE);
    let view = v(0, -ONE, ONE);
    assert!(!open.point_in_shadow(top, v(0, ONE, 0), &lights[0]));
    assert!(shaded.point_in_shadow(top, v(0, ONE, 0), &lights[0]));
    assert_eq!(open.calculate_light_coeff(top, &white_sphere(), view), Ok(s(515_624)));
    assert_eq!(shaded.calculate_light_coeff(top, &white_sphere(), view), Ok(s(0)));
}

#[test]
fn ambient_light_knows_no_shadow() {
    let light = ambient(ONE);
    let crowded = scene(vec![white_sphere(), occluder(3 * ONE)], vec![light]);
    assert!(!crowded.point_in_shadow(v(0, ONE, 5 * ONE), v(0, ONE, 0), &light));
}

#[test]
fn a_surface_that_reflects_nothing_ignores_the_depth() {
    let lights = vec![ambient(200_000), Light::new(LightType::POINT, s(600_000), v(0, 6 * ONE, 0))];
    let matte = scene(vec![white_sphere(), blue_sphere_behind()], lights);
    let flat = trace(&matte, 0).unwrap();
    assert!(!flat.is_black());
    for depth in [-1, 1, 2, 4, 9] {
        assert_eq!(trace(&matte, depth), Ok(flat));
    }
}

#[test]
fn without_depth_nothing_is_mirrored() {
    let shiny = scene(vec![mirror(Color::new(200, 200, 200), 500_000), blue_sphere_behind()], vec![ambient(ONE)]);
    assert_eq!(trace(&shiny, 0), Ok(Color::new(200, 200, 200)));
    let (index, coeff) = shiny
        .calculate_closest_sphere_and_coeff(Vector::null_vec(), along_z(), Scalar::one(), Scalar::max_value())
        .unwrap();
    assert_eq!(index, 0);
    let point = Vector::null_vec() + along_z() * coeff;
    let sphere = mirror(Color::new(200, 200, 200), 500_000);
    let light = shiny.calculate_light_coeff(point, &sphere, along_z()).unwrap();
    assert_eq!(trace(&shiny, 0), Ok(sphere.color * light));
    assert_eq!(trace(&shiny, -3), Ok(sphere.color * light));
}

#[test]
fn a_mirror_blends_its_colour_with_what_it_mirrors() {
    let shiny = scene(vec![mirror(Color::new(200, 200, 200), 500_000), blue_sphere_behind()], vec![ambient(ONE)]);
    assert_eq!(trace(&shiny, 1), Ok(Color::new(100, 100, 227)));
    assert_eq!(trace(&shiny, 2), Ok(Color::new(100, 100, 227)));
    let warm = scene(vec![mirror(Color::new(201, 101, 51), 300_000), blue_sphere_behind()], vec![ambient(ONE)]);
    assert_eq!(trace(&warm, 0), Ok(Color::new(201, 101, 51)));
    assert_eq!(trace(&warm, 1), Ok(Color::new(140, 70, 111)));
}

#[test]
fn the_blend_is_local_colour_and_mirrored_ray() {
    let lights = vec![
        ambient(100_000),
        Light::new(LightType::DIRECTIONAL, s(200_000), v(-1_500_000, 800_000, -1_500_000)),
        Light::new(LightType::POINT, s(700_000), v(0, 500_000, 6_500_000)),
    ];
    let spheres = vec![
        Sphere::new(v(-1_600_000, -250_000, 7 * ONE), s(900_000), Color::new(0xFF, 0, 0x33), 1000, s(700_000)),
        Sphere::new(v(1_600_000, -250_000, 7 * ONE), s(900_000), Color::new(0xFF, 0x99, 0), 1000, s(700_000)),
        Sphere::new(v(0, -900_000, 6 * ONE), s(700_000), Color::new(0, 0xFF, 0), 80, s(450_000)),
        Sphere::new(v(400_000, -5001 * ONE, 0), s(5000 * ONE), Color::new(0, 0, 0xFF), 10, s(300_000)),
    ];
    let world = scene(spheres.clone(), lights);
    assert_eq!(world.spheres(), &spheres);
    let origin = Vector::null_vec();
    let max = Scalar::max_value();
    for direction in [v(-230_000, -40_000, ONE), v(0, -150_000, ONE), v(300_000, -400_000, ONE)] {
        let (index, coeff) = world
            .calculate_closest_sphere_and_coeff(origin, direction, Scalar::one(), max)
            .unwrap();
        let sphere = world.spheres()[index];
        let point = origin + direction * coeff;
        let local = sphere.color * world.calculate_light_coeff(point, &sphere, direction).unwrap();
        let normal = sphere.get_normal(point).unwrap();
        let mirrored = Scene::calc_reflection_vector(normal, direction * Scalar::from_int(-1));
        for depth in 1..4 {
            let rest = world.trace_ray(point, mirrored, s(1_000), max, depth - 1).unwrap();
            let blend = local * (Scalar::one() - sphere.reflective) + rest * sphere.reflective;
            assert_eq!(world.trace_ray(origin, direction, Scalar::one(), max, depth), Ok(blend));
        }
    }
}

#[test]
fn a_black_sphere_is_still_a_surface() {
    let dark = scene(vec![mirror(Color::black(), 500_000), blue_sphere_behind()], vec![ambient(ONE)]);
    assert_eq!(trace(&dark, 0), Ok(Color::black()));
    assert_eq!(trace(&dark, 1), Ok(Color::new(0, 0, 127)));
}

#[test]
fn the_same_pixel_twice_is_the_same_colour() {
    let lights = vec![ambient(200_000), Light::new(LightType::POINT, s(600_000), v(0, 6 * ONE, 0))];
    let world = scene(vec![mirror(Color::new(10, 200, 30), 400_000), blue_sphere_behind()], lights);
    for (x, y) in [(0, 0), (3, -4), (-9, 9), (50, 50)] {
        let first = world.get_color_for_window_cords(x, y);
        let second = world.get_color_for_window_cords(x, y);
        assert_eq!(first, second);
    }
}

#[test]
fn red_sphere_under_full_ambient_light() {
    let world = scene(vec![red_sphere()], vec![ambient(ONE)]);
    assert_eq!(world.get_color_for_window_cords(0, 0), Ok(Color::new(255, 0, 0)));
    assert_eq!(world.get_color_for_window_cords(50, 50), Ok(Color::black()));
    assert_eq!(world.get_color_for_window_cords(-50, 0), Ok(Color::black()));
    assert_eq!(world.get_color_for_window_cords(10, -10), Ok(Color::new(255, 0, 0)));
}

#[test]
fn a_point_light_on_the_surface_makes_the_ray_fail() {
    let light = Light::new(LightType::POINT, s(ONE), v(0, 0, 4 * ONE));
    let world = scene(vec![red_sphere()], vec![light]);
    assert_eq!(trace(&world, 0), Err(SceneError::DegenerateGeometry));
    assert_eq!(world.get_color_for_window_cords(0, 0), Err(SceneError::DegenerateGeometry));
    assert_eq!(world.get_color_for_window_cords(50, 50), Ok(Color::black()));
}

#[test]
fn the_depth_of_a_scene_can_be_set() {
    let mut shiny = scene(vec![mirror(Color::new(200, 200, 200), 500_000), blue_sphere_behind()], vec![ambient(ONE)]);
    assert_eq!(shiny.get_color_for_window_cords(0, 0), Ok(Color::new(100, 100, 227)));
    shiny.set_depth(0);
    assert_eq!(shiny.get_color_for_window_cords(0, 0), Ok(Color::new(200, 200, 200)));
    shiny.set_depth(1);
    assert_eq!(shiny.get_color_for_window_cords(0, 0), Ok(Color::new(100, 100, 227)));
}
