use raytrace::error::SceneError;
use raytrace::scalar::Scalar;
use raytrace::vector::Vector;

fn v(x: i64, y: i64, z: i64) -> Vector {
    Vector::new(Scalar::from_micros(x), Scalar::from_micros(y), Scalar::from_micros(z))
}

const ONE: i64 = 1_000_000;

#[test]
fn null_vec_is_the_origin() {
    assert_eq!(Vector::null_vec(), v(0, 0, 0));
}

#[test]
fn vectors_add_and_subtract_by_coordinate() {
    let a = v(ONE, 2 * ONE, 3 * ONE);
    let b = v(500_000, -ONE, 4 * ONE);
    assert_eq!(a + b, v(1_500_000, ONE, 7 * ONE));
    assert_eq!(a - b, v(500_000, 3 * ONE, -ONE));
}

#[test]
fn dot_product_sums_the_products() {
    let a = v(ONE, 2 * ONE, 3 * ONE);
    let b = v(4 * ONE, -5 * ONE, 6 * ONE);
    assert_eq!((a * b).raw, 12 * ONE);
    assert_eq!((a * a).raw, 14 * ONE);
}

#[test]
fn scaling_multiplies_each_coordinate() {
    let a = v(ONE, -2 * ONE, 3);
    assert_eq!(a * Scalar::from_micros(500_000), v(500_000, -ONE, 1));
    assert_eq!(a * Scalar::from_int(-1), v(-ONE, 2 * ONE, -3));
}

#[test]
fn dividing_divides_each_coordinate() {
    let a = v(ONE, -2 * ONE, 3 * ONE);
    assert_eq!(a / Scalar::from_int(3), v(333_333, -666_666, ONE));
}

#[test]
fn length_is_the_root_of_the_dot_product() {
    assert_eq!(v(3 * ONE, 4 * ONE, 0).get_len().raw, 5 * ONE);
    assert_eq!(v(ONE, 2 * ONE, 2 * ONE).get_len().raw, 3 * ONE);
    assert_eq!(v(ONE, ONE, 0).get_len().raw, 1_414_213);
    assert_eq!(v(0, 0, 0).get_len().raw, 0);
}

#[test]
fn normalized_has_length_one() {
    assert_eq!(v(3 * ONE, 4 * ONE, 0).normalized(), Ok(v(600_000, 800_000, 0)));
    assert_eq!(v(ONE, ONE, ONE).normalized(), Ok(v(577_350, 577_350, 577_350)));
    assert_eq!(v(0, 0, -7 * ONE).normalized(), Ok(v(0, 0, -ONE)));
}

#[test]
fn normalizing_the_null_vector_is_refused() {
    assert_eq!(Vector::null_vec().normalized(), Err(SceneError::DegenerateGeometry));
}

#[test]
fn normalizing_a_vector_too_short_to_measure_is_refused() {
    assert_eq!(v(500, 0, 0).get_len().raw, 0);
    assert_eq!(v(500, 0, 0).normalized(), Err(SceneError::DegenerateGeometry));
    assert_eq!(v(1_000, 0, 0).normalized(), Ok(v(ONE, 0, 0)));
}
