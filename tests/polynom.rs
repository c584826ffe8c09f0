use raytracer::polynom::{Polynom2, Polynomial2};

#[test]
fn polynom2_keeps_coefficients() {
    let p = Polynom2::new(1.0f32, -3.0, 2.0);
    assert_eq!((p.a, p.b, p.c), (1.0, -3.0, 2.0));
}

#[test]
fn polynomial2_defaults_to_zero() {
    let p: Polynomial2<f32> = Default::default();
    assert_eq!((p.a, p.b, p.c), (0.0, 0.0, 0.0));
}

fn ahead(r1: f32, r2: f32) -> Option<f32> {
    raytracer::polynom::nearest_ahead([r1.to_bits(), r2.to_bits()]).map(f32::from_bits)
}

#[test]
fn nearest_ahead_takes_the_smaller_positive_root() {
    assert_eq!(ahead(50.0, 150.0), Some(50.0));
    assert_eq!(ahead(150.0, 50.0), Some(50.0));
    assert_eq!(ahead(1e-40, 2.0), Some(1e-40));
}

#[test]
fn nearest_ahead_skips_roots_behind_the_origin() {
    assert_eq!(ahead(-150.0, 50.0), Some(50.0));
    assert_eq!(ahead(-150.0, -50.0), None);
    assert_eq!(ahead(0.0, 3.0), Some(3.0));
    assert_eq!(ahead(-0.0, 0.0), None);
}

#[test]
fn nearest_ahead_skips_nan_and_infinity() {
    assert_eq!(ahead(50.0, f32::NAN), Some(50.0));
    assert_eq!(ahead(-50.0, f32::NAN), None);
    assert_eq!(ahead(f32::NAN, f32::NAN), None);
    assert_eq!(ahead(f32::INFINITY, 7.0), Some(7.0));
    assert_eq!(ahead(f32::INFINITY, f32::NEG_INFINITY), None);
}
