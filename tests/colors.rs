use raytracer::colors::Rgba;

#[test]
fn new_keeps_channels_in_order() {
    let c = Rgba::new(1, 2, 3, 4);
    assert_eq!(c.to_array(), [1, 2, 3, 4]);
    assert_eq!(c.as_slice(), &[1, 2, 3, 4]);
}

#[test]
fn from_rgb_is_opaque() {
    assert_eq!(Rgba::from_rgb(10, 20, 30).to_array(), [10, 20, 30, 0xFF]);
}

#[test]
fn named_colors() {
    assert_eq!(Rgba::black().to_array(), [0, 0, 0, 0xFF]);
    assert_eq!(Rgba::white().to_array(), [0xFF, 0xFF, 0xFF, 0xFF]);
}

#[test]
fn equality_compares_every_channel() {
    assert_eq!(Rgba::new(1, 2, 3, 4), Rgba::new(1, 2, 3, 4));
    assert_ne!(Rgba::new(1, 2, 3, 4), Rgba::new(1, 2, 3, 5));
    assert_ne!(Rgba::new(0, 2, 3, 4), Rgba::new(1, 2, 3, 4));
    assert_ne!(Rgba::from_rgb(0, 0, 0), Rgba::new(0, 0, 0, 0));
}
