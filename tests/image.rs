use raytracer::image::Image;

#[test]
fn new_without_color_is_zeroed() {
    let img = Image::new(3, 2, None);
    assert_eq!(img.get_data().len(), 24);
    assert!(img.get_data().iter().all(|b| *b == 0));
}

#[test]
fn new_with_color_fills_every_pixel() {
    let img = Image::new(2, 3, Some(0x00112233));
    let data = img.get_data();
    assert_eq!(data.len(), 24);
    for px in data.chunks(4) {
        assert_eq!(px, &[0x11, 0x22, 0x33, 0xFF]);
    }
}

#[test]
fn fill_color_ignores_its_top_byte() {
    let img = Image::new(1, 1, Some(0xAB445566));
    assert_eq!(img.get_data(), &[0x44, 0x55, 0x66, 0xFF]);
}

#[test]
fn empty_image_has_no_bytes() {
    let img = Image::new(0, 7, Some(0xFFFFFF));
    assert!(img.get_data().is_empty());
    let d = img.get_dimension();
    assert_eq!((d.x, d.y), (0, 7));
}

#[test]
fn draw_pixel_writes_one_column_major_pixel() {
    let mut img = Image::new(3, 2, None);
    img.draw_pixel(1, 1, 0x00A0B0C0);
    let data = img.get_data();
    // pixel (1, 1) of a 3 by 2 image starts at 4 * (1 * 2 + 1)
    assert_eq!(&data[12..16], &[0xA0, 0xB0, 0xC0, 0xFF]);
    assert!(data[..12].iter().all(|b| *b == 0));
    assert!(data[16..].iter().all(|b| *b == 0));
}

#[test]
fn get_dimension_reports_size() {
    let img = Image::new(4, 5, None);
    let d = img.get_dimension();
    assert_eq!(d.x, 4);
    assert_eq!(d.y, 5);
    assert_eq!((img.x, img.y), (4, 5));
}
