use raytracer::{Image, Rgb};

fn text(image: &Image) -> String {
    String::from_utf8(image.encode_ppm()).unwrap()
}

#[test]
fn new_image_is_black() {
    let image = Image::new(2, 2);
    assert_eq!(text(&image), "P3\n2 2\n255\n0 0 0\n0 0 0\n0 0 0\n0 0 0\n");
}

#[test]
fn empty_image_has_header_only() {
    assert_eq!(text(&Image::new(0, 0)), "P3\n0 0\n255\n");
    assert_eq!(text(&Image::new(7, 0)), "P3\n7 0\n255\n");
}

#[test]
fn header_carries_multi_digit_size() {
    let image = Image::new(400, 266);
    let bytes = image.encode_ppm();
    assert!(bytes.starts_with(b"P3\n400 266\n255\n0 0 0\n"));
    assert_eq!(bytes.len(), "P3\n400 266\n255\n".len() + 400 * 266 * "0 0 0\n".len());
}

#[test]
fn set_pixel_is_row_major_from_top() {
    let mut image = Image::new(3, 2);
    image.set_pixel(2, 0, &Rgb { r: 255, g: 0, b: 0 });
    image.set_pixel(0, 1, &Rgb { r: 0, g: 128, b: 9 });
    assert_eq!(
        text(&image),
        "P3\n3 2\n255\n0 0 0\n0 0 0\n255 0 0\n0 128 9\n0 0 0\n0 0 0\n"
    );
}

#[test]
fn set_pixel_twice_keeps_the_last_colour() {
    let mut image = Image::new(1, 1);
    image.set_pixel(0, 0, &Rgb { r: 1, g: 2, b: 3 });
    image.set_pixel(0, 0, &Rgb { r: 10, g: 20, b: 30 });
    assert_eq!(text(&image), "P3\n1 1\n255\n10 20 30\n");
}

#[test]
fn channels_outside_byte_range_are_written_as_they_are() {
    let mut image = Image::new(2, 1);
    image.set_pixel(0, 0, &Rgb { r: -1, g: 256, b: 1000 });
    image.set_pixel(1, 0, &Rgb { r: i32::MIN, g: i32::MAX, b: -70 });
    assert_eq!(
        text(&image),
        "P3\n2 1\n255\n-1 256 1000\n-2147483648 2147483647 -70\n"
    );
}

#[test]
fn full_channel_values() {
    let mut image = Image::new(1, 2);
    image.set_pixel(0, 1, &Rgb { r: 255, g: 255, b: 255 });
    assert_eq!(text(&image), "P3\n1 2\n255\n0 0 0\n255 255 255\n");
}
