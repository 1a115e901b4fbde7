use render_system::texture::{ColorU8, RGBImage, SerializedRGB};

fn color(n: u8) -> ColorU8 {
    SerializedRGB::new(n, n + 100, n + 200)
}

/// Three columns, two rows: the colors 0 1 2 in row 0 and 3 4 5 in row 1.
fn sample() -> RGBImage {
    RGBImage::new_u8((0..6).map(color).collect(), 3, 2)
}

#[test]
fn new_u8_keeps_what_it_is_given() {
    let img = sample();
    assert_eq!((img.width, img.height), (3, 2));
    assert_eq!(img.data.len(), 6);
    assert!(img.data[4] == color(4));
}

#[test]
fn channels_of_a_pixel() {
    let img = sample();
    assert_eq!(img.channels(0, 0, false), [0, 100, 200]);
    assert_eq!(img.channels(2, 1, false), [5, 105, 205]);
    assert_eq!(img.channels(0, 0, true), [3, 103, 203]);
    assert_eq!(img.channels(1, 1, true), [1, 101, 201]);
}

#[test]
fn to_rgb_image_keeps_the_rows() {
    let picture = sample().to_rgb_image();
    assert_eq!((picture.width(), picture.height()), (3, 2));
    let raw = picture.into_raw();
    assert_eq!(
        raw,
        vec![0, 100, 200, 1, 101, 201, 2, 102, 202, 3, 103, 203, 4, 104, 204, 5, 105, 205]
    );
    let theirs = image::RgbImage::from_raw(3, 2, raw).unwrap();
    assert_eq!(theirs.get_pixel(1, 0), &image::Rgb([1, 101, 201]));
    assert_eq!(theirs.get_pixel(2, 1), &image::Rgb([5, 105, 205]));
}

#[test]
fn to_rgb_image_flipped_y_turns_the_rows_over() {
    let picture = sample().to_rgb_image_flipped_y();
    assert_eq!((picture.width(), picture.height()), (3, 2));
    let raw = picture.into_raw();
    assert_eq!(
        raw,
        vec![3, 103, 203, 4, 104, 204, 5, 105, 205, 0, 100, 200, 1, 101, 201, 2, 102, 202]
    );
    let theirs = image::RgbImage::from_raw(3, 2, raw).unwrap();
    assert_eq!(theirs.get_pixel(0, 0), &image::Rgb([3, 103, 203]));
    assert_eq!(theirs.get_pixel(2, 1), &image::Rgb([2, 102, 202]));
}

#[test]
fn an_empty_image_is_an_empty_picture() {
    let img = RGBImage::new_u8(Vec::new(), 0, 7);
    let picture = img.to_rgb_image_flipped_y();
    assert_eq!((picture.width(), picture.height()), (0, 7));
    assert!(picture.into_raw().is_empty());
}

#[test]
fn rows_are_runs_of_the_width() {
    let rows = sample().rows();
    assert_eq!(rows.len(), 2);
    assert!(rows[0] == vec![color(0), color(1), color(2)]);
    assert!(rows[1] == vec![color(3), color(4), color(5)]);
    // a last row that is not full
    let img = RGBImage::new_u8((0..5).map(color).collect(), 2, 3);
    let rows = img.rows();
    assert_eq!(rows.len(), 3);
    assert!(rows[1] == vec![color(2), color(3)]);
    assert!(rows[2] == vec![color(4)]);
    assert!(RGBImage::new_u8(Vec::new(), 4, 0).rows().is_empty());
}
