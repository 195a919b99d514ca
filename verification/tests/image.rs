use ray::bitmap::Bitmap;
use ray::clear_line;
use ray::ppm::{Rgb, PPM};
use ray::types::Size;

#[test]
fn size_new_keeps_dimensions() {
    let size = Size::new(400, 225);
    assert_eq!(size.width, 400);
    assert_eq!(size.height, 225);
}

#[test]
fn size_area_is_the_pixel_count() {
    assert_eq!(Size::new(400, 225).area(), 90000);
    assert_eq!(Size::new(1, 1).area(), 1);
    assert_eq!(Size::new(7, 0).area(), 0);
}

#[test]
fn clear_line_is_the_erase_sequence() {
    assert_eq!(clear_line(), "\x1B[2K\r");
}

#[test]
fn bitmap_reports_its_size() {
    let bitmap = Bitmap::new(Size::new(5, 4), 0u32);
    assert_eq!(bitmap.width(), 5);
    assert_eq!(bitmap.height(), 4);
    assert_eq!(bitmap.size(), Size::new(5, 4));
}

#[test]
fn bitmap_starts_filled() {
    let bitmap = Bitmap::new(Size::new(3, 2), Rgb { r: 9, g: 8, b: 7 });
    for y in 0..2 {
        for x in 0..3 {
            assert_eq!(bitmap.get(x, y), Rgb { r: 9, g: 8, b: 7 });
        }
    }
}

#[test]
fn bitmap_set_then_get_round_trips() {
    let mut bitmap = Bitmap::new(Size::new(3, 3), 0u32);
    bitmap.set(1, 2, 42);
    assert_eq!(bitmap.get(1, 2), 42);
    for y in 0..3 {
        for x in 0..3 {
            if !(x == 1 && y == 2) {
                assert_eq!(bitmap.get(x, y), 0);
            }
        }
    }
}

#[test]
fn bitmap_holds_float_pixels() {
    // the renderer accumulates floating-point colors in the same buffer
    let mut bitmap = Bitmap::new(Size::new(2, 2), 0.0f64);
    bitmap.set(0, 1, 0.25);
    assert_eq!(bitmap.get(0, 1), 0.25);
    assert_eq!(bitmap.get(1, 1), 0.0);
}

#[test]
fn ppm_single_pixel() {
    let mut bitmap = Bitmap::new(Size::new(1, 1), Rgb { r: 0, g: 0, b: 0 });
    bitmap.set(0, 0, Rgb { r: 255, g: 0, b: 10 });
    let bytes = PPM.encode(&bitmap);
    assert_eq!(bytes, b"P3\n1 1\n255\n255 0 10\n".to_vec());
}

#[test]
fn ppm_rows_come_out_top_first() {
    // y counts up from the bottom, so the pixel at y = 1 is the top row
    let mut bitmap = Bitmap::new(Size::new(1, 2), Rgb { r: 0, g: 0, b: 0 });
    bitmap.set(0, 1, Rgb { r: 1, g: 2, b: 3 });
    bitmap.set(0, 0, Rgb { r: 4, g: 5, b: 6 });
    let bytes = PPM.encode(&bitmap);
    assert_eq!(bytes, b"P3\n1 2\n255\n1 2 3\n4 5 6\n".to_vec());
}

#[test]
fn ppm_row_is_left_to_right() {
    let mut bitmap = Bitmap::new(Size::new(3, 1), Rgb { r: 0, g: 0, b: 0 });
    bitmap.set(0, 0, Rgb { r: 10, g: 0, b: 0 });
    bitmap.set(1, 0, Rgb { r: 0, g: 20, b: 0 });
    bitmap.set(2, 0, Rgb { r: 0, g: 0, b: 30 });
    let bytes = PPM.encode(&bitmap);
    assert_eq!(bytes, b"P3\n3 1\n255\n10 0 0\n0 20 0\n0 0 30\n".to_vec());
}

#[test]
fn ppm_header_uses_multi_digit_dimensions() {
    let bitmap = Bitmap::new(Size::new(400, 225), Rgb { r: 0, g: 0, b: 0 });
    let bytes = PPM.encode(&bitmap);
    let text = String::from_utf8(bytes).unwrap();
    assert!(text.starts_with("P3\n400 225\n255\n"));
    // header plus one "0 0 0\n" line per pixel
    assert_eq!(text.len(), "P3\n400 225\n255\n".len() + 400 * 225 * 6);
}

#[test]
fn ppm_channel_values_print_in_decimal() {
    let mut bitmap = Bitmap::new(Size::new(2, 1), Rgb { r: 0, g: 0, b: 0 });
    bitmap.set(0, 0, Rgb { r: 7, g: 42, b: 100 });
    bitmap.set(1, 0, Rgb { r: 255, g: 254, b: 9 });
    let bytes = PPM.encode(&bitmap);
    assert_eq!(bytes, b"P3\n2 1\n255\n7 42 100\n255 254 9\n".to_vec());
}

#[test]
fn ppm_empty_image_is_just_the_header() {
    let bitmap = Bitmap::new(Size::new(0, 0), Rgb { r: 0, g: 0, b: 0 });
    assert_eq!(PPM.encode(&bitmap), b"P3\n0 0\n255\n".to_vec());
}
