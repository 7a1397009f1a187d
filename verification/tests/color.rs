use screen_sampler::color::Rgb;
use screen_sampler::color::color_hex;
use screen_sampler::geometry::DisplaySize;
use screen_sampler::geometry::ScreenPoint;
use screen_sampler::sampler::SampleError;
use screen_sampler::sampler::extract_color;

#[test]
fn renders_primary_colors() {
    assert_eq!(color_hex(Rgb { red: 0xFF, green: 0x00, blue: 0x00 }), "#FF0000");
    assert_eq!(color_hex(Rgb { red: 0x00, green: 0xFF, blue: 0x00 }), "#00FF00");
    assert_eq!(color_hex(Rgb { red: 0x00, green: 0x00, blue: 0xFF }), "#0000FF");
}

#[test]
fn renders_every_digit_uppercase() {
    assert_eq!(color_hex(Rgb { red: 0x01, green: 0x23, blue: 0x45 }), "#012345");
    assert_eq!(color_hex(Rgb { red: 0x67, green: 0x89, blue: 0xAB }), "#6789AB");
    assert_eq!(color_hex(Rgb { red: 0xCD, green: 0xEF, blue: 0xFE }), "#CDEFFE");
}

#[test]
fn renders_black_and_white() {
    assert_eq!(color_hex(Rgb { red: 0, green: 0, blue: 0 }), "#000000");
    assert_eq!(color_hex(Rgb { red: 255, green: 255, blue: 255 }), "#FFFFFF");
}

#[test]
fn extracts_bgr_bytes_in_rgb_order() {
    // A 2x2 display: four pixels, three BGR bytes each, top-down.
    let d = DisplaySize { width: 2, height: 2 };
    let bits = vec![
        0x01, 0x02, 0x03, // (0,0)
        0x11, 0x12, 0x13, // (1,0)
        0x21, 0x22, 0x23, // (0,1)
        0x31, 0x32, 0x33, // (1,1)
    ];
    let c = extract_color(&bits, ScreenPoint { x: 1, y: 1 }, d).unwrap();
    assert_eq!(c, Rgb { red: 0x33, green: 0x32, blue: 0x31 });
    let c = extract_color(&bits, ScreenPoint { x: 0, y: 1 }, d).unwrap();
    assert_eq!(c, Rgb { red: 0x23, green: 0x22, blue: 0x21 });
}

#[test]
fn rejects_pointer_off_the_display() {
    let d = DisplaySize { width: 2, height: 2 };
    let bits = vec![0u8; 12];
    assert_eq!(
        extract_color(&bits, ScreenPoint { x: 2, y: 0 }, d),
        Err(SampleError::OutOfBoundsError)
    );
    assert_eq!(
        extract_color(&bits, ScreenPoint { x: 0, y: -1 }, d),
        Err(SampleError::OutOfBoundsError)
    );
}

#[test]
fn rejects_buffer_shorter_than_the_pixel() {
    let d = DisplaySize { width: 2, height: 2 };
    let bits = vec![0u8; 9];
    assert_eq!(
        extract_color(&bits, ScreenPoint { x: 1, y: 1 }, d),
        Err(SampleError::OutOfBoundsError)
    );
}
