//! The HSL colorizer against the `hsl` crate's own conversion.

use julia_set::colorize::HSLColorizer;

/// What the colorizer should produce for one grayscale intensity, computed
/// here directly with doubles and the `hsl` crate.
fn expected_color(pixel: u8) -> (u8, u8, u8) {
    let t = pixel as f64 / 255.0;
    hsl::HSL {
        h: 310.0 + (t * (30.0 - 310.0)),
        s: 1.0 + (t * (1.0 - 1.0)),
        l: 0.0 + (t * (1.0 - 0.0)),
    }
    .to_rgb()
}

#[test]
fn test_colorize_pixel_endpoints() {
    let colorizer = HSLColorizer::new();
    // Black maps to black at luminosity zero, white to white at one.
    assert_eq!(colorizer.colorize_pixel(0), (0, 0, 0));
    assert_eq!(colorizer.colorize_pixel(255), (255, 255, 255));
}

#[test]
fn test_colorize_pixel_matches_hsl_crate() {
    let colorizer = HSLColorizer::new();
    for pixel in [1_u8, 17, 64, 127, 128, 200, 254] {
        assert_eq!(colorizer.colorize_pixel(pixel), expected_color(pixel));
    }
}

#[test]
fn test_colorize_buffer_layout() {
    let colorizer = HSLColorizer::new();
    let image = vec![0_u8, 127, 255];
    let rgb = colorizer.colorize(&image);
    assert_eq!(rgb.len(), 9);
    let mid = expected_color(127);
    assert_eq!(&rgb[0..3], &[0, 0, 0]);
    assert_eq!(&rgb[3..6], &[mid.0, mid.1, mid.2]);
    assert_eq!(&rgb[6..9], &[255, 255, 255]);
}

#[test]
fn test_colorize_alpha_buffer_layout() {
    let colorizer = HSLColorizer::new();
    let image = vec![64_u8, 200];
    let rgba = colorizer.colorize_alpha(&image);
    assert_eq!(rgba.len(), 8);
    let first = expected_color(64);
    let second = expected_color(200);
    assert_eq!(&rgba[0..4], &[first.0, first.1, first.2, 255]);
    assert_eq!(&rgba[4..8], &[second.0, second.1, second.2, 255]);
}

#[test]
fn test_colorize_pixel_alpha_is_opaque() {
    let colorizer = HSLColorizer::new();
    let (r, g, b) = colorizer.colorize_pixel(90);
    assert_eq!(colorizer.colorize_pixel_alpha(90), (r, g, b, 255));
}
