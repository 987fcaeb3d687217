//! Tests for hex colour codes.

use crabontree::ui::color::{format_hex_color, parse_hex_color, Rgba8};

fn channel(v: u8) -> f32 {
    v as f32 / 255.0
}

#[test]
fn test_from_hex_6_digits() {
    let color = parse_hex_color("#ffffff").unwrap();
    assert_eq!(channel(color.r), 1.0);
    assert_eq!(channel(color.g), 1.0);
    assert_eq!(channel(color.b), 1.0);
    assert_eq!(channel(color.a), 1.0);
}

#[test]
fn test_from_hex_8_digits() {
    let color = parse_hex_color("#00000080").unwrap();
    assert_eq!(channel(color.r), 0.0);
    assert_eq!(channel(color.g), 0.0);
    assert_eq!(channel(color.b), 0.0);
    assert!((channel(color.a) - 0.502).abs() < 0.01); // 128/255 ≈ 0.502
}

#[test]
fn test_from_hex_invalid() {
    assert!(parse_hex_color("#fff").is_none());
    assert!(parse_hex_color("ffffff").is_none());
    assert!(parse_hex_color("#gggggg").is_none());
}

#[test]
fn hex_parse_reads_each_channel_in_either_case() {
    assert_eq!(parse_hex_color("#1A2b3C"), Some(Rgba8 { r: 0x1a, g: 0x2b, b: 0x3c, a: 255 }));
    assert_eq!(parse_hex_color("#0102037f"), Some(Rgba8 { r: 1, g: 2, b: 3, a: 0x7f }));
}

#[test]
fn hex_parse_refuses_anything_but_two_digits_per_channel() {
    assert!(parse_hex_color("#+f0000").is_none());
    assert!(parse_hex_color("#+f+f+f").is_none());
    assert!(parse_hex_color("#-f0000").is_none());
    assert!(parse_hex_color("#ff 000").is_none());
    assert!(parse_hex_color("#ff00000").is_none());
    assert!(parse_hex_color("").is_none());
}

#[test]
fn hex_format_writes_lower_case_and_alpha_only_when_translucent() {
    assert_eq!(format_hex_color(Rgba8 { r: 255, g: 0, b: 171, a: 255 }), "#ff00ab");
    assert_eq!(format_hex_color(Rgba8 { r: 1, g: 2, b: 3, a: 128 }), "#01020380");
}

#[test]
fn hex_format_then_parse_gives_the_colour_back() {
    for c in [
        Rgba8 { r: 0, g: 0, b: 0, a: 0 },
        Rgba8 { r: 255, g: 255, b: 255, a: 255 },
        Rgba8 { r: 18, g: 52, b: 86, a: 120 },
        Rgba8 { r: 200, g: 10, b: 99, a: 255 },
    ] {
        assert_eq!(parse_hex_color(&format_hex_color(c)), Some(c));
    }
}

#[test]
fn hex_parse_refuses_non_ascii_codes_without_panicking() {
    assert!(parse_hex_color("#a€bc").is_none());
    assert!(parse_hex_color("#ff€b").is_none());
    assert!(parse_hex_color("#éééé").is_none());
}
