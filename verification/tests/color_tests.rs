use nexrad_volumetric::color::{classify_color, Rgb};

fn rgb(r: u8, g: u8, b: u8) -> Rgb {
    Rgb { r, g, b }
}

#[test]
fn boundaries_fall_in_exactly_one_bin() {
    // 4.999 is black, 5.0 opens the first teal bin.
    assert_eq!(classify_color(4_999), rgb(0, 0, 0));
    assert_eq!(classify_color(5_000), rgb(0x40, 0xe8, 0xe3));
    // 69.999 is the last named bin, 70.0 opens white.
    assert_eq!(classify_color(69_999), rgb(0xee, 0x34, 0xfa));
    assert_eq!(classify_color(70_000), rgb(0xff, 0xff, 0xff));
}

#[test]
fn every_bin_maps_to_its_table_color() {
    assert_eq!(classify_color(-3_000), rgb(0, 0, 0));
    assert_eq!(classify_color(0), rgb(0, 0, 0));
    assert_eq!(classify_color(7_500), rgb(0x40, 0xe8, 0xe3));
    assert_eq!(classify_color(10_000), rgb(0x26, 0xa4, 0xfa));
    assert_eq!(classify_color(15_000), rgb(0x00, 0x30, 0xed));
    assert_eq!(classify_color(20_000), rgb(0x49, 0xfb, 0x3e));
    assert_eq!(classify_color(25_000), rgb(0x36, 0xc2, 0x2e));
    assert_eq!(classify_color(30_000), rgb(0x27, 0x8c, 0x1e));
    assert_eq!(classify_color(35_000), rgb(0xfe, 0xf5, 0x43));
    assert_eq!(classify_color(40_000), rgb(0xeb, 0xb4, 0x33));
    assert_eq!(classify_color(45_000), rgb(0xf6, 0x95, 0x2e));
    assert_eq!(classify_color(50_000), rgb(0xf8, 0x0a, 0x26));
    assert_eq!(classify_color(55_000), rgb(0xcb, 0x05, 0x16));
    assert_eq!(classify_color(60_000), rgb(0xa9, 0x08, 0x13));
    assert_eq!(classify_color(65_000), rgb(0xee, 0x34, 0xfa));
    assert_eq!(classify_color(1_000_000), rgb(0xff, 0xff, 0xff));
}

#[test]
fn below_threshold_sentinel_is_black_not_white() {
    // 999.0 would land in the white bin by magnitude; the sentinel is
    // carved out and reads black.
    assert_eq!(classify_color(999_000), rgb(0, 0, 0));
    // The folded sentinel 998.0 is not carved out and classifies white.
    assert_eq!(classify_color(998_000), rgb(0xff, 0xff, 0xff));
}
