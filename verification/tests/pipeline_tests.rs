use nexrad_volumetric::color::Rgb;
use nexrad_volumetric::error::Error;
use nexrad_volumetric::format::{message_type, MessageType};
use nexrad_volumetric::pipeline::{color_points, process_scan};
use nexrad_volumetric::project::{derive_points, ColoredPoint, Vec3};
use nexrad_volumetric::sample::decimate;
use nexrad_volumetric::scan::{Radial, Sweep, VolumeScan};

fn point(x: i64, strength_milli: i64) -> ColoredPoint {
    let black = Rgb { r: 0, g: 0, b: 0 };
    ColoredPoint {
        pos: Vec3 { x, y: 0, z: 0 },
        strength_milli,
        raw: black,
        density: black,
        hybrid: black,
    }
}

fn ten_points() -> Vec<ColoredPoint> {
    (0..10).map(|i| point(i, 1_000 * i)).collect()
}

#[test]
fn decimation_keeps_every_third_point() {
    let points = ten_points();
    let sampled = decimate(&points, 3).unwrap();
    assert_eq!(
        sampled,
        vec![points[0], points[3], points[6], points[9]]
    );
}

#[test]
fn decimation_with_stride_one_keeps_everything() {
    let points = ten_points();
    assert_eq!(decimate(&points, 1).unwrap(), points);
}

#[test]
fn zero_stride_is_refused() {
    assert_eq!(decimate(&ten_points(), 0), Err(Error::InvalidStride));
}

#[test]
fn recoloring_reclassifies_from_strength() {
    let mut points = vec![point(0, 2_500), point(1, 7_000), point(2, 998_000)];
    color_points(&mut points);
    assert_eq!(points[0].raw, Rgb { r: 0, g: 0, b: 0 });
    assert_eq!(points[1].raw, Rgb { r: 0x40, g: 0xe8, b: 0xe3 });
    assert_eq!(points[2].raw, Rgb { r: 0xff, g: 0xff, b: 0xff });
    // Positions and readings are untouched.
    assert_eq!(points[1].pos, Vec3 { x: 1, y: 0, z: 0 });
    assert_eq!(points[1].strength_milli, 7_000);
}

fn scan_with_gates(word_size: u8, gates: Vec<u16>) -> VolumeScan {
    VolumeScan {
        sweeps: vec![Sweep {
            elevation_milli: 500,
            radials: vec![Radial {
                azimuth_milli: 90_000,
                azimuth_spacing_milli: 1_000,
                gate_interval_m: 1_000,
                word_size,
                scale_milli: 2_000,
                offset_milli: 0,
                raw_gates: gates,
            }],
        }],
    }
}

#[test]
fn process_scan_chains_the_stages() {
    let scan = scan_with_gates(8, vec![0, 1, 5, 9, 13]);
    // Readings above 0: folded (998), 2.5, 4.5, 6.5 — four points; stride 2
    // keeps those at indices 0 and 2.
    let full = derive_points(&scan, 0).unwrap();
    assert_eq!(full.len(), 4);
    let sampled = process_scan(&scan, 0, 2).unwrap();
    assert_eq!(sampled.len(), 2);
    assert_eq!(sampled[0], full[0]);
    assert_eq!(sampled[1], full[2]);
}

#[test]
fn process_scan_rejects_zero_sampling() {
    let scan = scan_with_gates(8, vec![5]);
    assert_eq!(process_scan(&scan, 0, 0), Err(Error::InvalidStride));
}

#[test]
fn process_scan_rejects_bad_word_size_first() {
    let scan = scan_with_gates(12, vec![5]);
    assert_eq!(process_scan(&scan, 0, 0), Err(Error::UnsupportedWordSize));
    assert_eq!(process_scan(&scan, 0, 2), Err(Error::UnsupportedWordSize));
}

#[test]
fn archive_prefix_names_the_message_type() {
    let named: Vec<u8> = b"AR2V0006.".to_vec();
    assert_eq!(message_type(&named), Some(MessageType::Type31));
    let unknown: Vec<u8> = b"ARCHIVE2.".to_vec();
    assert_eq!(message_type(&unknown), None);
    let short: Vec<u8> = b"AR2".to_vec();
    assert_eq!(message_type(&short), None);
}
