use nexrad_volumetric::color::Rgb;
use nexrad_volumetric::error::Error;
use nexrad_volumetric::param::PointColorMode;
use nexrad_volumetric::project::{derive_points, mode_color, Vec3};
use nexrad_volumetric::scan::{Radial, Sweep, VolumeScan};
use nexrad_volumetric::trig::{cos_micro, sin_micro};

fn radial(azimuth_milli: i64, spacing_milli: i64, gates: Vec<u16>) -> Radial {
    Radial {
        azimuth_milli,
        azimuth_spacing_milli: spacing_milli,
        gate_interval_m: 1_000,
        word_size: 8,
        scale_milli: 2_000,
        offset_milli: 0,
        raw_gates: gates,
    }
}

#[test]
fn circular_functions_hit_exact_landmarks() {
    assert_eq!(sin_micro(0), 0);
    assert_eq!(sin_micro(90_000), 1_000_000);
    assert_eq!(sin_micro(180_000), 0);
    assert_eq!(sin_micro(270_000), -1_000_000);
    assert_eq!(sin_micro(30_000), 500_000);
    assert_eq!(sin_micro(-90_000), -1_000_000);
    assert_eq!(cos_micro(0), 1_000_000);
    assert_eq!(cos_micro(90_000), 0);
    assert_eq!(cos_micro(180_000), -1_000_000);
}

#[test]
fn projection_along_an_axis_is_exact() {
    // Azimuth 90 degrees rotates to 0; spacing 0.5 degrees does not cross a
    // degree boundary, so the snapped angle stays 0 and the point lands on
    // the x axis: one 1000 m gate at the render ratio is 10000 micro units.
    let scan = VolumeScan {
        sweeps: vec![Sweep {
            elevation_milli: 0,
            radials: vec![radial(90_000, 500, vec![4])],
        }],
    };
    let points = derive_points(&scan, 0).unwrap();
    assert_eq!(points.len(), 1);
    assert_eq!(points[0].pos, Vec3 { x: 10_000, y: 0, z: 0 });
    assert_eq!(points[0].strength_milli, 2_000);
}

#[test]
fn snapping_advances_across_a_degree_boundary() {
    // Azimuth 90 degrees with 1.0-degree spacing: the rotated angle 0 plus
    // the spacing crosses a degree boundary, so the beam snaps to 1 degree.
    let scan = VolumeScan {
        sweeps: vec![Sweep {
            elevation_milli: 0,
            radials: vec![radial(90_000, 1_000, vec![4])],
        }],
    };
    let points = derive_points(&scan, 0).unwrap();
    assert_eq!(points.len(), 1);
    // cos(1 deg) = 999845 and sin(1 deg) = 17757 in micro units.
    assert_eq!(points[0].pos, Vec3 { x: 9_998, y: 0, z: 177 });
}

#[test]
fn end_to_end_scenario() {
    // One sweep at 0.5 degrees, one radial at azimuth 90 with 1.0-degree
    // spacing, three 1000 m gates of raw [0, 1, 5] under scale 2, offset 0,
    // inclusion threshold 0. Gate 0 codes "below threshold" and is dropped.
    // Gate 2 scales to 2.5 and projects with a black (under 5.0) color.
    // Gate 1 codes a folded return, which reads 998.0: it is not the
    // below-threshold sentinel and clears the threshold, so it projects too,
    // white.
    let scan = VolumeScan {
        sweeps: vec![Sweep {
            elevation_milli: 500,
            radials: vec![radial(90_000, 1_000, vec![0, 1, 5])],
        }],
    };
    let points = derive_points(&scan, 0).unwrap();
    assert_eq!(points.len(), 2);

    assert_eq!(points[0].strength_milli, 998_000);
    assert_eq!(points[0].raw, Rgb { r: 0xff, g: 0xff, b: 0xff });
    assert_eq!(points[0].pos, Vec3 { x: 19_996, y: 177, z: 355 });

    assert_eq!(points[1].strength_milli, 2_500);
    assert_eq!(points[1].raw, Rgb { r: 0, g: 0, b: 0 });
    assert_eq!(points[1].pos, Vec3 { x: 29_995, y: 266, z: 532 });
}

#[test]
fn threshold_excludes_weak_gates() {
    let scan = VolumeScan {
        sweeps: vec![Sweep {
            elevation_milli: 500,
            radials: vec![radial(90_000, 1_000, vec![5, 9])],
        }],
    };
    // Readings are 2.5 and 4.5; a threshold of 2.5 keeps only the strict
    // excess.
    let points = derive_points(&scan, 2_500).unwrap();
    assert_eq!(points.len(), 1);
    assert_eq!(points[0].strength_milli, 4_500);
}

#[test]
fn projection_is_deterministic() {
    let scan = VolumeScan {
        sweeps: vec![Sweep {
            elevation_milli: 12_345,
            radials: vec![radial(217_300, 500, vec![0, 200, 31, 77])],
        }],
    };
    let a = derive_points(&scan, 500).unwrap();
    let b = derive_points(&scan, 500).unwrap();
    assert_eq!(a, b);
}

#[test]
fn unsupported_word_size_is_a_hard_error() {
    let mut bad = radial(90_000, 1_000, vec![5]);
    bad.word_size = 16;
    let scan = VolumeScan {
        sweeps: vec![Sweep { elevation_milli: 500, radials: vec![bad] }],
    };
    assert_eq!(derive_points(&scan, 0), Err(Error::UnsupportedWordSize));
}

#[test]
fn mode_color_reads_the_requested_triple() {
    let scan = VolumeScan {
        sweeps: vec![Sweep {
            elevation_milli: 0,
            radials: vec![radial(90_000, 500, vec![4])],
        }],
    };
    let mut points = derive_points(&scan, 0).unwrap();
    points[0].density = Rgb { r: 1, g: 2, b: 3 };
    points[0].hybrid = Rgb { r: 4, g: 5, b: 6 };
    assert_eq!(mode_color(&points[0], PointColorMode::Raw), points[0].raw);
    assert_eq!(
        mode_color(&points[0], PointColorMode::Density),
        Rgb { r: 1, g: 2, b: 3 }
    );
    assert_eq!(
        mode_color(&points[0], PointColorMode::Hybrid),
        Rgb { r: 4, g: 5, b: 6 }
    );
}
