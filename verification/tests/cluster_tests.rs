use nexrad_volumetric::cluster::{cluster, ClusterAssignment};
use nexrad_volumetric::color::Rgb;
use nexrad_volumetric::pipeline::group_clusters;
use nexrad_volumetric::project::{ColoredPoint, Vec3};

fn point(x: i64, y: i64, z: i64) -> ColoredPoint {
    let black = Rgb { r: 0, g: 0, b: 0 };
    ColoredPoint {
        pos: Vec3 { x, y, z },
        strength_milli: 10_000,
        raw: black,
        density: black,
        hybrid: black,
    }
}

fn cluster_id(a: ClusterAssignment) -> usize {
    match a {
        ClusterAssignment::Core(c) => c,
        ClusterAssignment::Noise => panic!("expected a clustered point"),
    }
}

#[test]
fn every_point_is_tagged_exactly_once() {
    let points = vec![point(0, 0, 0), point(1, 0, 0), point(100, 0, 0)];
    let tags = cluster(&points, 1, 1);
    assert_eq!(tags.len(), points.len());
}

#[test]
fn dense_points_are_never_noise() {
    // Three mutually close points: each has two neighbors within the
    // radius, so with two required neighbors all three are core points.
    let points = vec![
        point(0, 0, 0),
        point(1, 0, 0),
        point(0, 1, 0),
        point(1_000_000, 0, 0),
    ];
    let tags = cluster(&points, 2, 2);
    let c = cluster_id(tags[0]);
    assert_eq!(tags[0], ClusterAssignment::Core(c));
    assert_eq!(tags[1], ClusterAssignment::Core(c));
    assert_eq!(tags[2], ClusterAssignment::Core(c));
    assert_eq!(tags[3], ClusterAssignment::Noise);
}

#[test]
fn border_point_joins_its_core_cluster() {
    // The middle point is the only core point; its two ends have a single
    // neighbor each, but both sit within the radius of the core and join.
    let points = vec![point(0, 0, 0), point(1, 0, 0), point(2, 0, 0)];
    let tags = cluster(&points, 1, 2);
    let c = cluster_id(tags[1]);
    assert_eq!(tags, vec![
        ClusterAssignment::Core(c),
        ClusterAssignment::Core(c),
        ClusterAssignment::Core(c),
    ]);
}

#[test]
fn isolated_points_are_noise() {
    let points = vec![point(0, 0, 0), point(1_000, 0, 0), point(0, 5_000, 0)];
    let tags = cluster(&points, 10, 1);
    assert_eq!(tags, vec![
        ClusterAssignment::Noise,
        ClusterAssignment::Noise,
        ClusterAssignment::Noise,
    ]);
}

#[test]
fn separate_dense_regions_get_distinct_clusters() {
    let points = vec![
        point(0, 0, 0),
        point(1, 0, 0),
        point(1_000_000, 0, 0),
        point(1_000_001, 0, 0),
    ];
    let tags = cluster(&points, 2, 1);
    let a = cluster_id(tags[0]);
    let b = cluster_id(tags[2]);
    assert_ne!(a, b);
    assert_eq!(tags[1], ClusterAssignment::Core(a));
    assert_eq!(tags[3], ClusterAssignment::Core(b));
}

#[test]
fn clustering_empty_input_is_empty() {
    let points: Vec<ColoredPoint> = Vec::new();
    assert_eq!(cluster(&points, 10, 2), Vec::new());
}

#[test]
fn grouping_splits_clusters_and_noise() {
    let points = vec![
        point(0, 0, 0),
        point(1, 0, 0),
        point(1_000_000, 0, 0),
        point(1_000_001, 0, 0),
        point(77, 77, 77),
    ];
    let tags = cluster(&points, 2, 1);
    let (clusters, unclustered) = group_clusters(&points, &tags);
    assert_eq!(clusters.len(), 2);
    assert_eq!(clusters[0], vec![points[0], points[1]]);
    assert_eq!(clusters[1], vec![points[2], points[3]]);
    assert_eq!(unclustered, vec![points[4]]);
}
