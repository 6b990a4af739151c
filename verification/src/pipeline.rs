//! The synchronous compute chain of one pipeline run, and the grouping of
//! clustered points.
//!
//! Once a decoded scan is in memory the chain runs without suspending:
//! derive points, decimate by the request's sampling stride, reclassify
//! colors. The orchestrator around it (which fetches, decodes, times the
//! stages and publishes into the shared state) performs the waiting and the
//! locking; everything here is pure computation.

use crate::cluster::ClusterAssignment;
use crate::color::{classify_color, spec_classify};
use crate::error::Error;
use crate::project::{derive_points, spec_scan_points, ColoredPoint};
use crate::sample::{decimate, lemma_decimated_index, spec_decimated};
use crate::scan::VolumeScan;
use vstd::pervasive::VecAdditionalExecFns;
use vstd::prelude::*;

verus! {

/// A point with its raw color re-derived from its own reflectivity reading;
/// position, reading and the other color modes are untouched.
pub open spec fn spec_recolored(p: ColoredPoint) -> ColoredPoint {
    ColoredPoint {
        pos: p.pos,
        strength_milli: p.strength_milli,
        raw: spec_classify(p.strength_milli as int),
        density: p.density,
        hybrid: p.hybrid,
    }
}

/// A whole point sequence under raw-color reclassification.
pub open spec fn spec_recolor_all(s: Seq<ColoredPoint>) -> Seq<ColoredPoint> {
    Seq::new(s.len(), |i: int| spec_recolored(s[i]))
}

/// Reclassifies every point's raw color from its reflectivity reading.
pub fn color_points(points: &mut Vec<ColoredPoint>)
    ensures
        final(points)@ == spec_recolor_all(old(points)@),
{
    let n = points.len();
    for i in 0..n
        invariant
            n == points@.len(),
            n == old(points)@.len(),
            forall|t: int| i <= t < n ==> points@[t] == old(points)@[t],
            forall|t: int| 0 <= t < i ==> points@[t] == spec_recolored(old(points)@[t]),
    {
        let p = points[i];
        let c = classify_color(p.strength_milli);
        let recolored = ColoredPoint {
            pos: p.pos,
            strength_milli: p.strength_milli,
            raw: c,
            density: p.density,
            hybrid: p.hybrid,
        };
        points.set(i, recolored);
    }
    assert(points@ =~= spec_recolor_all(old(points)@));
}

/// The noise points among the first `hi`, in input order.
pub open spec fn spec_noise_points(
    pts: Seq<ColoredPoint>,
    asg: Seq<ClusterAssignment>,
    hi: int,
) -> Seq<ColoredPoint>
    decreases hi,
{
    if hi <= 0 {
        Seq::empty()
    } else {
        spec_noise_points(pts, asg, hi - 1) + if asg[hi - 1] is Noise {
            seq![pts[hi - 1]]
        } else {
            Seq::empty()
        }
    }
}

/// The points of cluster `c` among the first `hi`, in input order.
pub open spec fn spec_cluster_points(
    pts: Seq<ColoredPoint>,
    asg: Seq<ClusterAssignment>,
    c: usize,
    hi: int,
) -> Seq<ColoredPoint>
    decreases hi,
{
    if hi <= 0 {
        Seq::empty()
    } else {
        spec_cluster_points(pts, asg, c, hi - 1) + if asg[hi - 1] == ClusterAssignment::Core(c) {
            seq![pts[hi - 1]]
        } else {
            Seq::empty()
        }
    }
}

/// The cluster identifiers among the first `hi` tags, each once, in first
/// appearance order.
pub open spec fn spec_cluster_ids(asg: Seq<ClusterAssignment>, hi: int) -> Seq<usize>
    decreases hi,
{
    if hi <= 0 {
        Seq::empty()
    } else {
        let prev = spec_cluster_ids(asg, hi - 1);
        if asg[hi - 1] is Core && !prev.contains(asg[hi - 1]->Core_0) {
            prev.push(asg[hi - 1]->Core_0)
        } else {
            prev
        }
    }
}

/// Whether a cluster identifier already appears in a list.
fn ids_contain(ids: &Vec<usize>, c: usize) -> (b: bool)
    ensures
        b == ids@.contains(c),
{
    let n = ids.len();
    for t in 0..n
        invariant
            n == ids@.len(),
            forall|u: int| 0 <= u < t ==> ids@[u] != c,
    {
        if ids[t] == c {
            return true;
        }
    }
    false
}

/// Splits a clustering result into one point list per cluster, in cluster
/// discovery order, plus the unclustered points — each in input order. The
/// scan over identifiers is linear, so grouping costs the number of points
/// times the number of clusters.
pub fn group_clusters(points: &Vec<ColoredPoint>, assignments: &Vec<ClusterAssignment>) -> (r: (
    Vec<Vec<ColoredPoint>>,
    Vec<ColoredPoint>,
))
    requires
        assignments@.len() == points@.len(),
    ensures
        r.1@ == spec_noise_points(points@, assignments@, points@.len() as int),
        r.0@.len() == spec_cluster_ids(assignments@, points@.len() as int).len(),
        forall|b: int|
            0 <= b < r.0@.len() ==> (#[trigger] r.0@[b])@ == spec_cluster_points(
                points@,
                assignments@,
                spec_cluster_ids(assignments@, points@.len() as int)[b],
                points@.len() as int,
            ),
{
    let n = points.len();
    let mut ids: Vec<usize> = Vec::new();
    for i in 0..n
        invariant
            n == points@.len(),
            n == assignments@.len(),
            ids@ == spec_cluster_ids(assignments@, i as int),
    {
        match assignments[i] {
            ClusterAssignment::Core(c) => {
                if !ids_contain(&ids, c) {
                    ids.push(c);
                }
            },
            ClusterAssignment::Noise => {},
        }
    }
    let mut noise: Vec<ColoredPoint> = Vec::new();
    for i in 0..n
        invariant
            n == points@.len(),
            n == assignments@.len(),
            noise@ == spec_noise_points(points@, assignments@, i as int),
    {
        if matches!(assignments[i], ClusterAssignment::Noise) {
            noise.push(points[i]);
        }
        proof {
            assert(noise@ =~= spec_noise_points(points@, assignments@, i + 1));
        }
    }
    let m = ids.len();
    let mut clusters: Vec<Vec<ColoredPoint>> = Vec::new();
    for b in 0..m
        invariant
            n == points@.len(),
            n == assignments@.len(),
            m == ids@.len(),
            ids@ == spec_cluster_ids(assignments@, n as int),
            clusters@.len() == b,
            forall|u: int|
                0 <= u < b ==> (#[trigger] clusters@[u])@ == spec_cluster_points(
                    points@,
                    assignments@,
                    ids@[u],
                    n as int,
                ),
    {
        let c = ids[b];
        let mut bucket: Vec<ColoredPoint> = Vec::new();
        for i in 0..n
            invariant
                n == points@.len(),
                n == assignments@.len(),
                c == ids@[b as int],
                bucket@ == spec_cluster_points(points@, assignments@, c, i as int),
        {
            if assignments[i] == ClusterAssignment::Core(c) {
                bucket.push(points[i]);
            }
            proof {
                assert(bucket@ =~= spec_cluster_points(points@, assignments@, c, i + 1));
            }
        }
        clusters.push(bucket);
    }
    (clusters, noise)
}

/// The synchronous compute chain over one decoded scan: derive the colored
/// points above the inclusion threshold, keep every `sampling`-th of them,
/// and reclassify colors. Word-size and stride errors are exactly those of
/// the stages.
pub fn process_scan(scan: &VolumeScan, threshold_milli: i64, sampling: u16) -> (r: Result<
    Vec<ColoredPoint>,
    Error,
>)
    requires
        scan.wf(),
    ensures
        !scan.word_sizes_supported() ==> r == Result::<Vec<ColoredPoint>, Error>::Err(
            Error::UnsupportedWordSize,
        ),
        scan.word_sizes_supported() && sampling == 0 ==> r == Result::<Vec<ColoredPoint>, Error>::Err(
            Error::InvalidStride,
        ),
        scan.word_sizes_supported() && sampling != 0 ==> r is Ok && r->Ok_0@ == spec_recolor_all(
            spec_decimated(spec_scan_points(*scan, threshold_milli as int, 0), sampling as int),
        ) && (forall|i: int| 0 <= i < r->Ok_0@.len() ==> (#[trigger] r->Ok_0@[i]).wf()),
{
    let points = match derive_points(scan, threshold_milli) {
        Ok(p) => p,
        Err(e) => {
            return Err(e);
        },
    };
    let mut sampled = match decimate(&points, sampling) {
        Ok(p) => p,
        Err(e) => {
            return Err(e);
        },
    };
    color_points(&mut sampled);
    proof {
        assert forall|i: int| 0 <= i < sampled@.len() implies (#[trigger] sampled@[i]).wf() by {
            lemma_decimated_index(points@, sampling as int, i);
            assert(points@[i * (sampling as int)].wf());
        }
    }
    Ok(sampled)
}

} // verus!
