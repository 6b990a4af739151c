//! Spatial clusterer: density-based partition of a point sequence into
//! clusters and noise.
//!
//! A point is a core point if at least `min_pts` other points lie within
//! the neighborhood radius `eps` (Euclidean distance in the projected
//! render frame — geometry is not rescaled here; a caller wanting isotropic
//! density rescales first). Clusters grow from core points across their
//! neighborhoods: every core point is clustered, and a non-core point joins
//! a cluster exactly when some core point lies within `eps` of it; all
//! remaining points are noise. Cluster identifiers are assigned in
//! discovery order and carry no meaning across runs.
//!
//! The walk is the classical seed-queue expansion over the naive pairwise
//! neighborhoods, quadratic in the number of points.

use crate::project::{ColoredPoint, Vec3};
use vstd::pervasive::VecAdditionalExecFns;
use vstd::prelude::*;

verus! {

/// The tag of one input point in the clustering output, aligned one-to-one
/// with input order.
#[derive(Clone, Copy, Debug, PartialEq, Eq, Structural)]
pub enum ClusterAssignment {
    /// Member of the cluster with the given discovery-order identifier.
    Core(usize),
    /// No dense neighborhood reaches this point.
    Noise,
}

/// A point's label while the walk is running.
#[derive(Clone, Copy, Debug, PartialEq, Eq, Structural)]
enum Label {
    /// Not visited yet.
    Unset,
    /// Visited and found without a dense neighborhood, so far unreached.
    Lone,
    /// Member of the cluster with the given identifier.
    Member(usize),
}

/// Squared Euclidean distance between two render-frame positions.
pub open spec fn spec_sq_dist(a: Vec3, b: Vec3) -> int {
    (a.x - b.x) * (a.x - b.x) + (a.y - b.y) * (a.y - b.y) + (a.z - b.z) * (a.z - b.z)
}

/// Whether two points lie within the neighborhood radius of one another.
pub open spec fn spec_close(a: Vec3, b: Vec3, eps_micro: int) -> bool {
    spec_sq_dist(a, b) <= eps_micro * eps_micro
}

/// Closeness does not depend on the order of the two points.
pub proof fn lemma_close_symmetric(a: Vec3, b: Vec3, eps_micro: int)
    ensures
        spec_close(a, b, eps_micro) == spec_close(b, a, eps_micro),
{
    assert((a.x - b.x) * (a.x - b.x) == (b.x - a.x) * (b.x - a.x)) by (nonlinear_arith);
    assert((a.y - b.y) * (a.y - b.y) == (b.y - a.y) * (b.y - a.y)) by (nonlinear_arith);
    assert((a.z - b.z) * (a.z - b.z) == (b.z - a.z) * (b.z - a.z)) by (nonlinear_arith);
}

/// How many points of index below `hi`, other than `i` itself, lie within
/// the neighborhood radius of point `i`.
pub open spec fn spec_neighbor_count(
    pts: Seq<ColoredPoint>,
    i: int,
    eps_micro: int,
    hi: int,
) -> int
    decreases hi,
{
    if hi <= 0 {
        0
    } else {
        spec_neighbor_count(pts, i, eps_micro, hi - 1) + if hi - 1 != i && spec_close(
            pts[hi - 1].pos,
            pts[i].pos,
            eps_micro,
        ) {
            1int
        } else {
            0int
        }
    }
}

/// Whether point `i` is a core point: at least `min_pts` other points lie
/// within the neighborhood radius.
pub open spec fn spec_is_core(pts: Seq<ColoredPoint>, i: int, eps_micro: int, min_pts: int) -> bool {
    spec_neighbor_count(pts, i, eps_micro, pts.len() as int) >= min_pts
}

/// Whether some core point other than `i` lies within the neighborhood
/// radius of point `i`.
pub open spec fn spec_has_core_neighbor(
    pts: Seq<ColoredPoint>,
    i: int,
    eps_micro: int,
    min_pts: int,
) -> bool {
    exists|j: int|
        0 <= j < pts.len() && j != i && spec_is_core(pts, j, eps_micro, min_pts) && spec_close(
            pts[i].pos,
            pts[j].pos,
            eps_micro,
        )
}

/// Whether two render-frame positions lie within the radius of each other.
fn close(a: &Vec3, b: &Vec3, eps_micro: i64) -> (r: bool)
    requires
        a.in_bounds(),
        b.in_bounds(),
        0 <= eps_micro,
    ensures
        r == spec_close(*a, *b, eps_micro as int),
{
    let dx: i64 = a.x - b.x;
    let dy: i64 = a.y - b.y;
    let dz: i64 = a.z - b.z;
    proof {
        assert(0 <= (dx as i128) * (dx as i128) <= 0x10000000000000000000000i128)
            by (nonlinear_arith)
            requires
                -200_000_000_000 <= dx <= 200_000_000_000,
        ;
        assert(0 <= (dy as i128) * (dy as i128) <= 0x10000000000000000000000i128)
            by (nonlinear_arith)
            requires
                -200_000_000_000 <= dy <= 200_000_000_000,
        ;
        assert(0 <= (dz as i128) * (dz as i128) <= 0x10000000000000000000000i128)
            by (nonlinear_arith)
            requires
                -200_000_000_000 <= dz <= 200_000_000_000,
        ;
        assert(0 <= (eps_micro as i128) * (eps_micro as i128)
            <= 0x4000_0000_0000_0000_0000_0000_0000_0000i128) by (nonlinear_arith)
            requires
                0 <= eps_micro <= 0x7fff_ffff_ffff_ffffi64,
        ;
    }
    let sq: i128 = (dx as i128) * (dx as i128) + (dy as i128) * (dy as i128) + (dz as i128) * (
    dz as i128);
    let bound: i128 = (eps_micro as i128) * (eps_micro as i128);
    sq <= bound
}

/// All neighbors of point `i`: every other index within the radius, each
/// exactly once, so the list's length is the point's neighbor count.
fn neighbors(points: &Vec<ColoredPoint>, i: usize, eps_micro: i64) -> (ns: Vec<usize>)
    requires
        i < points@.len(),
        0 <= eps_micro,
        forall|t: int| 0 <= t < points@.len() ==> (#[trigger] points@[t]).wf(),
    ensures
        ns@.len() == spec_neighbor_count(
            points@,
            i as int,
            eps_micro as int,
            points@.len() as int,
        ),
        forall|t: int|
            0 <= t < ns@.len() ==> 0 <= #[trigger] ns@[t] < points@.len() && ns@[t] != i
                && spec_close(points@[ns@[t] as int].pos, points@[i as int].pos, eps_micro as int),
        forall|j: int|
            0 <= j < points@.len() && j != i && spec_close(
                points@[j].pos,
                points@[i as int].pos,
                eps_micro as int,
            ) ==> ns@.contains(j as usize),
{
    let n = points.len();
    let mut ns: Vec<usize> = Vec::new();
    for j in 0..n
        invariant
            i < n,
            n == points@.len(),
            0 <= eps_micro,
            forall|t: int| 0 <= t < points@.len() ==> (#[trigger] points@[t]).wf(),
            ns@.len() == spec_neighbor_count(points@, i as int, eps_micro as int, j as int),
            forall|t: int|
                0 <= t < ns@.len() ==> 0 <= #[trigger] ns@[t] < j && ns@[t] != i && spec_close(
                    points@[ns@[t] as int].pos,
                    points@[i as int].pos,
                    eps_micro as int,
                ),
            forall|k: int|
                0 <= k < j && k != i && spec_close(
                    points@[k].pos,
                    points@[i as int].pos,
                    eps_micro as int,
                ) ==> ns@.contains(k as usize),
    {
        let ghost before = ns@;
        if j != i && close(&points[j].pos, &points[i].pos, eps_micro) {
            ns.push(j);
            proof {
                assert forall|k: int|
                    0 <= k < j + 1 && k != i && spec_close(
                        points@[k].pos,
                        points@[i as int].pos,
                        eps_micro as int,
                    ) implies ns@.contains(k as usize) by {
                    if k < j {
                        let t = choose|t: int| 0 <= t < before.len() && before[t] == k as usize;
                        assert(ns@[t] == k as usize);
                    } else {
                        assert(ns@[ns@.len() - 1] == k as usize);
                    }
                }
            }
        }
    }
    ns
}

/// How many points are still unvisited among the first `hi` labels.
spec fn spec_count_unset(labels: Seq<Label>, hi: int) -> int
    decreases hi,
{
    if hi <= 0 {
        0
    } else {
        spec_count_unset(labels, hi - 1) + if labels[hi - 1] is Unset {
            1int
        } else {
            0int
        }
    }
}

/// Relabeling one point changes the unvisited count exactly at that point.
proof fn lemma_count_unset_update(labels: Seq<Label>, j: int, v: Label, hi: int)
    requires
        0 <= j < labels.len(),
        hi <= labels.len(),
    ensures
        spec_count_unset(labels.update(j, v), hi) == spec_count_unset(labels, hi) + if j < hi {
            (if v is Unset {
                1int
            } else {
                0int
            }) - (if labels[j] is Unset {
                1int
            } else {
                0int
            })
        } else {
            0int
        },
    decreases hi,
{
    if hi > 0 {
        lemma_count_unset_update(labels, j, v, hi - 1);
    }
}

/// The unvisited count of a prefix never exceeds the prefix length and
/// never drops below zero.
proof fn lemma_count_unset_bounds(labels: Seq<Label>, hi: int)
    requires
        hi <= labels.len(),
    ensures
        0 <= spec_count_unset(labels, hi),
        hi >= 0 ==> spec_count_unset(labels, hi) <= hi,
    decreases hi,
{
    if hi > 0 {
        lemma_count_unset_bounds(labels, hi - 1);
    }
}

/// A point found without a dense neighborhood really has none.
spec fn lone_sound(pts: Seq<ColoredPoint>, labels: Seq<Label>, eps: int, mp: int) -> bool {
    forall|t: int|
        0 <= t < labels.len() && (#[trigger] labels[t]) is Lone ==> !spec_is_core(pts, t, eps, mp)
}

/// Every cluster member is a core point or sits within the radius of a core
/// point carrying the same label.
spec fn member_sound(pts: Seq<ColoredPoint>, labels: Seq<Label>, eps: int, mp: int) -> bool {
    forall|t: int|
        0 <= t < labels.len() && (#[trigger] labels[t]) is Member ==> spec_is_core(pts, t, eps, mp)
            || exists|j: int|
            #![auto]
            0 <= j < labels.len() && j != t && spec_is_core(pts, j, eps, mp) && spec_close(
                pts[t].pos,
                pts[j].pos,
                eps,
            ) && labels[j] == labels[t]
}

/// Every neighbor of a clustered core point is clustered too — with the
/// same cluster when the neighbor is itself a core point — or still waits
/// in the seed queue of the cluster being grown.
spec fn coverage(
    pts: Seq<ColoredPoint>,
    labels: Seq<Label>,
    queue: Seq<usize>,
    eps: int,
    mp: int,
    cid: usize,
) -> bool {
    forall|t: int, k: int|
        0 <= t < labels.len() && 0 <= k < labels.len() && (#[trigger] labels[t]) is Member
            && spec_is_core(pts, t, eps, mp) && k != t && spec_close(pts[k].pos, pts[t].pos, eps)
            ==> ((#[trigger] labels[k]) is Member && (spec_is_core(pts, k, eps, mp) ==> labels[k]
            == labels[t])) || (queue.contains(k as usize) && labels[t] == Label::Member(cid))
}

/// With a drained queue, coverage does not depend on which cluster was
/// being grown.
proof fn lemma_coverage_empty_any_cid(
    pts: Seq<ColoredPoint>,
    labels: Seq<Label>,
    eps: int,
    mp: int,
    c1: usize,
    c2: usize,
)
    requires
        coverage(pts, labels, Seq::empty(), eps, mp, c1),
    ensures
        coverage(pts, labels, Seq::empty(), eps, mp, c2),
{
    assert forall|t: int, k: int|
        0 <= t < labels.len() && 0 <= k < labels.len() && (#[trigger] labels[t]) is Member
            && spec_is_core(pts, t, eps, mp) && k != t && spec_close(
        pts[k].pos,
        pts[t].pos,
        eps,
    ) implies ((#[trigger] labels[k]) is Member && (spec_is_core(pts, k, eps, mp) ==> labels[k]
        == labels[t])) || (Seq::<usize>::empty().contains(k as usize) && labels[t]
        == Label::Member(c2)) by {
        assert(!Seq::<usize>::empty().contains(k as usize));
    }
}

/// Every queued seed is a neighbor of a core point already carrying the
/// cluster label being grown.
spec fn queue_sound(
    pts: Seq<ColoredPoint>,
    labels: Seq<Label>,
    queue: Seq<usize>,
    eps: int,
    mp: int,
    cid: usize,
) -> bool {
    forall|t: int|
        0 <= t < queue.len() ==> (#[trigger] queue[t]) < labels.len() && exists|j: int|
            #![auto]
            0 <= j < labels.len() && j != queue[t] && spec_is_core(pts, j, eps, mp) && spec_close(
                pts[queue[t] as int].pos,
                pts[j].pos,
                eps,
            ) && labels[j] == Label::Member(cid)
}

/// The walk's label turned into the caller's tag.
spec fn spec_assignment_of(l: Label) -> ClusterAssignment {
    match l {
        Label::Member(c) => ClusterAssignment::Core(c),
        _ => ClusterAssignment::Noise,
    }
}

/// Partitions the points by density: the tag at index `i` of the result
/// describes the point at index `i` of the input, so every input point
/// appears exactly once. A core point (at least `min_pts` other points
/// within `eps_micro`) is always tagged with a cluster, and two core points
/// within the radius of one another always share one cluster; a non-core
/// point is tagged with a cluster exactly when a core point lies within the
/// radius, and with noise otherwise, and a clustered non-core point shares
/// its cluster with such a core point.
pub fn cluster(points: &Vec<ColoredPoint>, eps_micro: i64, min_pts: usize) -> (r: Vec<
    ClusterAssignment,
>)
    requires
        0 <= eps_micro,
        forall|t: int| 0 <= t < points@.len() ==> (#[trigger] points@[t]).wf(),
    ensures
        r@.len() == points@.len(),
        forall|t: int|
            0 <= t < points@.len() && spec_is_core(points@, t, eps_micro as int, min_pts as int)
                ==> (#[trigger] r@[t]) is Core,
        forall|t: int|
            0 <= t < points@.len() ==> ((#[trigger] r@[t]) is Noise <==> !spec_is_core(
                points@,
                t,
                eps_micro as int,
                min_pts as int,
            ) && !spec_has_core_neighbor(points@, t, eps_micro as int, min_pts as int)),
        forall|t: int|
            0 <= t < points@.len() && (#[trigger] r@[t]) is Core && !spec_is_core(
                points@,
                t,
                eps_micro as int,
                min_pts as int,
            ) ==> exists|j: int|
                #![auto]
                0 <= j < points@.len() && j != t && spec_is_core(
                    points@,
                    j,
                    eps_micro as int,
                    min_pts as int,
                ) && spec_close(points@[t].pos, points@[j].pos, eps_micro as int) && r@[j] == r@[t],
        forall|t: int, k: int|
            0 <= t < points@.len() && 0 <= k < points@.len() && t != k && spec_is_core(
                points@,
                t,
                eps_micro as int,
                min_pts as int,
            ) && spec_is_core(points@, k, eps_micro as int, min_pts as int) && spec_close(
                points@[k].pos,
                points@[t].pos,
                eps_micro as int,
            ) ==> #[trigger] r@[t] == #[trigger] r@[k],
{
    let n = points.len();
    let ghost eps = eps_micro as int;
    let ghost mp = min_pts as int;
    let mut labels: Vec<Label> = Vec::new();
    for t in 0..n
        invariant
            labels@.len() == t,
            forall|u: int| 0 <= u < t ==> (#[trigger] labels@[u]) is Unset,
    {
        labels.push(Label::Unset);
    }
    let mut next_cluster: usize = 0;
    for i in 0..n
        invariant
            n == points@.len(),
            0 <= eps_micro,
            eps == eps_micro as int,
            mp == min_pts as int,
            forall|t: int| 0 <= t < points@.len() ==> (#[trigger] points@[t]).wf(),
            labels@.len() == n,
            next_cluster <= i,
            forall|t: int| 0 <= t < i ==> !((#[trigger] labels@[t]) is Unset),
            lone_sound(points@, labels@, eps, mp),
            member_sound(points@, labels@, eps, mp),
            coverage(points@, labels@, Seq::empty(), eps, mp, 0),
    {
        let here = labels[i];
        if matches!(here, Label::Unset) {
            let nbrs = neighbors(points, i, eps_micro);
            if nbrs.len() < min_pts {
                let ghost before = labels@;
                labels.set(i, Label::Lone);
                proof {
                    assert(!spec_is_core(points@, i as int, eps, mp));
                    assert(lone_sound(points@, labels@, eps, mp));
                    assert(member_sound(points@, labels@, eps, mp)) by {
                        assert forall|t: int|
                            0 <= t < labels@.len() && (#[trigger] labels@[t]) is Member implies
                        spec_is_core(points@, t, eps, mp) || exists|j: int|
                            #![auto]
                            0 <= j < labels@.len() && j != t && spec_is_core(points@, j, eps, mp)
                                && spec_close(points@[t].pos, points@[j].pos, eps) && labels@[j]
                                == labels@[t] by {
                            assert(before[t] == labels@[t]);
                            if !spec_is_core(points@, t, eps, mp) {
                                let j = choose|j: int|
                                    #![auto]
                                    0 <= j < before.len() && j != t && spec_is_core(
                                        points@,
                                        j,
                                        eps,
                                        mp,
                                    ) && spec_close(points@[t].pos, points@[j].pos, eps)
                                        && before[j] == before[t];
                                assert(j != i);
                                assert(labels@[j] == before[j]);
                            }
                        }
                    }
                    assert(coverage(points@, labels@, Seq::empty(), eps, mp, 0)) by {
                        assert forall|t: int, k: int|
                            0 <= t < labels@.len() && 0 <= k < labels@.len() && (
                            #[trigger] labels@[t]) is Member && spec_is_core(points@, t, eps, mp)
                                && k != t && spec_close(points@[k].pos, points@[t].pos, eps) implies
                        ((#[trigger] labels@[k]) is Member && (spec_is_core(points@, k, eps, mp)
                            ==> labels@[k] == labels@[t])) || (Seq::<usize>::empty().contains(
                            k as usize,
                        ) && labels@[t] == Label::Member(0)) by {
                            assert(before[t] == labels@[t]);
                            assert(before[k] is Member);
                            assert(k != i);
                        }
                    }
                }
            } else {
                let cid = next_cluster;
                next_cluster = next_cluster + 1;
                let ghost before = labels@;
                labels.set(i, Label::Member(cid));
                proof {
                    assert(spec_is_core(points@, i as int, eps, mp));
                }
                let mut queue: Vec<usize> = nbrs;
                proof {
                    assert(member_sound(points@, labels@, eps, mp)) by {
                        member_sound_after_update(points@, before, labels@, i as int, eps, mp);
                    }
                    assert(queue_sound(points@, labels@, queue@, eps, mp, cid)) by {
                        assert forall|t: int| 0 <= t < queue@.len() implies (#[trigger] queue@[t])
                            < labels@.len() && exists|j: int|
                            #![auto]
                            0 <= j < labels@.len() && j != queue@[t] && spec_is_core(
                                points@,
                                j,
                                eps,
                                mp,
                            ) && spec_close(points@[queue@[t] as int].pos, points@[j].pos, eps)
                                && labels@[j] == Label::Member(cid) by {
                            assert(queue@[t] != i && spec_close(
                                points@[queue@[t] as int].pos,
                                points@[i as int].pos,
                                eps,
                            ));
                            assert(labels@[i as int] == Label::Member(cid));
                        }
                    }
                    assert(coverage(points@, labels@, queue@, eps, mp, cid)) by {
                        assert forall|t: int, k: int|
                            0 <= t < labels@.len() && 0 <= k < labels@.len() && (
                            #[trigger] labels@[t]) is Member && spec_is_core(points@, t, eps, mp)
                                && k != t && spec_close(points@[k].pos, points@[t].pos, eps) implies
                        ((#[trigger] labels@[k]) is Member && (spec_is_core(points@, k, eps, mp)
                            ==> labels@[k] == labels@[t])) || (queue@.contains(k as usize)
                            && labels@[t] == Label::Member(cid)) by {
                            if t == i {
                                assert(queue@.contains(k as usize));
                                assert(labels@[t] == Label::Member(cid));
                            } else {
                                assert(before[t] == labels@[t]);
                                assert(before[k] is Member && (spec_is_core(points@, k, eps, mp)
                                    ==> before[k] == before[t]));
                                assert(k != i);
                            }
                        }
                    }
                }
                let ghost at_call = labels@;
                expand_cluster(points, &mut labels, &mut queue, cid, eps_micro, min_pts);
                proof {
                    lemma_coverage_empty_any_cid(points@, labels@, eps, mp, cid, 0);
                    assert forall|t: int| 0 <= t < i + 1 implies !((#[trigger] labels@[t])
                        is Unset) by {
                        assert(!(at_call[t] is Unset));
                    }
                }
            }
        }
    }
    let ghost final_labels = labels@;
    let mut result: Vec<ClusterAssignment> = Vec::new();
    for t in 0..n
        invariant
            n == points@.len(),
            labels@ == final_labels,
            labels@.len() == n,
            result@.len() == t,
            forall|u: int| 0 <= u < n ==> !((#[trigger] labels@[u]) is Unset),
            lone_sound(points@, labels@, eps, mp),
            member_sound(points@, labels@, eps, mp),
            coverage(points@, labels@, Seq::empty(), eps, mp, 0),
            eps == eps_micro as int,
            mp == min_pts as int,
            forall|u: int|
                0 <= u < t ==> (#[trigger] result@[u]) == spec_assignment_of(labels@[u]),
    {
        match labels[t] {
            Label::Member(c) => {
                result.push(ClusterAssignment::Core(c));
            },
            Label::Unset => {
                result.push(ClusterAssignment::Noise);
            },
            Label::Lone => {
                result.push(ClusterAssignment::Noise);
            },
        }
    }
    proof {
        assert forall|t: int|
            0 <= t < points@.len() && spec_is_core(points@, t, eps, mp) implies (
        #[trigger] result@[t]) is Core by {
            assert(!(labels@[t] is Unset));
            assert(!(labels@[t] is Lone));
        }
        assert forall|t: int| 0 <= t < points@.len() implies ((#[trigger] result@[t]) is Noise
            <==> !spec_is_core(points@, t, eps, mp) && !spec_has_core_neighbor(
            points@,
            t,
            eps,
            mp,
        )) by {
            if result@[t] is Noise {
                assert(labels@[t] is Lone);
                assert(!spec_is_core(points@, t, eps, mp));
                if spec_has_core_neighbor(points@, t, eps, mp) {
                    let j = choose|j: int|
                        0 <= j < points@.len() && j != t && spec_is_core(points@, j, eps, mp)
                            && spec_close(points@[t].pos, points@[j].pos, eps);
                    assert(!(labels@[j] is Unset));
                    assert(!(labels@[j] is Lone));
                    assert(labels@[j] is Member);
                    assert(labels@[t] is Member || (Seq::<usize>::empty().contains(t as usize)
                        && labels@[j] == Label::Member(0)));
                    assert(false);
                }
            } else {
                assert(labels@[t] is Member);
                if !spec_is_core(points@, t, eps, mp) {
                    assert(spec_has_core_neighbor(points@, t, eps, mp)) by {
                        let j = choose|j: int|
                            #![auto]
                            0 <= j < labels@.len() && j != t && spec_is_core(points@, j, eps, mp)
                                && spec_close(points@[t].pos, points@[j].pos, eps) && labels@[j]
                                == labels@[t];
                        assert(0 <= j < points@.len() && j != t && spec_is_core(points@, j, eps, mp)
                            && spec_close(points@[t].pos, points@[j].pos, eps));
                    }
                }
            }
        }
        assert forall|t: int|
            0 <= t < points@.len() && (#[trigger] result@[t]) is Core && !spec_is_core(
                points@,
                t,
                eps,
                mp,
            ) implies exists|j: int|
            #![auto]
            0 <= j < points@.len() && j != t && spec_is_core(points@, j, eps, mp) && spec_close(
                points@[t].pos,
                points@[j].pos,
                eps,
            ) && result@[j] == result@[t] by {
            assert(labels@[t] is Member);
            let j = choose|j: int|
                #![auto]
                0 <= j < labels@.len() && j != t && spec_is_core(points@, j, eps, mp) && spec_close(
                    points@[t].pos,
                    points@[j].pos,
                    eps,
                ) && labels@[j] == labels@[t];
            assert(result@[j] == spec_assignment_of(labels@[j]));
            assert(result@[j] == result@[t]);
        }
        assert forall|t: int, k: int|
            0 <= t < points@.len() && 0 <= k < points@.len() && t != k && spec_is_core(
                points@,
                t,
                eps,
                mp,
            ) && spec_is_core(points@, k, eps, mp) && spec_close(
                points@[k].pos,
                points@[t].pos,
                eps,
            ) implies #[trigger] result@[t] == #[trigger] result@[k] by {
            assert(!(labels@[t] is Unset) && !(labels@[t] is Lone));
            assert(labels@[t] is Member);
            assert(labels@[k] is Member && labels@[k] == labels@[t]);
            assert(result@[t] == spec_assignment_of(labels@[t]));
            assert(result@[k] == spec_assignment_of(labels@[k]));
        }
    }
    result
}

/// Grows one cluster from its seed queue: pops a seed, joins it to the
/// cluster, and, when the seed itself is a core point met for the first
/// time, queues its whole neighborhood in turn. On return the queue is
/// drained, so every neighbor of every clustered core point is clustered.
fn expand_cluster(
    points: &Vec<ColoredPoint>,
    labels: &mut Vec<Label>,
    queue: &mut Vec<usize>,
    cid: usize,
    eps_micro: i64,
    min_pts: usize,
)
    requires
        0 <= eps_micro,
        forall|t: int| 0 <= t < points@.len() ==> (#[trigger] points@[t]).wf(),
        old(labels)@.len() == points@.len(),
        lone_sound(points@, old(labels)@, eps_micro as int, min_pts as int),
        member_sound(points@, old(labels)@, eps_micro as int, min_pts as int),
        queue_sound(points@, old(labels)@, old(queue)@, eps_micro as int, min_pts as int, cid),
        coverage(points@, old(labels)@, old(queue)@, eps_micro as int, min_pts as int, cid),
    ensures
        final(labels)@.len() == points@.len(),
        lone_sound(points@, final(labels)@, eps_micro as int, min_pts as int),
        member_sound(points@, final(labels)@, eps_micro as int, min_pts as int),
        coverage(points@, final(labels)@, Seq::empty(), eps_micro as int, min_pts as int, cid),
        forall|t: int|
            0 <= t < points@.len() && !((#[trigger] old(labels)@[t]) is Unset)
                ==> !(final(labels)@[t] is Unset),
{
    let ghost eps = eps_micro as int;
    let ghost mp = min_pts as int;
    let n = points.len();
    while queue.len() > 0
        invariant
            n == points@.len(),
            0 <= eps_micro,
            eps == eps_micro as int,
            mp == min_pts as int,
            forall|t: int| 0 <= t < points@.len() ==> (#[trigger] points@[t]).wf(),
            labels@.len() == n,
            lone_sound(points@, labels@, eps, mp),
            member_sound(points@, labels@, eps, mp),
            queue_sound(points@, labels@, queue@, eps, mp, cid),
            coverage(points@, labels@, queue@, eps, mp, cid),
            forall|t: int|
                0 <= t < n && !((#[trigger] old(labels)@[t]) is Unset) ==> !(labels@[t] is Unset),
        decreases spec_count_unset(labels@, n as int), queue@.len(),
    {
        proof {
            lemma_count_unset_bounds(labels@, n as int);
        }
        let ghost qbefore = queue@;
        let ghost lbefore = labels@;
        let qlen = queue.len();
        let q = queue[qlen - 1];
        let _popped = queue.pop();
        assert(queue@ == qbefore.subrange(0, qbefore.len() - 1));
        assert((q as int) < n);
        let here = labels[q];
        match here {
            Label::Member(_) => {
                proof {
                    assert(queue_sound(points@, labels@, queue@, eps, mp, cid)) by {
                        assert(forall|t: int|
                            0 <= t < queue@.len() ==> #[trigger] queue@[t] == qbefore[t]);
                    }
                    assert(q == qbefore[qbefore.len() - 1]);
                    if spec_is_core(points@, q as int, eps, mp) {
                        // A core seed popped while already clustered carries the
                        // cluster being grown: its own neighborhood pins the label.
                        let j = choose|j: int|
                            #![auto]
                            0 <= j < labels@.len() && j != qbefore[qbefore.len() - 1]
                                && spec_is_core(points@, j, eps, mp) && spec_close(
                                points@[qbefore[qbefore.len() - 1] as int].pos,
                                points@[j].pos,
                                eps,
                            ) && labels@[j] == Label::Member(cid);
                        lemma_close_symmetric(points@[q as int].pos, points@[j].pos, eps);
                        assert(spec_close(points@[j].pos, points@[q as int].pos, eps));
                        assert(labels@[q as int] == Label::Member(cid));
                    }
                    assert(coverage(points@, labels@, queue@, eps, mp, cid)) by {
                        assert forall|t: int, k: int|
                            0 <= t < labels@.len() && 0 <= k < labels@.len() && (
                            #[trigger] labels@[t]) is Member && spec_is_core(points@, t, eps, mp)
                                && k != t && spec_close(points@[k].pos, points@[t].pos, eps) implies
                        ((#[trigger] labels@[k]) is Member && (spec_is_core(points@, k, eps, mp)
                            ==> labels@[k] == labels@[t])) || (queue@.contains(k as usize)
                            && labels@[t] == Label::Member(cid)) by {
                            if !(labels@[k] is Member && (spec_is_core(points@, k, eps, mp)
                                ==> labels@[k] == labels@[t])) {
                                assert(qbefore.contains(k as usize) && labels@[t]
                                    == Label::Member(cid));
                                let w = choose|w: int|
                                    0 <= w < qbefore.len() && qbefore[w] == k as usize;
                                if w < qbefore.len() - 1 {
                                    assert(queue@[w] == k as usize);
                                } else {
                                    assert(k as usize == q);
                                    assert(labels@[k] is Member);
                                    if spec_is_core(points@, k, eps, mp) {
                                        assert(labels@[k] == Label::Member(cid));
                                    }
                                    assert(false);
                                }
                            }
                        }
                    }
                }
            },
            Label::Lone => {
                labels.set(q, Label::Member(cid));
                proof {
                    lemma_count_unset_update(lbefore, q as int, Label::Member(cid), n as int);
                    assert(!spec_is_core(points@, q as int, eps, mp));
                    let wj = choose|j: int|
                        #![auto]
                        0 <= j < lbefore.len() && j != qbefore[qbefore.len() - 1] && spec_is_core(
                            points@,
                            j,
                            eps,
                            mp,
                        ) && spec_close(
                            points@[qbefore[qbefore.len() - 1] as int].pos,
                            points@[j].pos,
                            eps,
                        ) && lbefore[j] == Label::Member(cid);
                    assert(labels@[wj] == Label::Member(cid));
                    member_sound_after_update(points@, lbefore, labels@, q as int, eps, mp);
                    assert(queue_sound(points@, labels@, queue@, eps, mp, cid)) by {
                        assert forall|t: int| 0 <= t < queue@.len() implies (#[trigger] queue@[t])
                            < labels@.len() && exists|j: int|
                            #![auto]
                            0 <= j < labels@.len() && j != queue@[t] && spec_is_core(
                                points@,
                                j,
                                eps,
                                mp,
                            ) && spec_close(points@[queue@[t] as int].pos, points@[j].pos, eps)
                                && labels@[j] == Label::Member(cid) by {
                            assert(queue@[t] == qbefore[t]);
                            let j = choose|j: int|
                                #![auto]
                                0 <= j < lbefore.len() && j != qbefore[t] && spec_is_core(
                                    points@,
                                    j,
                                    eps,
                                    mp,
                                ) && spec_close(points@[qbefore[t] as int].pos, points@[j].pos, eps)
                                    && lbefore[j] == Label::Member(cid);
                            assert(j != q);
                            assert(labels@[j] == Label::Member(cid));
                        }
                    }
                    assert(coverage(points@, labels@, queue@, eps, mp, cid)) by {
                        assert forall|t: int, k: int|
                            0 <= t < labels@.len() && 0 <= k < labels@.len() && (
                            #[trigger] labels@[t]) is Member && spec_is_core(points@, t, eps, mp)
                                && k != t && spec_close(points@[k].pos, points@[t].pos, eps) implies
                        ((#[trigger] labels@[k]) is Member && (spec_is_core(points@, k, eps, mp)
                            ==> labels@[k] == labels@[t])) || (queue@.contains(k as usize)
                            && labels@[t] == Label::Member(cid)) by {
                            assert(t != q as int);
                            assert(lbefore[t] == labels@[t]);
                            if !(lbefore[k] is Member && (spec_is_core(points@, k, eps, mp)
                                ==> lbefore[k] == lbefore[t])) {
                                assert(qbefore.contains(k as usize) && lbefore[t]
                                    == Label::Member(cid));
                                let w = choose|w: int|
                                    0 <= w < qbefore.len() && qbefore[w] == k as usize;
                                if w < qbefore.len() - 1 {
                                    assert(queue@[w] == k as usize);
                                } else {
                                    assert(k == q as int);
                                    assert(labels@[k] == Label::Member(cid));
                                    assert(!spec_is_core(points@, k, eps, mp));
                                }
                            } else {
                                assert(k != q as int);
                                assert(labels@[k] == lbefore[k]);
                            }
                        }
                    }
                }
            },
            Label::Unset => {
                labels.set(q, Label::Member(cid));
                proof {
                    lemma_count_unset_update(lbefore, q as int, Label::Member(cid), n as int);
                    let wj = choose|j: int|
                        #![auto]
                        0 <= j < lbefore.len() && j != qbefore[qbefore.len() - 1] && spec_is_core(
                            points@,
                            j,
                            eps,
                            mp,
                        ) && spec_close(
                            points@[qbefore[qbefore.len() - 1] as int].pos,
                            points@[j].pos,
                            eps,
                        ) && lbefore[j] == Label::Member(cid);
                    assert(labels@[wj] == Label::Member(cid));
                    member_sound_after_update(points@, lbefore, labels@, q as int, eps, mp);
                }
                let jn = neighbors(points, q, eps_micro);
                let ghost jnv = jn@;
                let is_core_seed = jn.len() >= min_pts;
                proof {
                    if is_core_seed {
                        assert(spec_is_core(points@, q as int, eps, mp));
                    } else {
                        assert(!spec_is_core(points@, q as int, eps, mp));
                    }
                }
                let ghost qmid = queue@;
                if is_core_seed {
                    let mut seeds = jn;
                    queue.append(&mut seeds);
                    assert(queue@ == qmid + jnv);
                }
                proof {
                    assert(queue_sound(points@, labels@, queue@, eps, mp, cid)) by {
                        assert forall|t: int| 0 <= t < queue@.len() implies (#[trigger] queue@[t])
                            < labels@.len() && exists|j: int|
                            #![auto]
                            0 <= j < labels@.len() && j != queue@[t] && spec_is_core(
                                points@,
                                j,
                                eps,
                                mp,
                            ) && spec_close(points@[queue@[t] as int].pos, points@[j].pos, eps)
                                && labels@[j] == Label::Member(cid) by {
                            if t < qmid.len() {
                                assert(queue@[t] == qbefore[t]);
                                let j = choose|j: int|
                                    #![auto]
                                    0 <= j < lbefore.len() && j != qbefore[t] && spec_is_core(
                                        points@,
                                        j,
                                        eps,
                                        mp,
                                    ) && spec_close(
                                        points@[qbefore[t] as int].pos,
                                        points@[j].pos,
                                        eps,
                                    ) && lbefore[j] == Label::Member(cid);
                                assert(j != q);
                                assert(labels@[j] == Label::Member(cid));
                            } else {
                                assert(queue@[t] == jnv[t - qmid.len()]);
                                assert(queue@[t] != q && spec_close(
                                    points@[queue@[t] as int].pos,
                                    points@[q as int].pos,
                                    eps,
                                ));
                                assert(spec_is_core(points@, q as int, eps, mp));
                                assert(labels@[q as int] == Label::Member(cid));
                            }
                        }
                    }
                    assert(coverage(points@, labels@, queue@, eps, mp, cid)) by {
                        assert forall|t: int, k: int|
                            0 <= t < labels@.len() && 0 <= k < labels@.len() && (
                            #[trigger] labels@[t]) is Member && spec_is_core(points@, t, eps, mp)
                                && k != t && spec_close(points@[k].pos, points@[t].pos, eps) implies
                        ((#[trigger] labels@[k]) is Member && (spec_is_core(points@, k, eps, mp)
                            ==> labels@[k] == labels@[t])) || (queue@.contains(k as usize)
                            && labels@[t] == Label::Member(cid)) by {
                            if t == q as int {
                                assert(labels@[t] == Label::Member(cid));
                                assert(jnv.contains(k as usize));
                                let w = choose|w: int|
                                    0 <= w < jnv.len() && jnv[w] == k as usize;
                                assert(queue@[qmid.len() + w] == k as usize);
                                assert(queue@.contains(k as usize));
                            } else {
                                assert(lbefore[t] == labels@[t]);
                                if !(lbefore[k] is Member && (spec_is_core(points@, k, eps, mp)
                                    ==> lbefore[k] == lbefore[t])) {
                                    assert(qbefore.contains(k as usize) && lbefore[t]
                                        == Label::Member(cid));
                                    let w = choose|w: int|
                                        0 <= w < qbefore.len() && qbefore[w] == k as usize;
                                    if w < qbefore.len() - 1 {
                                        assert(qmid[w] == k as usize);
                                        assert(queue@[w] == k as usize);
                                    } else {
                                        assert(k == q as int);
                                        assert(labels@[k] == Label::Member(cid));
                                    }
                                } else {
                                    assert(k != q as int);
                                    assert(labels@[k] == lbefore[k]);
                                }
                            }
                        }
                    }
                }
            },
        }
        proof {
            lemma_count_unset_bounds(labels@, n as int);
        }
    }
    proof {
        assert(queue@ =~= Seq::<usize>::empty());
        assert(coverage(points@, labels@, Seq::empty(), eps, mp, cid));
    }
}

/// Cluster members keep their justification when an unclustered point takes
/// a cluster label: the relabeled point either is a core point or inherits
/// a same-labeled core witness.
proof fn member_sound_after_update(
    pts: Seq<ColoredPoint>,
    before: Seq<Label>,
    after: Seq<Label>,
    i: int,
    eps: int,
    mp: int,
)
    requires
        member_sound(pts, before, eps, mp),
        0 <= i < before.len(),
        after.len() == before.len(),
        !(before[i] is Member),
        after[i] is Member ==> spec_is_core(pts, i, eps, mp) || exists|j: int|
            #![auto]
            0 <= j < after.len() && j != i && spec_is_core(pts, j, eps, mp) && spec_close(
                pts[i].pos,
                pts[j].pos,
                eps,
            ) && after[j] == after[i],
        forall|t: int| 0 <= t < before.len() && t != i ==> #[trigger] after[t] == before[t],
    ensures
        member_sound(pts, after, eps, mp),
{
    assert forall|t: int|
        0 <= t < after.len() && (#[trigger] after[t]) is Member implies spec_is_core(
        pts,
        t,
        eps,
        mp,
    ) || exists|j: int|
        #![auto]
        0 <= j < after.len() && j != t && spec_is_core(pts, j, eps, mp) && spec_close(
            pts[t].pos,
            pts[j].pos,
            eps,
        ) && after[j] == after[t] by {
        if t != i && !spec_is_core(pts, t, eps, mp) {
            assert(before[t] == after[t]);
            let j = choose|j: int|
                #![auto]
                0 <= j < before.len() && j != t && spec_is_core(pts, j, eps, mp) && spec_close(
                    pts[t].pos,
                    pts[j].pos,
                    eps,
                ) && before[j] == before[t];
            assert(j != i);
            assert(after[j] == before[j]);
        }
    }
}

} // verus!
