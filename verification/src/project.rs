//! Geometry projector: turns (elevation, azimuth, gate range) triples into
//! colored Cartesian render points.
//!
//! A gate produces a point if and only if its scaled reading is not the
//! below-threshold sentinel and exceeds the caller's inclusion threshold.
//! The raw azimuth is rotated a quarter turn backwards and wrapped into one
//! turn, then floor-snapped to whole degrees with a correction that advances
//! the snapped angle by one spacing unit whenever the angle plus the spacing
//! crosses a degree boundary — the sampling convention of the source
//! format's beam indexing, preserved exactly. Range accumulates one gate
//! interval per gate, starting at one interval. Positions are
//! `x = cos(az)·range`, `y = sin(az)·range`, `z = sin(elev)·range`, scaled
//! by the fixed render-distance ratio and presented in (x, z, y) axis order
//! so the horizontal plane matches the rendering convention.
//!
//! Everything is fixed-point integer arithmetic, so projection of identical
//! inputs is bit-identical.

use crate::color::{classify_color, spec_classify, Rgb};
use crate::error::Error;
use crate::fixed::{lemma_trunc_div_bound, trunc_div, trunc_div_i64};
use crate::gate::{
    scale_gate_buffer, spec_scale_gate, spec_scale_gates, ScaledGate, BELOW_THRESHOLD_MILLI,
    MOMENT_FOLDED_MILLI,
};
use crate::scan::{Radial, Sweep, VolumeScan};
use crate::trig::{
    cos_micro, sin_micro, spec_cos_micro, spec_sin_micro, FULL_TURN_MILLI, QUARTER_TURN_MILLI,
    TRIG_ONE_MICRO,
};
use vstd::prelude::*;

verus! {

/// Micro render units gained per meter: the fixed render-distance ratio is
/// one render unit per 100 km, and a micro render unit is 0.1 m.
pub const RENDER_MICRO_PER_METER: i64 = 10;

/// Every projected coordinate fits in this bound (micro render units): the
/// farthest gate sits at most 65535 intervals of at most 65535 m out.
pub const POS_LIMIT_MICRO: i64 = 50_000_000_000;

/// A position in the render frame, micro render units per axis.
#[derive(Clone, Copy, Debug, PartialEq, Eq, Structural)]
pub struct Vec3 {
    pub x: i64,
    pub y: i64,
    pub z: i64,
}

impl Vec3 {
    /// Within the bound that projection guarantees (and clustering needs).
    pub open spec fn in_bounds(self) -> bool {
        &&& -POS_LIMIT_MICRO <= self.x <= POS_LIMIT_MICRO
        &&& -POS_LIMIT_MICRO <= self.y <= POS_LIMIT_MICRO
        &&& -POS_LIMIT_MICRO <= self.z <= POS_LIMIT_MICRO
    }
}

/// One derived point: a render-frame position, the scaled reflectivity that
/// produced it, and one color triple per color mode. A point is created
/// fresh per pipeline run and only ever recolored afterwards.
#[derive(Clone, Copy, Debug, PartialEq, Eq, Structural)]
pub struct ColoredPoint {
    /// Position in the render frame, (x, z, y) axis order.
    pub pos: Vec3,
    /// The scaled reflectivity reading, milli-units.
    pub strength_milli: i64,
    /// Color under the raw reflectivity table.
    pub raw: Rgb,
    /// Color under the density mode (initially the raw classification).
    pub density: Rgb,
    /// Color under the hybrid mode (initially the raw classification).
    pub hybrid: Rgb,
}

impl ColoredPoint {
    /// A point the projector can have produced.
    pub open spec fn wf(self) -> bool {
        self.pos.in_bounds()
    }
}

/// The raw azimuth rotated a quarter turn backwards and wrapped into one
/// turn.
pub open spec fn spec_rotated_azimuth(azimuth_milli: int) -> int {
    if azimuth_milli - QUARTER_TURN_MILLI < 0 {
        azimuth_milli - QUARTER_TURN_MILLI + FULL_TURN_MILLI
    } else {
        azimuth_milli - QUARTER_TURN_MILLI
    }
}

/// An angle floored to a whole degree (in millidegrees, non-negative).
pub open spec fn spec_floor_degree(a: int) -> int {
    (a / 1000) * 1000
}

/// The snapped azimuth of a radial: the rotated angle floored to a whole
/// degree, advanced by one spacing unit when the angle plus the spacing
/// crosses a degree boundary.
pub open spec fn spec_snapped_azimuth(azimuth_milli: int, spacing_milli: int) -> int {
    let rot = spec_rotated_azimuth(azimuth_milli);
    let fl = spec_floor_degree(rot);
    if spec_floor_degree(rot + spacing_milli) > fl {
        fl + spacing_milli
    } else {
        fl
    }
}

/// Whether a scaled gate produces a point: not the below-threshold sentinel,
/// and strictly above the inclusion threshold (a folded reading therefore
/// projects whenever 998.0 units clears the threshold).
pub open spec fn spec_included(g: ScaledGate, threshold_milli: int) -> bool {
    g != ScaledGate::BelowThreshold && g.strength_milli() > threshold_milli
}

/// The projected position of one gate, micro render units, (x, z, y) order.
pub open spec fn spec_position(
    elevation_milli: int,
    azimuth_milli: int,
    dist_micro: int,
) -> Vec3 {
    let px = trunc_div(spec_cos_micro(azimuth_milli) * dist_micro, TRIG_ONE_MICRO as int);
    let py = trunc_div(spec_sin_micro(azimuth_milli) * dist_micro, TRIG_ONE_MICRO as int);
    let pz = trunc_div(spec_sin_micro(elevation_milli) * dist_micro, TRIG_ONE_MICRO as int);
    Vec3 { x: px as i64, y: pz as i64, z: py as i64 }
}

/// The point one included gate contributes: its projected position, its
/// reading, and its raw classification in every color mode.
pub open spec fn spec_gate_point(
    elevation_milli: int,
    azimuth_milli: int,
    dist_micro: int,
    g: ScaledGate,
) -> ColoredPoint {
    let c = spec_classify(g.strength_milli());
    ColoredPoint {
        pos: spec_position(elevation_milli, azimuth_milli, dist_micro),
        strength_milli: g.strength_milli() as i64,
        raw: c,
        density: c,
        hybrid: c,
    }
}

/// The distance of a radial's gate from the radar, micro render units:
/// ranges accumulate one interval per gate starting at one interval.
pub open spec fn spec_gate_distance(r: Radial, i: int) -> int {
    (i + 1) * (r.gate_interval_m as int) * (RENDER_MICRO_PER_METER as int)
}

/// The points of one radial's gates from gate `i` on, in gate order.
pub open spec fn spec_radial_points(
    elevation_milli: int,
    r: Radial,
    threshold_milli: int,
    i: int,
) -> Seq<ColoredPoint>
    decreases r.raw_gates@.len() - i,
{
    if i < 0 || i >= r.raw_gates@.len() {
        Seq::empty()
    } else {
        let g = spec_scale_gate(r.raw_gates@[i], r.scale_milli, r.offset_milli);
        let az = spec_snapped_azimuth(r.azimuth_milli as int, r.azimuth_spacing_milli as int);
        let rest = spec_radial_points(elevation_milli, r, threshold_milli, i + 1);
        if spec_included(g, threshold_milli) {
            seq![spec_gate_point(elevation_milli, az, spec_gate_distance(r, i), g)] + rest
        } else {
            rest
        }
    }
}

/// The points of one sweep's radials from radial `j` on, in capture order.
pub open spec fn spec_sweep_points(s: Sweep, threshold_milli: int, j: int) -> Seq<ColoredPoint>
    decreases s.radials@.len() - j,
{
    if j < 0 || j >= s.radials@.len() {
        Seq::empty()
    } else {
        spec_radial_points(s.elevation_milli as int, s.radials@[j], threshold_milli, 0)
            + spec_sweep_points(s, threshold_milli, j + 1)
    }
}

/// The points of a whole scan from sweep `k` on, in traversal order.
pub open spec fn spec_scan_points(scan: VolumeScan, threshold_milli: int, k: int) -> Seq<
    ColoredPoint,
>
    decreases scan.sweeps@.len() - k,
{
    if k < 0 || k >= scan.sweeps@.len() {
        Seq::empty()
    } else {
        spec_sweep_points(scan.sweeps@[k], threshold_milli, 0)
            + spec_scan_points(scan, threshold_milli, k + 1)
    }
}

/// An angle floored to a whole degree.
fn floor_to_degree(a: i64) -> (f: i64)
    requires
        0 <= a <= 2 * FULL_TURN_MILLI,
    ensures
        f == spec_floor_degree(a as int),
        0 <= f <= a,
{
    proof {
        vstd::arithmetic::div_mod::lemma_fundamental_div_mod(a as int, 1000);
    }
    let q: u64 = (a as u64) / 1000;
    (q as i64) * 1000
}

/// Rotates and snaps a radial's azimuth to the beam-indexing convention.
fn snap_azimuth(azimuth_milli: i64, spacing_milli: i64) -> (s: i64)
    requires
        0 <= azimuth_milli <= FULL_TURN_MILLI,
        0 < spacing_milli <= FULL_TURN_MILLI,
    ensures
        s == spec_snapped_azimuth(azimuth_milli as int, spacing_milli as int),
        0 <= s < 2 * FULL_TURN_MILLI,
{
    let mut rot: i64 = azimuth_milli - QUARTER_TURN_MILLI;
    if rot < 0 {
        rot = rot + FULL_TURN_MILLI;
    }
    let fl = floor_to_degree(rot);
    let advanced = floor_to_degree(rot + spacing_milli);
    if advanced > fl {
        fl + spacing_milli
    } else {
        fl
    }
}

/// The numeric reading of a scaled gate, milli-units.
fn gate_strength_milli(g: ScaledGate) -> (v: i64)
    ensures
        v == g.strength_milli(),
{
    match g {
        ScaledGate::BelowThreshold => BELOW_THRESHOLD_MILLI,
        ScaledGate::MomentFolded => MOMENT_FOLDED_MILLI,
        ScaledGate::Value(v) => v,
    }
}

/// Projects one gate's polar coordinates into the render frame.
fn project_position(elevation_milli: i64, azimuth_milli: i64, dist_micro: i64) -> (p: Vec3)
    requires
        -QUARTER_TURN_MILLI <= elevation_milli <= QUARTER_TURN_MILLI,
        0 <= azimuth_milli < 2 * FULL_TURN_MILLI,
        0 <= dist_micro <= POS_LIMIT_MICRO,
    ensures
        p == spec_position(elevation_milli as int, azimuth_milli as int, dist_micro as int),
        p.in_bounds(),
{
    let c = cos_micro(azimuth_milli);
    let s = sin_micro(azimuth_milli);
    let se = sin_micro(elevation_milli);
    proof {
        assert(-(POS_LIMIT_MICRO * TRIG_ONE_MICRO) <= c * dist_micro <= POS_LIMIT_MICRO
            * TRIG_ONE_MICRO) by (nonlinear_arith)
            requires
                -TRIG_ONE_MICRO <= c <= TRIG_ONE_MICRO,
                0 <= dist_micro <= POS_LIMIT_MICRO,
        ;
        assert(-(POS_LIMIT_MICRO * TRIG_ONE_MICRO) <= s * dist_micro <= POS_LIMIT_MICRO
            * TRIG_ONE_MICRO) by (nonlinear_arith)
            requires
                -TRIG_ONE_MICRO <= s <= TRIG_ONE_MICRO,
                0 <= dist_micro <= POS_LIMIT_MICRO,
        ;
        assert(-(POS_LIMIT_MICRO * TRIG_ONE_MICRO) <= se * dist_micro <= POS_LIMIT_MICRO
            * TRIG_ONE_MICRO) by (nonlinear_arith)
            requires
                -TRIG_ONE_MICRO <= se <= TRIG_ONE_MICRO,
                0 <= dist_micro <= POS_LIMIT_MICRO,
        ;
        lemma_trunc_div_bound(c * dist_micro, TRIG_ONE_MICRO as int, POS_LIMIT_MICRO as int);
        lemma_trunc_div_bound(s * dist_micro, TRIG_ONE_MICRO as int, POS_LIMIT_MICRO as int);
        lemma_trunc_div_bound(se * dist_micro, TRIG_ONE_MICRO as int, POS_LIMIT_MICRO as int);
    }
    let px = trunc_div_i64(c * dist_micro, TRIG_ONE_MICRO);
    let py = trunc_div_i64(s * dist_micro, TRIG_ONE_MICRO);
    let pz = trunc_div_i64(se * dist_micro, TRIG_ONE_MICRO);
    Vec3 { x: px, y: pz, z: py }
}

/// Projects every included gate of one radial, appending in gate order.
fn project_radial(
    elevation_milli: i64,
    radial: &Radial,
    threshold_milli: i64,
    points: &mut Vec<ColoredPoint>,
)
    requires
        radial.wf(),
        radial.word_size == 8,
        -QUARTER_TURN_MILLI <= elevation_milli <= QUARTER_TURN_MILLI,
    ensures
        final(points)@ == old(points)@ + spec_radial_points(
            elevation_milli as int,
            *radial,
            threshold_milli as int,
            0,
        ),
        forall|i: int|
            old(points)@.len() <= i < final(points)@.len()
                ==> (#[trigger] final(points)@[i]).wf(),
{
    let scaled = scale_gate_buffer(&radial.raw_gates, radial.scale_milli, radial.offset_milli);
    let az = snap_azimuth(radial.azimuth_milli, radial.azimuth_spacing_milli);
    let interval = radial.gate_interval_m;
    let mut dist_m: u64 = interval as u64;
    proof {
        assert((0 + 1) * (interval as int) == interval as int) by (nonlinear_arith);
    }
    let n = scaled.len();
    for i in 0..n
        invariant
            radial.wf(),
            n == radial.raw_gates@.len(),
            scaled@ == spec_scale_gates(radial.raw_gates@, radial.scale_milli, radial.offset_milli),
            az == spec_snapped_azimuth(
                radial.azimuth_milli as int,
                radial.azimuth_spacing_milli as int,
            ),
            0 <= az < 2 * FULL_TURN_MILLI,
            -QUARTER_TURN_MILLI <= elevation_milli <= QUARTER_TURN_MILLI,
            interval == radial.gate_interval_m,
            dist_m == (i + 1) * (interval as int),
            points@ + spec_radial_points(
                elevation_milli as int,
                *radial,
                threshold_milli as int,
                i as int,
            ) == old(points)@ + spec_radial_points(
                elevation_milli as int,
                *radial,
                threshold_milli as int,
                0,
            ),
            old(points)@.len() <= points@.len(),
            forall|k: int|
                old(points)@.len() <= k < points@.len() ==> (#[trigger] points@[k]).wf(),
    {
        proof {
            assert(dist_m <= 0xFFFF * 0xFFFF) by (nonlinear_arith)
                requires
                    dist_m == (i + 1) * (interval as int),
                    0 <= i < n,
                    n <= 0xFFFF,
                    0 <= interval <= 0xFFFF,
            ;
        }
        let dist_micro: i64 = (dist_m * (RENDER_MICRO_PER_METER as u64)) as i64;
        let g = scaled[i];
        let strength = gate_strength_milli(g);
        let ghost before = points@;
        if !matches!(g, ScaledGate::BelowThreshold) && strength > threshold_milli {
            let pos = project_position(elevation_milli, az, dist_micro);
            let color = classify_color(strength);
            let point = ColoredPoint {
                pos,
                strength_milli: strength,
                raw: color,
                density: color,
                hybrid: color,
            };
            points.push(point);
            proof {
                assert(g == spec_scale_gate(
                    radial.raw_gates@[i as int],
                    radial.scale_milli,
                    radial.offset_milli,
                ));
                assert(spec_included(g, threshold_milli as int));
                assert(dist_micro == spec_gate_distance(*radial, i as int)) by (nonlinear_arith)
                    requires
                        dist_m == (i + 1) * (radial.gate_interval_m as int),
                        dist_micro == dist_m * 10,
                ;
                assert(point == spec_gate_point(
                    elevation_milli as int,
                    az as int,
                    spec_gate_distance(*radial, i as int),
                    g,
                ));
                assert(spec_radial_points(
                    elevation_milli as int,
                    *radial,
                    threshold_milli as int,
                    i as int,
                ) == seq![point] + spec_radial_points(
                    elevation_milli as int,
                    *radial,
                    threshold_milli as int,
                    i + 1,
                ));
                assert(points@ + spec_radial_points(
                    elevation_milli as int,
                    *radial,
                    threshold_milli as int,
                    i + 1,
                ) =~= before + spec_radial_points(
                    elevation_milli as int,
                    *radial,
                    threshold_milli as int,
                    i as int,
                ));
            }
        } else {
            proof {
                assert(g == spec_scale_gate(
                    radial.raw_gates@[i as int],
                    radial.scale_milli,
                    radial.offset_milli,
                ));
                assert(!spec_included(g, threshold_milli as int));
                assert(spec_radial_points(
                    elevation_milli as int,
                    *radial,
                    threshold_milli as int,
                    i as int,
                ) == spec_radial_points(
                    elevation_milli as int,
                    *radial,
                    threshold_milli as int,
                    i + 1,
                ));
            }
        }
        dist_m = dist_m + interval as u64;
        proof {
            assert((i + 2) * (interval as int) == (i + 1) * (interval as int) + interval as int)
                by (nonlinear_arith);
        }
    }
    proof {
        assert(spec_radial_points(
            elevation_milli as int,
            *radial,
            threshold_milli as int,
            n as int,
        ) =~= Seq::<ColoredPoint>::empty());
        assert(final(points)@ =~= old(points)@ + spec_radial_points(
            elevation_milli as int,
            *radial,
            threshold_milli as int,
            0,
        ));
    }
}

/// Projects every radial of one sweep, appending in capture order.
fn project_sweep(sweep: &Sweep, threshold_milli: i64, points: &mut Vec<ColoredPoint>)
    requires
        sweep.wf(),
        forall|j: int|
            0 <= j < sweep.radials@.len() ==> (#[trigger] sweep.radials@[j]).word_size == 8,
    ensures
        final(points)@ == old(points)@ + spec_sweep_points(*sweep, threshold_milli as int, 0),
        forall|i: int|
            old(points)@.len() <= i < final(points)@.len()
                ==> (#[trigger] final(points)@[i]).wf(),
{
    let m = sweep.radials.len();
    for j in 0..m
        invariant
            sweep.wf(),
            m == sweep.radials@.len(),
            forall|t: int| 0 <= t < m ==> (#[trigger] sweep.radials@[t]).word_size == 8,
            points@ + spec_sweep_points(*sweep, threshold_milli as int, j as int) == old(points)@
                + spec_sweep_points(*sweep, threshold_milli as int, 0),
            old(points)@.len() <= points@.len(),
            forall|k: int|
                old(points)@.len() <= k < points@.len() ==> (#[trigger] points@[k]).wf(),
    {
        let ghost before = points@;
        project_radial(sweep.elevation_milli, &sweep.radials[j], threshold_milli, points);
        proof {
            assert(spec_sweep_points(*sweep, threshold_milli as int, j as int)
                == spec_radial_points(
                sweep.elevation_milli as int,
                sweep.radials@[j as int],
                threshold_milli as int,
                0,
            ) + spec_sweep_points(*sweep, threshold_milli as int, j + 1));
            assert(points@ + spec_sweep_points(*sweep, threshold_milli as int, j + 1) =~= before
                + spec_sweep_points(*sweep, threshold_milli as int, j as int));
        }
    }
    proof {
        assert(spec_sweep_points(*sweep, threshold_milli as int, m as int) =~= Seq::<
            ColoredPoint,
        >::empty());
        assert(final(points)@ =~= old(points)@ + spec_sweep_points(
            *sweep,
            threshold_milli as int,
            0,
        ));
    }
}

/// Whether every radial of the scan uses the supported 8-bit word size.
fn word_sizes_ok(scan: &VolumeScan) -> (b: bool)
    ensures
        b == scan.word_sizes_supported(),
{
    let n = scan.sweeps.len();
    for k in 0..n
        invariant
            n == scan.sweeps@.len(),
            forall|i: int, j: int|
                0 <= i < k && 0 <= j < scan.sweeps@[i].radials@.len() ==> (
                #[trigger] scan.sweeps@[i].radials@[j]).word_size == 8,
    {
        let sweep = &scan.sweeps[k];
        let m = sweep.radials.len();
        for j in 0..m
            invariant
                n == scan.sweeps@.len(),
                0 <= k < n,
                m == scan.sweeps@[k as int].radials@.len(),
                sweep == scan.sweeps@[k as int],
                forall|i: int, t: int|
                    0 <= i < k && 0 <= t < scan.sweeps@[i].radials@.len() ==> (
                    #[trigger] scan.sweeps@[i].radials@[t]).word_size == 8,
                forall|t: int|
                    0 <= t < j ==> (#[trigger] scan.sweeps@[k as int].radials@[t]).word_size == 8,
        {
            if sweep.radials[j].word_size != 8 {
                return false;
            }
        }
    }
    true
}

/// Derives the colored render points of a whole decoded scan: every gate
/// whose scaled reading is a real return above the inclusion threshold
/// (milli-units) contributes one point, in sweep, radial, gate order. A word
/// size other than 8 bits anywhere in the scan is a hard decode error.
pub fn derive_points(scan: &VolumeScan, threshold_milli: i64) -> (r: Result<
    Vec<ColoredPoint>,
    Error,
>)
    requires
        scan.wf(),
    ensures
        scan.word_sizes_supported() ==> r is Ok && r->Ok_0@ == spec_scan_points(
            *scan,
            threshold_milli as int,
            0,
        ) && (forall|i: int| 0 <= i < r->Ok_0@.len() ==> (#[trigger] r->Ok_0@[i]).wf()),
        !scan.word_sizes_supported() ==> r == Result::<Vec<ColoredPoint>, Error>::Err(
            Error::UnsupportedWordSize,
        ),
{
    if !word_sizes_ok(scan) {
        return Err(Error::UnsupportedWordSize);
    }
    let mut points: Vec<ColoredPoint> = Vec::new();
    let n = scan.sweeps.len();
    for k in 0..n
        invariant
            scan.wf(),
            scan.word_sizes_supported(),
            n == scan.sweeps@.len(),
            points@ + spec_scan_points(*scan, threshold_milli as int, k as int) == spec_scan_points(
                *scan,
                threshold_milli as int,
                0,
            ),
            forall|i: int| 0 <= i < points@.len() ==> (#[trigger] points@[i]).wf(),
    {
        let ghost before = points@;
        let ghost sw = scan.sweeps@[k as int];
        assert(sw.wf());
        assert forall|j: int| 0 <= j < sw.radials@.len() implies (
        #[trigger] sw.radials@[j]).word_size == 8 by {
            assert(scan.sweeps@[k as int].radials@[j].word_size == 8);
        }
        project_sweep(&scan.sweeps[k], threshold_milli, &mut points);
        proof {
            assert(spec_scan_points(*scan, threshold_milli as int, k as int) == spec_sweep_points(
                scan.sweeps@[k as int],
                threshold_milli as int,
                0,
            ) + spec_scan_points(*scan, threshold_milli as int, k + 1));
            assert(points@ + spec_scan_points(*scan, threshold_milli as int, k + 1) =~= before
                + spec_scan_points(*scan, threshold_milli as int, k as int));
        }
    }
    proof {
        assert(spec_scan_points(*scan, threshold_milli as int, n as int) =~= Seq::<
            ColoredPoint,
        >::empty());
        assert(points@ =~= spec_scan_points(*scan, threshold_milli as int, 0));
    }
    Ok(points)
}

/// The color triple of a point under one color mode, as the renderer reads
/// it.
pub fn mode_color(point: &ColoredPoint, mode: crate::param::PointColorMode) -> (c: Rgb)
    ensures
        c == match mode {
            crate::param::PointColorMode::Raw => point.raw,
            crate::param::PointColorMode::Density => point.density,
            crate::param::PointColorMode::Hybrid => point.hybrid,
        },
{
    match mode {
        crate::param::PointColorMode::Raw => point.raw,
        crate::param::PointColorMode::Density => point.density,
        crate::param::PointColorMode::Hybrid => point.hybrid,
    }
}

/// Law: projection is a pure function of its inputs — equal (elevation,
/// azimuth, spacing, range) tuples always yield identical positions, and
/// equal scans under equal thresholds always derive identical point
/// sequences.
pub proof fn lemma_projection_deterministic(
    elevation_milli_a: int,
    azimuth_milli_a: int,
    dist_micro_a: int,
    elevation_milli_b: int,
    azimuth_milli_b: int,
    dist_micro_b: int,
)
    requires
        elevation_milli_a == elevation_milli_b,
        azimuth_milli_a == azimuth_milli_b,
        dist_micro_a == dist_micro_b,
    ensures
        spec_position(elevation_milli_a, azimuth_milli_a, dist_micro_a) == spec_position(
            elevation_milli_b,
            azimuth_milli_b,
            dist_micro_b,
        ),
{
}

} // verus!
