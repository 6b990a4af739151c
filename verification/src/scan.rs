//! The decoded volume scan as the pipeline reads it: elevation sweeps of
//! azimuthal radials of range-gated raw reflectivity samples.
//!
//! The external decoder hands these values over as plain integers: angles
//! in millidegrees, calibration in milli-units, ranges in meters. The
//! well-formedness bounds below are what the on-wire format already
//! guarantees (a 16-bit gate count, a 16-bit gate interval) plus the
//! calibration magnitude cap of the scaler.

use crate::gate::CALIBRATION_LIMIT_MILLI;
use crate::trig::FULL_TURN_MILLI;
use vstd::prelude::*;

verus! {

/// Largest number of gates one radial may carry (a 16-bit count on the wire).
pub const MAX_GATES: usize = 0xFFFF;

/// One beam of samples at a fixed azimuth within one elevation sweep.
#[derive(Clone, Debug)]
pub struct Radial {
    /// Azimuth angle of the beam, millidegrees.
    pub azimuth_milli: i64,
    /// Azimuth width ("resolution") of the sweep's beams, millidegrees.
    pub azimuth_spacing_milli: i64,
    /// Range gained per gate, meters; the first gate sits one interval out.
    pub gate_interval_m: u16,
    /// Word size of the raw gate encoding, in bits.
    pub word_size: u8,
    /// Calibration scale of the data moment, milli-units.
    pub scale_milli: i64,
    /// Calibration offset of the data moment, milli-units.
    pub offset_milli: i64,
    /// Raw gate magnitudes, nearest gate first.
    pub raw_gates: Vec<u16>,
}

impl Radial {
    /// What the decoder guarantees of one radial.
    pub open spec fn wf(self) -> bool {
        &&& 0 <= self.azimuth_milli <= FULL_TURN_MILLI
        &&& 0 < self.azimuth_spacing_milli <= FULL_TURN_MILLI
        &&& -CALIBRATION_LIMIT_MILLI <= self.scale_milli <= CALIBRATION_LIMIT_MILLI
        &&& -CALIBRATION_LIMIT_MILLI <= self.offset_milli <= CALIBRATION_LIMIT_MILLI
        &&& self.raw_gates@.len() <= MAX_GATES
    }
}

/// All radials captured at one fixed elevation angle, in capture order.
#[derive(Clone, Debug)]
pub struct Sweep {
    /// Elevation angle of the sweep, millidegrees.
    pub elevation_milli: i64,
    /// The sweep's radials; their order is traversal order only.
    pub radials: Vec<Radial>,
}

impl Sweep {
    /// What the decoder guarantees of one sweep: a physical elevation
    /// between straight down and straight up, and well-formed radials.
    pub open spec fn wf(self) -> bool {
        &&& -(crate::trig::QUARTER_TURN_MILLI as int) <= self.elevation_milli
            <= crate::trig::QUARTER_TURN_MILLI
        &&& forall|i: int| 0 <= i < self.radials@.len() ==> (#[trigger] self.radials@[i]).wf()
    }
}

/// One full decoded volume scan: every elevation sweep of one rotation cycle.
#[derive(Clone, Debug)]
pub struct VolumeScan {
    /// The scan's sweeps, lowest-indexed first; order is traversal order.
    pub sweeps: Vec<Sweep>,
}

impl VolumeScan {
    /// What the decoder guarantees of a whole scan.
    pub open spec fn wf(self) -> bool {
        forall|i: int| 0 <= i < self.sweeps@.len() ==> (#[trigger] self.sweeps@[i]).wf()
    }

    /// Whether every radial of the scan uses the supported 8-bit word size.
    pub open spec fn word_sizes_supported(self) -> bool {
        forall|i: int, j: int|
            0 <= i < self.sweeps@.len() && 0 <= j < self.sweeps@[i].radials@.len()
                ==> (#[trigger] self.sweeps@[i].radials@[j]).word_size == 8
    }
}

} // verus!
