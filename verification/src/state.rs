//! Shared state and per-stage timing statistics of the pipeline job.
//!
//! One `State` value is constructed at startup and threaded by shared
//! ownership (behind the caller's lock) to both the background job and the
//! presentation poller. A run flips `processing` on before any work and
//! installs its result and flips it off in one step at completion, so a
//! reader under the lock never observes a partially updated result. At most
//! one run may be in flight: a second request while `processing` is on is
//! rejected before any work, leaving the state untouched. A failed run
//! releases the flag but keeps the previous successful point set visible.

use crate::error::Error;
use crate::project::ColoredPoint;
use vstd::prelude::*;

verus! {

/// Elapsed milliseconds of each pipeline stage, as the orchestrator
/// recorded them.
#[derive(Clone, Copy, Debug, Default)]
pub struct ProcessingStatistics {
    /// Listing, selecting and fetching the raw scan.
    pub load_ms: u128,
    /// Decompressing the raw file.
    pub decompress_ms: u128,
    /// Decoding the decompressed file into a volume scan.
    pub decode_ms: u128,
    /// Deriving points from the decoded scan.
    pub pointing_ms: u128,
    /// Decimating the point set.
    pub sampling_ms: u128,
    /// Classifying colors.
    pub coloring_ms: u128,
}

/// What the presentation layer polls: whether a run is in flight, the last
/// completed point set, and its timing statistics.
pub struct State {
    /// Whether a pipeline run is currently processing.
    pub processing: bool,
    /// The most recently completed point set, if any run has succeeded.
    pub points: Option<Vec<ColoredPoint>>,
    /// Timing statistics of the most recently completed run.
    pub statistics: Option<ProcessingStatistics>,
}

impl State {
    /// The startup state: idle, with no result and no statistics.
    pub fn new() -> (s: State)
        ensures
            !s.processing,
            s.points is None,
            s.statistics is None,
    {
        State { processing: false, points: None, statistics: None }
    }

    /// Guards entry into a run. A request while another run is processing
    /// is rejected with the re-entrancy error and leaves the state exactly
    /// as it was — no queuing, no silent merge; otherwise the processing
    /// flag is taken and nothing else changes.
    pub fn begin_run(&mut self) -> (r: Result<(), Error>)
        ensures
            old(self).processing ==> r == Result::<(), Error>::Err(Error::Reentrancy)
                && *final(self) == *old(self),
            !old(self).processing ==> r == Result::<(), Error>::Ok(()) && final(self).processing
                && final(self).points == old(self).points
                && final(self).statistics == old(self).statistics,
    {
        if self.processing {
            Err(Error::Reentrancy)
        } else {
            self.processing = true;
            Ok(())
        }
    }

    /// Publishes a completed run: the point set and statistics become
    /// visible and the processing flag is released, in one step under the
    /// caller's lock.
    pub fn complete_run(&mut self, points: Vec<ColoredPoint>, statistics: ProcessingStatistics)
        requires
            old(self).processing,
        ensures
            !final(self).processing,
            final(self).points == Some(points),
            final(self).statistics == Some(statistics),
    {
        self.points = Some(points);
        self.statistics = Some(statistics);
        self.processing = false;
    }

    /// Releases the processing flag after a failed run. The previous
    /// successful point set and statistics, if any, stay visible: a failure
    /// never clears a last-good result.
    pub fn fail_run(&mut self)
        ensures
            !final(self).processing,
            final(self).points == old(self).points,
            final(self).statistics == old(self).statistics,
    {
        self.processing = false;
    }
}

} // verus!
