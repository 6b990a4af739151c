//! Error taxonomy of the pipeline core.
//!
//! Input errors are always fatal to the single run and never silently
//! defaulted; a re-entrant run request is rejected before any work starts.

use vstd::prelude::*;

verus! {

/// Why a pipeline run, or one of its stages, refused to proceed.
#[derive(Clone, Copy, Debug, PartialEq, Eq, Structural)]
pub enum Error {
    /// Scan selection was handed an empty candidate list.
    NoCandidates,
    /// A scan identifier's time token does not parse as `HHMMSS`.
    MalformedIdentifier,
    /// A radial's gate buffer uses a word size other than 8 bits.
    UnsupportedWordSize,
    /// Decimation was asked for stride zero.
    InvalidStride,
    /// A run was requested while another run was already processing.
    Reentrancy,
}

} // verus!
