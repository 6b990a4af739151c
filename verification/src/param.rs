//! Parameters of the presentation layer and of a data-processing request.

use vstd::prelude::*;

verus! {

/// How the camera is driven.
#[derive(Eq, PartialEq, Copy, Clone, Debug, Structural)]
pub enum InteractionMode {
    /// The camera orbits the scene by itself.
    Orbit,
    /// The user drives the orbit.
    ManualOrbit,
}

/// Which per-point color triple the renderer reads.
#[derive(Eq, PartialEq, Copy, Clone, Debug, Structural)]
pub enum PointColorMode {
    /// The raw reflectivity classification.
    Raw,
    /// The density-based recoloring.
    Density,
    /// A blend of the two.
    Hybrid,
}

/// How the presentation layer renders, adjustable every frame.
#[derive(Eq, PartialEq, Copy, Clone, Debug, Structural)]
pub struct RenderParameters {
    pub interaction_mode: InteractionMode,
    pub point_color_mode: PointColorMode,
}

/// Which spatial grouping the pipeline applies.
#[derive(Eq, PartialEq, Copy, Clone, Debug, Structural)]
pub enum ClusteringMode {
    /// Nearest-neighbor grouping.
    KNN,
    /// Density-based clustering into cores and noise.
    DBSCAN,
}

/// One data-processing request: which site and moment to fetch, and how to
/// sample and cluster the derived points. The capture date travels as plain
/// calendar fields and the time of day as seconds past midnight.
#[derive(Eq, PartialEq, Clone, Debug)]
pub struct DataParameters {
    /// Four-letter radar site identifier.
    pub site: String,
    /// Calendar year of the requested scan.
    pub year: u32,
    /// Calendar month of the requested scan, 1 to 12.
    pub month: u32,
    /// Calendar day of the requested scan, 1 to 31.
    pub day: u32,
    /// Requested time of day, seconds past midnight.
    pub time_seconds: u32,
    /// Decimation stride for the sampler.
    pub sampling: u16,
    /// Which spatial grouping to apply.
    pub clustering_mode: ClusteringMode,
    /// Neighborhood radius for clustering, micro render units.
    pub clustering_threshold_micro: i64,
}

} // verus!
