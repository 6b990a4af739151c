//! Verified core of a weather-radar volume renderer.
//!
//! The library turns a decoded volume scan (elevation sweeps of azimuthal
//! radials of range-gated reflectivity samples) into labeled 3-D points:
//! scan selection by embedded capture time, gate-value rescaling with
//! sentinel handling, polar-to-Cartesian projection, reflectivity color
//! classification, stride decimation, density-based clustering, and the
//! lock-guarded shared state that a presentation layer polls.
//!
//! All quantities are fixed-point integers: angles in millidegrees,
//! reflectivity in milli-units (1000 = 1.0 dBZ-like unit), and render
//! coordinates in micro render units (one render unit is 100 km, so one
//! micro unit is 0.1 m). Fetching raw files, decompression, the on-disk
//! cache, and the rendering engine are collaborators outside this crate.

pub mod cluster;
pub mod color;
pub mod error;
pub mod fixed;
pub mod format;
pub mod gate;
pub mod param;
pub mod pipeline;
pub mod project;
pub mod sample;
pub mod scan;
pub mod select;
pub mod state;
pub mod trig;
