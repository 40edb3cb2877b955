//! A verified media-file sorting library: scanned files are classified,
//! enriched with image metadata, translated into a target directory by
//! configurable path-segment patterns, checked against a duplicate policy,
//! and planned as filesystem actions, with per-run outcome counters.
//! Filesystem probing and the actual transfers are the driver's part; every
//! decision in between is specified and proved here.

pub mod config;
pub mod datetime;
pub mod index;
pub mod logging;
pub mod media;
pub mod paths;
pub mod pattern;
pub mod pipeline;
pub mod sorting;
pub mod text;
