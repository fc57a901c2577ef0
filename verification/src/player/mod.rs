//! Playback: the play queue, shared playback state, media controls and
//! player statistics.

pub mod control;
pub mod media_controls;
pub mod performance;
pub mod queue;
pub mod simd;
pub mod state;

pub use performance::{AudioPerformanceStats, DecodedFrame, PlayerError, VisualizationMode};
