//! A music library manager's core: play queue, metadata quality rules,
//! file organization, enrichment adapters and diagnostics.

pub mod enrichment;
pub mod config;
pub mod cover;
pub mod db;
pub mod diagnostics;
pub mod health;
pub mod metadata;
pub mod model;
pub mod organizer;
pub mod paths;
pub mod player;
pub mod random;
pub mod scanner;
pub mod test_utils;
pub mod text;
pub mod time;
