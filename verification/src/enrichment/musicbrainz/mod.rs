//! MusicBrainz: response types and the adapter that turns them into domain
//! models.

pub mod adapter;
pub mod client;
pub mod dto;
