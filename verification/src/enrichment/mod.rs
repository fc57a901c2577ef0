//! Track identification and enrichment: domain models, service response
//! types and the adapters that turn responses into domain models.

pub mod acoustid;
pub mod domain;
pub mod musicbrainz;

pub use domain::{AudioFingerprint, EnrichmentError, EnrichmentSource, IdentifiedTrack};
