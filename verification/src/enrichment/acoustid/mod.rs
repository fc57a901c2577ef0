//! AcoustID: response parts and the adapter that turns them into domain
//! models.

pub mod adapter;
pub mod dto;
