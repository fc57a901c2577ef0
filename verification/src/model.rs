//! Core records of the music library: artists and albums.

use vstd::prelude::*;

verus! {

/// An artist in the music library.
#[derive(Debug, Clone)]
pub struct Artist {
    /// Database ID (auto-generated)
    pub id: i64,
    /// Artist name (unique)
    pub name: String,
}

/// An album in the music library.
#[derive(Debug, Clone)]
pub struct Album {
    /// Database ID (auto-generated)
    pub id: i64,
    /// Album title
    pub title: String,
    /// Optional artist ID (albums can exist without artist)
    pub artist_id: Option<i64>,
    /// Release year (optional)
    pub year: Option<i64>,
}

}
