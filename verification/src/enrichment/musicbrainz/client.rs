//! The request and response rules of the MusicBrainz web service: the
//! identifying user agent, the recording lookup address and how a reply's
//! status is read.

use vstd::prelude::*;
use super::dto::ApiError;
use crate::enrichment::domain::EnrichmentError;
use crate::text::{concat, owned};

verus! {

/// User agent string; the service requires every client to identify itself.
pub const USER_AGENT: &'static str = "MusicMinder/0.1.0 (https://github.com/music-minder)";

/// The address of the public MusicBrainz web service.
pub const DEFAULT_BASE_URL: &'static str = "https://musicbrainz.org/ws/2";

/// The lookup address of a recording, asking for its artists, releases and
/// media in JSON.
pub open spec fn recording_url_text(base: Seq<char>, id: Seq<char>) -> Seq<char> {
    base + "/recording/"@ + id + "?fmt=json&inc=artists+releases+media"@
}

/// Builds the lookup address of a recording.
pub fn recording_url(base_url: &str, recording_id: &str) -> (r: String)
    ensures
        r@ == recording_url_text(base_url@, recording_id@),
{
    let a = concat(base_url, "/recording/");
    let b = concat(a.as_str(), recording_id);
    concat(b.as_str(), "?fmt=json&inc=artists+releases+media")
}

/// How a lookup reply is handled, by its HTTP status.
#[derive(Debug, Clone, Copy, PartialEq, Eq, Structural)]
pub enum ReplyKind {
    /// 404: the recording is unknown
    NotFound,
    /// 429: too many requests
    RateLimited,
    /// Any other status outside 200-299
    Failure,
    /// 200-299: the body holds the recording
    Success,
}

/// The handling of an HTTP status.
pub open spec fn reply_kind_of(code: u16) -> ReplyKind {
    if code == 404 {
        ReplyKind::NotFound
    } else if code == 429 {
        ReplyKind::RateLimited
    } else if !(200 <= code <= 299) {
        ReplyKind::Failure
    } else {
        ReplyKind::Success
    }
}

/// Classifies a reply by its HTTP status.
pub fn classify_status(code: u16) -> (r: ReplyKind)
    ensures
        r == reply_kind_of(code),
{
    if code == 404 {
        ReplyKind::NotFound
    } else if code == 429 {
        ReplyKind::RateLimited
    } else if !(200 <= code && code <= 299) {
        ReplyKind::Failure
    } else {
        ReplyKind::Success
    }
}

/// The error for a reply that is neither found-missing, rate-limited nor
/// successful: the service's own message when its body held one, else the
/// status line with its reason phrase.
pub fn failure_error(body: Option<ApiError>, status_text: &str, reason: &str) -> (r: EnrichmentError)
    ensures
        match body {
            Some(e) => r == EnrichmentError::ApiError(e.error),
            None => r matches EnrichmentError::Network(m)
                && m@ == "HTTP "@ + status_text@ + ": "@ + reason@,
        },
{
    match body {
        Some(e) => EnrichmentError::ApiError(e.error),
        None => {
            let a = concat("HTTP ", status_text);
            let b = concat(a.as_str(), ": ");
            EnrichmentError::Network(concat(b.as_str(), reason))
        },
    }
}


/// A MusicBrainz client: the address of the service it talks to. The HTTP
/// exchange itself is the caller's work.
#[derive(Debug, Clone)]
pub struct MusicBrainzClient {
    base_url: String,
}

impl View for MusicBrainzClient {
    type V = Seq<char>;

    /// The service address.
    closed spec fn view(&self) -> Seq<char> {
        self.base_url@
    }
}

impl MusicBrainzClient {
    /// A client of the public MusicBrainz service.
    pub fn new() -> (r: MusicBrainzClient)
        ensures
            r@ == DEFAULT_BASE_URL@,
    {
        MusicBrainzClient { base_url: owned(DEFAULT_BASE_URL) }
    }

    /// A client of the service at another address.
    pub fn with_base_url(base_url: &str) -> (r: MusicBrainzClient)
        ensures
            r@ == base_url@,
    {
        MusicBrainzClient { base_url: owned(base_url) }
    }

    /// The service address.
    pub fn base_url(&self) -> (r: &str)
        ensures
            r@ == self@,
    {
        self.base_url.as_str()
    }

    /// The lookup address of a recording at this client's service.
    pub fn recording_request_url(&self, recording_id: &str) -> (r: String)
        ensures
            r@ == recording_url_text(self@, recording_id@),
    {
        recording_url(self.base_url.as_str(), recording_id)
    }
}

impl Default for MusicBrainzClient {
    fn default() -> (r: MusicBrainzClient)
        ensures
            r@ == DEFAULT_BASE_URL@,
    {
        MusicBrainzClient::new()
    }
}

}
