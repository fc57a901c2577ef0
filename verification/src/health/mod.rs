//! File health tracking and metadata quality.
//!
//! Tracks the health status of audio files to identify corrupt, problematic
//! or unidentifiable files in the library.

pub mod gardener;
pub mod hash;
pub mod quality;

pub use quality::{assess_quality, MatchConfidence, QualityFlags, QualityTier, TrackQuality};

use vstd::prelude::*;
use crate::text::{chars_of, contains_chars, contains_seq, owned, str_eq};

verus! {

/// Health status of an audio file
#[derive(Debug, Clone, Copy, PartialEq, Eq, Structural)]
pub enum HealthStatus {
    /// File is healthy - fingerprinted and identified successfully
    Healthy,
    /// File has an error (decode failure, corrupt, etc.)
    Error,
    /// File fingerprinted but no match in AcoustID database
    NoMatch,
    /// File matched but with low confidence
    LowConfidence,
    /// Not yet checked
    Unknown,
}

/// The stored name of a health status.
pub open spec fn status_name(s: HealthStatus) -> Seq<char> {
    match s {
        HealthStatus::Healthy => "ok"@,
        HealthStatus::Error => "error"@,
        HealthStatus::NoMatch => "no_match"@,
        HealthStatus::LowConfidence => "low_confidence"@,
        HealthStatus::Unknown => "unknown"@,
    }
}

/// The status a stored name reads back as; unknown names read as `Unknown`.
pub open spec fn parse_status(s: Seq<char>) -> HealthStatus {
    if s == "ok"@ {
        HealthStatus::Healthy
    } else if s == "error"@ {
        HealthStatus::Error
    } else if s == "no_match"@ {
        HealthStatus::NoMatch
    } else if s == "low_confidence"@ {
        HealthStatus::LowConfidence
    } else {
        HealthStatus::Unknown
    }
}

impl HealthStatus {
    pub fn as_str(&self) -> (r: &'static str)
        ensures
            r@ == status_name(*self),
    {
        match self {
            HealthStatus::Healthy => "ok",
            HealthStatus::Error => "error",
            HealthStatus::NoMatch => "no_match",
            HealthStatus::LowConfidence => "low_confidence",
            HealthStatus::Unknown => "unknown",
        }
    }

    pub fn emoji(&self) -> (r: &'static str)
        ensures
            r@ == (match self {
                HealthStatus::Healthy => "✓"@,
                HealthStatus::Error => "✗"@,
                HealthStatus::NoMatch => "?"@,
                HealthStatus::LowConfidence => "~"@,
                HealthStatus::Unknown => "-"@,
            }),
    {
        match self {
            HealthStatus::Healthy => "✓",
            HealthStatus::Error => "✗",
            HealthStatus::NoMatch => "?",
            HealthStatus::LowConfidence => "~",
            HealthStatus::Unknown => "-",
        }
    }

    /// Reads a stored status name; unknown names read as `Unknown`.
    pub fn parse_name(s: &str) -> (r: HealthStatus)
        ensures
            r == parse_status(s@),
    {
        if str_eq(s, "ok") {
            HealthStatus::Healthy
        } else if str_eq(s, "error") {
            HealthStatus::Error
        } else if str_eq(s, "no_match") {
            HealthStatus::NoMatch
        } else if str_eq(s, "low_confidence") {
            HealthStatus::LowConfidence
        } else {
            HealthStatus::Unknown
        }
    }
}

impl std::str::FromStr for HealthStatus {
    type Err = std::convert::Infallible;

    fn from_str(s: &str) -> (r: Result<HealthStatus, std::convert::Infallible>)
        ensures
            r == Ok::<HealthStatus, std::convert::Infallible>(parse_status(s@)),
    {
        Ok(HealthStatus::parse_name(s))
    }
}

/// Law: every status reads back as itself from its stored name.
pub proof fn health_status_roundtrip(s: HealthStatus)
    ensures
        parse_status(status_name(s)) == s,
{
    reveal_strlit("ok");
    reveal_strlit("error");
    reveal_strlit("no_match");
    reveal_strlit("low_confidence");
    reveal_strlit("unknown");
    assert("ok"@.len() == 2);
    assert("error"@.len() == 5);
    assert("no_match"@.len() == 8);
    assert("low_confidence"@.len() == 14);
    assert("unknown"@.len() == 7);
}

/// Type of error encountered
#[derive(Debug, Clone, PartialEq, Eq)]
pub enum ErrorType {
    DecodeError,
    EmptyFingerprint,
    IoError,
    Timeout,
    ApiError,
    Other(String),
}

/// The stored name of an error type.
pub open spec fn error_type_name(e: ErrorType) -> Seq<char> {
    match e {
        ErrorType::DecodeError => "decode_error"@,
        ErrorType::EmptyFingerprint => "empty_fingerprint"@,
        ErrorType::IoError => "io_error"@,
        ErrorType::Timeout => "timeout"@,
        ErrorType::ApiError => "api_error"@,
        ErrorType::Other(s) => s@,
    }
}

/// The error type a stored name reads back as; other names become `Other`.
pub open spec fn parse_error_type_spec(s: Seq<char>) -> Option<ErrorType> {
    if s == "decode_error"@ {
        Some(ErrorType::DecodeError)
    } else if s == "empty_fingerprint"@ {
        Some(ErrorType::EmptyFingerprint)
    } else if s == "io_error"@ {
        Some(ErrorType::IoError)
    } else if s == "timeout"@ {
        Some(ErrorType::Timeout)
    } else if s == "api_error"@ {
        Some(ErrorType::ApiError)
    } else {
        None
    }
}

/// Whether an error type is the one a stored name reads back as.
pub open spec fn reads_as(s: Seq<char>, e: ErrorType) -> bool {
    match parse_error_type_spec(s) {
        Some(k) => e == k,
        None => e matches ErrorType::Other(t) && t@ == s,
    }
}

impl ErrorType {
    pub fn as_str(&self) -> (r: &str)
        ensures
            r@ == error_type_name(*self),
    {
        match self {
            ErrorType::DecodeError => "decode_error",
            ErrorType::EmptyFingerprint => "empty_fingerprint",
            ErrorType::IoError => "io_error",
            ErrorType::Timeout => "timeout",
            ErrorType::ApiError => "api_error",
            ErrorType::Other(s) => s.as_str(),
        }
    }

    /// Reads a stored error type name; other names become `Other`.
    pub fn parse_name(s: &str) -> (r: ErrorType)
        ensures
            reads_as(s@, r),
    {
        if str_eq(s, "decode_error") {
            ErrorType::DecodeError
        } else if str_eq(s, "empty_fingerprint") {
            ErrorType::EmptyFingerprint
        } else if str_eq(s, "io_error") {
            ErrorType::IoError
        } else if str_eq(s, "timeout") {
            ErrorType::Timeout
        } else if str_eq(s, "api_error") {
            ErrorType::ApiError
        } else {
            ErrorType::Other(owned(s))
        }
    }
}

impl std::str::FromStr for ErrorType {
    type Err = std::convert::Infallible;

    fn from_str(s: &str) -> (r: Result<ErrorType, std::convert::Infallible>)
        ensures
            r matches Ok(e) && reads_as(s@, e),
    {
        Ok(ErrorType::parse_name(s))
    }
}

/// Law: every named error type reads back as itself from its stored name.
pub proof fn error_type_roundtrip(e: ErrorType)
    requires
        !(e is Other),
    ensures
        reads_as(error_type_name(e), e),
{
    reveal_strlit("decode_error");
    reveal_strlit("empty_fingerprint");
    reveal_strlit("io_error");
    reveal_strlit("timeout");
    reveal_strlit("api_error");
    assert("decode_error"@.len() == 12);
    assert("empty_fingerprint"@.len() == 17);
    assert("io_error"@.len() == 8);
    assert("timeout"@.len() == 7);
    assert("api_error"@.len() == 9);
}

/// Health summary counts
#[derive(Debug, Default)]
pub struct HealthSummary {
    pub total: i64,
    pub ok: i64,
    pub errors: i64,
    pub no_match: i64,
    pub low_confidence: i64,
}

/// The summary of per-status counts, read in order: the total adds every
/// count, and each known status takes the last count given for it.
pub open spec fn summary_of(rows: Seq<(Seq<char>, i64)>) -> (int, int, int, int, int)
    decreases rows.len(),
{
    if rows.len() == 0 {
        (0, 0, 0, 0, 0)
    } else {
        let prev = summary_of(rows.drop_last());
        let (name, count) = rows.last();
        let total = prev.0 + count;
        if name == "ok"@ {
            (total, count as int, prev.2, prev.3, prev.4)
        } else if name == "error"@ {
            (total, prev.1, count as int, prev.3, prev.4)
        } else if name == "no_match"@ {
            (total, prev.1, prev.2, count as int, prev.4)
        } else if name == "low_confidence"@ {
            (total, prev.1, prev.2, prev.3, count as int)
        } else {
            (total, prev.1, prev.2, prev.3, prev.4)
        }
    }
}

/// The total of the counts.
pub open spec fn count_total(rows: Seq<(Seq<char>, i64)>) -> int
    decreases rows.len(),
{
    if rows.len() == 0 {
        0
    } else {
        count_total(rows.drop_last()) + rows.last().1
    }
}

/// Views `(status, count)` rows as plain values.
pub open spec fn rows_view(rows: Seq<(String, i64)>) -> Seq<(Seq<char>, i64)> {
    rows.map_values(|r: (String, i64)| (r.0@, r.1))
}

proof fn lemma_summary_total(rows: Seq<(Seq<char>, i64)>)
    ensures
        summary_of(rows).0 == count_total(rows),
    decreases rows.len(),
{
    if rows.len() > 0 {
        lemma_summary_total(rows.drop_last());
    }
}

/// Builds the health summary from `(status, count)` rows.
///
/// Every prefix of the counts must total within `i64`.
pub fn summarize_health(rows: &[(String, i64)]) -> (r: HealthSummary)
    requires
        forall|k: int| 0 <= k <= rows@.len() ==> i64::MIN <= #[trigger] count_total(
            rows_view(rows@).subrange(0, k),
        ) <= i64::MAX,
    ensures
        ({
            let s = summary_of(rows_view(rows@));
            &&& r.total as int == s.0
            &&& r.ok as int == s.1
            &&& r.errors as int == s.2
            &&& r.no_match as int == s.3
            &&& r.low_confidence as int == s.4
        }),
{
    let mut summary = HealthSummary { total: 0, ok: 0, errors: 0, no_match: 0, low_confidence: 0 };
    let mut i: usize = 0;
    while i < rows.len()
        invariant
            i <= rows@.len(),
            forall|k: int| 0 <= k <= rows@.len() ==> i64::MIN <= #[trigger] count_total(
                rows_view(rows@).subrange(0, k),
            ) <= i64::MAX,
            ({
                let s = summary_of(rows_view(rows@).subrange(0, i as int));
                &&& summary.total as int == s.0
                &&& summary.ok as int == s.1
                &&& summary.errors as int == s.2
                &&& summary.no_match as int == s.3
                &&& summary.low_confidence as int == s.4
            }),
        decreases rows@.len() - i,
    {
        let ghost pre = rows_view(rows@).subrange(0, i as int);
        let ghost post = rows_view(rows@).subrange(0, i + 1);
        assert(post.drop_last() =~= pre);
        assert(post.last() == (rows@[i as int].0@, rows@[i as int].1));
        proof {
            lemma_summary_total(pre);
            lemma_summary_total(post);
        }
        let (status, count) = (&rows[i].0, rows[i].1);
        summary.total = summary.total + count;
        if str_eq(status.as_str(), "ok") {
            summary.ok = count;
        } else if str_eq(status.as_str(), "error") {
            summary.errors = count;
        } else if str_eq(status.as_str(), "no_match") {
            summary.no_match = count;
        } else if str_eq(status.as_str(), "low_confidence") {
            summary.low_confidence = count;
        }
        i += 1;
    }
    assert(rows_view(rows@).subrange(0, rows@.len() as int) =~= rows_view(rows@));
    summary
}


/// Classifies an enrichment failure by its message.
pub fn classify_enrichment_error(message: &str) -> (r: ErrorType)
    ensures
        contains_seq(message@, "fingerprint"@) ==> r == ErrorType::EmptyFingerprint,
        !contains_seq(message@, "fingerprint"@) && contains_seq(message@, "decode"@) ==> r
            == ErrorType::DecodeError,
        !contains_seq(message@, "fingerprint"@) && !contains_seq(message@, "decode"@) ==> (r matches ErrorType::Other(
            s,
        ) && s@ == "enrichment_error"@),
{
    let m = chars_of(message);
    let f = chars_of("fingerprint");
    let d = chars_of("decode");
    if contains_chars(m.as_slice(), f.as_slice()) {
        ErrorType::EmptyFingerprint
    } else if contains_chars(m.as_slice(), d.as_slice()) {
        ErrorType::DecodeError
    } else {
        ErrorType::Other(owned("enrichment_error"))
    }
}


/// Whether row `i` is the last row for status `name`.
pub open spec fn is_last_row(rows: Seq<(Seq<char>, i64)>, name: Seq<char>, i: int) -> bool {
    &&& 0 <= i < rows.len()
    &&& rows[i].0 == name
    &&& forall|j: int| i < j < rows.len() ==> rows[j].0 != name
}

/// The count the last row for a status gives, or 0 when no row names it.
pub open spec fn last_count(rows: Seq<(Seq<char>, i64)>, name: Seq<char>) -> int {
    if exists|i: int| is_last_row(rows, name, i) {
        rows[choose|i: int| is_last_row(rows, name, i)].1 as int
    } else {
        0
    }
}

proof fn lemma_last_row_unique(rows: Seq<(Seq<char>, i64)>, name: Seq<char>, i: int, k: int)
    requires
        is_last_row(rows, name, i),
        is_last_row(rows, name, k),
    ensures
        i == k,
{
    if i < k {
        assert(rows[k].0 != name);
    } else if k < i {
        assert(rows[i].0 != name);
    }
}

proof fn lemma_last_count_push(rows: Seq<(Seq<char>, i64)>, row: (Seq<char>, i64), name: Seq<char>)
    ensures
        last_count(rows.push(row), name) == (if row.0 == name { row.1 as int } else { last_count(rows, name) }),
{
    let r = rows.push(row);
    let n = rows.len() as int;
    if row.0 == name {
        assert(is_last_row(r, name, n));
        let c = choose|i: int| is_last_row(r, name, i);
        lemma_last_row_unique(r, name, c, n);
    } else {
        assert forall|i: int| is_last_row(r, name, i) == is_last_row(rows, name, i) by {
            if 0 <= i < n {
                assert(r[i] == rows[i]);
                assert forall|j: int| i < j < n implies r[j] == rows[j] by {}
            }
        }
        if exists|i: int| is_last_row(rows, name, i) {
            let c1 = choose|i: int| is_last_row(rows, name, i);
            let c2 = choose|i: int| is_last_row(r, name, i);
            lemma_last_row_unique(rows, name, c1, c2);
            assert(r[c2] == rows[c2]);
        }
    }
}

/// Law: the summary's total is the sum of all counts, and each status's
/// count is the one its own row gives (the last, where rows repeat a
/// status), or 0 when no row names it; rows for other statuses change no
/// status's count.
pub proof fn summary_counts_each_status_from_its_rows(rows: Seq<(Seq<char>, i64)>)
    ensures
        summary_of(rows).0 == count_total(rows),
        summary_of(rows).1 == last_count(rows, "ok"@),
        summary_of(rows).2 == last_count(rows, "error"@),
        summary_of(rows).3 == last_count(rows, "no_match"@),
        summary_of(rows).4 == last_count(rows, "low_confidence"@),
    decreases rows.len(),
{
    reveal_strlit("ok");
    reveal_strlit("error");
    reveal_strlit("no_match");
    reveal_strlit("low_confidence");
    assert("ok"@.len() == 2);
    assert("error"@.len() == 5);
    assert("no_match"@.len() == 8);
    assert("low_confidence"@.len() == 14);
    if rows.len() == 0 {
        assert(!exists|i: int| is_last_row(rows, "ok"@, i));
        assert(!exists|i: int| is_last_row(rows, "error"@, i));
        assert(!exists|i: int| is_last_row(rows, "no_match"@, i));
        assert(!exists|i: int| is_last_row(rows, "low_confidence"@, i));
    } else {
        let pre = rows.drop_last();
        summary_counts_each_status_from_its_rows(pre);
        assert(rows == pre.push(rows.last()));
        lemma_last_count_push(pre, rows.last(), "ok"@);
        lemma_last_count_push(pre, rows.last(), "error"@);
        lemma_last_count_push(pre, rows.last(), "no_match"@);
        lemma_last_count_push(pre, rows.last(), "low_confidence"@);
    }
}

}
