//! Conversion of AcoustID lookups into domain models.

use vstd::prelude::*;
use std::time::Duration;
use super::dto::{ApiError, Artist, LookupResult, Recording, ReleaseGroup};
use crate::time::{duration_from_secs, secs_duration};
use crate::enrichment::domain::{EnrichmentError, IdentifiedTrack};
use crate::text::{clone_opt, clone_strings, owned, str_eq};

verus! {

/// What a lookup's status and error say: success for status "ok", else the
/// service's message, or "Unknown error" when it sent none.
pub open spec fn lookup_outcome(status: Seq<char>, error: Option<ApiError>) -> Result<(), Seq<char>> {
    if status == "ok"@ {
        Ok(())
    } else {
        match error {
            Some(e) => Err(e.message@),
            None => Err("Unknown error"@),
        }
    }
}

/// Checks a lookup's status: an error unless it is "ok".
pub fn check_lookup_status(status: &str, error: Option<ApiError>) -> (r: Result<(), EnrichmentError>)
    ensures
        match lookup_outcome(status@, error) {
            Ok(()) => r is Ok,
            Err(m) => r matches Err(EnrichmentError::ApiError(s)) && s@ == m,
        },
{
    if str_eq(status, "ok") {
        return Ok(());
    }
    let message = match error {
        Some(e) => e.message,
        None => owned("Unknown error"),
    };
    Err(EnrichmentError::ApiError(message))
}

/// Whether `t` is the identification of a recording on release group `rg`
/// (`None` for a recording listed without one).
pub open spec fn recording_track(
    t: IdentifiedTrack,
    id: String,
    title: Option<String>,
    duration: Option<Duration>,
    artists: Seq<Artist>,
    rg: Option<ReleaseGroup>,
) -> bool {
    &&& t.recording_id == Some(id)
    &&& t.title == title
    &&& t.artist == (if artists.len() > 0 { Some(artists[0].name) } else { None })
    &&& t.artist_id == (if artists.len() > 0 { Some(artists[0].id) } else { None })
    &&& t.duration == duration
    &&& t.album_artist is None
    &&& t.track_number is None
    &&& t.total_tracks is None
    &&& t.disc_number is None
    &&& t.total_discs is None
    &&& t.year is None
    &&& t.release_group_id is None
    &&& t.genres@.len() == 0
    &&& match rg {
        Some(g) => {
            &&& t.album == g.title
            &&& t.release_id == Some(g.id)
            &&& t.release_type == g.release_type
            &&& t.secondary_types@ == g.secondarytypes@
        },
        None => {
            &&& t.album is None
            &&& t.release_id is None
            &&& t.release_type is None
            &&& t.secondary_types@.len() == 0
        },
    }
}

fn track_for(
    id: &String,
    title: &Option<String>,
    duration: Option<Duration>,
    artists: &[Artist],
    rg: Option<&ReleaseGroup>,
) -> (t: IdentifiedTrack)
    ensures
        recording_track(t, *id, *title, duration, artists@, match rg {
            Some(g) => Some(*g),
            None => None,
        }),
{
    let (artist, artist_id) = if artists.len() > 0 {
        (Some(artists[0].name.clone()), Some(artists[0].id.clone()))
    } else {
        (None, None)
    };
    let (album, release_id, release_type, secondary_types) = match rg {
        Some(g) => (clone_opt(&g.title), Some(g.id.clone()), clone_opt(&g.release_type), clone_strings(g.secondarytypes.as_slice())),
        None => (None, None, None, Vec::new()),
    };
    IdentifiedTrack {
        recording_id: Some(id.clone()),
        title: clone_opt(title),
        artist,
        album_artist: None,
        album,
        track_number: None,
        total_tracks: None,
        disc_number: None,
        total_discs: None,
        year: None,
        duration,
        artist_id,
        release_id,
        release_group_id: None,
        release_type,
        secondary_types,
        genres: Vec::new(),
    }
}

/// The identifications of one recording: one per release group it appears
/// on, in order, or a single one without album details when it lists none.
pub fn recording_identifications(
    id: &String,
    title: &Option<String>,
    duration: Option<Duration>,
    artists: &[Artist],
    releasegroups: &[ReleaseGroup],
) -> (r: Vec<IdentifiedTrack>)
    ensures
        releasegroups@.len() == 0 ==> r@.len() == 1 && recording_track(r@[0], *id, *title, duration, artists@, None),
        releasegroups@.len() > 0 ==> r@.len() == releasegroups@.len() && forall|k: int|
            0 <= k < r@.len() ==> recording_track(
                #[trigger] r@[k],
                *id,
                *title,
                duration,
                artists@,
                Some(releasegroups@[k]),
            ),
{
    let mut out: Vec<IdentifiedTrack> = Vec::new();
    if releasegroups.len() == 0 {
        out.push(track_for(id, title, duration, artists, None));
        return out;
    }
    let mut i: usize = 0;
    while i < releasegroups.len()
        invariant
            i <= releasegroups@.len(),
            out@.len() == i,
            forall|k: int| 0 <= k < i ==> recording_track(
                #[trigger] out@[k],
                *id,
                *title,
                duration,
                artists@,
                Some(releasegroups@[k]),
            ),
        decreases releasegroups@.len() - i,
    {
        out.push(track_for(id, title, duration, artists, Some(&releasegroups[i])));
        i += 1;
    }
    out
}


/// The duration of a recording given in whole seconds.
pub open spec fn recording_duration_of(secs: Option<u64>) -> Option<Duration> {
    match secs {
        Some(s) => Some(secs_duration(s)),
        None => None,
    }
}

fn recording_duration(secs: Option<u64>) -> (r: Option<Duration>)
    ensures
        r == recording_duration_of(secs),
{
    match secs {
        Some(s) => Some(duration_from_secs(s)),
        None => None,
    }
}

/// The release groups a recording is identified with, one identification
/// each: all of its groups, or none (`None`) when it lists no group.
pub open spec fn recording_groups(rec: Recording) -> Seq<Option<ReleaseGroup>> {
    if rec.releasegroups@.len() == 0 {
        seq![None]
    } else {
        rec.releasegroups@.map_values(|g: ReleaseGroup| Some(g))
    }
}

/// Where each identification of some recordings comes from: the position
/// of their lookup result, the recording and its release group, in order.
pub open spec fn recordings_sources(k: int, recs: Seq<Recording>) -> Seq<(int, Recording, Option<ReleaseGroup>)>
    decreases recs.len(),
{
    if recs.len() == 0 {
        Seq::empty()
    } else {
        recordings_sources(k, recs.drop_last()) + recording_groups(recs.last()).map_values(
            |g: Option<ReleaseGroup>| (k, recs.last(), g),
        )
    }
}

/// Where each identification of a lookup comes from, result by result.
pub open spec fn results_sources(results: Seq<LookupResult>) -> Seq<(int, Recording, Option<ReleaseGroup>)>
    decreases results.len(),
{
    if results.len() == 0 {
        Seq::empty()
    } else {
        results_sources(results.drop_last()) + recordings_sources(
            results.len() - 1,
            results.last().recordings@,
        )
    }
}

/// Whether an identification, tagged with the position of its lookup
/// result, is the one of a recording on a release group.
pub open spec fn identification_from(t: (usize, IdentifiedTrack), src: (int, Recording, Option<ReleaseGroup>)) -> bool {
    &&& t.0 as int == src.0
    &&& recording_track(
        t.1,
        src.1.id,
        src.1.title,
        recording_duration_of(src.1.duration_secs),
        src.1.artists@,
        src.2,
    )
}

/// Whether identifications are, one for one and in order, those of the
/// given sources.
pub open spec fn identifications_match(
    ts: Seq<(usize, IdentifiedTrack)>,
    srcs: Seq<(int, Recording, Option<ReleaseGroup>)>,
) -> bool {
    &&& ts.len() == srcs.len()
    &&& forall|j: int| 0 <= j < ts.len() ==> identification_from(#[trigger] ts[j], srcs[j])
}

fn push_recording(out: &mut Vec<(usize, IdentifiedTrack)>, k: usize, rec: &Recording)
    ensures
        final(out)@.len() == old(out)@.len() + recording_groups(*rec).len(),
        forall|j: int| 0 <= j < old(out)@.len() ==> final(out)@[j] == old(out)@[j],
        forall|j: int|
            0 <= j < recording_groups(*rec).len() ==> identification_from(
                #[trigger] final(out)@[old(out)@.len() + j],
                (k as int, *rec, recording_groups(*rec)[j]),
            ),
{
    let duration = recording_duration(rec.duration_secs);
    let ghost groups = recording_groups(*rec);
    if rec.releasegroups.len() == 0 {
        out.push((k, track_for(&rec.id, &rec.title, duration, rec.artists.as_slice(), None)));
        return;
    }
    let ghost start = old(out)@.len();
    let mut i: usize = 0;
    while i < rec.releasegroups.len()
        invariant
            i <= rec.releasegroups@.len(),
            rec.releasegroups@.len() > 0,
            groups == recording_groups(*rec),
            duration == recording_duration_of(rec.duration_secs),
            start == old(out)@.len(),
            out@.len() == start + i,
            forall|j: int| 0 <= j < start ==> out@[j] == old(out)@[j],
            forall|j: int|
                0 <= j < i ==> identification_from(#[trigger] out@[start + j], (k as int, *rec, groups[j])),
        decreases rec.releasegroups@.len() - i,
    {
        let t = track_for(&rec.id, &rec.title, duration, rec.artists.as_slice(), Some(&rec.releasegroups[i]));
        assert(groups[i as int] == Some(rec.releasegroups@[i as int]));
        out.push((k, t));
        i += 1;
    }
}

proof fn lemma_match_append(
    a: Seq<(usize, IdentifiedTrack)>,
    sa: Seq<(int, Recording, Option<ReleaseGroup>)>,
    b: Seq<(usize, IdentifiedTrack)>,
    sb: Seq<(int, Recording, Option<ReleaseGroup>)>,
)
    requires
        identifications_match(a, sa),
        identifications_match(b, sb),
    ensures
        identifications_match(a + b, sa + sb),
{
    assert forall|j: int| 0 <= j < (a + b).len() implies identification_from(#[trigger] (a + b)[j], (sa + sb)[j]) by {
        if j < a.len() {
            assert((a + b)[j] == a[j]);
            assert((sa + sb)[j] == sa[j]);
        } else {
            assert((a + b)[j] == b[j - a.len()]);
            assert((sa + sb)[j] == sb[j - a.len()]);
        }
    }
}

/// The identifications of a fingerprint lookup: an error with the
/// service's message unless its status is "ok"; otherwise, result by result
/// and recording by recording, one identification per release group (or
/// one without album details), each tagged with the position of its result
/// so that the caller can pair it with that result's match score.
pub fn lookup_identifications(status: &str, error: Option<ApiError>, results: &[LookupResult]) -> (r: Result<
    Vec<(usize, IdentifiedTrack)>,
    EnrichmentError,
>)
    ensures
        match lookup_outcome(status@, error) {
            Ok(()) => r matches Ok(v) && identifications_match(v@, results_sources(results@)),
            Err(m) => r matches Err(EnrichmentError::ApiError(s)) && s@ == m,
        },
{
    match check_lookup_status(status, error) {
        Ok(()) => {},
        Err(e) => {
            return Err(e);
        },
    }
    let mut out: Vec<(usize, IdentifiedTrack)> = Vec::new();
    let mut k: usize = 0;
    assert(results@.subrange(0, 0) =~= Seq::<LookupResult>::empty());
    while k < results.len()
        invariant
            k <= results@.len(),
            identifications_match(out@, results_sources(results@.subrange(0, k as int))),
        decreases results@.len() - k,
    {
        let recs = &results[k].recordings;
        let ghost before = out@;
        let ghost done = results_sources(results@.subrange(0, k as int));
        let mut j: usize = 0;
        assert(recs@.subrange(0, 0) =~= Seq::<Recording>::empty());
        assert(done + recordings_sources(k as int, recs@.subrange(0, 0)) =~= done);
        while j < recs.len()
            invariant
                j <= recs@.len(),
                recs@ == results@[k as int].recordings@,
                done == results_sources(results@.subrange(0, k as int)),
                identifications_match(out@, done + recordings_sources(k as int, recs@.subrange(0, j as int))),
            decreases recs@.len() - j,
        {
            let ghost prev = out@;
            let ghost prev_src = done + recordings_sources(k as int, recs@.subrange(0, j as int));
            push_recording(&mut out, k, &recs[j]);
            proof {
                let rec = recs@[j as int];
                let added = recording_groups(rec).map_values(|g: Option<ReleaseGroup>| (k as int, rec, g));
                let new_part = out@.subrange(prev.len() as int, out@.len() as int);
                assert(out@ =~= prev + new_part);
                assert forall|i: int| 0 <= i < new_part.len() implies identification_from(#[trigger] new_part[i], added[i]) by {
                    assert(new_part[i] == out@[prev.len() + i]);
                }
                lemma_match_append(prev, prev_src, new_part, added);
                let tk = recs@.subrange(0, j + 1);
                assert(tk.drop_last() =~= recs@.subrange(0, j as int));
                assert(tk.last() == rec);
                assert(recordings_sources(k as int, tk) == recordings_sources(k as int, recs@.subrange(0, j as int)) + added);
                assert(done + recordings_sources(k as int, tk) =~= prev_src + added);
            }
            j += 1;
        }
        proof {
            assert(recs@.subrange(0, j as int) =~= recs@);
            let tk = results@.subrange(0, k + 1);
            assert(tk.drop_last() =~= results@.subrange(0, k as int));
            assert(tk.last() == results@[k as int]);
            assert(results_sources(tk) == done + recordings_sources(k as int, recs@));
        }
        k += 1;
    }
    assert(results@.subrange(0, results@.len() as int) =~= results@);
    Ok(out)
}

}
