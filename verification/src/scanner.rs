//! Library scanning: which files are audio files, and the events a watch
//! over the library reports.

use vstd::prelude::*;
use crate::db::TrackFileInfo;
use crate::paths::{extension, path_extension};
use crate::text::{str_eq, to_lowercase, unicode_lowercase};

verus! {

/// Whether an extension, once lowercased, names a supported audio format.
pub open spec fn audio_extension(lower: Seq<char>) -> bool {
    lower == "mp3"@ || lower == "flac"@ || lower == "ogg"@ || lower == "wav"@ || lower == "m4a"@
}

/// Whether a path names an audio file by its extension.
pub open spec fn audio_path(path: Seq<char>) -> bool {
    match path_extension(path) {
        Some(e) => audio_extension(unicode_lowercase(e)),
        None => false,
    }
}

/// Check if a path is an audio file by extension.
pub fn is_audio_file(path: &str) -> (r: bool)
    ensures
        r == audio_path(path@),
{
    match extension(path) {
        Some(e) => {
            let lower = to_lowercase(e.as_str());
            let l = lower.as_str();
            str_eq(l, "mp3") || str_eq(l, "flac") || str_eq(l, "ogg") || str_eq(l, "wav") || str_eq(l, "m4a")
        },
        None => false,
    }
}

/// Check if a path looks like it could be an audio file (for deleted files,
/// which cannot be inspected, only named).
pub fn looks_like_audio_path(path: &str) -> (r: bool)
    ensures
        r == audio_path(path@),
{
    is_audio_file(path)
}

/// Events emitted by the file watcher.
#[derive(Debug, Clone)]
pub enum WatchEvent {
    /// A new audio file was created
    Created(String),
    /// An existing audio file was modified
    Modified(String),
    /// An audio file was removed
    Removed(String),
    /// A directory was created (may contain audio files)
    DirCreated(String),
    /// An error occurred while watching
    Error(String),
}

/// Errors that can occur during file watching.
#[derive(Debug, Clone)]
pub enum WatchError {
    Init(String),
    Watch(String),
}


/// The kind of file system change a watch reports.
#[derive(Debug, Clone, Copy, PartialEq, Eq, Structural)]
pub enum ChangeKind {
    /// A file was created
    FileCreated,
    /// A folder was created
    FolderCreated,
    /// A file's data changed
    DataModified,
    /// A file's metadata changed
    MetadataModified,
    /// A file was removed
    FileRemoved,
    /// Any other change
    Other,
}

/// The variant of a reported event.
#[derive(Debug, Clone, Copy, PartialEq, Eq, Structural)]
pub enum WatchEventKind {
    Created,
    Modified,
    Removed,
    DirCreated,
}

/// The kind of event a change is reported as, if any. A change to an
/// existing non-audio file is not reported; a created folder always is;
/// created and modified files are reported when they are audio files;
/// removed files when their name looks like an audio file's.
pub open spec fn reported_kind(kind: ChangeKind, path: Seq<char>, path_is_file: bool) -> Option<WatchEventKind> {
    if path_is_file && !audio_path(path) {
        None
    } else {
        match kind {
            ChangeKind::FileCreated => if audio_path(path) { Some(WatchEventKind::Created) } else { None },
            ChangeKind::FolderCreated => Some(WatchEventKind::DirCreated),
            ChangeKind::DataModified | ChangeKind::MetadataModified => if audio_path(path) {
                Some(WatchEventKind::Modified)
            } else {
                None
            },
            ChangeKind::FileRemoved => if audio_path(path) { Some(WatchEventKind::Removed) } else { None },
            ChangeKind::Other => None,
        }
    }
}

/// Whether an event is of the given kind and carries the given path.
pub open spec fn event_is(e: WatchEvent, k: WatchEventKind, path: Seq<char>) -> bool {
    match e {
        WatchEvent::Created(p) => k == WatchEventKind::Created && p@ == path,
        WatchEvent::Modified(p) => k == WatchEventKind::Modified && p@ == path,
        WatchEvent::Removed(p) => k == WatchEventKind::Removed && p@ == path,
        WatchEvent::DirCreated(p) => k == WatchEventKind::DirCreated && p@ == path,
        WatchEvent::Error(_) => false,
    }
}

/// The event a change at `path` is reported as, if any.
pub fn watch_event_for(kind: ChangeKind, path: &str, path_is_file: bool) -> (r: Option<WatchEvent>)
    ensures
        match reported_kind(kind, path@, path_is_file) {
            Some(k) => r matches Some(e) && event_is(e, k, path@),
            None => r is None,
        },
{
    let audio = is_audio_file(path);
    if path_is_file && !audio {
        return None;
    }
    match kind {
        ChangeKind::FileCreated => if audio { Some(WatchEvent::Created(crate::text::owned(path))) } else { None },
        ChangeKind::FolderCreated => Some(WatchEvent::DirCreated(crate::text::owned(path))),
        ChangeKind::DataModified | ChangeKind::MetadataModified => if audio {
            Some(WatchEvent::Modified(crate::text::owned(path)))
        } else {
            None
        },
        ChangeKind::FileRemoved => if looks_like_audio_path(path) {
            Some(WatchEvent::Removed(crate::text::owned(path)))
        } else {
            None
        },
        ChangeKind::Other => None,
    }
}


/// The record the database holds for a path: the last one listed for it,
/// as a map from paths keeps the last entry put in.
pub open spec fn lookup_path(db: Seq<TrackFileInfo>, path: Seq<char>) -> Option<TrackFileInfo>
    decreases db.len(),
{
    if db.len() == 0 {
        None
    } else if db.last().path@ == path {
        Some(db.last())
    } else {
        lookup_path(db.drop_last(), path)
    }
}

/// How a file found on disk compares with the database.
#[derive(Debug, Clone, Copy, PartialEq, Eq, Structural)]
pub enum FileState {
    /// Not in the database
    New,
    /// In the database with no or another modification time
    Modified,
    /// In the database with the same modification time
    Unchanged,
}

/// How a file found with modification time `mtime` compares with the
/// database.
pub open spec fn file_state(db: Seq<TrackFileInfo>, path: Seq<char>, mtime: Option<i64>) -> FileState {
    match lookup_path(db, path) {
        None => FileState::New,
        Some(t) => if t.mtime is None || mtime != t.mtime {
            FileState::Modified
        } else {
            FileState::Unchanged
        },
    }
}

/// Whether a path is among the files found.
pub open spec fn was_found(found: Seq<(String, Option<i64>)>, path: Seq<char>) -> bool {
    exists|i: int| 0 <= i < found.len() && (#[trigger] found[i]).0@ == path
}

/// The database paths no longer found on disk, each once, in the order
/// they are first listed.
pub open spec fn removed_paths(db: Seq<TrackFileInfo>, found: Seq<(String, Option<i64>)>) -> Seq<Seq<char>>
    decreases db.len(),
{
    if db.len() == 0 {
        Seq::empty()
    } else {
        let rest = removed_paths(db.drop_last(), found);
        let p = db.last().path@;
        if was_found(found, p) || rest.contains(p) {
            rest
        } else {
            rest.push(p)
        }
    }
}

/// The paths of the found files in a given state, in order.
pub open spec fn paths_in_state(db: Seq<TrackFileInfo>, found: Seq<(String, Option<i64>)>, st: FileState) -> Seq<Seq<char>>
    decreases found.len(),
{
    if found.len() == 0 {
        Seq::empty()
    } else {
        let rest = paths_in_state(db, found.drop_last(), st);
        if file_state(db, found.last().0@, found.last().1) == st {
            rest.push(found.last().0@)
        } else {
            rest
        }
    }
}

/// The database IDs and new modification times of the modified files, in
/// order.
pub open spec fn modified_entries(db: Seq<TrackFileInfo>, found: Seq<(String, Option<i64>)>) -> Seq<(i64, Option<i64>)>
    decreases found.len(),
{
    if found.len() == 0 {
        Seq::empty()
    } else {
        let rest = modified_entries(db, found.drop_last());
        match lookup_path(db, found.last().0@) {
            Some(t) => if t.mtime is None || found.last().1 != t.mtime {
                rest.push((t.id, found.last().1))
            } else {
                rest
            },
            None => rest,
        }
    }
}

/// The outcome of comparing a library folder with the database.
#[derive(Debug, Clone)]
pub struct ScanPlan {
    /// Files found that the database does not list
    pub new_files: Vec<String>,
    /// Files whose modification time changed: database ID and new time
    pub modified: Vec<(i64, Option<i64>)>,
    /// Paths of the modified files
    pub modified_files: Vec<String>,
    /// How many files are unchanged
    pub unchanged: usize,
    /// Database paths no longer on disk
    pub removed: Vec<String>,
}

fn lookup_exec(db: &[TrackFileInfo], path: &str) -> (r: Option<usize>)
    ensures
        match r {
            Some(i) => i < db@.len() && lookup_path(db@, path@) == Some(db@[i as int]),
            None => lookup_path(db@, path@) is None,
        },
{
    let mut k: usize = db.len();
    assert(db@.subrange(0, db@.len() as int) =~= db@);
    while k > 0
        invariant
            k <= db@.len(),
            lookup_path(db@, path@) == lookup_path(db@.subrange(0, k as int), path@),
        decreases k,
    {
        let ghost pre = db@.subrange(0, k as int);
        assert(pre.drop_last() =~= db@.subrange(0, k - 1));
        if crate::text::str_eq(db[k - 1].path.as_str(), path) {
            return Some(k - 1);
        }
        k -= 1;
    }
    None
}

fn found_exec(found: &[(String, Option<i64>)], path: &str) -> (r: bool)
    ensures
        r == was_found(found@, path@),
{
    let mut i: usize = 0;
    while i < found.len()
        invariant
            i <= found@.len(),
            forall|j: int| 0 <= j < i ==> (#[trigger] found@[j]).0@ != path@,
        decreases found@.len() - i,
    {
        if crate::text::str_eq(found[i].0.as_str(), path) {
            return true;
        }
        i += 1;
    }
    false
}

fn contains_path(v: &[String], path: &str) -> (r: bool)
    ensures
        r == crate::text::strings_view(v@).contains(path@),
{
    let mut i: usize = 0;
    while i < v.len()
        invariant
            i <= v@.len(),
            forall|j: int| 0 <= j < i ==> (#[trigger] v@[j])@ != path@,
        decreases v@.len() - i,
    {
        if crate::text::str_eq(v[i].as_str(), path) {
            assert(crate::text::strings_view(v@)[i as int] == path@);
            return true;
        }
        i += 1;
    }
    false
}

/// Compares the audio files found in a library folder, with their
/// modification times, against the database's records.
pub fn plan_incremental_scan(db: &[TrackFileInfo], found: &[(String, Option<i64>)]) -> (r: ScanPlan)
    ensures
        crate::text::strings_view(r.new_files@) == paths_in_state(db@, found@, FileState::New),
        crate::text::strings_view(r.modified_files@) == paths_in_state(db@, found@, FileState::Modified),
        r.modified@ == modified_entries(db@, found@),
        r.unchanged == paths_in_state(db@, found@, FileState::Unchanged).len(),
        crate::text::strings_view(r.removed@) == removed_paths(db@, found@),
{
    let mut new_files: Vec<String> = Vec::new();
    let mut modified: Vec<(i64, Option<i64>)> = Vec::new();
    let mut modified_files: Vec<String> = Vec::new();
    let mut unchanged: usize = 0;
    let mut i: usize = 0;
    while i < found.len()
        invariant
            i <= found@.len(),
            crate::text::strings_view(new_files@) == paths_in_state(db@, found@.subrange(0, i as int), FileState::New),
            crate::text::strings_view(modified_files@) == paths_in_state(
                db@,
                found@.subrange(0, i as int),
                FileState::Modified,
            ),
            modified@ == modified_entries(db@, found@.subrange(0, i as int)),
            unchanged == paths_in_state(db@, found@.subrange(0, i as int), FileState::Unchanged).len(),
            unchanged <= i,
        decreases found@.len() - i,
    {
        let ghost pre = found@.subrange(0, i as int);
        let ghost post = found@.subrange(0, i + 1);
        assert(post.drop_last() =~= pre);
        let (path, mtime) = (&found[i].0, found[i].1);
        match lookup_exec(db, path.as_str()) {
            None => {
                new_files.push(path.clone());
                assert(crate::text::strings_view(new_files@) =~= paths_in_state(db@, pre, FileState::New).push(path@));
            },
            Some(k) => {
                let t = &db[k];
                if t.mtime.is_none() || mtime != t.mtime {
                    modified.push((t.id, mtime));
                    modified_files.push(path.clone());
                    assert(crate::text::strings_view(modified_files@) =~= paths_in_state(
                        db@,
                        pre,
                        FileState::Modified,
                    ).push(path@));
                } else {
                    unchanged = unchanged + 1;
                }
            },
        }
        i += 1;
    }
    assert(found@.subrange(0, found@.len() as int) =~= found@);
    let mut removed: Vec<String> = Vec::new();
    let mut j: usize = 0;
    while j < db.len()
        invariant
            j <= db@.len(),
            crate::text::strings_view(removed@) == removed_paths(db@.subrange(0, j as int), found@),
        decreases db@.len() - j,
    {
        let ghost pre = db@.subrange(0, j as int);
        let ghost post = db@.subrange(0, j + 1);
        assert(post.drop_last() =~= pre);
        let p = &db[j].path;
        if !found_exec(found, p.as_str()) && !contains_path(removed.as_slice(), p.as_str()) {
            removed.push(p.clone());
            assert(crate::text::strings_view(removed@) =~= removed_paths(pre, found@).push(p@));
        }
        j += 1;
    }
    assert(db@.subrange(0, db@.len() as int) =~= db@);
    ScanPlan { new_files, modified, modified_files, unchanged, removed }
}


/// Law: every file found is counted exactly once, as new, modified or
/// unchanged.
pub proof fn scan_accounts_for_every_file(db: Seq<TrackFileInfo>, found: Seq<(String, Option<i64>)>)
    ensures
        paths_in_state(db, found, FileState::New).len() + paths_in_state(db, found, FileState::Modified).len()
            + paths_in_state(db, found, FileState::Unchanged).len() == found.len(),
    decreases found.len(),
{
    if found.len() > 0 {
        scan_accounts_for_every_file(db, found.drop_last());
    }
}

/// Law: no path reported removed was found on disk.
pub proof fn removed_files_were_not_found(db: Seq<TrackFileInfo>, found: Seq<(String, Option<i64>)>)
    ensures
        forall|i: int| 0 <= i < removed_paths(db, found).len() ==> !was_found(found, #[trigger] removed_paths(db, found)[i]),
    decreases db.len(),
{
    if db.len() > 0 {
        removed_files_were_not_found(db.drop_last(), found);
        let rest = removed_paths(db.drop_last(), found);
        let p = db.last().path@;
        assert forall|i: int| 0 <= i < removed_paths(db, found).len() implies !was_found(
            found,
            #[trigger] removed_paths(db, found)[i],
        ) by {
            if !(was_found(found, p) || rest.contains(p)) && i == rest.len() {
                assert(removed_paths(db, found)[i] == p);
            } else {
                assert(removed_paths(db, found)[i] == rest[i]);
            }
        }
    }
}


/// What a watch loop learns at each turn: an event from the watcher, or
/// that waiting for one timed out.
#[derive(Debug, Clone)]
pub enum WatchInput {
    /// The watcher reported an event
    Event(WatchEvent),
    /// No event came within the batch delay; `quiet` tells whether the
    /// batch delay has passed since the last event
    Timeout { quiet: bool },
}

/// The file changes waiting to be handled, as paths and the last change
/// seen for each.
pub open spec fn pending_view(p: Seq<(String, WatchEventKind)>) -> Seq<(Seq<char>, WatchEventKind)> {
    p.map_values(|e: (String, WatchEventKind)| (e.0@, e.1))
}

/// Whether `i` is the first pending entry for `path`.
pub open spec fn first_entry_for(pend: Seq<(Seq<char>, WatchEventKind)>, path: Seq<char>, i: int) -> bool {
    &&& 0 <= i < pend.len()
    &&& pend[i].0 == path
    &&& forall|j: int| 0 <= j < i ==> pend[j].0 != path
}

/// The pending changes after a change to `path`: it replaces the change
/// already pending for that path, or joins the end.
pub open spec fn recorded(
    pend: Seq<(Seq<char>, WatchEventKind)>,
    path: Seq<char>,
    k: WatchEventKind,
) -> Seq<(Seq<char>, WatchEventKind)> {
    if exists|i: int| first_entry_for(pend, path, i) {
        pend.update(choose|i: int| first_entry_for(pend, path, i), (path, k))
    } else {
        pend.push((path, k))
    }
}

/// The file change an event records, if any: created, modified and removed
/// files are batched; created directories and errors are only reported.
pub open spec fn batched_change(e: WatchEvent) -> Option<(Seq<char>, WatchEventKind)> {
    match e {
        WatchEvent::Created(p) => Some((p@, WatchEventKind::Created)),
        WatchEvent::Modified(p) => Some((p@, WatchEventKind::Modified)),
        WatchEvent::Removed(p) => Some((p@, WatchEventKind::Removed)),
        _ => None,
    }
}

/// The pending changes after a turn of the watch loop, and the batch it
/// hands on: at a timeout after the batch delay has passed quietly, all
/// pending changes leave as one batch.
pub open spec fn watch_outcome(
    pend: Seq<(Seq<char>, WatchEventKind)>,
    input: WatchInput,
) -> (Seq<(Seq<char>, WatchEventKind)>, Option<Seq<(Seq<char>, WatchEventKind)>>) {
    match input {
        WatchInput::Event(e) => match batched_change(e) {
            Some((p, k)) => (recorded(pend, p, k), None),
            None => (pend, None),
        },
        WatchInput::Timeout { quiet } => if pend.len() > 0 && quiet {
            (Seq::empty(), Some(pend))
        } else {
            (pend, None)
        },
    }
}

fn record_change(pending: &mut Vec<(String, WatchEventKind)>, path: String, k: WatchEventKind)
    ensures
        pending_view(final(pending)@) == recorded(pending_view(old(pending)@), path@, k),
{
    let ghost pv = pending_view(pending@);
    let mut i: usize = 0;
    while i < pending.len()
        invariant
            i <= pending@.len(),
            pending@ == old(pending)@,
            pv == pending_view(pending@),
            forall|j: int| 0 <= j < i ==> pv[j].0 != path@,
        decreases pending@.len() - i,
    {
        if str_eq(pending[i].0.as_str(), path.as_str()) {
            assert(first_entry_for(pv, path@, i as int));
            assert forall|m: int| first_entry_for(pv, path@, m) implies m == i by {
                if m < i {
                    assert(pv[m].0 != path@);
                } else if m > i {
                    assert(pv[i as int].0 == path@);
                }
            }
            pending.set(i, (path, k));
            assert(pending_view(pending@) =~= pv.update(i as int, (path@, k)));
            return;
        }
        i += 1;
    }
    assert(!exists|m: int| first_entry_for(pv, path@, m));
    pending.push((path, k));
    assert(pending_view(pending@) =~= pv.push((path@, k)));
}

/// One turn of the watch loop: the pending changes after it, and the batch
/// to handle now, if any.
pub fn watch_step(pending: Vec<(String, WatchEventKind)>, input: WatchInput) -> (r: (
    Vec<(String, WatchEventKind)>,
    Option<Vec<(String, WatchEventKind)>>,
))
    ensures
        pending_view(r.0@) == watch_outcome(pending_view(pending@), input).0,
        match r.1 {
            Some(b) => watch_outcome(pending_view(pending@), input).1 == Some(pending_view(b@)),
            None => watch_outcome(pending_view(pending@), input).1 is None,
        },
{
    let mut pending = pending;
    match input {
        WatchInput::Event(e) => {
            match e {
                WatchEvent::Created(p) => record_change(&mut pending, p, WatchEventKind::Created),
                WatchEvent::Modified(p) => record_change(&mut pending, p, WatchEventKind::Modified),
                WatchEvent::Removed(p) => record_change(&mut pending, p, WatchEventKind::Removed),
                _ => {},
            }
            (pending, None)
        },
        WatchInput::Timeout { quiet } => {
            if pending.len() > 0 && quiet {
                let empty: Vec<(String, WatchEventKind)> = Vec::new();
                assert(pending_view(empty@) =~= Seq::<(Seq<char>, WatchEventKind)>::empty());
                (empty, Some(pending))
            } else {
                (pending, None)
            }
        },
    }
}

/// How many changes of a kind a batch holds.
pub open spec fn kind_count(b: Seq<(Seq<char>, WatchEventKind)>, k: WatchEventKind) -> nat
    decreases b.len(),
{
    if b.len() == 0 {
        0
    } else {
        kind_count(b.drop_last(), k) + (if b.last().1 == k { 1nat } else { 0nat })
    }
}

/// The counts of a batch of changes.
#[derive(Debug, Clone, Copy, PartialEq, Eq, Structural)]
pub struct BatchCounts {
    pub created: usize,
    pub modified: usize,
    pub removed: usize,
}

proof fn lemma_kind_count_bound(b: Seq<(Seq<char>, WatchEventKind)>, k: WatchEventKind)
    ensures
        kind_count(b, k) <= b.len(),
    decreases b.len(),
{
    if b.len() > 0 {
        lemma_kind_count_bound(b.drop_last(), k);
    }
}

/// Counts the created, modified and removed files of a batch.
pub fn batch_counts(batch: &[(String, WatchEventKind)]) -> (r: BatchCounts)
    ensures
        r.created == kind_count(pending_view(batch@), WatchEventKind::Created),
        r.modified == kind_count(pending_view(batch@), WatchEventKind::Modified),
        r.removed == kind_count(pending_view(batch@), WatchEventKind::Removed),
{
    let ghost bv = pending_view(batch@);
    let mut created: usize = 0;
    let mut modified: usize = 0;
    let mut removed: usize = 0;
    let mut i: usize = 0;
    while i < batch.len()
        invariant
            i <= batch@.len(),
            bv == pending_view(batch@),
            created == kind_count(bv.subrange(0, i as int), WatchEventKind::Created),
            modified == kind_count(bv.subrange(0, i as int), WatchEventKind::Modified),
            removed == kind_count(bv.subrange(0, i as int), WatchEventKind::Removed),
        decreases batch@.len() - i,
    {
        let ghost pre = bv.subrange(0, i as int);
        let ghost post = bv.subrange(0, i + 1);
        assert(post.drop_last() =~= pre);
        assert(post.last() == bv[i as int]);
        proof {
            lemma_kind_count_bound(pre, WatchEventKind::Created);
            lemma_kind_count_bound(pre, WatchEventKind::Modified);
            lemma_kind_count_bound(pre, WatchEventKind::Removed);
        }
        match batch[i].1 {
            WatchEventKind::Created => created = created + 1,
            WatchEventKind::Modified => modified = modified + 1,
            WatchEventKind::Removed => removed = removed + 1,
            WatchEventKind::DirCreated => {},
        }
        i += 1;
    }
    assert(bv.subrange(0, batch@.len() as int) =~= bv);
    BatchCounts { created, modified, removed }
}

/// Whether no path is pending twice.
pub open spec fn distinct_paths(pend: Seq<(Seq<char>, WatchEventKind)>) -> bool {
    forall|i: int, j: int| 0 <= i < j < pend.len() ==> pend[i].0 != pend[j].0
}

/// Law: the watch loop never holds two pending changes for one path, and
/// after a change to a path the change pending for it is that last one.
pub proof fn pending_keeps_latest_change_per_path(
    pend: Seq<(Seq<char>, WatchEventKind)>,
    path: Seq<char>,
    k: WatchEventKind,
)
    requires
        distinct_paths(pend),
    ensures
        distinct_paths(recorded(pend, path, k)),
        exists|i: int| first_entry_for(recorded(pend, path, k), path, i) && recorded(pend, path, k)[i].1 == k,
        recorded(pend, path, k).len() <= pend.len() + 1,
{
    let r = recorded(pend, path, k);
    if exists|i: int| first_entry_for(pend, path, i) {
        let i = choose|i: int| first_entry_for(pend, path, i);
        assert(first_entry_for(r, path, i));
        assert forall|a: int, b: int| 0 <= a < b < r.len() implies r[a].0 != r[b].0 by {
            if a == i {
                assert(pend[b].0 != pend[i].0);
            } else if b == i {
                assert(pend[a].0 != pend[i].0);
            }
        }
    } else {
        let n = pend.len() as int;
        assert forall|j: int| 0 <= j < n implies r[j].0 != path by {
            if pend[j].0 == path {
                lemma_some_first_entry(pend, path, j);
            }
        }
        assert forall|a: int, b: int| 0 <= a < b < r.len() implies r[a].0 != r[b].0 by {
            if b == n {
                assert(r[a].0 != path);
            }
        }
        assert(first_entry_for(r, path, n));
    }
}

proof fn lemma_some_first_entry(pend: Seq<(Seq<char>, WatchEventKind)>, path: Seq<char>, a: int)
    requires
        0 <= a < pend.len(),
        pend[a].0 == path,
    ensures
        exists|c: int| first_entry_for(pend, path, c),
    decreases a,
{
    if exists|j: int| 0 <= j < a && pend[j].0 == path {
        let j = choose|j: int| 0 <= j < a && pend[j].0 == path;
        lemma_some_first_entry(pend, path, j);
    } else {
        assert(first_entry_for(pend, path, a));
    }
}


/// Law: every change to an audio file is reported under its own kind:
/// creation as created, a data or metadata change as modified, removal as
/// removed; a created folder is reported as a created directory; other
/// changes are not reported.
pub proof fn audio_changes_are_reported(path: Seq<char>, path_is_file: bool)
    requires
        audio_path(path),
    ensures
        reported_kind(ChangeKind::FileCreated, path, path_is_file) == Some(WatchEventKind::Created),
        reported_kind(ChangeKind::DataModified, path, path_is_file) == Some(WatchEventKind::Modified),
        reported_kind(ChangeKind::MetadataModified, path, path_is_file) == Some(WatchEventKind::Modified),
        reported_kind(ChangeKind::FileRemoved, path, path_is_file) == Some(WatchEventKind::Removed),
        reported_kind(ChangeKind::FolderCreated, path, path_is_file) == Some(WatchEventKind::DirCreated),
        reported_kind(ChangeKind::Other, path, path_is_file) is None,
{
}

/// Law: a change at a path that does not name an audio file is never
/// reported as a file event; only a created folder (not a file) is
/// reported, as a created directory.
pub proof fn non_audio_changes_are_not_file_events(kind: ChangeKind, path: Seq<char>, path_is_file: bool)
    requires
        !audio_path(path),
    ensures
        reported_kind(kind, path, path_is_file) == (if kind == ChangeKind::FolderCreated && !path_is_file {
            Some(WatchEventKind::DirCreated)
        } else {
            None
        }),
{
}

}
