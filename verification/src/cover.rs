//! Cover art: the image found for a track, where it came from, and the
//! naming rules of the on-disk cache of downloaded covers.
//!
//! Reading and writing image files is the caller's work.

use vstd::prelude::*;
use crate::paths::{join, path_exists, path_join};
use crate::text::{chars_of, concat, contains_chars, contains_seq, opt_view, owned, str_eq};

verus! {

/// Where a cover image was found
#[derive(Debug, Clone, PartialEq)]
pub enum CoverSource {
    /// Embedded in the audio file's tags
    Embedded,
    /// An image file beside the audio file
    Sidecar(String),
    /// The local cache of downloaded covers
    Cached(String),
    /// Downloaded from the cover art archive
    Remote,
}

/// A cover art image with its metadata
#[derive(Debug, Clone)]
pub struct CoverArt {
    /// Raw image data (JPEG, PNG, etc.)
    pub data: Vec<u8>,
    /// MIME type of the image
    pub mime_type: String,
    /// Where the cover came from
    pub source: CoverSource,
    /// Album the cover belongs to, if known
    pub album: Option<String>,
    /// Artist the cover belongs to, if known
    pub artist: Option<String>,
}

/// Result of resolving a track's cover
#[derive(Debug, Clone)]
pub struct CoverArtResult {
    /// The cover, if one was found
    pub cover: Option<CoverArt>,
    /// Whether a download is still under way
    pub fetch_pending: bool,
}

/// A character's code with ASCII letters folded to lowercase.
pub open spec fn ascii_fold(c: char) -> u32 {
    if 'A' <= c && c <= 'Z' {
        (c as u32 + 32) as u32
    } else {
        c as u32
    }
}

/// Whether two texts are equal when ASCII letters are compared without
/// regard to case (`str::eq_ignore_ascii_case`).
pub open spec fn eq_ignore_ascii_case(a: Seq<char>, b: Seq<char>) -> bool {
    a.len() == b.len() && forall|i: int| 0 <= i < a.len() ==> ascii_fold(#[trigger] a[i]) == ascii_fold(b[i])
}

fn fold_char(c: char) -> (r: u32)
    ensures
        r == ascii_fold(c),
{
    if 'A' <= c && c <= 'Z' {
        (c as u32) + 32
    } else {
        c as u32
    }
}

/// Compares two texts without regard to the case of ASCII letters.
pub fn equal_ignoring_ascii_case(a: &str, b: &str) -> (r: bool)
    ensures
        r == eq_ignore_ascii_case(a@, b@),
{
    let x = chars_of(a);
    let y = chars_of(b);
    if x.len() != y.len() {
        return false;
    }
    let mut i: usize = 0;
    while i < x.len()
        invariant
            x@ == a@,
            y@ == b@,
            x@.len() == y@.len(),
            i <= x@.len(),
            forall|k: int| 0 <= k < i ==> ascii_fold(#[trigger] x@[k]) == ascii_fold(y@[k]),
        decreases x@.len() - i,
    {
        if fold_char(x[i]) != fold_char(y[i]) {
            return false;
        }
        i += 1;
    }
    true
}

/// Whether an expected value agrees with the cover's: either is unknown, or
/// they are equal ignoring ASCII case.
pub open spec fn agrees(cover: Option<Seq<char>>, expected: Option<Seq<char>>) -> bool {
    match (cover, expected) {
        (Some(c), Some(e)) => eq_ignore_ascii_case(c, e),
        _ => true,
    }
}

fn agrees_with(cover: &Option<String>, expected: Option<&str>) -> (r: bool)
    ensures
        r == agrees(opt_view(*cover), match expected {
            Some(e) => Some(e@),
            None => None,
        }),
{
    match (cover, expected) {
        (Some(c), Some(e)) => equal_ignoring_ascii_case(c.as_str(), e),
        _ => true,
    }
}

impl CoverArt {
    /// Check if this cover matches the given album/artist: where both the
    /// cover and the request name a value, they must agree ignoring case.
    pub fn matches(&self, album: Option<&str>, artist: Option<&str>) -> (r: bool)
        ensures
            r == (agrees(opt_view(self.album), match album {
                Some(e) => Some(e@),
                None => None,
            }) && agrees(opt_view(self.artist), match artist {
                Some(e) => Some(e@),
                None => None,
            })),
    {
        let album_matches = agrees_with(&self.album, album);
        let artist_matches = agrees_with(&self.artist, artist);
        album_matches && artist_matches
    }
}

/// The cache of downloaded covers: one image file per release, named by
/// the release ID.
pub struct CoverCache {
    cache_dir: String,
}

/// The cache file of a release with a given extension.
pub open spec fn cache_file(dir: Seq<char>, release_id: Seq<char>, ext: Seq<char>) -> Seq<char> {
    path_join(dir, release_id + "."@ + ext)
}

/// The MIME type of a cached cover by its file extension: PNG for `png`,
/// else JPEG.
pub open spec fn cached_mime_of(ext: Option<Seq<char>>) -> Seq<char> {
    if ext == Some("png"@) {
        "image/png"@
    } else {
        "image/jpeg"@
    }
}

/// The MIME type of a cached cover by its file extension.
pub fn cached_mime(ext: Option<&str>) -> (r: &'static str)
    ensures
        r@ == cached_mime_of(match ext {
            Some(e) => Some(e@),
            None => None,
        }),
{
    match ext {
        Some(e) => if str_eq(e, "png") {
            "image/png"
        } else {
            "image/jpeg"
        },
        None => "image/jpeg",
    }
}

/// The extension a cover is cached under: `png` for a MIME type that
/// mentions png, else `jpg`.
pub open spec fn cache_extension_of(mime: Seq<char>) -> Seq<char> {
    if contains_seq(mime, "png"@) {
        "png"@
    } else {
        "jpg"@
    }
}

/// The extension a cover is cached under.
pub fn cache_extension(mime_type: &str) -> (r: &'static str)
    ensures
        r@ == cache_extension_of(mime_type@),
{
    let m = chars_of(mime_type);
    let p = chars_of("png");
    if contains_chars(m.as_slice(), p.as_slice()) {
        "png"
    } else {
        "jpg"
    }
}

impl View for CoverCache {
    /// The cache directory.
    type V = Seq<char>;

    closed spec fn view(&self) -> Seq<char> {
        self.cache_dir@
    }
}

/// The extension of the file a cached cover is read from: `jpg` when that
/// file exists, else `png` when that one does, else `jpg` for a new entry.
pub open spec fn cached_extension_of(jpg_exists: bool, png_exists: bool) -> Seq<char> {
    if jpg_exists {
        "jpg"@
    } else if png_exists {
        "png"@
    } else {
        "jpg"@
    }
}

/// The extension of the file a cached cover is read from, given which of
/// the two files exist.
pub fn cached_extension(jpg_exists: bool, png_exists: bool) -> (r: &'static str)
    ensures
        r@ == cached_extension_of(jpg_exists, png_exists),
{
    if jpg_exists {
        "jpg"
    } else if png_exists {
        "png"
    } else {
        "jpg"
    }
}

impl CoverCache {
    /// A cache kept in the given directory.
    pub fn in_dir(cache_dir: String) -> (r: CoverCache)
        ensures
            r@ == cache_dir@,
    {
        CoverCache { cache_dir }
    }

    /// The directory the cache is kept in.
    pub fn dir(&self) -> (r: &String)
        ensures
            r@ == self@,
    {
        &self.cache_dir
    }

    /// The file a release's cover is stored in.
    pub fn file_for(&self, release_id: &str, ext: &str) -> (r: String)
        ensures
            r@ == cache_file(self@, release_id@, ext@),
    {
        let a = concat(release_id, ".");
        let name = concat(a.as_str(), ext);
        join(self.cache_dir.as_str(), name.as_str())
    }

    /// The file a release's cover is looked up in: the `.jpg` file when it
    /// exists, else the `.png` file when it exists, else the `.jpg` file.
    /// Which of the two exists is not stated.
    pub fn cache_path(&self, release_id: &str) -> (r: String)
        ensures
            r@ == cache_file(self@, release_id@, "jpg"@) || r@ == cache_file(
                self@,
                release_id@,
                "png"@,
            ),
    {
        let jpg_exists = path_exists(self.file_for(release_id, "jpg").as_str());
        let png_exists = if jpg_exists {
            false
        } else {
            path_exists(self.file_for(release_id, "png").as_str())
        };
        self.file_for(release_id, cached_extension(jpg_exists, png_exists))
    }

    /// Whether a release's cover is cached. What is on disk is not stated.
    pub fn contains(&self, release_id: &str) -> bool {
        let path = self.cache_path(release_id);
        path_exists(path.as_str())
    }
}


/// The file stems a sidecar cover image goes by, in the order they are
/// tried.
pub open spec fn cover_stems() -> Seq<Seq<char>> {
    seq!["cover"@, "folder"@, "album"@, "front"@, "artwork"@, "albumart"@, "albumartsmall"@]
}

/// The image extensions a sidecar cover may have, in the order they are
/// tried.
pub open spec fn image_extensions() -> Seq<Seq<char>> {
    seq!["jpg"@, "jpeg"@, "png"@, "gif"@, "webp"@]
}

/// The file names tried for a sidecar cover, in order: each stem with each
/// extension.
pub open spec fn sidecar_names() -> Seq<Seq<char>> {
    Seq::new(35, |k: int| cover_stems()[k / 5] + "."@ + image_extensions()[k % 5])
}

fn stem_at(i: usize) -> (r: &'static str)
    requires
        i < 7,
    ensures
        r@ == cover_stems()[i as int],
{
    if i == 0 { "cover" } else if i == 1 { "folder" } else if i == 2 { "album" } else if i == 3 { "front" }
    else if i == 4 { "artwork" } else if i == 5 { "albumart" } else { "albumartsmall" }
}

fn extension_at(i: usize) -> (r: &'static str)
    requires
        i < 5,
    ensures
        r@ == image_extensions()[i as int],
{
    if i == 0 { "jpg" } else if i == 1 { "jpeg" } else if i == 2 { "png" } else if i == 3 { "gif" } else { "webp" }
}

/// The file names tried for a sidecar cover beside an audio file, in order.
pub fn sidecar_candidates() -> (r: Vec<String>)
    ensures
        crate::text::strings_view(r@) == sidecar_names(),
{
    let mut out: Vec<String> = Vec::new();
    let mut i: usize = 0;
    while i < 7
        invariant
            i <= 7,
            crate::text::strings_view(out@) == sidecar_names().take(5 * i),
        decreases 7 - i,
    {
        let mut j: usize = 0;
        while j < 5
            invariant
                i < 7,
                j <= 5,
                crate::text::strings_view(out@) == sidecar_names().take(5 * i + j),
            decreases 5 - j,
        {
            let a = concat(stem_at(i), ".");
            let name = concat(a.as_str(), extension_at(j));
            out.push(name);
            proof {
                let k = 5 * i + j;
                assert(k / 5 == i as int && k % 5 == j as int) by (nonlinear_arith)
                    requires
                        k == 5 * i + j,
                        j < 5,
                ;
                assert(k < 35);
                assert(sidecar_names()[k] == cover_stems()[i as int] + "."@ + image_extensions()[j as int]);
                assert(name@ == sidecar_names()[k]);
                assert(sidecar_names().take(k + 1) =~= sidecar_names().take(k).push(sidecar_names()[k]));
                assert(crate::text::strings_view(out@) =~= sidecar_names().take(k + 1));
            }
            j += 1;
        }
        i += 1;
    }
    assert(sidecar_names().take(35) =~= sidecar_names());
    out
}

/// Whether a lowercased stem is one a sidecar cover goes by.
pub fn is_cover_stem(stem: &str) -> (r: bool)
    ensures
        r == cover_stems().contains(stem@),
{
    let mut i: usize = 0;
    while i < 7
        invariant
            i <= 7,
            forall|k: int| 0 <= k < i ==> cover_stems()[k] != stem@,
        decreases 7 - i,
    {
        if str_eq(stem, stem_at(i)) {
            assert(cover_stems()[i as int] == stem@);
            return true;
        }
        i += 1;
    }
    assert(!cover_stems().contains(stem@));
    false
}

/// Whether a lowercased extension is one a sidecar cover may have.
pub fn is_image_extension(ext: &str) -> (r: bool)
    ensures
        r == image_extensions().contains(ext@),
{
    let mut i: usize = 0;
    while i < 5
        invariant
            i <= 5,
            forall|k: int| 0 <= k < i ==> image_extensions()[k] != ext@,
        decreases 5 - i,
    {
        if str_eq(ext, extension_at(i)) {
            assert(image_extensions()[i as int] == ext@);
            return true;
        }
        i += 1;
    }
    assert(!image_extensions().contains(ext@));
    false
}

/// The MIME type of a sidecar image by its extension; JPEG when unknown.
pub open spec fn sidecar_mime_of(ext: Option<Seq<char>>) -> Seq<char> {
    match ext {
        Some(e) => if e == "jpg"@ || e == "jpeg"@ {
            "image/jpeg"@
        } else if e == "png"@ {
            "image/png"@
        } else if e == "gif"@ {
            "image/gif"@
        } else if e == "webp"@ {
            "image/webp"@
        } else {
            "image/jpeg"@
        },
        None => "image/jpeg"@,
    }
}

/// The MIME type of a sidecar image by its extension.
pub fn sidecar_mime(ext: Option<&str>) -> (r: &'static str)
    ensures
        r@ == sidecar_mime_of(match ext {
            Some(e) => Some(e@),
            None => None,
        }),
{
    match ext {
        Some(e) => if str_eq(e, "jpg") || str_eq(e, "jpeg") {
            "image/jpeg"
        } else if str_eq(e, "png") {
            "image/png"
        } else if str_eq(e, "gif") {
            "image/gif"
        } else if str_eq(e, "webp") {
            "image/webp"
        } else {
            "image/jpeg"
        },
        None => "image/jpeg",
    }
}

}
