//! Conversion of MusicBrainz responses into domain models.
//!
//! This is the one place where response types become domain types, so a
//! change in the service's response format stays here and in `dto`.

use vstd::prelude::*;
use crate::time::{duration_from_millis, millis_duration};
use super::dto;
use super::dto::{ArtistCredit, Medium, Release, Tag};
use crate::enrichment::domain::IdentifiedTrack;
use crate::text::{
    char_to_uppercase, chars_of, clone_opt, is_whitespace, opt_view, owned, push_char, push_str,
    unicode_uppercase, unicode_whitespace,
};

verus! {

/// The text one credit contributes: the credited name (else the official
/// name) followed by the join phrase, if any.
pub open spec fn credit_text(c: ArtistCredit) -> Seq<char> {
    (match c.name {
        Some(n) => n@,
        None => c.artist.name@,
    }) + (match c.joinphrase {
        Some(j) => j@,
        None => Seq::<char>::empty(),
    })
}

/// The texts of the credits, one after the other.
pub open spec fn credits_text(cs: Seq<ArtistCredit>) -> Seq<char>
    decreases cs.len(),
{
    if cs.len() == 0 {
        Seq::<char>::empty()
    } else {
        credits_text(cs.drop_last()) + credit_text(cs.last())
    }
}

/// The combined artist string of a list of credits; none for no credits.
pub open spec fn artist_string(cs: Seq<ArtistCredit>) -> Option<Seq<char>> {
    if cs.len() == 0 {
        None
    } else {
        Some(credits_text(cs))
    }
}

/// Build a combined artist string from artist credits
pub fn build_artist_string(credits: &[ArtistCredit]) -> (r: Option<String>)
    ensures
        opt_view(r) == artist_string(credits@),
{
    if credits.len() == 0 {
        return None;
    }
    let mut result = String::new();
    let mut i: usize = 0;
    while i < credits.len()
        invariant
            i <= credits@.len(),
            result@ == credits_text(credits@.subrange(0, i as int)),
        decreases credits@.len() - i,
    {
        let credit = &credits[i];
        match &credit.name {
            Some(n) => push_str(&mut result, n.as_str()),
            None => push_str(&mut result, credit.artist.name.as_str()),
        }
        match &credit.joinphrase {
            Some(j) => push_str(&mut result, j.as_str()),
            None => {},
        }
        proof {
            assert(credits@.subrange(0, i + 1).drop_last() =~= credits@.subrange(0, i as int));
            assert(result@ =~= credits_text(credits@.subrange(0, i as int)) + credit_text(credits@[i as int]));
        }
        i += 1;
    }
    assert(credits@.subrange(0, credits@.len() as int) =~= credits@);
    Some(result)
}

/// Whether a release's status is "Official".
pub open spec fn is_official(r: Release) -> bool {
    r.status matches Some(s) && s@ == "Official"@
}

/// Whether a release's group has the primary type "Album".
pub open spec fn is_album(r: Release) -> bool {
    r.release_group matches Some(g) && (g.primary_type matches Some(t) && t@ == "Album"@)
}

/// Whether `i` is the first official album release.
pub open spec fn first_official_album_at(rs: Seq<Release>, i: int) -> bool {
    &&& 0 <= i < rs.len()
    &&& is_official(rs[i]) && is_album(rs[i])
    &&& forall|j: int| 0 <= j < i ==> !(is_official(#[trigger] rs[j]) && is_album(rs[j]))
}

/// Whether `i` is the first official release.
pub open spec fn first_official_at(rs: Seq<Release>, i: int) -> bool {
    &&& 0 <= i < rs.len()
    &&& is_official(rs[i])
    &&& forall|j: int| 0 <= j < i ==> !is_official(#[trigger] rs[j])
}

/// The release whose details are taken: the first official album, else the
/// first official release, else the first release.
pub open spec fn chosen_release(rs: Seq<Release>) -> Option<int> {
    if exists|i: int| first_official_album_at(rs, i) {
        Some(choose|i: int| first_official_album_at(rs, i))
    } else if exists|i: int| first_official_at(rs, i) {
        Some(choose|i: int| first_official_at(rs, i))
    } else if rs.len() > 0 {
        Some(0)
    } else {
        None
    }
}

fn opt_str_is(o: &Option<String>, lit: &str) -> (r: bool)
    ensures
        r == (o matches Some(s) && s@ == lit@),
{
    match o {
        Some(s) => crate::text::str_eq(s.as_str(), lit),
        None => false,
    }
}

fn release_is_official(r: &Release) -> (b: bool)
    ensures
        b == is_official(*r),
{
    opt_str_is(&r.status, "Official")
}

fn release_is_album(r: &Release) -> (b: bool)
    ensures
        b == is_album(*r),
{
    match &r.release_group {
        Some(g) => opt_str_is(&g.primary_type, "Album"),
        None => false,
    }
}

/// The index of the release whose details are taken.
pub fn choose_release(releases: &[Release]) -> (r: Option<usize>)
    ensures
        match r {
            Some(i) => chosen_release(releases@) == Some(i as int),
            None => chosen_release(releases@) is None,
        },
{
    let ghost rs = releases@;
    let mut i: usize = 0;
    while i < releases.len()
        invariant
            rs == releases@,
            i <= rs.len(),
            forall|j: int| 0 <= j < i ==> !(is_official(#[trigger] rs[j]) && is_album(rs[j])),
        decreases rs.len() - i,
    {
        if release_is_official(&releases[i]) && release_is_album(&releases[i]) {
            assert(first_official_album_at(rs, i as int));
            proof {
                let c = choose|k: int| first_official_album_at(rs, k);
                assert(first_official_album_at(rs, c));
                if c < i {
                    assert(!(is_official(rs[c]) && is_album(rs[c])));
                }
                if c > i {
                    assert(!(is_official(rs[i as int]) && is_album(rs[i as int])));
                }
            }
            return Some(i);
        }
        i += 1;
    }
    assert(!exists|k: int| first_official_album_at(rs, k));
    let mut i: usize = 0;
    while i < releases.len()
        invariant
            rs == releases@,
            i <= rs.len(),
            !exists|k: int| first_official_album_at(rs, k),
            forall|j: int| 0 <= j < i ==> !is_official(#[trigger] rs[j]),
        decreases rs.len() - i,
    {
        if release_is_official(&releases[i]) {
            assert(first_official_at(rs, i as int));
            proof {
                let c = choose|k: int| first_official_at(rs, k);
                assert(first_official_at(rs, c));
                if c < i {
                    assert(!is_official(rs[c]));
                }
                if c > i {
                    assert(!is_official(rs[i as int]));
                }
            }
            return Some(i);
        }
        i += 1;
    }
    assert(!exists|k: int| first_official_at(rs, k));
    if releases.len() > 0 {
        Some(0)
    } else {
        None
    }
}

/// Whether `i` is the first medium that lists tracks.
pub open spec fn first_medium_with_tracks_at(media: Seq<Medium>, i: int) -> bool {
    &&& 0 <= i < media.len()
    &&& media[i].tracks@.len() > 0
    &&& forall|j: int| 0 <= j < i ==> (#[trigger] media[j]).tracks@.len() == 0
}

/// The track position, track count and disc number read from the first
/// medium that lists tracks; the disc number only on multi-disc releases.
pub open spec fn track_position(media: Seq<Medium>) -> (Option<u32>, Option<u32>, Option<u32>) {
    if exists|i: int| first_medium_with_tracks_at(media, i) {
        let i = choose|i: int| first_medium_with_tracks_at(media, i);
        (
            media[i].tracks@[0].position,
            media[i].track_count,
            if media.len() > 1 { media[i].position } else { None },
        )
    } else {
        (None, None, None)
    }
}

fn find_track_position(media: &[Medium]) -> (r: (Option<u32>, Option<u32>, Option<u32>))
    ensures
        r == track_position(media@),
{
    let ghost ms = media@;
    let mut i: usize = 0;
    while i < media.len()
        invariant
            ms == media@,
            i <= ms.len(),
            forall|j: int| 0 <= j < i ==> (#[trigger] ms[j]).tracks@.len() == 0,
        decreases ms.len() - i,
    {
        let m = &media[i];
        if m.tracks.len() > 0 {
            assert(first_medium_with_tracks_at(ms, i as int));
            proof {
                let c = choose|k: int| first_medium_with_tracks_at(ms, k);
                assert(first_medium_with_tracks_at(ms, c));
                if c < i {
                    assert(ms[c].tracks@.len() == 0);
                }
                if c > i {
                    assert(ms[i as int].tracks@.len() == 0);
                }
            }
            let disc = if media.len() > 1 { m.position } else { None };
            return (m.tracks[0].position, m.track_count, disc);
        }
        i += 1;
    }
    assert(!exists|k: int| first_medium_with_tracks_at(ms, k));
    (None, None, None)
}

/// Whether a character is an ASCII decimal digit.
pub open spec fn is_digit(c: char) -> bool {
    '0' <= c && c <= '9'
}

/// The value of a run of decimal digits.
pub open spec fn digits_value(s: Seq<char>) -> int
    decreases s.len(),
{
    if s.len() == 0 {
        0
    } else {
        digits_value(s.drop_last()) * 10 + (s.last() as int - '0' as int)
    }
}

/// The digits of a number text once its sign is taken off.
pub open spec fn unsigned_part(s: Seq<char>) -> Seq<char> {
    if s.len() > 0 && (s[0] == '+' || s[0] == '-') {
        s.drop_first()
    } else {
        s
    }
}

/// What `str::parse::<i32>` gives for a text: an optional sign and at least
/// one decimal digit, with the value within the range of `i32`.
pub open spec fn parse_i32(s: Seq<char>) -> Option<i32> {
    let d = unsigned_part(s);
    let negative = s.len() > 0 && s[0] == '-';
    let v = if negative { -digits_value(d) } else { digits_value(d) };
    if d.len() > 0 && (forall|i: int| 0 <= i < d.len() ==> is_digit(#[trigger] d[i])) && i32::MIN
        <= v <= i32::MAX {
        Some(v as i32)
    } else {
        None
    }
}

/// The text before the first `-` (all of it when there is none).
pub open spec fn before_dash(s: Seq<char>) -> Seq<char>
    decreases s.len(),
{
    if s.len() == 0 {
        s
    } else if s[0] == '-' {
        Seq::<char>::empty()
    } else {
        seq![s[0]] + before_dash(s.drop_first())
    }
}

/// The year of a release date (`YYYY`, `YYYY-MM` or `YYYY-MM-DD`): the
/// part before the first `-`, read as a number.
pub open spec fn year_of_date(date: Option<Seq<char>>) -> Option<i32> {
    match date {
        Some(d) => parse_i32(before_dash(d)),
        None => None,
    }
}

proof fn lemma_digits_value_nonneg(s: Seq<char>)
    requires
        forall|i: int| 0 <= i < s.len() ==> is_digit(#[trigger] s[i]),
    ensures
        digits_value(s) >= 0,
    decreases s.len(),
{
    if s.len() > 0 {
        lemma_digits_value_nonneg(s.drop_last());
    }
}

fn prefix_before_dash(s: &[char]) -> (r: Vec<char>)
    ensures
        r@ == before_dash(s@),
{
    let mut i: usize = 0;
    while i < s.len() && s[i] != '-'
        invariant
            i <= s@.len(),
            forall|j: int| 0 <= j < i ==> s@[j] != '-',
        decreases s@.len() - i,
    {
        i += 1;
    }
    proof {
        lemma_before_dash(s@, i as int);
    }
    let mut out: Vec<char> = Vec::new();
    let mut k: usize = 0;
    while k < i
        invariant
            k <= i <= s@.len(),
            out@ == s@.subrange(0, k as int),
        decreases i - k,
    {
        out.push(s[k]);
        k += 1;
    }
    out
}

proof fn lemma_before_dash(s: Seq<char>, i: int)
    requires
        0 <= i <= s.len(),
        forall|j: int| 0 <= j < i ==> s[j] != '-',
        i == s.len() || s[i] == '-',
    ensures
        before_dash(s) == s.subrange(0, i),
    decreases s.len(),
{
    if s.len() == 0 {
    } else if s[0] == '-' {
        assert(i == 0);
    } else {
        let t = s.drop_first();
        assert forall|j: int| 0 <= j < i - 1 implies t[j] != '-' by {
            assert(t[j] == s[j + 1]);
        }
        if i < s.len() {
            assert(t[i - 1] == s[i]);
        }
        lemma_before_dash(t, i - 1);
        assert(seq![s[0]] + t.subrange(0, i - 1) =~= s.subrange(0, i));
    }
}

/// Reads a number the way `str::parse::<i32>` does.
pub fn parse_i32_chars(s: &[char]) -> (r: Option<i32>)
    ensures
        r == parse_i32(s@),
{
    let negative = s.len() > 0 && s[0] == '-';
    let start: usize = if s.len() > 0 && (s[0] == '+' || s[0] == '-') { 1 } else { 0 };
    let ghost d = unsigned_part(s@);
    assert(d =~= s@.subrange(start as int, s@.len() as int));
    if start == s.len() {
        return None;
    }
    let mut value: i64 = 0;
    let mut too_big = false;
    let mut i: usize = start;
    while i < s.len()
        invariant
            start <= i <= s@.len(),
            d == s@.subrange(start as int, s@.len() as int),
            d == unsigned_part(s@),
            forall|j: int| 0 <= j < i - start ==> is_digit(#[trigger] d[j]),
            !too_big ==> value == digits_value(d.subrange(0, i - start)),
            !too_big ==> 0 <= value <= 2147483648,
            too_big ==> digits_value(d.subrange(0, i - start)) > 2147483648,
        decreases s@.len() - i,
    {
        let c = s[i];
        if !('0' <= c && c <= '9') {
            proof {
                let k = (i - start) as int;
                assert(d[k] == c);
                assert(!is_digit(d[k]));
                assert(!(forall|j: int| 0 <= j < d.len() ==> is_digit(#[trigger] d[j])));
            }
            return None;
        }
        let ghost pre = d.subrange(0, i - start);
        let ghost post = d.subrange(0, i - start + 1);
        assert(post.drop_last() =~= pre);
        assert(post.last() == c);
        let dv: i64 = if c == '0' { 0 } else if c == '1' { 1 } else if c == '2' { 2 } else if c == '3' { 3 }
            else if c == '4' { 4 } else if c == '5' { 5 } else if c == '6' { 6 } else if c == '7' { 7 }
            else if c == '8' { 8 } else { 9 };
        assert(dv == c as int - '0' as int);
        proof {
            assert forall|j: int| 0 <= j < pre.len() implies is_digit(#[trigger] pre[j]) by {
                assert(pre[j] == d[j]);
            }
            lemma_digits_value_nonneg(pre);
        }
        if !too_big {
            let next = value * 10 + dv;
            if next > 2147483648 {
                too_big = true;
            } else {
                value = next;
            }
        }
        i += 1;
    }
    proof {
        assert(d.subrange(0, d.len() as int) =~= d);
        assert(forall|j: int| 0 <= j < d.len() ==> is_digit(#[trigger] d[j]));
        lemma_digits_value_nonneg(d);
    }
    if too_big {
        return None;
    }
    if negative {
        Some((0 - value) as i32)
    } else if value > 2147483647 {
        None
    } else {
        Some(value as i32)
    }
}


/// The words of a text, in order: its maximal runs of non-whitespace
/// characters (`str::split_whitespace`).
pub open spec fn words(s: Seq<char>) -> Seq<Seq<char>>
    decreases s.len(),
{
    if s.len() == 0 {
        Seq::<Seq<char>>::empty()
    } else if unicode_whitespace(s.last()) {
        words(s.drop_last())
    } else if s.len() >= 2 && !unicode_whitespace(s[s.len() - 2]) {
        let w = words(s.drop_last());
        w.update(w.len() - 1, w.last().push(s.last()))
    } else {
        words(s.drop_last()).push(seq![s.last()])
    }
}

/// A word with its first character uppercased (`char::to_uppercase`).
pub open spec fn capitalized(w: Seq<char>) -> Seq<char> {
    if w.len() == 0 {
        w
    } else {
        unicode_uppercase(w[0]) + w.drop_first()
    }
}

/// The words joined with single spaces.
pub open spec fn join_spaced(ws: Seq<Seq<char>>) -> Seq<char>
    decreases ws.len(),
{
    if ws.len() == 0 {
        Seq::<char>::empty()
    } else if ws.len() == 1 {
        ws[0]
    } else {
        join_spaced(ws.drop_last()) + seq![' '] + ws.last()
    }
}

/// A tag name as a genre: each word capitalized, words joined by one space.
pub open spec fn genre_name(s: Seq<char>) -> Seq<char> {
    join_spaced(words(s).map_values(|w: Seq<char>| capitalized(w)))
}

proof fn lemma_words_shape(s: Seq<char>)
    ensures
        forall|i: int| 0 <= i < words(s).len() ==> (#[trigger] words(s)[i]).len() > 0,
        s.len() > 0 && !unicode_whitespace(s.last()) ==> words(s).len() > 0,
    decreases s.len(),
{
    if s.len() > 0 {
        lemma_words_shape(s.drop_last());
        if !unicode_whitespace(s.last()) && s.len() >= 2 && !unicode_whitespace(s[s.len() - 2]) {
            assert(s.drop_last().last() == s[s.len() - 2]);
        }
    }
}

proof fn lemma_join_push_last(ws: Seq<Seq<char>>, c: char)
    requires
        ws.len() > 0,
    ensures
        join_spaced(ws.update(ws.len() - 1, ws.last().push(c))) == join_spaced(ws).push(c),
{
    let u = ws.update(ws.len() - 1, ws.last().push(c));
    if ws.len() == 1 {
    } else {
        assert(u.drop_last() =~= ws.drop_last());
    }
}

/// Capitalizes each word of a tag name and joins the words with one space.
pub fn format_genre(name: &str) -> (r: String)
    ensures
        r@ == genre_name(name@),
{
    let cs = chars_of(name);
    let mut out = String::new();
    let mut in_word = false;
    let mut any_word = false;
    let mut i: usize = 0;
    while i < cs.len()
        invariant
            cs@ == name@,
            i <= cs@.len(),
            out@ == genre_name(cs@.subrange(0, i as int)),
            in_word == (i > 0 && !unicode_whitespace(cs@[i - 1])),
            any_word == (words(cs@.subrange(0, i as int)).len() > 0),
        decreases cs@.len() - i,
    {
        let c = cs[i];
        let ghost pre = cs@.subrange(0, i as int);
        let ghost post = cs@.subrange(0, i + 1);
        assert(post.drop_last() =~= pre);
        assert(post.last() == c);
        proof {
            lemma_words_shape(pre);
            lemma_words_shape(post);
        }
        let ws = is_whitespace(c);
        if ws {
            in_word = false;
        } else if in_word {
            proof {
                assert(post[post.len() - 2] == cs@[i - 1]);
                let w = words(pre);
                let caps = w.map_values(|x: Seq<char>| capitalized(x));
                assert(w.len() > 0) by {
                    assert(pre.last() == cs@[i - 1]);
                }
                assert(w.last().len() > 0);
                assert(capitalized(w.last().push(c)) =~= capitalized(w.last()).push(c));
                assert(words(post).map_values(|x: Seq<char>| capitalized(x))
                    =~= caps.update(caps.len() - 1, caps.last().push(c)));
                lemma_join_push_last(caps, c);
            }
            push_char(&mut out, c);
        } else {
            let up = char_to_uppercase(c);
            proof {
                let w = words(pre);
                let caps = w.map_values(|x: Seq<char>| capitalized(x));
                assert(words(post) == w.push(seq![c]));
                assert(words(post).map_values(|x: Seq<char>| capitalized(x))
                    =~= caps.push(unicode_uppercase(c)));
                assert(capitalized(seq![c]) =~= unicode_uppercase(c));
                assert(caps.push(unicode_uppercase(c)).drop_last() =~= caps);
            }
            if any_word {
                push_char(&mut out, ' ');
            }
            push_str(&mut out, up.as_str());
            in_word = true;
            any_word = true;
        }
        i += 1;
    }
    assert(cs@.subrange(0, cs@.len() as int) =~= cs@);
    out
}


/// `t` placed into a list ordered by descending vote count: after every
/// entry whose count is at least its own.
pub open spec fn insert_by_count(s: Seq<Tag>, t: Tag) -> Seq<Tag>
    decreases s.len(),
{
    if s.len() == 0 {
        seq![t]
    } else if s[0].count >= t.count {
        seq![s[0]] + insert_by_count(s.drop_first(), t)
    } else {
        seq![t] + s
    }
}

/// The tags sorted by descending vote count, tags of equal count keeping
/// their order (a stable sort).
pub open spec fn sort_by_count(s: Seq<Tag>) -> Seq<Tag>
    decreases s.len(),
{
    if s.len() == 0 {
        s
    } else {
        insert_by_count(sort_by_count(s.drop_last()), s.last())
    }
}

/// The genre names of the tags with a positive count, in order.
pub open spec fn positive_genres(s: Seq<Tag>) -> Seq<Seq<char>>
    decreases s.len(),
{
    if s.len() == 0 {
        Seq::<Seq<char>>::empty()
    } else if s.last().count > 0 {
        positive_genres(s.drop_last()).push(genre_name(s.last().name@))
    } else {
        positive_genres(s.drop_last())
    }
}

/// The genres of a recording: of its five most-voted tags, those with a
/// positive count, most-voted first, each name capitalized word by word.
pub open spec fn genres_of(tags: Seq<Tag>) -> Seq<Seq<char>> {
    let sorted = sort_by_count(tags);
    positive_genres(sorted.take(if sorted.len() < 5 { sorted.len() as int } else { 5 }))
}

proof fn lemma_insert_by_count(s: Seq<Tag>, t: Tag, p: int)
    requires
        0 <= p <= s.len(),
        forall|j: int| 0 <= j < p ==> (#[trigger] s[j]).count >= t.count,
        p == s.len() || s[p].count < t.count,
    ensures
        insert_by_count(s, t) == s.insert(p, t),
    decreases s.len(),
{
    if s.len() == 0 {
        assert(s.insert(p, t) =~= seq![t]);
    } else if s[0].count >= t.count {
        let r = s.drop_first();
        assert(p > 0);
        assert forall|j: int| 0 <= j < p - 1 implies (#[trigger] r[j]).count >= t.count by {
            assert(r[j] == s[j + 1]);
        }
        if p < s.len() {
            assert(r[p - 1] == s[p]);
        }
        lemma_insert_by_count(r, t, p - 1);
        assert(seq![s[0]] + r.insert(p - 1, t) =~= s.insert(p, t));
    } else {
        assert(p == 0);
        assert(seq![t] + s =~= s.insert(0, t));
    }
}

proof fn lemma_insert_by_count_len(s: Seq<Tag>, t: Tag)
    ensures
        insert_by_count(s, t).len() == s.len() + 1,
    decreases s.len(),
{
    if s.len() > 0 && s[0].count >= t.count {
        lemma_insert_by_count_len(s.drop_first(), t);
    }
}

proof fn lemma_sort_by_count_len(s: Seq<Tag>)
    ensures
        sort_by_count(s).len() == s.len(),
    decreases s.len(),
{
    if s.len() > 0 {
        lemma_sort_by_count_len(s.drop_last());
        lemma_insert_by_count_len(sort_by_count(s.drop_last()), s.last());
    }
}

/// The tags as `order` lists them.
pub open spec fn tags_in_order(tags: Seq<Tag>, order: Seq<usize>) -> Seq<Tag> {
    order.map_values(|k: usize| tags[k as int])
}

/// The positions of the tags, sorted by descending vote count, stably.
fn sorted_tag_order(tags: &[Tag]) -> (order: Vec<usize>)
    ensures
        order@.len() == tags@.len(),
        forall|j: int| 0 <= j < order@.len() ==> order@[j] < tags@.len(),
        tags_in_order(tags@, order@) == sort_by_count(tags@),
{
    let mut order: Vec<usize> = Vec::new();
    let mut i: usize = 0;
    while i < tags.len()
        invariant
            i <= tags@.len(),
            order@.len() == i,
            forall|j: int| 0 <= j < order@.len() ==> order@[j] < tags@.len(),
            tags_in_order(tags@, order@) == sort_by_count(tags@.subrange(0, i as int)),
        decreases tags@.len() - i,
    {
        let count = tags[i].count;
        let ghost sorted = tags_in_order(tags@, order@);
        let mut p: usize = 0;
        while p < order.len() && tags[order[p]].count >= count
            invariant
                p <= order@.len(),
                order@.len() == i,
                forall|j: int| 0 <= j < order@.len() ==> order@[j] < tags@.len(),
                sorted == tags_in_order(tags@, order@),
                forall|j: int| 0 <= j < p ==> (#[trigger] sorted[j]).count >= count,
            decreases order@.len() - p,
        {
            p += 1;
        }
        proof {
            let pre = tags@.subrange(0, i as int);
            let post = tags@.subrange(0, i + 1);
            assert(post.drop_last() =~= pre);
            assert(post.last() == tags@[i as int]);
            lemma_insert_by_count(sorted, tags@[i as int], p as int);
        }
        order.insert(p, i);
        assert(tags_in_order(tags@, order@) =~= sorted.insert(p as int, tags@[i as int]));
        i += 1;
    }
    assert(tags@.subrange(0, tags@.len() as int) =~= tags@);
    order
}

/// The genres of a recording's tags, most-voted first: of the five
/// most-voted tags, those with a positive count, capitalized word by word.
pub fn extract_genres(tags: &[Tag]) -> (r: Vec<String>)
    ensures
        r@.map_values(|g: String| g@) == genres_of(tags@),
{
    let order = sorted_tag_order(tags);
    let ghost sorted = sort_by_count(tags@);
    proof {
        lemma_sort_by_count_len(tags@);
    }
    let limit: usize = if order.len() < 5 { order.len() } else { 5 };
    let mut out: Vec<String> = Vec::new();
    let mut i: usize = 0;
    while i < limit
        invariant
            limit <= order@.len(),
            order@.len() == tags@.len(),
            sorted.len() == tags@.len(),
            limit == (if sorted.len() < 5 { sorted.len() as int } else { 5 }),
            forall|j: int| 0 <= j < order@.len() ==> order@[j] < tags@.len(),
            tags_in_order(tags@, order@) == sorted,
            i <= limit,
            out@.map_values(|g: String| g@) == positive_genres(sorted.take(i as int)),
        decreases limit - i,
    {
        let t = &tags[order[i]];
        proof {
            assert(sorted[i as int] == tags@[order@[i as int] as int]);
            assert(sorted.take(i + 1).drop_last() =~= sorted.take(i as int));
            assert(sorted.take(i + 1).last() == sorted[i as int]);
        }
        if t.count > 0 {
            let g = format_genre(t.name.as_str());
            out.push(g);
            assert(out@.map_values(|g: String| g@) =~= positive_genres(sorted.take(i as int)).push(
                genre_name(sorted[i as int].name@),
            ));
        }
        i += 1;
    }
    out
}


/// Release details taken from the best release of a recording.
pub struct ReleaseInfo {
    pub album: Option<String>,
    pub album_artist: Option<String>,
    pub release_id: Option<String>,
    pub release_group_id: Option<String>,
    pub track_number: Option<u32>,
    pub total_tracks: Option<u32>,
    pub disc_number: Option<u32>,
    pub total_discs: Option<u32>,
    pub year: Option<i32>,
}

/// Whether `info` holds the details of release `r`.
pub open spec fn info_of_release(info: ReleaseInfo, r: Release) -> bool {
    &&& opt_view(info.album) == Some(r.title@)
    &&& opt_view(info.release_id) == Some(r.id@)
    &&& opt_view(info.release_group_id) == (match r.release_group {
        Some(g) => Some(g.id@),
        None => None,
    })
    &&& opt_view(info.album_artist) == (match r.artist_credit {
        Some(cs) => artist_string(cs@),
        None => None,
    })
    &&& info.total_discs == (if r.media@.len() > 1 { Some(r.media@.len() as u32) } else { None })
    &&& (info.track_number, info.total_tracks, info.disc_number) == track_position(r.media@)
    &&& info.year == year_of_date(opt_view(r.date))
}

/// Whether `info` holds the details of the chosen release of `rs`, or
/// nothing when there is no release.
pub open spec fn release_info_matches(info: ReleaseInfo, rs: Seq<Release>) -> bool {
    match chosen_release(rs) {
        Some(i) => info_of_release(info, rs[i]),
        None => {
            &&& info.album is None
            &&& info.album_artist is None
            &&& info.release_id is None
            &&& info.release_group_id is None
            &&& info.track_number is None
            &&& info.total_tracks is None
            &&& info.disc_number is None
            &&& info.total_discs is None
            &&& info.year is None
        },
    }
}

/// The year of a release date, read from the part before the first `-`.
pub fn year_from_date(date: &Option<String>) -> (r: Option<i32>)
    ensures
        r == year_of_date(opt_view(*date)),
{
    match date {
        Some(d) => {
            let cs = chars_of(d.as_str());
            let head = prefix_before_dash(cs.as_slice());
            parse_i32_chars(head.as_slice())
        },
        None => None,
    }
}

fn media_count(n: usize) -> (r: u32)
    ensures
        r == n as u32,
{
    n as u32
}

/// Extract the best release info from available releases
pub fn extract_release_info(releases: &[Release]) -> (r: ReleaseInfo)
    ensures
        release_info_matches(r, releases@),
{
    let chosen = choose_release(releases);
    let i = match chosen {
        Some(i) => i,
        None => {
            return ReleaseInfo {
                album: None,
                album_artist: None,
                release_id: None,
                release_group_id: None,
                track_number: None,
                total_tracks: None,
                disc_number: None,
                total_discs: None,
                year: None,
            };
        },
    };
    let release = &releases[i];
    let album = Some(release.title.clone());
    let release_id = Some(release.id.clone());
    let release_group_id = match &release.release_group {
        Some(g) => Some(g.id.clone()),
        None => None,
    };
    let album_artist = match &release.artist_credit {
        Some(credits) => build_artist_string(credits.as_slice()),
        None => None,
    };
    let total_discs = if release.media.len() > 1 {
        Some(media_count(release.media.len()))
    } else {
        None
    };
    let (track_number, total_tracks, disc_number) = find_track_position(release.media.as_slice());
    let year = year_from_date(&release.date);
    ReleaseInfo {
        album,
        album_artist,
        release_id,
        release_group_id,
        track_number,
        total_tracks,
        disc_number,
        total_discs,
        year,
    }
}

/// The primary type of the first release's group.
pub open spec fn first_release_type(rs: Seq<Release>) -> Option<Seq<char>> {
    if rs.len() == 0 {
        None
    } else {
        match rs[0].release_group {
            Some(g) => opt_view(g.primary_type),
            None => None,
        }
    }
}

/// Extract release type and secondary types from releases; the responses
/// carry no secondary types, so the second part is always `None`.
pub fn extract_release_types(releases: &[Release]) -> (r: (Option<String>, Option<Vec<String>>))
    ensures
        opt_view(r.0) == first_release_type(releases@),
        r.1 is None,
{
    if releases.len() == 0 {
        return (None, None);
    }
    let release_type = match &releases[0].release_group {
        Some(g) => clone_opt(&g.primary_type),
        None => None,
    };
    (release_type, None)
}

/// The identification details of a recording, as `to_identified_track`
/// states them.
pub open spec fn identified_from(t: IdentifiedTrack, resp: dto::RecordingResponse) -> bool {
    &&& t.recording_id == Some(resp.id)
    &&& t.title == Some(resp.title)
    &&& opt_view(t.artist) == artist_string(resp.artist_credit@)
    &&& opt_view(t.artist_id) == (if resp.artist_credit@.len() > 0 {
        Some(resp.artist_credit@[0].artist.id@)
    } else {
        None
    })
    &&& t.duration == (match resp.length {
        Some(ms) => Some(millis_duration(ms)),
        None => None,
    })
    &&& opt_view(t.release_type) == first_release_type(resp.releases@)
    &&& t.secondary_types@.len() == 0
    &&& t.genres@.map_values(|g: String| g@) == genres_of(resp.tags@)
    &&& release_info_matches(
        ReleaseInfo {
            album: t.album,
            album_artist: t.album_artist,
            release_id: t.release_id,
            release_group_id: t.release_group_id,
            track_number: t.track_number,
            total_tracks: t.total_tracks,
            disc_number: t.disc_number,
            total_discs: t.total_discs,
            year: t.year,
        },
        resp.releases@,
    )
}

/// Convert a MusicBrainz recording response to an identified track.
///
/// Lookups by recording ID are exact matches; the caller pairs the track
/// with the full score and the MusicBrainz source.
pub fn to_identified_track(response: dto::RecordingResponse) -> (r: IdentifiedTrack)
    ensures
        identified_from(r, response),
{
    let artist = build_artist_string(response.artist_credit.as_slice());
    let artist_id = if response.artist_credit.len() > 0 {
        Some(response.artist_credit[0].artist.id.clone())
    } else {
        None
    };
    let info = extract_release_info(response.releases.as_slice());
    let (release_type, _secondary) = extract_release_types(response.releases.as_slice());
    let genres = extract_genres(response.tags.as_slice());
    let duration = match response.length {
        Some(ms) => Some(duration_from_millis(ms)),
        None => None,
    };
    IdentifiedTrack {
        recording_id: Some(response.id),
        title: Some(response.title),
        artist,
        album_artist: info.album_artist,
        album: info.album,
        track_number: info.track_number,
        total_tracks: info.total_tracks,
        disc_number: info.disc_number,
        total_discs: info.total_discs,
        year: info.year,
        duration,
        artist_id,
        release_id: info.release_id,
        release_group_id: info.release_group_id,
        release_type,
        secondary_types: Vec::new(),
        genres,
    }
}

proof fn lemma_positive_genres_len(s: Seq<Tag>)
    ensures
        positive_genres(s).len() <= s.len(),
    decreases s.len(),
{
    if s.len() > 0 {
        lemma_positive_genres_len(s.drop_last());
    }
}

/// Law: a recording has at most five genres.
pub proof fn at_most_five_genres(tags: Seq<Tag>)
    ensures
        genres_of(tags).len() <= 5,
{
    lemma_sort_by_count_len(tags);
    let sorted = sort_by_count(tags);
    lemma_positive_genres_len(sorted.take(if sorted.len() < 5 { sorted.len() as int } else { 5 }));
}

}
