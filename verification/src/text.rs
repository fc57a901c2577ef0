//! Character-level string helpers shared by the library: equality, decimal
//! rendering, substring search, pattern replacement and case folding.

use vstd::prelude::*;

verus! {

/// Appends one character to a `String` (`String::push`).
///
/// Trusted: `String::push` appends `c` at the end of the string, as its
/// documentation states.
#[verifier::external_body]
pub fn push_char(s: &mut String, c: char)
    ensures
        final(s)@ == old(s)@.push(c),
{
    s.push(c);
}

/// The lowercase form of a string as `str::to_lowercase` computes it
/// (Unicode case mapping).
pub uninterp spec fn unicode_lowercase(s: Seq<char>) -> Seq<char>;

/// Whether every character of a text is ASCII.
pub open spec fn is_ascii_text(s: Seq<char>) -> bool {
    forall|i: int| 0 <= i < s.len() ==> (#[trigger] s[i] as u32) < 128
}

/// The ASCII lowercase of a character: `A` to `Z` become `a` to `z`, every
/// other character stays.
pub open spec fn ascii_lower_char(c: char) -> char {
    if 'A' <= c && c <= 'Z' {
        ((c as u32) + 32) as char
    } else {
        c
    }
}

/// Lowercases a string with `str::to_lowercase`.
///
/// Trusted: the result is `unicode_lowercase` of the input; the Unicode
/// mapping itself is not written out here. For an all-ASCII text the
/// documented mapping is stated: `A` to `Z` become `a` to `z` and every
/// other character stays.
#[verifier::external_body]
pub fn to_lowercase(s: &str) -> (r: String)
    ensures
        r@ == unicode_lowercase(s@),
        is_ascii_text(s@) ==> r@ == s@.map_values(|c: char| ascii_lower_char(c)),
{
    s.to_lowercase()
}

/// Whether a character has the Unicode `White_Space` property, which
/// `char::is_whitespace` tests: tab through carriage return, space, next
/// line, no-break space, ogham space mark, the spaces from en quad to hair
/// space, line and paragraph separators, narrow no-break space, medium
/// mathematical space and ideographic space.
pub open spec fn unicode_whitespace(c: char) -> bool {
    let n = c as u32;
    ||| 0x9 <= n <= 0xD
    ||| n == 0x20
    ||| n == 0x85
    ||| n == 0xA0
    ||| n == 0x1680
    ||| 0x2000 <= n <= 0x200A
    ||| n == 0x2028
    ||| n == 0x2029
    ||| n == 0x202F
    ||| n == 0x205F
    ||| n == 0x3000
}

/// Whether a character is white space (`char::is_whitespace`).
pub fn is_whitespace(c: char) -> (r: bool)
    ensures
        r == unicode_whitespace(c),
{
    let n = c as u32;
    (0x9 <= n && n <= 0xD) || n == 0x20 || n == 0x85 || n == 0xA0 || n == 0x1680 || (0x2000 <= n && n <= 0x200A)
        || n == 0x2028 || n == 0x2029 || n == 0x202F || n == 0x205F || n == 0x3000
}

/// The characters that `char::to_uppercase` yields for a character.
pub uninterp spec fn unicode_uppercase(c: char) -> Seq<char>;

/// Uppercases one character with `char::to_uppercase`, collected into a
/// `String`.
///
/// Trusted: the result is `unicode_uppercase(c)`; the Unicode mapping itself
/// is not written out here.
#[verifier::external_body]
pub fn char_to_uppercase(c: char) -> (r: String)
    ensures
        r@ == unicode_uppercase(c),
{
    c.to_uppercase().collect::<String>()
}

/// Views an optional string as an optional character sequence.
pub open spec fn opt_view(o: Option<String>) -> Option<Seq<char>> {
    match o {
        Some(s) => Some(s@),
        None => None,
    }
}

/// A copy of an optional string.
pub fn clone_opt(o: &Option<String>) -> (r: Option<String>)
    ensures
        r == *o,
{
    match o {
        Some(s) => Some(s.clone()),
        None => None,
    }
}

/// A copy of a list of strings.
pub fn clone_strings(v: &[String]) -> (r: Vec<String>)
    ensures
        r@ == v@,
{
    let mut out: Vec<String> = Vec::new();
    let mut i: usize = 0;
    while i < v.len()
        invariant
            i <= v@.len(),
            out@ == v@.subrange(0, i as int),
        decreases v@.len() - i,
    {
        out.push(v[i].clone());
        i += 1;
    }
    out
}

/// Equality of two string slices, character by character.
pub fn str_eq(a: &str, b: &str) -> (r: bool)
    ensures
        r == (a@ == b@),
{
    a.to_string() == b.to_string()
}

/// An owned copy of a string slice.
pub fn owned(s: &str) -> (r: String)
    ensures
        r@ == s@,
{
    s.to_string()
}

/// The characters of a string slice, in order.
pub fn chars_of(s: &str) -> (r: Vec<char>)
    ensures
        r@ == s@,
{
    let n = s.unicode_len();
    let mut v: Vec<char> = Vec::new();
    let mut i: usize = 0;
    while i < n
        invariant
            n == s@.len(),
            i <= n,
            v@ == s@.subrange(0, i as int),
        decreases n - i,
    {
        v.push(s.get_char(i));
        i += 1;
    }
    v
}

/// Appends a character sequence to a string.
pub fn push_chars(s: &mut String, cs: &[char])
    ensures
        final(s)@ == old(s)@ + cs@,
{
    let mut i: usize = 0;
    while i < cs.len()
        invariant
            i <= cs@.len(),
            s@ == old(s)@ + cs@.subrange(0, i as int),
        decreases cs@.len() - i,
    {
        push_char(s, cs[i]);
        assert(cs@.subrange(0, i + 1) == cs@.subrange(0, i as int).push(cs@[i as int]));
        i += 1;
    }
    assert(cs@.subrange(0, cs@.len() as int) == cs@);
}

/// Appends a string slice to a string.
pub fn push_str(s: &mut String, t: &str)
    ensures
        final(s)@ == old(s)@ + t@,
{
    let cs = chars_of(t);
    push_chars(s, cs.as_slice());
}

/// A string holding the given characters.
pub fn string_from_chars(cs: &[char]) -> (r: String)
    ensures
        r@ == cs@,
{
    let mut s = String::new();
    push_chars(&mut s, cs);
    s
}

/// The concatenation of two string slices.
pub fn concat(a: &str, b: &str) -> (r: String)
    ensures
        r@ == a@ + b@,
{
    let mut s = owned(a);
    push_str(&mut s, b);
    s
}

/// The decimal digit for a value below ten.
pub open spec fn digit_char(d: nat) -> char {
    if d == 0 { '0' }
    else if d == 1 { '1' }
    else if d == 2 { '2' }
    else if d == 3 { '3' }
    else if d == 4 { '4' }
    else if d == 5 { '5' }
    else if d == 6 { '6' }
    else if d == 7 { '7' }
    else if d == 8 { '8' }
    else { '9' }
}

/// The decimal rendering of a natural number, without leading zeros.
pub open spec fn decimal(n: nat) -> Seq<char>
    decreases n,
{
    if n < 10 {
        seq![digit_char(n)]
    } else {
        decimal(n / 10).push(digit_char(n % 10))
    }
}

/// The decimal rendering of an integer, with a leading `-` when negative.
pub open spec fn signed_decimal(n: int) -> Seq<char> {
    if n < 0 {
        seq!['-'] + decimal((-n) as nat)
    } else {
        decimal(n as nat)
    }
}

/// The decimal rendering of `n`, left-padded with zeros to at least two
/// characters (the `{:02}` format).
pub open spec fn decimal_pad2(n: nat) -> Seq<char> {
    if n < 10 {
        seq!['0'] + decimal(n)
    } else {
        decimal(n)
    }
}

fn digit(d: u64) -> (c: char)
    requires
        d < 10,
    ensures
        c == digit_char(d as nat),
{
    if d == 0 { '0' }
    else if d == 1 { '1' }
    else if d == 2 { '2' }
    else if d == 3 { '3' }
    else if d == 4 { '4' }
    else if d == 5 { '5' }
    else if d == 6 { '6' }
    else if d == 7 { '7' }
    else if d == 8 { '8' }
    else { '9' }
}

/// Appends the decimal rendering of `n` to `s`.
pub fn push_decimal(s: &mut String, n: u64)
    ensures
        final(s)@ == old(s)@ + decimal(n as nat),
    decreases n,
{
    if n < 10 {
        push_char(s, digit(n));
        assert(old(s)@.push(digit_char(n as nat)) == old(s)@ + seq![digit_char(n as nat)]);
    } else {
        push_decimal(s, n / 10);
        push_char(s, digit(n % 10));
        assert(old(s)@ + decimal((n / 10) as nat) + seq![digit_char((n % 10) as nat)]
            == old(s)@ + decimal(n as nat));
    }
}

/// The decimal rendering of an unsigned number (`n.to_string()`).
pub fn u64_to_string(n: u64) -> (r: String)
    ensures
        r@ == decimal(n as nat),
{
    let mut s = String::new();
    push_decimal(&mut s, n);
    s
}

/// The decimal rendering of a signed number (`n.to_string()`).
pub fn i64_to_string(n: i64) -> (r: String)
    ensures
        r@ == signed_decimal(n as int),
{
    let mut s = String::new();
    if n < 0 {
        push_char(&mut s, '-');
        let m: u64 = if n == i64::MIN { 9223372036854775808u64 } else { (-n) as u64 };
        push_decimal(&mut s, m);
    } else {
        push_decimal(&mut s, n as u64);
    }
    s
}

/// The `{:02}` rendering of a number.
pub fn u64_to_string_pad2(n: u64) -> (r: String)
    ensures
        r@ == decimal_pad2(n as nat),
{
    let mut s = String::new();
    if n < 10 {
        push_char(&mut s, '0');
    }
    push_decimal(&mut s, n);
    s
}

/// Whether `pat` occurs in `s` at index `i`.
pub open spec fn occurs_at(s: Seq<char>, pat: Seq<char>, i: int) -> bool {
    0 <= i && i + pat.len() <= s.len() && s.subrange(i, i + pat.len()) == pat
}

/// Whether `pat` occurs anywhere in `s` (`str::contains` with a string pattern).
pub open spec fn contains_seq(s: Seq<char>, pat: Seq<char>) -> bool {
    exists|i: int| occurs_at(s, pat, i)
}

fn matches_at(s: &[char], pat: &[char], i: usize) -> (r: bool)
    requires
        i <= s@.len(),
    ensures
        r == occurs_at(s@, pat@, i as int),
{
    if pat.len() > s.len() - i {
        return false;
    }
    let mut j: usize = 0;
    while j < pat.len()
        invariant
            i + pat@.len() <= s@.len(),
            s@.len() <= usize::MAX,
            j <= pat@.len(),
            forall|k: int| 0 <= k < j ==> s@[i + k] == pat@[k],
        decreases pat@.len() - j,
    {
        if s[i + j] != pat[j] {
            assert(s@.subrange(i as int, i + pat@.len())[j as int] != pat@[j as int]);
            return false;
        }
        j += 1;
    }
    assert(s@.subrange(i as int, i + pat@.len()) =~= pat@);
    true
}

/// Whether `pat` occurs in `s`.
pub fn contains_chars(s: &[char], pat: &[char]) -> (r: bool)
    ensures
        r == contains_seq(s@, pat@),
{
    let mut i: usize = 0;
    loop
        invariant
            i <= s@.len(),
            forall|k: int| 0 <= k < i ==> !occurs_at(s@, pat@, k),
        decreases s@.len() - i,
    {
        if matches_at(s, pat, i) {
            return true;
        }
        if i == s.len() {
            assert forall|k: int| !occurs_at(s@, pat@, k) by {
                if 0 <= k && k < i {
                } 
            }
            return false;
        }
        i += 1;
    }
}

/// `s` with `rep` put before each character and at the end, which is what
/// replacing the empty pattern does (it occurs at every boundary).
pub open spec fn fill_boundaries(s: Seq<char>, rep: Seq<char>) -> Seq<char>
    decreases s.len(),
{
    if s.len() == 0 {
        rep
    } else {
        rep + seq![s[0]] + fill_boundaries(s.subrange(1, s.len() as int), rep)
    }
}

/// `s` with every occurrence of `pat` replaced by `rep`, scanning from the
/// left and skipping past each replaced occurrence (`str::replace`); the
/// empty pattern occurs at every character boundary.
pub open spec fn replace_all(s: Seq<char>, pat: Seq<char>, rep: Seq<char>) -> Seq<char>
    decreases s.len(),
{
    if pat.len() == 0 {
        fill_boundaries(s, rep)
    } else if s.len() == 0 {
        s
    } else if occurs_at(s, pat, 0) {
        rep + replace_all(s.subrange(pat.len() as int, s.len() as int), pat, rep)
    } else {
        seq![s[0]] + replace_all(s.subrange(1, s.len() as int), pat, rep)
    }
}

proof fn lemma_occurs_shift(s: Seq<char>, pat: Seq<char>, i: int)
    requires
        0 <= i <= s.len(),
    ensures
        occurs_at(s, pat, i) == occurs_at(s.subrange(i, s.len() as int), pat, 0),
{
    let t = s.subrange(i, s.len() as int);
    if i + pat.len() <= s.len() {
        assert(t.subrange(0, pat.len() as int) =~= s.subrange(i, i + pat.len()));
    }
}

fn fill_str(cs: &[char], rs: &[char]) -> (r: String)
    ensures
        r@ == fill_boundaries(cs@, rs@),
{
    let mut out = String::new();
    let mut i: usize = 0;
    assert(cs@.subrange(0, cs@.len() as int) =~= cs@);
    assert(out@ + fill_boundaries(cs@, rs@) =~= fill_boundaries(cs@, rs@));
    while i < cs.len()
        invariant
            i <= cs@.len(),
            out@ + fill_boundaries(cs@.subrange(i as int, cs@.len() as int), rs@) == fill_boundaries(cs@, rs@),
        decreases cs@.len() - i,
    {
        let ghost rest = cs@.subrange(i as int, cs@.len() as int);
        let ghost prev = out@;
        push_chars(&mut out, rs);
        push_char(&mut out, cs[i]);
        let ghost rest2 = cs@.subrange(i + 1, cs@.len() as int);
        assert(rest.subrange(1, rest.len() as int) =~= rest2);
        assert(out@ + fill_boundaries(rest2, rs@) =~= prev + fill_boundaries(rest, rs@));
        i = i + 1;
    }
    assert(cs@.subrange(i as int, cs@.len() as int) =~= Seq::<char>::empty());
    push_chars(&mut out, rs);
    out
}

/// Replaces every occurrence of a pattern (`str::replace`); the empty
/// pattern puts `rep` before each character and at the end.
pub fn replace_str(s: &str, pat: &str, rep: &str) -> (r: String)
    ensures
        r@ == replace_all(s@, pat@, rep@),
{
    let cs = chars_of(s);
    let ps = chars_of(pat);
    let rs = chars_of(rep);
    if ps.len() == 0 {
        return fill_str(cs.as_slice(), rs.as_slice());
    }
    let mut out = String::new();
    let mut i: usize = 0;
    assert(cs@.subrange(0, cs@.len() as int) =~= cs@);
    assert(out@ + replace_all(cs@, ps@, rs@) =~= replace_all(cs@, ps@, rs@));
    while i < cs.len()
        invariant
            i <= cs@.len(),
            ps@.len() > 0,
            cs@ == s@,
            ps@ == pat@,
            rs@ == rep@,
            out@ + replace_all(cs@.subrange(i as int, cs@.len() as int), ps@, rs@)
                == replace_all(s@, pat@, rep@),
        decreases cs@.len() - i,
    {
        let ghost rest = cs@.subrange(i as int, cs@.len() as int);
        let ghost prev = out@;
        proof {
            lemma_occurs_shift(cs@, ps@, i as int);
        }
        if matches_at(cs.as_slice(), ps.as_slice(), i) {
            push_chars(&mut out, rs.as_slice());
            let ghost rest2 = cs@.subrange(i + ps@.len(), cs@.len() as int);
            assert(rest.subrange(ps@.len() as int, rest.len() as int) =~= rest2);
            assert(replace_all(rest, ps@, rs@) == rs@ + replace_all(rest2, ps@, rs@));
            assert(out@ + replace_all(rest2, ps@, rs@) =~= prev + replace_all(rest, ps@, rs@));
            i = i + ps.len();
        } else {
            push_char(&mut out, cs[i]);
            let ghost rest2 = cs@.subrange(i + 1, cs@.len() as int);
            assert(rest.subrange(1, rest.len() as int) =~= rest2);
            assert(replace_all(rest, ps@, rs@) == seq![rest[0]] + replace_all(rest2, ps@, rs@));
            assert(out@ + replace_all(rest2, ps@, rs@) =~= prev + replace_all(rest, ps@, rs@));
            i = i + 1;
        }
    }
    assert(cs@.subrange(i as int, cs@.len() as int) =~= Seq::<char>::empty());
    out
}


/// The character sequences of a list of strings.
pub open spec fn strings_view(v: Seq<String>) -> Seq<Seq<char>> {
    v.map_values(|s: String| s@)
}

/// The texts joined with a separator between each two (`[String]::join`).
pub open spec fn join_seq(ws: Seq<Seq<char>>, sep: Seq<char>) -> Seq<char>
    decreases ws.len(),
{
    if ws.len() == 0 {
        Seq::<char>::empty()
    } else if ws.len() == 1 {
        ws[0]
    } else {
        join_seq(ws.drop_last(), sep) + sep + ws.last()
    }
}

/// Joins strings with a separator.
pub fn join_with(v: &[String], sep: &str) -> (r: String)
    ensures
        r@ == join_seq(strings_view(v@), sep@),
{
    let mut out = String::new();
    let mut i: usize = 0;
    while i < v.len()
        invariant
            i <= v@.len(),
            out@ == join_seq(strings_view(v@.subrange(0, i as int)), sep@),
        decreases v@.len() - i,
    {
        let ghost pre = strings_view(v@.subrange(0, i as int));
        let ghost post = strings_view(v@.subrange(0, i + 1));
        assert(post.drop_last() =~= pre);
        assert(post.last() == v@[i as int]@);
        if i > 0 {
            push_str(&mut out, sep);
        }
        push_str(&mut out, v[i].as_str());
        i += 1;
    }
    assert(v@.subrange(0, v@.len() as int) =~= v@);
    out
}

/// Whether `i` is where `pat` first occurs in `s`.
pub open spec fn is_first_occurrence(s: Seq<char>, pat: Seq<char>, i: int) -> bool {
    occurs_at(s, pat, i) && forall|j: int| 0 <= j < i ==> !occurs_at(s, pat, j)
}

/// Where `pat` first occurs in `s` (`str::find`).
pub open spec fn find_spec(s: Seq<char>, pat: Seq<char>) -> Option<int> {
    if exists|i: int| is_first_occurrence(s, pat, i) {
        Some(choose|i: int| is_first_occurrence(s, pat, i))
    } else {
        None
    }
}

/// Finds where a pattern first occurs (`str::find`, by character index).
pub fn find_chars(s: &[char], pat: &[char]) -> (r: Option<usize>)
    ensures
        match r {
            Some(i) => find_spec(s@, pat@) == Some(i as int),
            None => find_spec(s@, pat@) is None,
        },
{
    let mut i: usize = 0;
    loop
        invariant
            i <= s@.len(),
            forall|k: int| 0 <= k < i ==> !occurs_at(s@, pat@, k),
        decreases s@.len() - i,
    {
        if matches_at(s, pat, i) {
            assert(is_first_occurrence(s@, pat@, i as int));
            proof {
                let c = choose|k: int| is_first_occurrence(s@, pat@, k);
                assert(is_first_occurrence(s@, pat@, c));
                if c < i {
                    assert(!occurs_at(s@, pat@, c));
                }
                if c > i {
                    assert(!occurs_at(s@, pat@, i as int));
                }
            }
            return Some(i);
        }
        if i == s.len() {
            assert forall|k: int| !is_first_occurrence(s@, pat@, k) by {
                if 0 <= k && k < i {
                    assert(!occurs_at(s@, pat@, k));
                } else if k >= i {
                    if occurs_at(s@, pat@, k) {
                        assert(k == i);
                    }
                }
            }
            return None;
        }
        i += 1;
    }
}

/// Whether `i` is the last position of `c` in `s`.
pub open spec fn is_last_index(s: Seq<char>, c: char, i: int) -> bool {
    0 <= i < s.len() && s[i] == c && forall|j: int| i < j < s.len() ==> s[j] != c
}

/// The last position of a character in `s` (`str::rfind`).
pub open spec fn rfind_spec(s: Seq<char>, c: char) -> Option<int> {
    if exists|i: int| is_last_index(s, c, i) {
        Some(choose|i: int| is_last_index(s, c, i))
    } else {
        None
    }
}

/// Finds the last position of a character (`str::rfind`, by character index).
pub fn rfind_char(s: &[char], c: char) -> (r: Option<usize>)
    ensures
        match r {
            Some(i) => rfind_spec(s@, c) == Some(i as int),
            None => rfind_spec(s@, c) is None,
        },
{
    let mut i: usize = s.len();
    while i > 0
        invariant
            i <= s@.len(),
            forall|j: int| i <= j < s@.len() ==> s@[j] != c,
        decreases i,
    {
        if s[i - 1] == c {
            let k = i - 1;
            assert(is_last_index(s@, c, k as int));
            proof {
                let w = choose|m: int| is_last_index(s@, c, m);
                assert(is_last_index(s@, c, w));
                if w < k {
                    assert(s@[k as int] != c);
                }
                if w > k {
                    assert(s@[w] != c);
                }
            }
            return Some(k);
        }
        i -= 1;
    }
    assert(forall|m: int| !is_last_index(s@, c, m));
    None
}

/// `s` without leading whitespace.
pub open spec fn trim_start_spec(s: Seq<char>) -> Seq<char>
    decreases s.len(),
{
    if s.len() > 0 && unicode_whitespace(s[0]) {
        trim_start_spec(s.drop_first())
    } else {
        s
    }
}

/// `s` without trailing whitespace.
pub open spec fn trim_end_spec(s: Seq<char>) -> Seq<char>
    decreases s.len(),
{
    if s.len() > 0 && unicode_whitespace(s.last()) {
        trim_end_spec(s.drop_last())
    } else {
        s
    }
}

/// `s` without leading or trailing whitespace (`str::trim`).
pub open spec fn trim_spec(s: Seq<char>) -> Seq<char> {
    trim_end_spec(trim_start_spec(s))
}

proof fn lemma_trim_start_at(s: Seq<char>, i: int)
    requires
        0 <= i <= s.len(),
        forall|j: int| 0 <= j < i ==> unicode_whitespace(#[trigger] s[j]),
        i == s.len() || !unicode_whitespace(s[i]),
    ensures
        trim_start_spec(s) == s.subrange(i, s.len() as int),
    decreases i,
{
    if i > 0 {
        let t = s.drop_first();
        assert forall|j: int| 0 <= j < i - 1 implies unicode_whitespace(#[trigger] t[j]) by {
            assert(t[j] == s[j + 1]);
        }
        if i < s.len() {
            assert(t[i - 1] == s[i]);
        }
        lemma_trim_start_at(t, i - 1);
        assert(t.subrange(i - 1, t.len() as int) =~= s.subrange(i, s.len() as int));
    } else {
        assert(s.subrange(0, s.len() as int) =~= s);
    }
}

proof fn lemma_trim_end_at(s: Seq<char>, e: int)
    requires
        0 <= e <= s.len(),
        forall|j: int| e <= j < s.len() ==> unicode_whitespace(#[trigger] s[j]),
        e == 0 || !unicode_whitespace(s[e - 1]),
    ensures
        trim_end_spec(s) == s.subrange(0, e),
    decreases s.len() - e,
{
    if e < s.len() {
        let t = s.drop_last();
        assert forall|j: int| e <= j < t.len() implies unicode_whitespace(#[trigger] t[j]) by {
            assert(t[j] == s[j]);
        }
        lemma_trim_end_at(t, e);
        assert(t.subrange(0, e) =~= s.subrange(0, e));
    } else {
        assert(s.subrange(0, e) =~= s);
    }
}

/// Removes leading and trailing whitespace (`str::trim`).
pub fn trim_chars(s: &[char]) -> (r: Vec<char>)
    ensures
        r@ == trim_spec(s@),
{
    let mut i: usize = 0;
    while i < s.len() && is_whitespace(s[i])
        invariant
            i <= s@.len(),
            forall|j: int| 0 <= j < i ==> unicode_whitespace(#[trigger] s@[j]),
        decreases s@.len() - i,
    {
        i += 1;
    }
    proof {
        lemma_trim_start_at(s@, i as int);
    }
    let ghost t = s@.subrange(i as int, s@.len() as int);
    let mut e: usize = s.len();
    while e > i && is_whitespace(s[e - 1])
        invariant
            i <= e <= s@.len(),
            forall|j: int| e <= j < s@.len() ==> unicode_whitespace(#[trigger] s@[j]),
        decreases e - i,
    {
        e -= 1;
    }
    proof {
        assert forall|j: int| e - i <= j < t.len() implies unicode_whitespace(#[trigger] t[j]) by {
            assert(t[j] == s@[j + i]);
        }
        if e > i {
            assert(t[e - i - 1] == s@[e - 1]);
        }
        lemma_trim_end_at(t, (e - i) as int);
    }
    let mut out: Vec<char> = Vec::new();
    let mut k: usize = i;
    while k < e
        invariant
            i <= k <= e <= s@.len(),
            out@ == s@.subrange(i as int, k as int),
        decreases e - k,
    {
        out.push(s[k]);
        k += 1;
    }
    assert(out@ =~= t.subrange(0, (e - i) as int));
    out
}

/// A part of a character sequence.
pub fn slice_chars(s: &[char], from: usize, to: usize) -> (r: Vec<char>)
    requires
        from <= to <= s@.len(),
    ensures
        r@ == s@.subrange(from as int, to as int),
{
    let mut out: Vec<char> = Vec::new();
    let mut k: usize = from;
    while k < to
        invariant
            from <= k <= to <= s@.len(),
            out@ == s@.subrange(from as int, k as int),
        decreases to - k,
    {
        out.push(s[k]);
        k += 1;
    }
    out
}

/// The first line of a text (`str::lines().next()`): the text up to the
/// first line feed, less a carriage return just before it; none for an
/// empty text.
pub open spec fn first_line_spec(s: Seq<char>) -> Option<Seq<char>> {
    if s.len() == 0 {
        None
    } else {
        match find_spec(s, seq!['\n']) {
            Some(i) => if i > 0 && s[i - 1] == '\r' {
                Some(s.subrange(0, i - 1))
            } else {
                Some(s.subrange(0, i))
            },
            None => Some(s),
        }
    }
}

/// The first line of a text.
pub fn first_line(s: &[char]) -> (r: Option<Vec<char>>)
    ensures
        match r {
            Some(l) => first_line_spec(s@) == Some(l@),
            None => first_line_spec(s@) is None,
        },
{
    if s.len() == 0 {
        return None;
    }
    let nl = vec!['\n'];
    assert(nl@ =~= seq!['\n']);
    match find_chars(s, nl.as_slice()) {
        Some(i) => {
            proof {
                assert(occurs_at(s@, nl@, i as int));
                assert(s@.subrange(i as int, i + 1)[0] == '\n');
            }
            if i > 0 && s[i - 1] == '\r' {
                Some(slice_chars(s, 0, i - 1))
            } else {
                Some(slice_chars(s, 0, i))
            }
        },
        None => Some(slice_chars(s, 0, s.len())),
    }
}


/// A line with the carriage return that ended it removed.
pub open spec fn strip_cr(l: Seq<char>) -> Seq<char> {
    if l.len() > 0 && l[l.len() - 1] == '\r' {
        l.subrange(0, l.len() - 1)
    } else {
        l
    }
}

/// The lines of a text (`str::lines`): split at each line feed, a carriage
/// return before it dropped; a last line feed ends the last line and opens
/// no new one.
pub open spec fn text_lines(s: Seq<char>) -> Seq<Seq<char>>
    decreases s.len(),
{
    if s.len() == 0 {
        Seq::empty()
    } else {
        match find_spec(s, seq!['\n']) {
            Some(i) => if 0 <= i < s.len() {
                seq![strip_cr(s.subrange(0, i))] + text_lines(s.subrange(i + 1, s.len() as int))
            } else {
                Seq::empty()
            },
            None => seq![s],
        }
    }
}

/// The views of a sequence of character vectors.
pub open spec fn char_vecs_view(v: Seq<Vec<char>>) -> Seq<Seq<char>> {
    v.map_values(|l: Vec<char>| l@)
}

/// The lines of a text.
pub fn lines(s: &[char]) -> (r: Vec<Vec<char>>)
    ensures
        char_vecs_view(r@) == text_lines(s@),
{
    let nl = vec!['\n'];
    assert(nl@ =~= seq!['\n']);
    let mut out: Vec<Vec<char>> = Vec::new();
    let mut pos: usize = 0;
    assert(s@.subrange(0, s@.len() as int) =~= s@);
    assert(char_vecs_view(out@) =~= Seq::<Seq<char>>::empty());
    assert(Seq::<Seq<char>>::empty() + text_lines(s@) =~= text_lines(s@));
    while pos < s.len()
        invariant
            pos <= s@.len(),
            nl@ == seq!['\n'],
            char_vecs_view(out@) + text_lines(s@.subrange(pos as int, s@.len() as int)) == text_lines(s@),
        decreases s@.len() - pos,
    {
        let rest = slice_chars(s, pos, s.len());
        let ghost r = rest@;
        let ghost before = out@;
        match find_chars(rest.as_slice(), nl.as_slice()) {
            Some(i) => {
                proof {
                    assert(occurs_at(r, nl@, i as int));
                    assert(r.subrange(i as int, i + 1)[0] == '\n');
                }
                let line = if i > 0 && rest[i - 1] == '\r' {
                    slice_chars(rest.as_slice(), 0, i - 1)
                } else {
                    slice_chars(rest.as_slice(), 0, i)
                };
                assert(line@ == strip_cr(r.subrange(0, i as int)));
                out.push(line);
                proof {
                    assert(r.subrange(i + 1, r.len() as int) =~= s@.subrange(pos + i + 1, s@.len() as int));
                    assert(text_lines(r) == seq![line@] + text_lines(r.subrange(i + 1, r.len() as int)));
                    assert(char_vecs_view(out@) =~= char_vecs_view(before).push(line@));
                    assert(char_vecs_view(out@) + text_lines(s@.subrange(pos + i + 1, s@.len() as int))
                        =~= char_vecs_view(before) + text_lines(r));
                }
                pos = pos + i + 1;
            },
            None => {
                out.push(rest);
                proof {
                    assert(text_lines(r) == seq![r]);
                    assert(char_vecs_view(out@) =~= char_vecs_view(before).push(r));
                    assert(s@.subrange(s@.len() as int, s@.len() as int) =~= Seq::<char>::empty());
                    assert(char_vecs_view(out@) + text_lines(Seq::<char>::empty()) =~= char_vecs_view(before) + text_lines(r));
                }
                pos = s.len();
            },
        }
    }
    assert(s@.subrange(pos as int, s@.len() as int) =~= Seq::<char>::empty());
    assert(char_vecs_view(out@) =~= char_vecs_view(out@) + text_lines(Seq::<char>::empty()));
    out
}

}
