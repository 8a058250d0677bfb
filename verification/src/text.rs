//! Character-level text handling shared by every validator of the library:
//! Unicode whitespace, trimming, whitespace collapsing and substring search.

use vstd::prelude::*;


verus! {

broadcast use vstd::string::group_string_axioms;

/// The Unicode `White_Space` property, which is what `char::is_whitespace` tests.
pub open spec fn is_white_space(c: char) -> bool {
    ||| ('\u{9}' <= c && c <= '\u{d}')
    ||| c == ' '
    ||| c == '\u{85}'
    ||| c == '\u{a0}'
    ||| c == '\u{1680}'
    ||| ('\u{2000}' <= c && c <= '\u{200a}')
    ||| c == '\u{2028}'
    ||| c == '\u{2029}'
    ||| c == '\u{202f}'
    ||| c == '\u{205f}'
    ||| c == '\u{3000}'
}

/// The text with its leading whitespace removed.
pub open spec fn trim_start(s: Seq<char>) -> Seq<char>
    decreases s.len(),
{
    if s.len() > 0 && is_white_space(s[0]) {
        trim_start(s.subrange(1, s.len() as int))
    } else {
        s
    }
}

/// The text with its trailing whitespace removed.
pub open spec fn trim_end(s: Seq<char>) -> Seq<char>
    decreases s.len(),
{
    if s.len() > 0 && is_white_space(s[s.len() - 1]) {
        trim_end(s.subrange(0, s.len() - 1))
    } else {
        s
    }
}

/// The text with leading and trailing whitespace removed (what `str::trim` returns).
pub open spec fn trim(s: Seq<char>) -> Seq<char> {
    trim_end(trim_start(s))
}

/// Removing leading whitespace keeps a suffix that does not start with whitespace.
proof fn lemma_trim_start_shape(s: Seq<char>)
    ensures
        trim_start(s).len() > 0 ==> !is_white_space(trim_start(s)[0]),
        trim_start(s).len() <= s.len(),
        trim_start(s) == s.subrange(s.len() - trim_start(s).len(), s.len() as int),
    decreases s.len(),
{
    if s.len() > 0 && is_white_space(s[0]) {
        let rest = s.subrange(1, s.len() as int);
        lemma_trim_start_shape(rest);
        assert(rest.subrange(rest.len() - trim_start(rest).len(), rest.len() as int) =~= s.subrange(
            s.len() - trim_start(rest).len(),
            s.len() as int,
        ));
    } else {
        assert(s.subrange(0, s.len() as int) =~= s);
    }
}

/// Removing trailing whitespace keeps a prefix that does not end with whitespace.
proof fn lemma_trim_end_shape(s: Seq<char>)
    ensures
        trim_end(s).len() > 0 ==> !is_white_space(trim_end(s)[trim_end(s).len() - 1]),
        trim_end(s).len() <= s.len(),
        trim_end(s) == s.subrange(0, trim_end(s).len() as int),
    decreases s.len(),
{
    if s.len() > 0 && is_white_space(s[s.len() - 1]) {
        let rest = s.subrange(0, s.len() - 1);
        lemma_trim_end_shape(rest);
        assert(rest.subrange(0, trim_end(rest).len() as int) =~= s.subrange(
            0,
            trim_end(rest).len() as int,
        ));
    } else {
        assert(s.subrange(0, s.len() as int) =~= s);
    }
}

/// Trimming a trimmed text changes nothing.
pub proof fn lemma_trim_idempotent(s: Seq<char>)
    ensures
        trim(trim(s)) == trim(s),
{
    let t = trim_start(s);
    let u = trim_end(t);
    lemma_trim_start_shape(s);
    lemma_trim_end_shape(t);
    if u.len() > 0 {
        assert(u[0] == t[0]);
        assert(!is_white_space(u[0]));
    }
    assert(trim_start(u) == u);
    assert(trim_end(u) == u);
}

/// The whitespace-separated words of `s` joined by single spaces, continued from a state
/// in which some word has already been written (`started`) and a separator may be owed
/// before the next word (`pending`).
pub open spec fn squeeze(s: Seq<char>, started: bool, pending: bool) -> Seq<char>
    decreases s.len(),
{
    if s.len() == 0 {
        Seq::empty()
    } else if is_white_space(s[0]) {
        squeeze(s.subrange(1, s.len() as int), started, started)
    } else if pending {
        seq![' ', s[0]] + squeeze(s.subrange(1, s.len() as int), true, false)
    } else {
        seq![s[0]] + squeeze(s.subrange(1, s.len() as int), true, false)
    }
}

/// The whitespace-separated words of `s` joined by single spaces
/// (what `split_whitespace().collect::<Vec<_>>().join(" ")` returns).
pub open spec fn collapse_whitespace(s: Seq<char>) -> Seq<char> {
    squeeze(s, false, false)
}

/// The text is already in collapsed form: it neither starts nor ends with whitespace, and
/// its only whitespace characters are single spaces between two other characters.
pub open spec fn is_collapsed(t: Seq<char>) -> bool {
    &&& t.len() > 0 ==> !is_white_space(t[0]) && !is_white_space(t[t.len() - 1])
    &&& forall|i: int|
        0 <= i < t.len() && is_white_space(#[trigger] t[i]) ==> t[i] == ' ' && 0 < i && i + 1
            < t.len() && !is_white_space(t[i - 1]) && !is_white_space(t[i + 1])
}

/// What `squeeze` can produce: it does not end with whitespace, starts with it only when
/// `lead` allows, and each of its whitespace characters is a single space followed by
/// another character.
spec fn squeezed_shape(r: Seq<char>, lead: bool) -> bool {
    &&& r.len() > 0 ==> !is_white_space(r[r.len() - 1])
    &&& r.len() > 0 && is_white_space(r[0]) ==> lead
    &&& forall|i: int|
        0 <= i < r.len() && is_white_space(#[trigger] r[i]) ==> r[i] == ' ' && i + 1 < r.len()
            && !is_white_space(r[i + 1]) && (i == 0 || !is_white_space(r[i - 1]))
}

/// The output of `squeeze` has the squeezed shape; it may start with a space only when a
/// separator is owed or a word has already been written.
proof fn lemma_squeeze_shape(s: Seq<char>, started: bool, pending: bool)
    ensures
        squeezed_shape(squeeze(s, started, pending), pending || started),
    decreases s.len(),
{
    if s.len() == 0 {
        return;
    }
    let rest = s.subrange(1, s.len() as int);
    if is_white_space(s[0]) {
        lemma_squeeze_shape(rest, started, started);
        return;
    }
    let tail = squeeze(rest, true, false);
    lemma_squeeze_shape(rest, true, false);
    let r = squeeze(s, started, pending);
    if pending {
        assert(r == seq![' ', s[0]] + tail);
        assert forall|i: int| 0 <= i < r.len() && is_white_space(#[trigger] r[i]) implies r[i]
            == ' ' && i + 1 < r.len() && !is_white_space(r[i + 1]) && (i == 0 || !is_white_space(
            r[i - 1],
        )) by {
            if i >= 2 {
                assert(r[i] == tail[i - 2]);
                assert(is_white_space(tail[i - 2]));
                assert(r[i + 1] == tail[i - 1]);
                if i > 2 {
                    assert(r[i - 1] == tail[i - 3]);
                }
            }
        }
        if tail.len() > 0 {
            assert(r[r.len() - 1] == tail[tail.len() - 1]);
        }
    } else {
        assert(r == seq![s[0]] + tail);
        assert forall|i: int| 0 <= i < r.len() && is_white_space(#[trigger] r[i]) implies r[i]
            == ' ' && i + 1 < r.len() && !is_white_space(r[i + 1]) && (i == 0 || !is_white_space(
            r[i - 1],
        )) by {
            if i >= 1 {
                assert(r[i] == tail[i - 1]);
                assert(is_white_space(tail[i - 1]));
                assert(r[i + 1] == tail[i]);
                if i > 1 {
                    assert(r[i - 1] == tail[i - 2]);
                }
            }
        }
        if tail.len() > 0 {
            assert(r[r.len() - 1] == tail[tail.len() - 1]);
        }
    }
}

/// Collapsed text is what `squeeze` gives back for it when no separator is owed.
proof fn lemma_squeeze_keeps_collapsed(t: Seq<char>, started: bool)
    requires
        is_collapsed(t),
    ensures
        squeeze(t, started, false) == t,
    decreases t.len(),
{
    if t.len() == 0 {
        return;
    }
    let rest = t.subrange(1, t.len() as int);
    if rest.len() == 0 {
        assert(squeeze(rest, true, false) == Seq::<char>::empty());
        assert(squeeze(t, started, false) =~= t);
        return;
    }
    if !is_white_space(rest[0]) {
        assert(is_collapsed(rest)) by {
            assert forall|i: int| 0 <= i < rest.len() && is_white_space(#[trigger] rest[i]) implies rest[i]
                == ' ' && 0 < i && i + 1 < rest.len() && !is_white_space(rest[i - 1])
                && !is_white_space(rest[i + 1]) by {
                assert(rest[i] == t[i + 1]);
                assert(is_white_space(t[i + 1]));
            }
        }
        lemma_squeeze_keeps_collapsed(rest, true);
        assert(squeeze(t, started, false) =~= t);
    } else {
        assert(is_white_space(t[1]));
        let after = t.subrange(2, t.len() as int);
        assert(after.len() > 0 && !is_white_space(after[0]));
        assert(is_collapsed(after)) by {
            assert forall|i: int| 0 <= i < after.len() && is_white_space(#[trigger] after[i]) implies after[i]
                == ' ' && 0 < i && i + 1 < after.len() && !is_white_space(after[i - 1])
                && !is_white_space(after[i + 1]) by {
                assert(after[i] == t[i + 2]);
                assert(is_white_space(t[i + 2]));
            }
            assert(after[after.len() - 1] == t[t.len() - 1]);
        }
        lemma_squeeze_keeps_collapsed(after, true);
        assert(rest.subrange(1, rest.len() as int) =~= after);
        assert(squeeze(rest, true, false) == squeeze(after, true, true));
        let tail = after.subrange(1, after.len() as int);
        assert(squeeze(after, true, true) == seq![' ', after[0]] + squeeze(tail, true, false));
        let x = squeeze(tail, true, false);
        assert(squeeze(after, true, false) == seq![after[0]] + x);
        assert(x =~= tail) by {
            assert(x.len() == tail.len());
            assert forall|k: int| 0 <= k < x.len() implies x[k] == tail[k] by {
                assert((seq![after[0]] + x)[k + 1] == x[k]);
            }
        }
        assert(t[1] == ' ');
        assert(squeeze(rest, true, false) =~= rest);
        assert(squeeze(t, started, false) =~= t);
    }
}

/// Collapsing whitespace a second time changes nothing.
pub proof fn lemma_collapse_whitespace_idempotent(s: Seq<char>)
    ensures
        is_collapsed(collapse_whitespace(s)),
        collapse_whitespace(collapse_whitespace(s)) == collapse_whitespace(s),
{
    let c = collapse_whitespace(s);
    lemma_squeeze_shape(s, false, false);
    assert(is_collapsed(c)) by {
        assert forall|i: int| 0 <= i < c.len() && is_white_space(#[trigger] c[i]) implies c[i]
            == ' ' && 0 < i && i + 1 < c.len() && !is_white_space(c[i - 1]) && !is_white_space(
            c[i + 1],
        ) by {
            if i == 0 {
                assert(false);
            }
        }
    }
    lemma_squeeze_keeps_collapsed(c, false);
}

/// `pattern` occurs in `s` starting at position `i`.
pub open spec fn occurs_at(s: Seq<char>, pattern: Seq<char>, i: int) -> bool {
    &&& 0 <= i
    &&& i + pattern.len() <= s.len()
    &&& s.subrange(i, i + pattern.len()) == pattern
}

/// `pattern` occurs somewhere in `s`.
pub open spec fn contains_text(s: Seq<char>, pattern: Seq<char>) -> bool {
    exists|i: int| occurs_at(s, pattern, i)
}

/// The texts held by a list of strings.
pub open spec fn texts(v: Seq<String>) -> Seq<Seq<char>> {
    v.map_values(|s: String| s@)
}

/// Some string of `list` holds the text `t`.
pub open spec fn lists_text(list: Seq<String>, t: Seq<char>) -> bool {
    exists|k: int| 0 <= k < list.len() && list[k]@ == t
}

/// The lower-case form of a text, as `str::to_lowercase` computes it.
pub uninterp spec fn lowercase(s: Seq<char>) -> Seq<char>;

/// The characters `0-9`, `a-f` and `A-F`.
pub open spec fn is_hex_char(c: char) -> bool {
    ('0' <= c && c <= '9') || ('a' <= c && c <= 'f') || ('A' <= c && c <= 'F')
}

/// 36 characters: 32 hex digits in groups of 8, 4, 4, 4 and 12, split by hyphens.
pub open spec fn hyphenated_uuid_text(s: Seq<char>) -> bool {
    &&& s.len() == 36
    &&& forall|i: int|
        0 <= i < 36 ==> if i == 8 || i == 13 || i == 18 || i == 23 {
            #[trigger] s[i] == '-'
        } else {
            is_hex_char(s[i])
        }
}

/// The hyphenated lower-case text of a version 7 UUID: the version digit `7` opens the
/// third group, the fourth group opens with `8`, `9`, `a` or `b` (the RFC variant), and no
/// letter is upper-case.
pub open spec fn version_seven_uuid_text(s: Seq<char>) -> bool {
    &&& hyphenated_uuid_text(s)
    &&& s[14] == '7'
    &&& (s[19] == '8' || s[19] == '9' || s[19] == 'a' || s[19] == 'b')
    &&& forall|i: int| 0 <= i < 36 ==> !('A' <= #[trigger] s[i] && s[i] <= 'Z')
}

/// The characters `urn:uuid:`.
pub open spec fn urn_uuid_prefix() -> Seq<char> {
    seq!['u', 'r', 'n', ':', 'u', 'u', 'i', 'd', ':']
}

/// `c` is `p`, or the upper-case form of the lower-case ASCII letter `p`.
pub open spec fn same_ignoring_ascii_case(c: char, p: char) -> bool {
    c == p || ('a' <= p && p <= 'z' && c as u32 + 32 == p as u32)
}

/// The text is a UUID in one of the forms that `uuid::Uuid::parse_str` accepts: 32 hex
/// digits; the hyphenated form; the hyphenated form in braces; or `urn:uuid:`, its letters
/// in either case, followed by the hyphenated form. The parser reads bytes, and every
/// byte of these forms is ASCII, so a text with any other character never parses; for
/// ASCII text, bytes and characters are the same.
pub open spec fn parses_as_uuid(s: Seq<char>) -> bool {
    ||| s.len() == 32 && forall|i: int| 0 <= i < 32 ==> is_hex_char(#[trigger] s[i])
    ||| hyphenated_uuid_text(s)
    ||| s.len() == 38 && s[0] == '{' && s[37] == '}' && hyphenated_uuid_text(s.subrange(1, 37))
    ||| s.len() == 45 && (forall|i: int|
        0 <= i < 9 ==> same_ignoring_ascii_case(#[trigger] s[i], urn_uuid_prefix()[i]))
        && hyphenated_uuid_text(s.subrange(9, 45))
}

/// Wraps `str::to_lowercase`: the result is the named lower-case form of the argument.
/// Its Unicode case mapping is not restated here.
#[verifier::external_body]
pub(crate) fn to_lowercase(s: &str) -> (r: String)
    ensures
        r@ == lowercase(s@),
{
    s.to_lowercase()
}

/// Wraps `uuid::Uuid::parse_str`: the result tells whether it accepted the text, which it
/// does exactly for the forms that [`parses_as_uuid`] lists.
#[verifier::external_body]
pub(crate) fn is_uuid(s: &str) -> (r: bool)
    ensures
        r == parses_as_uuid(s@),
{
    uuid::Uuid::parse_str(s).is_ok()
}

/// Wraps `String::push`: appends one character.
#[verifier::external_body]
pub(crate) fn push_char(s: &mut String, c: char)
    ensures
        final(s)@ == old(s)@.push(c),
{
    s.push(c)
}

/// Whether some string of `list` holds the text of `t`.
pub fn has_text(list: &Vec<String>, t: &String) -> (r: bool)
    ensures
        r == lists_text(list@, t@),
{
    let mut k: usize = 0;
    while k < list.len()
        invariant
            k <= list.len(),
            forall|j: int| 0 <= j < k ==> list@[j]@ != t@,
        decreases list.len() - k,
    {
        if list[k] == *t {
            return true;
        }
        k = k + 1;
    }
    false
}

/// Tests the Unicode `White_Space` property.
pub fn is_whitespace(c: char) -> (r: bool)
    ensures
        r == is_white_space(c),
{
    ('\u{9}' <= c && c <= '\u{d}') || c == ' ' || c == '\u{85}' || c == '\u{a0}'
        || c == '\u{1680}' || ('\u{2000}' <= c && c <= '\u{200a}') || c == '\u{2028}'
        || c == '\u{2029}' || c == '\u{202f}' || c == '\u{205f}' || c == '\u{3000}'
}

/// The characters of a text.
pub fn chars_of(s: &str) -> (v: Vec<char>)
    ensures
        v@ == s@,
{
    let mut v: Vec<char> = Vec::new();
    for c in iter: s.chars()
        invariant
            v@ == iter.seq().take(iter.index() as int),
            iter.seq() == s@,
    {
        v.push(c);
        assert(v@ =~= iter.seq().take(iter.index() as int + 1));
    }
    v
}

/// The text made of `chars[from..to]`.
pub fn string_from_range(chars: &Vec<char>, from: usize, to: usize) -> (r: String)
    requires
        from <= to <= chars.len(),
    ensures
        r@ == chars@.subrange(from as int, to as int),
{
    let mut r = String::new();
    let mut i = from;
    while i < to
        invariant
            from <= i <= to <= chars.len(),
            r@ == chars@.subrange(from as int, i as int),
        decreases to - i,
    {
        push_char(&mut r, chars[i]);
        i = i + 1;
        assert(r@ =~= chars@.subrange(from as int, i as int));
    }
    r
}

/// The text `a` followed by the text `b`.
pub fn concat(a: &str, b: &str) -> (r: String)
    ensures
        r@ == a@ + b@,
{
    let mut out = a.to_owned();
    let chars = chars_of(b);
    let ghost start = out@;
    let mut i: usize = 0;
    while i < chars.len()
        invariant
            chars@ == b@,
            i <= chars.len(),
            out@ == start + chars@.take(i as int),
        decreases chars.len() - i,
    {
        push_char(&mut out, chars[i]);
        assert(chars@.take(i + 1) =~= chars@.take(i as int).push(chars@[i as int]));
        i = i + 1;
    }
    assert(chars@.take(i as int) =~= chars@);
    out
}

/// Two texts are equal.
pub fn str_equals(a: &str, b: &str) -> (r: bool)
    ensures
        r == (a@ == b@),
{
    let x = a.to_owned();
    let y = b.to_owned();
    x == y
}

/// Position of the first non-whitespace character of `chars[from..to]`, or `to`.
fn skip_leading_whitespace(chars: &Vec<char>, from: usize, to: usize) -> (i: usize)
    requires
        from <= to <= chars.len(),
    ensures
        from <= i <= to,
        trim_start(chars@.subrange(from as int, to as int)) == chars@.subrange(i as int, to as int),
{
    let mut i = from;
    while i < to && is_whitespace(chars[i])
        invariant
            from <= i <= to <= chars.len(),
            trim_start(chars@.subrange(from as int, to as int)) == trim_start(
                chars@.subrange(i as int, to as int),
            ),
        decreases to - i,
    {
        let ghost rest = chars@.subrange(i as int, to as int);
        assert(rest.subrange(1, rest.len() as int) =~= chars@.subrange(i + 1, to as int));
        i = i + 1;
    }
    i
}

/// Position just after the last non-whitespace character of `chars[from..to]`, or `from`.
fn skip_trailing_whitespace(chars: &Vec<char>, from: usize, to: usize) -> (j: usize)
    requires
        from <= to <= chars.len(),
    ensures
        from <= j <= to,
        trim_end(chars@.subrange(from as int, to as int)) == chars@.subrange(from as int, j as int),
{
    let mut j = to;
    while j > from && is_whitespace(chars[j - 1])
        invariant
            from <= j <= to <= chars.len(),
            trim_end(chars@.subrange(from as int, to as int)) == trim_end(
                chars@.subrange(from as int, j as int),
            ),
        decreases j - from,
    {
        let ghost rest = chars@.subrange(from as int, j as int);
        assert(rest.subrange(0, rest.len() - 1) =~= chars@.subrange(from as int, j - 1));
        j = j - 1;
    }
    j
}

/// Bounds `(i, j)` such that `chars[i..j]` is the trimmed text.
pub fn trim_bounds(chars: &Vec<char>) -> (r: (usize, usize))
    ensures
        r.0 <= r.1 <= chars.len(),
        chars@.subrange(r.0 as int, r.1 as int) == trim(chars@),
{
    let n = chars.len();
    let i = skip_leading_whitespace(chars, 0, n);
    assert(chars@.subrange(0, n as int) =~= chars@);
    let j = skip_trailing_whitespace(chars, i, n);
    (i, j)
}

/// The text with leading and trailing whitespace removed (`str::trim`).
pub fn trimmed(s: &str) -> (r: String)
    ensures
        r@ == trim(s@),
{
    let chars = chars_of(s);
    let (i, j) = trim_bounds(&chars);
    string_from_range(&chars, i, j)
}

/// The whitespace-separated words of the text joined by single spaces.
pub fn collapsed(s: &str) -> (r: String)
    ensures
        r@ == collapse_whitespace(s@),
{
    let chars = chars_of(s);
    let mut r = String::new();
    let mut pending = false;
    let mut i: usize = 0;
    assert(chars@.subrange(0, chars@.len() as int) =~= chars@);
    while i < chars.len()
        invariant
            i <= chars.len(),
            r@ + squeeze(chars@.subrange(i as int, chars@.len() as int), r@.len() > 0, pending)
                == collapse_whitespace(chars@),
            pending ==> r@.len() > 0,
        decreases chars.len() - i,
    {
        let ghost rest = chars@.subrange(i as int, chars@.len() as int);
        assert(rest.subrange(1, rest.len() as int) =~= chars@.subrange(
            i + 1,
            chars@.len() as int,
        ));
        let c = chars[i];
        if is_whitespace(c) {
            pending = r.unicode_len() > 0;
        } else {
            let ghost before = r@;
            let ghost was_pending = pending;
            if pending {
                push_char(&mut r, ' ');
            }
            push_char(&mut r, c);
            pending = false;
            proof {
                let tail = squeeze(rest.subrange(1, rest.len() as int), true, false);
                if was_pending {
                    assert(r@ =~= before + seq![' ', c]);
                    assert(r@ + tail =~= before + (seq![' ', c] + tail));
                } else {
                    assert(r@ =~= before + seq![c]);
                    assert(r@ + tail =~= before + (seq![c] + tail));
                }
            }
        }
        i = i + 1;
    }
    assert(chars@.subrange(i as int, chars@.len() as int) =~= Seq::<char>::empty());
    r
}

} // verus!
