//! Turning what a learner types into a full-text search expression in which every word is
//! a quoted prefix, so that search operators and punctuation are read as text.

use vstd::prelude::*;

use crate::error::{LibraryError, LibraryResult};
use crate::text::{chars_of, is_white_space, is_whitespace, push_char, trim, trimmed};

verus! {

broadcast use vstd::seq_lib::group_seq_properties;

/// A search query has at most this many characters once trimmed.
pub const MAXIMUM_QUERY_LENGTH: usize = 250;

/// Words of a query are separated by whitespace and NUL characters.
pub open spec fn is_separator(c: char) -> bool {
    is_white_space(c) || c == '\0'
}

/// The words of `s`, continuing a word `current` already started.
pub open spec fn words_from(s: Seq<char>, current: Seq<char>) -> Seq<Seq<char>>
    decreases s.len(),
{
    if s.len() == 0 {
        if current.len() > 0 {
            seq![current]
        } else {
            Seq::empty()
        }
    } else if is_separator(s[0]) {
        (if current.len() > 0 {
            seq![current]
        } else {
            Seq::empty()
        }) + words_from(s.drop_first(), Seq::empty())
    } else {
        words_from(s.drop_first(), current.push(s[0]))
    }
}

/// The non-empty words of `s`, in order.
pub open spec fn search_words(s: Seq<char>) -> Seq<Seq<char>> {
    words_from(s, Seq::empty())
}

/// The word with every double quote doubled.
pub open spec fn doubled_quotes(word: Seq<char>) -> Seq<char>
    decreases word.len(),
{
    if word.len() == 0 {
        Seq::empty()
    } else {
        doubled_quotes(word.drop_last()) + if word.last() == '"' {
            seq!['"', '"']
        } else {
            seq![word.last()]
        }
    }
}

/// The word as a quoted prefix search term.
pub open spec fn quoted_term(word: Seq<char>) -> Seq<char> {
    seq!['"'] + doubled_quotes(word) + seq!['"', '*']
}

/// The text of the body of a quoted search string, read from its end: each pair of
/// double quotes stands for one double quote. A lone quote has no reading.
pub open spec fn string_body_text(body: Seq<char>) -> Option<Seq<char>>
    decreases body.len(),
{
    if body.len() == 0 {
        Some(Seq::empty())
    } else if body.last() == '"' {
        if body.len() >= 2 && body[body.len() - 2] == '"' {
            match string_body_text(body.subrange(0, body.len() - 2)) {
                Some(t) => Some(t.push('"')),
                None => None,
            }
        } else {
            None
        }
    } else {
        match string_body_text(body.drop_last()) {
            Some(t) => Some(t.push(body.last())),
            None => None,
        }
    }
}

/// Query text stays text: the body of each quoted term reads back as exactly the word,
/// whatever operators or quotes the word holds, so nothing in it can end the string.
pub proof fn lemma_quoted_terms_read_back(word: Seq<char>)
    ensures
        string_body_text(doubled_quotes(word)) == Some(word),
    decreases word.len(),
{
    if word.len() > 0 {
        let rest = word.drop_last();
        lemma_quoted_terms_read_back(rest);
        let d = doubled_quotes(word);
        if word.last() == '"' {
            assert(d == doubled_quotes(rest) + seq!['"', '"']);
            assert(d.subrange(0, d.len() - 2) =~= doubled_quotes(rest));
        } else {
            assert(d == doubled_quotes(rest) + seq![word.last()]);
            assert(d.drop_last() =~= doubled_quotes(rest));
        }
        assert(rest.push(word.last()) =~= word);
    }
}

/// The separator between the terms of an expression.
pub open spec fn and_separator() -> Seq<char> {
    seq![' ', 'A', 'N', 'D', ' ']
}

/// The quoted terms of the words, joined by ` AND `.
pub open spec fn joined_terms(words: Seq<Seq<char>>) -> Seq<char>
    decreases words.len(),
{
    if words.len() == 0 {
        Seq::empty()
    } else if words.len() == 1 {
        quoted_term(words[0])
    } else {
        joined_terms(words.drop_last()) + and_separator() + quoted_term(words.last())
    }
}

/// The search expression of a query: the quoted terms of the words of the trimmed query,
/// joined by ` AND `; empty when the query has no words.
pub open spec fn search_expression_of(query: Seq<char>) -> Seq<char> {
    joined_terms(search_words(trim(query)))
}

/// The views of a list of character vectors.
pub open spec fn char_vec_views(v: Seq<Vec<char>>) -> Seq<Seq<char>> {
    v.map_values(|w: Vec<char>| w@)
}

/// Splits the text into its words.
fn split_words(chars: &Vec<char>) -> (r: Vec<Vec<char>>)
    ensures
        char_vec_views(r@) == search_words(chars@),
{
    let mut words: Vec<Vec<char>> = Vec::new();
    let mut current: Vec<char> = Vec::new();
    let mut i: usize = 0;
    while i < chars.len()
        invariant
            i <= chars.len(),
            char_vec_views(words@) + words_from(chars@.skip(i as int), current@) == search_words(
                chars@,
            ),
        decreases chars.len() - i,
    {
        let ghost rest = chars@.skip(i as int);
        assert(rest.drop_first() =~= chars@.skip(i + 1));
        let c = chars[i];
        if is_whitespace(c) || c == '\0' {
            if current.len() > 0 {
                let ghost before = char_vec_views(words@);
                let word = current;
                words.push(word);
                current = Vec::new();
                assert(char_vec_views(words@) =~= before + seq![word@]);
            } else {
                current = Vec::new();
            }
        } else {
            current.push(c);
        }
        i = i + 1;
    }
    if current.len() > 0 {
        let ghost before = char_vec_views(words@);
        let word = current;
        words.push(word);
        assert(char_vec_views(words@) =~= before + seq![word@]);
    }
    assert(chars@.skip(i as int) =~= Seq::<char>::empty());
    assert(char_vec_views(words@) =~= search_words(chars@));
    words
}

/// Appends the word as a quoted prefix term.
fn push_quoted_term(out: &mut String, word: &Vec<char>)
    ensures
        final(out)@ == old(out)@ + quoted_term(word@),
{
    let ghost start = out@;
    push_char(out, '"');
    let mut j: usize = 0;
    while j < word.len()
        invariant
            j <= word.len(),
            out@ == start + seq!['"'] + doubled_quotes(word@.take(j as int)),
        decreases word.len() - j,
    {
        assert(word@.take(j + 1).drop_last() =~= word@.take(j as int));
        let ghost before = out@;
        if word[j] == '"' {
            push_char(out, '"');
            push_char(out, '"');
            assert(out@ =~= before + seq!['"', '"']);
        } else {
            push_char(out, word[j]);
            assert(out@ =~= before + seq![word@[j as int]]);
        }
        j = j + 1;
    }
    assert(word@.take(j as int) =~= word@);
    push_char(out, '"');
    push_char(out, '*');
    assert(out@ =~= start + quoted_term(word@));
}

/// Builds the full-text search expression of a query (see [`search_expression_of`]); a
/// trimmed query longer than 250 characters is refused.
pub fn search_expression(query: &str) -> (r: LibraryResult<String>)
    ensures
        trim(query@).len() > MAXIMUM_QUERY_LENGTH ==> (r matches Err(e)
            && e matches LibraryError::ValueTooLong { field, maximum } && field@ == "Search"@
            && maximum == MAXIMUM_QUERY_LENGTH),
        trim(query@).len() <= MAXIMUM_QUERY_LENGTH ==> (r matches Ok(s) && s@
            == search_expression_of(query@)),
{
    let query = trimmed(query);
    if query.unicode_len() > MAXIMUM_QUERY_LENGTH {
        return Err(LibraryError::ValueTooLong { field: "Search", maximum: MAXIMUM_QUERY_LENGTH });
    }
    let chars = chars_of(query.as_str());
    let words = split_words(&chars);
    let mut out = String::new();
    let mut k: usize = 0;
    while k < words.len()
        invariant
            k <= words.len(),
            out@ == joined_terms(char_vec_views(words@).take(k as int)),
        decreases words.len() - k,
    {
        let ghost taken = char_vec_views(words@).take(k + 1);
        assert(taken.drop_last() =~= char_vec_views(words@).take(k as int));
        if k > 0 {
            push_char(&mut out, ' ');
            push_char(&mut out, 'A');
            push_char(&mut out, 'N');
            push_char(&mut out, 'D');
            push_char(&mut out, ' ');
        }
        push_quoted_term(&mut out, &words[k]);
        proof {
            if k == 0 {
                assert(out@ =~= quoted_term(taken[0]));
            } else {
                assert(out@ =~= joined_terms(taken.drop_last()) + and_separator() + quoted_term(
                    taken.last(),
                ));
            }
        }
        k = k + 1;
    }
    assert(char_vec_views(words@).take(k as int) =~= char_vec_views(words@));
    Ok(out)
}

/// The library list shows this many concepts per page.
pub const PAGE_SIZE: i64 = 50;

/// The last page of a list of `total` concepts; an empty list has one empty page.
pub open spec fn last_page_of(total: int) -> int {
    (if total - 1 > 0 {
        total - 1
    } else {
        0
    }) / (PAGE_SIZE as int) + 1
}

/// The page shown for a requested page: held between the first and the last page.
pub open spec fn shown_page(total: int, requested: int) -> int {
    if requested < 1 {
        1
    } else if requested > last_page_of(total) {
        last_page_of(total)
    } else {
        requested
    }
}

/// The page shown of a list of `total_count` concepts when `requested_page` is asked for,
/// and the number of concepts before it.
pub fn page_window(total_count: i64, requested_page: u32) -> (r: (i64, i64))
    requires
        total_count > i64::MIN,
    ensures
        r.0 == shown_page(total_count as int, requested_page as int),
        r.1 == (r.0 - 1) * PAGE_SIZE,
        1 <= r.0 <= last_page_of(total_count as int),
{
    let before_last = if total_count - 1 > 0 {
        total_count - 1
    } else {
        0
    };
    let last_page = before_last / PAGE_SIZE + 1;
    let requested = requested_page as i64;
    let page = if requested < 1 {
        1
    } else if requested > last_page {
        last_page
    } else {
        requested
    };
    assert((page - 1) * PAGE_SIZE <= (last_page - 1) * PAGE_SIZE) by (nonlinear_arith)
        requires
            1 <= page <= last_page,
    ;
    (page, (page - 1) * PAGE_SIZE)
}

} // verus!
