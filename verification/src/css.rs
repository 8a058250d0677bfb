//! Checks on user stylesheets that come before they are parsed: size, characters, and
//! that every bracket, string and comment is closed in the right order.

use vstd::prelude::*;

use crate::concepts::normalize_value;
use crate::error::{LibraryError, LibraryResult};
use crate::models::css_snippets::{CssSnippetContent, CSS_SNIPPET_SCHEMA_VERSION};
use crate::templates::str_texts;
use crate::text::{chars_of, trim, trimmed};
use vstd::utf8::encode_utf8;

verus! {

/// A snippet name has at most this many characters.
pub const MAXIMUM_CSS_SNIPPET_NAME_LENGTH: usize = 80;

/// A snippet's stylesheet has at most this many bytes.
pub const MAXIMUM_CSS_SNIPPET_SOURCE_BYTES: usize = 100_000;

/// The bytes `0-9`, `a-f` and `A-F`.
pub open spec fn is_hex_digit(b: u8) -> bool {
    (48 <= b <= 57) || (97 <= b <= 102) || (65 <= b <= 70)
}

/// The bytes that `u8::is_ascii_whitespace` accepts: space, tab, line feed, form feed and
/// carriage return.
pub open spec fn is_ascii_space(b: u8) -> bool {
    b == 32 || b == 9 || b == 10 || b == 12 || b == 13
}

/// The end of a run of at most six hex digits from `i`, `digits` of which are already read.
pub open spec fn hex_run_end(bytes: Seq<u8>, i: int, digits: int) -> int
    decreases bytes.len() - i,
{
    if 0 <= i < bytes.len() && is_hex_digit(bytes[i]) && digits < 6 {
        hex_run_end(bytes, i + 1, digits + 1)
    } else {
        i
    }
}

/// The position just after the CSS escape that starts with the backslash at `slash`: the
/// escaped character, or up to six hex digits and one whitespace (a CR LF pair counts as
/// one).
pub open spec fn escape_end(bytes: Seq<u8>, slash: int) -> int {
    let i = slash + 1;
    if i >= bytes.len() {
        i
    } else if is_hex_digit(bytes[i]) {
        let j = hex_run_end(bytes, i, 0);
        if j < bytes.len() && is_ascii_space(bytes[j]) {
            if bytes[j] == 13 && j + 1 < bytes.len() && bytes[j + 1] == 10 {
                j + 2
            } else {
                j + 1
            }
        } else {
            j
        }
    } else {
        i + 1
    }
}

/// The hex run ends after its start, within the bytes, and after at most six digits.
proof fn lemma_hex_run_end_bounds(bytes: Seq<u8>, i: int, digits: int)
    requires
        0 <= i <= bytes.len(),
        0 <= digits,
    ensures
        i <= hex_run_end(bytes, i, digits) <= bytes.len(),
    decreases bytes.len() - i,
{
    if 0 <= i < bytes.len() && is_hex_digit(bytes[i]) && digits < 6 {
        lemma_hex_run_end_bounds(bytes, i + 1, digits + 1);
    }
}

/// An escape ends after its backslash and at most one past the end of the bytes.
proof fn lemma_escape_end_bounds(bytes: Seq<u8>, slash: int)
    requires
        0 <= slash < bytes.len(),
    ensures
        slash < escape_end(bytes, slash) <= bytes.len(),
{
    if slash + 1 < bytes.len() && is_hex_digit(bytes[slash + 1]) {
        lemma_hex_run_end_bounds(bytes, slash + 1, 0);
    }
}

/// Whether the byte is a hex digit.
fn is_hex_byte(b: u8) -> (r: bool)
    ensures
        r == is_hex_digit(b),
{
    (48 <= b && b <= 57) || (97 <= b && b <= 102) || (65 <= b && b <= 70)
}

/// The position just after the escape whose backslash is at `slash_index`; past the end
/// of the bytes, the position just after it.
pub fn css_escape_end(source: &[u8], slash_index: usize) -> (r: usize)
    requires
        slash_index < usize::MAX,
    ensures
        r == escape_end(source@, slash_index as int),
{
    let mut index = slash_index + 1;
    if index >= source.len() {
        return index;
    }
    if is_hex_byte(source[index]) {
        let mut digits: usize = 0;
        while index < source.len() && digits < 6 && is_hex_byte(source[index])
            invariant
                slash_index + 1 <= index <= source@.len(),
                digits == index - slash_index - 1,
                hex_run_end(source@, index as int, digits as int) == hex_run_end(
                    source@,
                    slash_index + 1,
                    0,
                ),
            decreases source@.len() - index,
        {
            index = index + 1;
            digits = digits + 1;
        }
        if index < source.len() {
            let c = source[index];
            if c == 32 || c == 9 || c == 10 || c == 12 || c == 13 {
                if c == 13 && index + 1 < source.len() && source[index + 1] == 10 {
                    return index + 2;
                }
                return index + 1;
            }
        }
        return index;
    }
    index + 1
}

/// `bytes` continue at `i` with the two bytes `first` and `second`.
pub open spec fn starts_pair(bytes: Seq<u8>, i: int, first: u8, second: u8) -> bool {
    0 <= i && i + 1 < bytes.len() && bytes[i] == first && bytes[i + 1] == second
}

/// The closing bracket of each opening one.
pub open spec fn closes(open: u8, close: u8) -> bool {
    (open == 40 && close == 41) || (open == 91 && close == 93) || (open == 123 && close == 125)
}

/// Whether the rest of `bytes` from `i` leaves every comment, string and bracket closed,
/// given whether a comment is open, which quote (if any) opened the current string, and
/// the brackets still open, innermost last. Inside a comment everything up to `*/` is
/// skipped; inside a string an escape is skipped, the opening quote closes it and a line
/// break is an error; elsewhere `/*` opens a comment, a quote opens a string, an escape
/// is skipped, `(`, `[` and `{` open a bracket, and `)`, `]` and `}` must close the
/// innermost open one.
pub open spec fn scan_balanced(
    bytes: Seq<u8>,
    i: int,
    quote: Option<u8>,
    in_comment: bool,
    open: Seq<u8>,
) -> bool
    decreases bytes.len() - i,
{
    if i < 0 || i >= bytes.len() {
        !in_comment && quote is None && open.len() == 0
    } else if in_comment {
        if starts_pair(bytes, i, 42, 47) {
            scan_balanced(bytes, i + 2, quote, false, open)
        } else {
            scan_balanced(bytes, i + 1, quote, true, open)
        }
    } else if quote is Some {
        let b = bytes[i];
        if b == 92 {
            if i < escape_end(bytes, i) <= bytes.len() {
                scan_balanced(bytes, escape_end(bytes, i), quote, false, open)
            } else {
                false
            }
        } else if b == quote->Some_0 {
            scan_balanced(bytes, i + 1, None, false, open)
        } else if b == 10 || b == 13 || b == 12 {
            false
        } else {
            scan_balanced(bytes, i + 1, quote, false, open)
        }
    } else if starts_pair(bytes, i, 47, 42) {
        scan_balanced(bytes, i + 2, None, true, open)
    } else {
        let b = bytes[i];
        if b == 39 || b == 34 {
            scan_balanced(bytes, i + 1, Some(b), false, open)
        } else if b == 92 {
            if i < escape_end(bytes, i) <= bytes.len() {
                scan_balanced(bytes, escape_end(bytes, i), None, false, open)
            } else {
                false
            }
        } else if b == 40 || b == 91 || b == 123 {
            scan_balanced(bytes, i + 1, None, false, open.push(b))
        } else if b == 41 || b == 93 || b == 125 {
            open.len() > 0 && closes(open.last(), b) && scan_balanced(
                bytes,
                i + 1,
                None,
                false,
                open.drop_last(),
            )
        } else {
            scan_balanced(bytes, i + 1, None, false, open)
        }
    }
}

/// Every comment, string and bracket of the stylesheet is closed, in the right order.
pub open spec fn css_is_balanced(bytes: Seq<u8>) -> bool {
    scan_balanced(bytes, 0, None, false, Seq::empty())
}

/// Whether every comment, string and bracket of the stylesheet is closed, in the right
/// order (see [`scan_balanced`]).
pub fn has_balanced_css_delimiters(source: &str) -> (r: bool)
    ensures
        r == css_is_balanced(encode_utf8(source@)),
{
    let bytes = source.as_bytes();
    let ghost all = bytes@;
    let mut delimiters: Vec<u8> = Vec::new();
    let mut index: usize = 0;
    let mut quote: Option<u8> = None;
    let mut in_comment = false;
    while index < bytes.len()
        invariant
            all == bytes@,
            all == encode_utf8(source@),
            index <= bytes@.len(),
            css_is_balanced(all) == scan_balanced(all, index as int, quote, in_comment, delimiters@),
            in_comment ==> quote is None,
        decreases bytes@.len() - index,
    {
        if in_comment {
            if index + 1 < bytes.len() && bytes[index] == 42 && bytes[index + 1] == 47 {
                in_comment = false;
                index = index + 2;
            } else {
                index = index + 1;
            }
            continue;
        }
        match quote {
            Some(active) => {
                let b = bytes[index];
                if b == 92 {
                    proof {
                        lemma_escape_end_bounds(all, index as int);
                    }
                    index = css_escape_end(bytes, index);
                } else if b == active {
                    quote = None;
                    index = index + 1;
                } else if b == 10 || b == 13 || b == 12 {
                    return false;
                } else {
                    index = index + 1;
                }
                continue;
            },
            None => {},
        }
        if index + 1 < bytes.len() && bytes[index] == 47 && bytes[index + 1] == 42 {
            in_comment = true;
            index = index + 2;
            continue;
        }
        let b = bytes[index];
        if b == 39 || b == 34 {
            quote = Some(b);
            index = index + 1;
        } else if b == 92 {
            proof {
                lemma_escape_end_bounds(all, index as int);
            }
            index = css_escape_end(bytes, index);
        } else if b == 40 || b == 91 || b == 123 {
            delimiters.push(b);
            index = index + 1;
        } else if b == 41 || b == 93 || b == 125 {
            let expected: u8 = if b == 41 {
                40
            } else if b == 93 {
                91
            } else {
                123
            };
            match delimiters.pop() {
                Some(top) => {
                    if top != expected {
                        return false;
                    }
                },
                None => {
                    return false;
                },
            }
            index = index + 1;
        } else {
            index = index + 1;
        }
    }
    !in_comment && quote.is_none() && delimiters.len() == 0
}

/// The ASCII lower-case form of a byte.
pub open spec fn ascii_lower(b: u8) -> u8 {
    if 65 <= b <= 90 {
        (b + 32) as u8
    } else {
        b
    }
}

/// Two byte strings are equal when ASCII letters are compared without case.
pub open spec fn equal_ignoring_ascii_case(a: Seq<u8>, b: Seq<u8>) -> bool {
    a.len() == b.len() && forall|i: int| 0 <= i < a.len() ==> ascii_lower(#[trigger] a[i]) == ascii_lower(b[i])
}

/// Whether `a` and `b` are equal when ASCII letters are compared without case.
fn eq_ignore_ascii_case(a: &str, b: &str) -> (r: bool)
    ensures
        r == equal_ignoring_ascii_case(encode_utf8(a@), encode_utf8(b@)),
{
    let x = a.as_bytes();
    let y = b.as_bytes();
    if x.len() != y.len() {
        return false;
    }
    let mut i: usize = 0;
    while i < x.len()
        invariant
            x@ == encode_utf8(a@),
            y@ == encode_utf8(b@),
            x@.len() == y@.len(),
            i <= x@.len(),
            forall|k: int| 0 <= k < i ==> ascii_lower(#[trigger] x@[k]) == ascii_lower(y@[k]),
        decreases x@.len() - i,
    {
        let p = x[i];
        let q = y[i];
        let lp: u8 = if 65 <= p && p <= 90 {
            p + 32
        } else {
            p
        };
        let lq: u8 = if 65 <= q && q <= 90 {
            q + 32
        } else {
            q
        };
        if lp != lq {
            return false;
        }
        i = i + 1;
    }
    true
}

/// Whether `value` equals one of the candidates when ASCII letters are compared without
/// case.
pub fn matches_ignore_ascii_case(value: &str, candidates: &[&str]) -> (r: bool)
    ensures
        r == exists|k: int|
            0 <= k < candidates@.len() && equal_ignoring_ascii_case(
                encode_utf8(value@),
                #[trigger] encode_utf8(candidates@[k]@),
            ),
{
    let mut k: usize = 0;
    while k < candidates.len()
        invariant
            k <= candidates@.len(),
            forall|j: int|
                0 <= j < k ==> !equal_ignoring_ascii_case(
                    encode_utf8(value@),
                    #[trigger] encode_utf8(candidates@[j]@),
                ),
        decreases candidates@.len() - k,
    {
        if eq_ignore_ascii_case(value, candidates[k]) {
            return true;
        }
        k = k + 1;
    }
    false
}

/// Reads a snippet name: trimmed, non-empty and at most 80 characters.
pub fn normalize_snippet_name(name: String) -> (r: LibraryResult<String>)
    ensures
        r matches Ok(v) ==> v@ == trim(name@) && 0 < v@.len() <= MAXIMUM_CSS_SNIPPET_NAME_LENGTH,
        r is Ok <==> 0 < trim(name@).len() <= MAXIMUM_CSS_SNIPPET_NAME_LENGTH,
        trim(name@).len() == 0 ==> (r matches Err(e) && e matches LibraryError::EmptyValue { field }
            && field@ == "CSS snippet name"@),
        trim(name@).len() > MAXIMUM_CSS_SNIPPET_NAME_LENGTH ==> (r matches Err(e)
            && e matches LibraryError::ValueTooLong { field, maximum } && field@
            == "CSS snippet name"@ && maximum == MAXIMUM_CSS_SNIPPET_NAME_LENGTH),
{
    normalize_value(name, "CSS snippet name", MAXIMUM_CSS_SNIPPET_NAME_LENGTH)
}

/// The error for a stylesheet refused with `message`.
pub open spec fn css_error(e: LibraryError, message: Seq<char>) -> bool {
    e matches LibraryError::InvalidCss { message: m } && m@ == message
}

/// Whether the text holds the character NUL.
fn has_nul(s: &str) -> (r: bool)
    ensures
        r == s@.contains('\0'),
{
    let chars = chars_of(s);
    let mut i: usize = 0;
    while i < chars.len()
        invariant
            chars@ == s@,
            i <= chars.len(),
            forall|j: int| 0 <= j < i ==> chars@[j] != '\0',
        decreases chars.len() - i,
    {
        if chars[i] == '\0' {
            return true;
        }
        i = i + 1;
    }
    false
}

/// Checks a snippet's stylesheet before it is parsed, in this order: the schema version,
/// at most 100 000 bytes, no NUL character, non-empty once trimmed, and balanced. The
/// stylesheet is kept trimmed.
pub fn check_snippet_content(content: CssSnippetContent) -> (r: LibraryResult<CssSnippetContent>)
    ensures
        content.schema_version != CSS_SNIPPET_SCHEMA_VERSION ==> (r matches Err(e) && css_error(
            e,
            "uses an unsupported schema version"@,
        )),
        content.schema_version == CSS_SNIPPET_SCHEMA_VERSION && encode_utf8(content.source@).len() > MAXIMUM_CSS_SNIPPET_SOURCE_BYTES ==> (
        r matches Err(e) && css_error(e, "cannot be larger than 100 KB"@)),
        content.schema_version == CSS_SNIPPET_SCHEMA_VERSION
            && encode_utf8(content.source@).len() <= MAXIMUM_CSS_SNIPPET_SOURCE_BYTES
            && content.source@.contains('\0') ==> (r matches Err(e) && css_error(
            e,
            "contains an invalid character"@,
        )),
        content.schema_version == CSS_SNIPPET_SCHEMA_VERSION
            && encode_utf8(content.source@).len() <= MAXIMUM_CSS_SNIPPET_SOURCE_BYTES
            && !content.source@.contains('\0') && trim(content.source@).len() == 0 ==> (r matches Err(
            e,
        ) && css_error(e, "cannot be empty"@)),
        r matches Ok(c) ==> {
            &&& content.schema_version == CSS_SNIPPET_SCHEMA_VERSION
            &&& encode_utf8(content.source@).len() <= MAXIMUM_CSS_SNIPPET_SOURCE_BYTES
            &&& !content.source@.contains('\0')
            &&& trim(content.source@).len() > 0
            &&& c.schema_version == content.schema_version
            &&& c.source@ == trim(content.source@)
            &&& css_is_balanced(encode_utf8(c.source@))
        },
        content.schema_version == CSS_SNIPPET_SCHEMA_VERSION
            && encode_utf8(content.source@).len() <= MAXIMUM_CSS_SNIPPET_SOURCE_BYTES
            && !content.source@.contains('\0') && trim(content.source@).len() > 0 ==> (r is Ok
            <==> css_is_balanced(encode_utf8(trim(content.source@)))),
        content.schema_version == CSS_SNIPPET_SCHEMA_VERSION
            && encode_utf8(content.source@).len() <= MAXIMUM_CSS_SNIPPET_SOURCE_BYTES
            && !content.source@.contains('\0') && trim(content.source@).len() > 0
            && !css_is_balanced(encode_utf8(trim(content.source@))) ==> (r matches Err(e)
            && css_error(e, "contains unclosed or unmatched syntax"@)),
        r matches Err(e) ==> e is InvalidCss,
{
    if content.schema_version != CSS_SNIPPET_SCHEMA_VERSION {
        return Err(LibraryError::InvalidCss { message: "uses an unsupported schema version".to_owned() });
    }
    let size = content.source.as_str().as_bytes().len();
    assert(size == encode_utf8(content.source@).len());
    if size > MAXIMUM_CSS_SNIPPET_SOURCE_BYTES {
        return Err(LibraryError::InvalidCss { message: "cannot be larger than 100 KB".to_owned() });
    }
    if has_nul(content.source.as_str()) {
        return Err(LibraryError::InvalidCss { message: "contains an invalid character".to_owned() });
    }
    let source = trimmed(content.source.as_str());
    if source.unicode_len() == 0 {
        return Err(LibraryError::InvalidCss { message: "cannot be empty".to_owned() });
    }
    if !has_balanced_css_delimiters(source.as_str()) {
        return Err(
            LibraryError::InvalidCss { message: "contains unclosed or unmatched syntax".to_owned() },
        );
    }
    Ok(CssSnippetContent { schema_version: content.schema_version, source })
}

// ----- component values of parsed rules -----

/// Blocks and functions in a stylesheet nest at most this deep.
pub const MAXIMUM_CSS_NESTING_DEPTH: usize = 32;

/// A component value of a parsed stylesheet, as far as the checks on it read it. Whitespace
/// and comments are not component values here.
#[derive(Debug)]
pub enum CssComponent {
    /// A `url(...)` written without quotes.
    UnquotedUrl,
    /// A `url(...)` that does not parse.
    BadUrl,
    /// A string cut by a line break.
    BadString,
    /// A closing bracket that closes nothing.
    CloseBracket,
    /// Any other token: identifiers, numbers, strings, delimiters and the like.
    Other,
    /// A function: its name and the component values of its arguments.
    Function { name: String, arguments: Vec<CssComponent> },
    /// A bracketed block and the component values inside it.
    Block { contents: Vec<CssComponent> },
}

/// Why a stylesheet's component values are refused.
#[derive(Debug, Clone, Copy, PartialEq, Eq, Structural)]
pub enum CssValueProblem {
    /// Blocks and functions nest too deeply.
    NestedTooDeeply,
    /// A URL or a function that loads a resource.
    LoadsResources,
    /// The legacy `expression()` function, which runs script.
    ExecutableLegacyFunction,
    /// A bad URL, a bad string or a stray closing bracket.
    InvalidSyntax,
}

/// The message that refuses a stylesheet for `problem`.
pub open spec fn css_value_problem_message(problem: CssValueProblem) -> Seq<char> {
    match problem {
        CssValueProblem::NestedTooDeeply => "is nested too deeply"@,
        CssValueProblem::LoadsResources => "cannot load external resources"@,
        CssValueProblem::ExecutableLegacyFunction => "contains an executable legacy function"@,
        CssValueProblem::InvalidSyntax => "contains invalid syntax"@,
    }
}

impl CssValueProblem {
    /// The message that refuses a stylesheet for this problem.
    pub fn message(&self) -> (r: String)
        ensures
            r@ == css_value_problem_message(*self),
    {
        match self {
            CssValueProblem::NestedTooDeeply => "is nested too deeply".to_owned(),
            CssValueProblem::LoadsResources => "cannot load external resources".to_owned(),
            CssValueProblem::ExecutableLegacyFunction => "contains an executable legacy function".to_owned(),
            CssValueProblem::InvalidSyntax => "contains invalid syntax".to_owned(),
        }
    }
}

/// `name` equals one of `names` when ASCII letters are compared without case.
pub open spec fn names_match(name: Seq<char>, names: Seq<Seq<char>>) -> bool {
    exists|k: int|
        0 <= k < names.len() && equal_ignoring_ascii_case(encode_utf8(name), #[trigger] encode_utf8(names[k]))
}

/// Whether `name` equals one of `names` when ASCII letters are compared without case.
fn name_in(name: &str, names: &Vec<&str>) -> (r: bool)
    ensures
        r == names_match(name@, str_texts(names@)),
{
    let r = matches_ignore_ascii_case(name, names.as_slice());
    proof {
        let texts = str_texts(names@);
        if r {
            let k = choose|k: int|
                0 <= k < names@.len() && equal_ignoring_ascii_case(
                    encode_utf8(name@),
                    #[trigger] encode_utf8(names@[k]@),
                );
            assert(texts[k] == names@[k]@);
        } else {
            assert forall|k: int| 0 <= k < texts.len() implies !equal_ignoring_ascii_case(
                encode_utf8(name@),
                #[trigger] encode_utf8(texts[k]),
            ) by {
                assert(texts[k] == names@[k]@);
            }
        }
    }
    r
}

/// The functions that load a resource.
pub open spec fn resource_function_names() -> Seq<Seq<char>> {
    seq!["url"@, "src"@, "image"@, "image-set"@, "-webkit-image-set"@]
}

/// The functions that load a resource.
fn resource_functions() -> (r: Vec<&'static str>)
    ensures
        str_texts(r@) == resource_function_names(),
{
    let r = vec!["url", "src", "image", "image-set", "-webkit-image-set"];
    assert(str_texts(r@) =~= resource_function_names());
    r
}

/// The legacy functions that run script.
pub open spec fn executable_function_names() -> Seq<Seq<char>> {
    seq!["expression"@]
}

/// The legacy functions that run script.
fn executable_functions() -> (r: Vec<&'static str>)
    ensures
        str_texts(r@) == executable_function_names(),
{
    let r = vec!["expression"];
    assert(str_texts(r@) =~= executable_function_names());
    r
}

/// The verdict on one component value at nesting `depth`: an unquoted URL or a function
/// that loads a resource loads resources, `expression()` is an executable legacy function,
/// a bad URL, a bad string or a stray closing bracket is invalid syntax, and the insides of
/// functions and blocks are checked one level deeper.
pub open spec fn component_verdict(c: CssComponent, depth: nat) -> Result<(), CssValueProblem>
    decreases c, 2int, 0int,
{
    match c {
        CssComponent::UnquotedUrl => Err(CssValueProblem::LoadsResources),
        CssComponent::BadUrl => Err(CssValueProblem::InvalidSyntax),
        CssComponent::BadString => Err(CssValueProblem::InvalidSyntax),
        CssComponent::CloseBracket => Err(CssValueProblem::InvalidSyntax),
        CssComponent::Other => Ok(()),
        CssComponent::Function { name, arguments } => {
            if names_match(name@, resource_function_names()) {
                Err(CssValueProblem::LoadsResources)
            } else if names_match(name@, executable_function_names()) {
                Err(CssValueProblem::ExecutableLegacyFunction)
            } else {
                proof {
                    assert(decreases_to!(c => arguments));
                    assert(decreases_to!(arguments => arguments@));
                }
                match component_values_verdict(arguments@, depth + 1) {
                    Err(e) => Err(e),
                    Ok(_) => Ok(()),
                }
            }
        },
        CssComponent::Block { contents } => {
            proof {
                assert(decreases_to!(c => contents));
                assert(decreases_to!(contents => contents@));
            }
            match component_values_verdict(contents@, depth + 1) {
                Err(e) => Err(e),
                Ok(_) => Ok(()),
            }
        },
    }
}

/// The first problem among the component values of `v` from index `n` on, in order.
pub open spec fn scan_components(v: Seq<CssComponent>, depth: nat, n: int) -> Result<(), CssValueProblem>
    decreases v, 0int, v.len() - n,
{
    if n < 0 || n >= v.len() {
        Ok(())
    } else {
        proof {
            assert(decreases_to!(v => v[n]));
        }
        match component_verdict(v[n], depth) {
            Err(e) => Err(e),
            Ok(()) => scan_components(v, depth, n + 1),
        }
    }
}

/// The verdict on a list of component values at nesting `depth`: too deep from depth 32 on,
/// else the first problem among them in order, else whether there is any value at all.
pub open spec fn component_values_verdict(v: Seq<CssComponent>, depth: nat) -> Result<bool, CssValueProblem>
    decreases v, 1int, 0int,
{
    if depth >= MAXIMUM_CSS_NESTING_DEPTH {
        Err(CssValueProblem::NestedTooDeeply)
    } else {
        match scan_components(v, depth, 0) {
            Err(e) => Err(e),
            Ok(()) => Ok(v.len() > 0),
        }
    }
}

/// Checks one component value at nesting `depth` (see [`component_verdict`]).
fn check_component(c: &CssComponent, depth: usize) -> (r: Result<(), CssValueProblem>)
    requires
        depth < MAXIMUM_CSS_NESTING_DEPTH,
    ensures
        r == component_verdict(*c, depth as nat),
    decreases *c, 2int, 0int,
{
    match c {
        CssComponent::UnquotedUrl => Err(CssValueProblem::LoadsResources),
        CssComponent::BadUrl => Err(CssValueProblem::InvalidSyntax),
        CssComponent::BadString => Err(CssValueProblem::InvalidSyntax),
        CssComponent::CloseBracket => Err(CssValueProblem::InvalidSyntax),
        CssComponent::Other => Ok(()),
        CssComponent::Function { name, arguments } => {
            let resources = resource_functions();
            if name_in(name.as_str(), &resources) {
                return Err(CssValueProblem::LoadsResources);
            }
            let executable = executable_functions();
            if name_in(name.as_str(), &executable) {
                return Err(CssValueProblem::ExecutableLegacyFunction);
            }
            proof {
                assert(decreases_to!(*c => *arguments));
                assert(decreases_to!(*arguments => arguments@));
            }
            match check_component_values(arguments, depth + 1) {
                Err(e) => Err(e),
                Ok(_) => Ok(()),
            }
        },
        CssComponent::Block { contents } => {
            proof {
                assert(decreases_to!(*c => *contents));
                assert(decreases_to!(*contents => contents@));
            }
            match check_component_values(contents, depth + 1) {
                Err(e) => Err(e),
                Ok(_) => Ok(()),
            }
        },
    }
}

/// Checks the component values of a declaration, a prelude or the inside of a block or
/// function at nesting `depth`: `Err` with the first problem, in order, else whether
/// there is any value at all (see [`component_values_verdict`]).
pub fn check_component_values(v: &Vec<CssComponent>, depth: usize) -> (r: Result<bool, CssValueProblem>)
    ensures
        r == component_values_verdict(v@, depth as nat),
    decreases v@, 1int, 0int,
{
    if depth >= MAXIMUM_CSS_NESTING_DEPTH {
        return Err(CssValueProblem::NestedTooDeeply);
    }
    let mut i: usize = 0;
    while i < v.len()
        invariant
            i <= v@.len(),
            depth < MAXIMUM_CSS_NESTING_DEPTH,
            scan_components(v@, depth as nat, 0) == scan_components(v@, depth as nat, i as int),
        decreases v@.len() - i,
    {
        proof {
            assert(decreases_to!(v@ => v@[i as int]));
        }
        match check_component(&v[i], depth) {
            Err(e) => {
                return Err(e);
            },
            Ok(()) => {},
        }
        i = i + 1;
    }
    Ok(v.len() > 0)
}

/// The at-rules a snippet may not hold: they load or declare resources, or change how the
/// stylesheet is read.
pub open spec fn restricted_at_rule_names() -> Seq<Seq<char>> {
    seq!["import"@, "font-face"@, "charset"@, "namespace"@]
}

/// Whether the at-rule `name` is one a snippet may not hold (see
/// [`restricted_at_rule_names`]); letters are compared without case.
pub fn is_restricted_at_rule(name: &str) -> (r: bool)
    ensures
        r == names_match(name@, restricted_at_rule_names()),
{
    let names = vec!["import", "font-face", "charset", "namespace"];
    assert(str_texts(names@) =~= restricted_at_rule_names());
    name_in(name, &names)
}

/// The legacy properties that bind script to elements.
pub open spec fn executable_property_names() -> Seq<Seq<char>> {
    seq!["behavior"@, "-ms-behavior"@, "-moz-binding"@]
}

/// Whether the property `name` binds script to elements (see
/// [`executable_property_names`]); letters are compared without case.
pub fn is_executable_property(name: &str) -> (r: bool)
    ensures
        r == names_match(name@, executable_property_names()),
{
    let names = vec!["behavior", "-ms-behavior", "-moz-binding"];
    assert(str_texts(names@) =~= executable_property_names());
    name_in(name, &names)
}

/// The at-rules that may stand without a block.
pub open spec fn blockless_at_rule_names() -> Seq<Seq<char>> {
    seq!["layer"@]
}

/// Whether the at-rule `name` may stand without a block (only `@layer` may); letters are
/// compared without case.
pub fn at_rule_allows_no_block(name: &str) -> (r: bool)
    ensures
        r == names_match(name@, blockless_at_rule_names()),
{
    let names = vec!["layer"];
    assert(str_texts(names@) =~= blockless_at_rule_names());
    name_in(name, &names)
}

/// A parsed stylesheet holds at least one rule: an empty one is refused.
pub fn check_rule_count(rule_count: usize) -> (r: LibraryResult<()>)
    ensures
        r is Ok <==> rule_count > 0,
        r matches Err(e) ==> css_error(e, "must contain at least one rule"@),
{
    if rule_count == 0 {
        return Err(LibraryError::InvalidCss { message: "must contain at least one rule".to_owned() });
    }
    Ok(())
}

} // verus!
