//! The rules a card template must follow: its name, the blocks of each visual side, and
//! custom HTML that is sanitized and may place concept fields only in document content.

use vstd::prelude::*;

use crate::concepts::normalize_value;
use crate::error::{LibraryError, LibraryResult};
use crate::models::templates::{
    CustomTemplate, TemplateBlock, TemplateContent, TemplateField, VisualTemplate,
    VisualTemplateSide, TEMPLATE_SCHEMA_VERSION,
};
use crate::text::{chars_of, contains_text, lowercase, str_equals, string_from_range, to_lowercase, trim, trimmed};
use vstd::utf8::encode_utf8;

verus! {

broadcast use vstd::seq_lib::group_seq_properties;

/// A template name has at most this many characters.
pub const MAXIMUM_TEMPLATE_NAME_LENGTH: usize = 80;

/// A visual side has at most this many blocks.
pub const MAXIMUM_TEMPLATE_BLOCKS_PER_SIDE: usize = 50;

/// A text block has at most this many characters.
pub const MAXIMUM_TEMPLATE_TEXT_LENGTH: usize = 1_000;

/// Custom HTML has at most this many bytes.
pub const MAXIMUM_TEMPLATE_HTML_BYTES: usize = 200_000;

/// Custom CSS has at most this many bytes.
pub const MAXIMUM_TEMPLATE_CSS_BYTES: usize = 100_000;

/// The error for a template part called `field` that is refused with `message`.
pub open spec fn template_error(e: LibraryError, field: &'static str, message: Seq<char>) -> bool {
    e matches LibraryError::InvalidTemplate { field: f, message: m } && f == field && m@ == message
}

/// Reads a template name: trimmed, non-empty and at most 80 characters.
pub fn normalize_template_name(name: String) -> (r: LibraryResult<String>)
    ensures
        r matches Ok(v) ==> v@ == trim(name@) && 0 < v@.len() <= MAXIMUM_TEMPLATE_NAME_LENGTH,
        r is Ok <==> 0 < trim(name@).len() <= MAXIMUM_TEMPLATE_NAME_LENGTH,
        trim(name@).len() == 0 ==> (r matches Err(e) && e matches LibraryError::EmptyValue { field }
            && field@ == "Template name"@),
        trim(name@).len() > MAXIMUM_TEMPLATE_NAME_LENGTH ==> (r matches Err(e)
            && e matches LibraryError::ValueTooLong { field, maximum } && field@ == "Template name"@
            && maximum == MAXIMUM_TEMPLATE_NAME_LENGTH),
{
    normalize_value(name, "Template name", MAXIMUM_TEMPLATE_NAME_LENGTH)
}

// ----- visual sides -----

/// Why the blocks of a visual side were refused.
#[derive(Clone, Copy, Debug, PartialEq, Eq, Structural)]
pub enum SideProblem {
    NoBlocks,
    TooManyBlocks,
    RepeatedField,
    EmptyText,
    LongText,
    NoField,
}

/// The message a side problem is reported with.
pub open spec fn side_message(p: SideProblem) -> Seq<char> {
    match p {
        SideProblem::NoBlocks => "must contain at least one block"@,
        SideProblem::TooManyBlocks => "contains too many blocks"@,
        SideProblem::RepeatedField => "cannot contain a field more than once"@,
        SideProblem::EmptyText => "contains an empty text block"@,
        SideProblem::LongText => "contains a text block that is too long"@,
        SideProblem::NoField => "must contain at least one field"@,
    }
}

/// Block `j` shows the field `field`.
pub open spec fn shows_field(blocks: Seq<TemplateBlock>, j: int, field: TemplateField) -> bool {
    blocks[j] matches TemplateBlock::Field { field: f } && f == field
}

/// What is wrong with block `i` on its own or next to the blocks before it.
pub open spec fn block_problem(blocks: Seq<TemplateBlock>, i: int) -> Option<SideProblem> {
    match blocks[i] {
        TemplateBlock::Field { field } => if exists|j: int|
            0 <= j < i && #[trigger] shows_field(blocks, j, field) {
            Some(SideProblem::RepeatedField)
        } else {
            None
        },
        TemplateBlock::Text { text } => if trim(text@).len() == 0 {
            Some(SideProblem::EmptyText)
        } else if text@.len() > MAXIMUM_TEMPLATE_TEXT_LENGTH {
            Some(SideProblem::LongText)
        } else {
            None
        },
    }
}

/// The problem of the first of the first `n` blocks that has one.
pub open spec fn first_block_problem(blocks: Seq<TemplateBlock>, n: int) -> Option<SideProblem>
    decreases n,
{
    if n <= 0 {
        None
    } else {
        match first_block_problem(blocks, n - 1) {
            Some(p) => Some(p),
            None => block_problem(blocks, n - 1),
        }
    }
}

/// Some block shows a field.
pub open spec fn has_field_block(blocks: Seq<TemplateBlock>) -> bool {
    exists|j: int| 0 <= j < blocks.len() && #[trigger] blocks[j] is Field
}

/// What is wrong with the blocks of a side: between one and 50 blocks, no field twice, no
/// blank or overlong text, and at least one field.
pub open spec fn side_problem(blocks: Seq<TemplateBlock>) -> Option<SideProblem> {
    if blocks.len() == 0 {
        Some(SideProblem::NoBlocks)
    } else if blocks.len() > MAXIMUM_TEMPLATE_BLOCKS_PER_SIDE {
        Some(SideProblem::TooManyBlocks)
    } else {
        match first_block_problem(blocks, blocks.len() as int) {
            Some(p) => Some(p),
            None => if has_field_block(blocks) {
                None
            } else {
                Some(SideProblem::NoField)
            },
        }
    }
}

/// Once some block has a problem, later blocks do not change the first problem.
proof fn lemma_first_block_problem_stays(blocks: Seq<TemplateBlock>, m: int, n: int)
    requires
        0 <= m <= n,
        first_block_problem(blocks, m) is Some,
    ensures
        first_block_problem(blocks, n) == first_block_problem(blocks, m),
    decreases n - m,
{
    if n > m {
        lemma_first_block_problem_stays(blocks, m, n - 1);
    }
}

/// Checks the blocks of the visual side called `name`.
pub fn validate_visual_side(blocks: &Vec<TemplateBlock>, name: &'static str) -> (r: LibraryResult<()>)
    ensures
        r is Ok <==> side_problem(blocks@) is None,
        r matches Err(e) ==> template_error(e, name, side_message(side_problem(blocks@)->Some_0)),
{
    if blocks.len() == 0 {
        return Err(
            LibraryError::InvalidTemplate {
                field: name,
                message: "must contain at least one block".to_owned(),
            },
        );
    }
    if blocks.len() > MAXIMUM_TEMPLATE_BLOCKS_PER_SIDE {
        return Err(
            LibraryError::InvalidTemplate {
                field: name,
                message: "contains too many blocks".to_owned(),
            },
        );
    }
    let mut seen_title = false;
    let mut seen_prompt = false;
    let mut seen_answer = false;
    let mut i: usize = 0;
    while i < blocks.len()
        invariant
            0 < blocks.len() <= MAXIMUM_TEMPLATE_BLOCKS_PER_SIDE,
            i <= blocks.len(),
            first_block_problem(blocks@, i as int) is None,
            seen_title == exists|j: int| 0 <= j < i && #[trigger] shows_field(blocks@, j, TemplateField::Title),
            seen_prompt == exists|j: int| 0 <= j < i && #[trigger] shows_field(blocks@, j, TemplateField::Prompt),
            seen_answer == exists|j: int| 0 <= j < i && #[trigger] shows_field(blocks@, j, TemplateField::Answer),
            (seen_title || seen_prompt || seen_answer) == exists|j: int| 0 <= j < i && #[trigger] blocks@[j] is Field,
        decreases blocks.len() - i,
    {
        match &blocks[i] {
            TemplateBlock::Field { field } => {
                let repeated = match field {
                    TemplateField::Title => seen_title,
                    TemplateField::Prompt => seen_prompt,
                    TemplateField::Answer => seen_answer,
                };
                if repeated {
                    proof {
                        assert(block_problem(blocks@, i as int) == Some(SideProblem::RepeatedField));
                        lemma_first_block_problem_stays(blocks@, i + 1, blocks.len() as int);
                    }
                    return Err(
                        LibraryError::InvalidTemplate {
                            field: name,
                            message: "cannot contain a field more than once".to_owned(),
                        },
                    );
                }
                match field {
                    TemplateField::Title => {
                        seen_title = true;
                    },
                    TemplateField::Prompt => {
                        seen_prompt = true;
                    },
                    TemplateField::Answer => {
                        seen_answer = true;
                    },
                }
                proof {
                    assert(shows_field(blocks@, i as int, *field));
                }
            },
            TemplateBlock::Text { text } => {
                let t = trimmed(text.as_str());
                if t.unicode_len() == 0 {
                    proof {
                        lemma_first_block_problem_stays(blocks@, i + 1, blocks.len() as int);
                    }
                    return Err(
                        LibraryError::InvalidTemplate {
                            field: name,
                            message: "contains an empty text block".to_owned(),
                        },
                    );
                }
                if text.unicode_len() > MAXIMUM_TEMPLATE_TEXT_LENGTH {
                    proof {
                        lemma_first_block_problem_stays(blocks@, i + 1, blocks.len() as int);
                    }
                    return Err(
                        LibraryError::InvalidTemplate {
                            field: name,
                            message: "contains a text block that is too long".to_owned(),
                        },
                    );
                }
            },
        }
        i = i + 1;
    }
    if !(seen_title || seen_prompt || seen_answer) {
        return Err(
            LibraryError::InvalidTemplate {
                field: name,
                message: "must contain at least one field".to_owned(),
            },
        );
    }
    Ok(())
}

// ----- field tokens in custom HTML -----

/// Why the field tokens of custom HTML were refused.
#[derive(Clone, Copy, Debug, PartialEq, Eq, Structural)]
pub enum TokenProblem {
    /// A `{{` without its `}}`, or a `}}` without its `{{`.
    Malformed,
    /// A field inside a tag rather than in document content.
    InsideTag,
    /// A field other than `title`, `prompt` and `answer`.
    UnknownField,
    /// No field at all.
    NoField,
}

/// The message a token problem is reported with.
pub open spec fn token_message(p: TokenProblem) -> Seq<char> {
    match p {
        TokenProblem::Malformed => "contains malformed field syntax"@,
        TokenProblem::InsideTag => "can only place fields in document content"@,
        TokenProblem::UnknownField => "contains an unknown field"@,
        TokenProblem::NoField => "must contain at least one concept field"@,
    }
}

/// The first position at or after `from` where the characters `a` and `b` follow each
/// other.
pub open spec fn find_pair(s: Seq<char>, a: char, b: char, from: int) -> Option<int>
    decreases s.len() - from,
{
    if from < 0 || from + 1 >= s.len() {
        None
    } else if s[from] == a && s[from + 1] == b {
        Some(from)
    } else {
        find_pair(s, a, b, from + 1)
    }
}

/// The last position before `end` that holds `c`.
pub open spec fn last_before(s: Seq<char>, c: char, end: int) -> Option<int>
    decreases end,
{
    if end <= 0 || end > s.len() {
        None
    } else if s[end - 1] == c {
        Some(end - 1)
    } else {
        last_before(s, c, end - 1)
    }
}

/// The position `offset` lies inside a tag: a `<` before it is not closed by a later `>`.
pub open spec fn is_inside_tag(s: Seq<char>, offset: int) -> bool {
    match (last_before(s, '<', offset), last_before(s, '>', offset)) {
        (Some(open), Some(close)) => open > close,
        (Some(_), None) => true,
        _ => false,
    }
}

/// The field names a template may use.
pub open spec fn is_known_field(name: Seq<char>) -> bool {
    name == "title"@ || name == "prompt"@ || name == "answer"@
}

/// What is wrong with the field tokens of `s` from `cursor` on, `count` fields having been
/// read before: each `{{` must be followed by a `}}` with no `}}` before the `{{`, sit
/// outside tags and name a known field once trimmed; after the last token no `}}` may
/// follow, and at least one field must have been read.
pub open spec fn token_problem(s: Seq<char>, cursor: int, count: nat) -> Option<TokenProblem>
    decreases s.len() - cursor,
{
    if cursor < 0 || cursor > s.len() {
        None
    } else {
        match find_pair(s, '{', '{', cursor) {
            None => if find_pair(s, '}', '}', cursor) is Some {
                Some(TokenProblem::Malformed)
            } else if count == 0 {
                Some(TokenProblem::NoField)
            } else {
                None
            },
            Some(start) => if (find_pair(s, '}', '}', cursor) matches Some(k) && k + 2 <= start) {
                Some(TokenProblem::Malformed)
            } else {
                match find_pair(s, '}', '}', start + 2) {
                    None => Some(TokenProblem::Malformed),
                    Some(end) => if is_inside_tag(s, start) {
                        Some(TokenProblem::InsideTag)
                    } else if !is_known_field(trim(s.subrange(start + 2, end))) {
                        Some(TokenProblem::UnknownField)
                    } else if cursor < end + 2 <= s.len() {
                        token_problem(s, end + 2, count + 1)
                    } else {
                        None
                    },
                }
            },
        }
    }
}

/// A pair found from `from` lies at or after `from`, inside the text, and no earlier
/// position from `from` holds the pair.
proof fn lemma_find_pair(s: Seq<char>, a: char, b: char, from: int)
    requires
        0 <= from,
    ensures
        find_pair(s, a, b, from) matches Some(k) ==> from <= k && k + 1 < s.len() && s[k] == a
            && s[k + 1] == b,
    decreases s.len() - from,
{
    if from + 1 < s.len() && !(s[from] == a && s[from + 1] == b) {
        lemma_find_pair(s, a, b, from + 1);
    }
}

/// The first position at or after `from` where `a` is followed by `b`.
fn find_pair_exec(s: &Vec<char>, a: char, b: char, from: usize) -> (r: Option<usize>)
    ensures
        r matches Some(k) ==> find_pair(s@, a, b, from as int) == Some(k as int),
        r is None ==> find_pair(s@, a, b, from as int) is None,
{
    let mut i = from;
    while i < s.len() && i + 1 < s.len()
        invariant
            from <= i,
            find_pair(s@, a, b, from as int) == find_pair(s@, a, b, i as int),
        decreases s.len() - i,
    {
        if s[i] == a && s[i + 1] == b {
            return Some(i);
        }
        i = i + 1;
    }
    None
}

/// The last position before `end` that holds `c`.
fn last_before_exec(s: &Vec<char>, c: char, end: usize) -> (r: Option<usize>)
    requires
        end <= s.len(),
    ensures
        r matches Some(k) ==> last_before(s@, c, end as int) == Some(k as int),
        r is None ==> last_before(s@, c, end as int) is None,
{
    let mut j = end;
    while j > 0
        invariant
            j <= end <= s.len(),
            last_before(s@, c, end as int) == last_before(s@, c, j as int),
        decreases j,
    {
        if s[j - 1] == c {
            return Some(j - 1);
        }
        j = j - 1;
    }
    None
}

/// Whether the character position `offset` of the text lies inside a tag, that is after a
/// `<` that no later `>` before `offset` closes.
pub fn field_token_is_inside_tag(source: &Vec<char>, offset: usize) -> (r: bool)
    requires
        offset <= source.len(),
    ensures
        r == is_inside_tag(source@, offset as int),
{
    let last_open = last_before_exec(source, '<', offset);
    let last_close = last_before_exec(source, '>', offset);
    match (last_open, last_close) {
        (Some(open), Some(close)) => open > close,
        (Some(_), None) => true,
        _ => false,
    }
}

/// Checks the field tokens of sanitized custom HTML (see [`token_problem`]).
pub fn validate_field_tokens(source: &str, field: &'static str) -> (r: LibraryResult<()>)
    ensures
        r is Ok <==> token_problem(source@, 0, 0) is None,
        r matches Err(e) ==> template_error(e, field, token_message(token_problem(source@, 0, 0)->Some_0)),
{
    let s = chars_of(source);
    let ghost text = s@;
    let mut cursor: usize = 0;
    let mut count: usize = 0;
    loop
        invariant
            text == s@,
            s@ == source@,
            cursor <= s.len(),
            count <= cursor,
            token_problem(text, 0, 0) == token_problem(text, cursor as int, count as nat),
        decreases s.len() - cursor,
    {
        let closing = find_pair_exec(&s, '}', '}', cursor);
        let start = match find_pair_exec(&s, '{', '{', cursor) {
            None => {
                if closing.is_some() {
                    return Err(
                        LibraryError::InvalidTemplate {
                            field,
                            message: "contains malformed field syntax".to_owned(),
                        },
                    );
                }
                if count == 0 {
                    return Err(
                        LibraryError::InvalidTemplate {
                            field,
                            message: "must contain at least one concept field".to_owned(),
                        },
                    );
                }
                return Ok(());
            },
            Some(start) => start,
        };
        proof {
            lemma_find_pair(text, '{', '{', cursor as int);
            lemma_find_pair(text, '}', '}', cursor as int);
        }
        match closing {
            Some(k) => {
                if k + 2 <= start {
                    return Err(
                        LibraryError::InvalidTemplate {
                            field,
                            message: "contains malformed field syntax".to_owned(),
                        },
                    );
                }
            },
            None => {},
        }
        let end = match find_pair_exec(&s, '}', '}', start + 2) {
            None => {
                return Err(
                    LibraryError::InvalidTemplate {
                        field,
                        message: "contains malformed field syntax".to_owned(),
                    },
                );
            },
            Some(end) => end,
        };
        proof {
            lemma_find_pair(text, '}', '}', start + 2);
        }
        if field_token_is_inside_tag(&s, start) {
            return Err(
                LibraryError::InvalidTemplate {
                    field,
                    message: "can only place fields in document content".to_owned(),
                },
            );
        }
        let inner = string_from_range(&s, start + 2, end);
        let name = trimmed(inner.as_str());
        if !(str_equals(name.as_str(), "title") || str_equals(name.as_str(), "prompt")
            || str_equals(name.as_str(), "answer")) {
            return Err(
                LibraryError::InvalidTemplate {
                    field,
                    message: "contains an unknown field".to_owned(),
                },
            );
        }
        count = count + 1;
        cursor = end + 2;
    }
}

// ----- custom HTML and CSS -----

/// What the HTML sanitizer keeps of `source` when it allows the tags `tags`, the
/// attributes `attributes` on every tag, removes the elements `clean_content_tags` with
/// their content, and strips comments when `strip_comments` is set.
pub uninterp spec fn cleaned_html(
    source: Seq<char>,
    tags: Seq<Seq<char>>,
    attributes: Seq<Seq<char>>,
    clean_content_tags: Seq<Seq<char>>,
    strip_comments: bool,
) -> Seq<char>;

/// The texts of a list of string slices.
pub open spec fn str_texts(v: Seq<&str>) -> Seq<Seq<char>> {
    v.map_values(|s: &str| s@)
}

/// The tags for which the sanitizer keeps built-in attribute rules even when it starts
/// from an empty set of allowed tags.
pub open spec fn sanitizer_attribute_rule_tags() -> Seq<Seq<char>> {
    seq![
        "a"@, "bdo"@, "blockquote"@, "col"@, "colgroup"@, "del"@, "hr"@, "img"@, "ins"@, "ol"@,
        "q"@, "table"@, "tbody"@, "td"@, "tfoot"@, "th"@, "thead"@, "tr"@,
    ]
}

/// The elements the sanitizer always removes with their content.
pub open spec fn sanitizer_default_clean_content_tags() -> Seq<Seq<char>> {
    seq!["script"@, "style"@]
}

/// A configuration the sanitizer accepts: it adds its own `rel` to links, so `rel` is not
/// among the allowed attributes, and an element removed with its content is neither an
/// allowed tag nor one with built-in attribute rules.
pub open spec fn sanitizer_configuration_ok(
    tags: Seq<Seq<char>>,
    attributes: Seq<Seq<char>>,
    clean_content_tags: Seq<Seq<char>>,
) -> bool {
    &&& !attributes.contains("rel"@)
    &&& forall|c: Seq<char>|
        #![trigger clean_content_tags.contains(c)]
        #![trigger sanitizer_default_clean_content_tags().contains(c)]
        (clean_content_tags.contains(c) || sanitizer_default_clean_content_tags().contains(c))
            ==> !tags.contains(c)
    &&& forall|c: Seq<char>|
        clean_content_tags.contains(c) ==> !#[trigger] sanitizer_attribute_rule_tags().contains(c)
}

/// Wraps `ammonia::Builder::clean` on a builder made by `Builder::empty` with the given
/// tags, generic attributes, clean-content tags and comment stripping: the result is the
/// named sanitized text of the arguments. What the sanitizer keeps is not restated here.
/// The sanitizer asserts on its configuration, so only configurations it accepts may be
/// passed (see [`sanitizer_configuration_ok`]).
#[verifier::external_body]
fn clean_html(
    source: &str,
    tags: &Vec<&'static str>,
    attributes: &Vec<&'static str>,
    clean_content_tags: &Vec<&'static str>,
    strip_comments: bool,
) -> (r: String)
    requires
        sanitizer_configuration_ok(
            str_texts(tags@),
            str_texts(attributes@),
            str_texts(clean_content_tags@),
        ),
    ensures
        r@ == cleaned_html(
            source@,
            str_texts(tags@),
            str_texts(attributes@),
            str_texts(clean_content_tags@),
            strip_comments,
        ),
{
    let mut sanitizer = ammonia::Builder::empty();
    sanitizer.add_tags(tags.iter().copied()).add_generic_attributes(
        attributes.iter().copied(),
    ).add_clean_content_tags(clean_content_tags.iter().copied()).strip_comments(strip_comments);
    sanitizer.clean(source).to_string()
}

/// The tags custom HTML may keep.
pub open spec fn template_tags() -> Seq<Seq<char>> {
    seq![
        "address"@, "article"@, "aside"@, "b"@, "blockquote"@, "br"@, "code"@, "dd"@, "div"@,
        "dl"@, "dt"@, "em"@, "figcaption"@, "figure"@, "footer"@, "h1"@, "h2"@, "h3"@, "h4"@,
        "h5"@, "h6"@, "header"@, "hr"@, "i"@, "li"@, "main"@, "mark"@, "ol"@, "p"@, "pre"@, "s"@,
        "section"@, "small"@, "span"@, "strong"@, "sub"@, "sup"@, "table"@, "tbody"@, "td"@,
        "tfoot"@, "th"@, "thead"@, "tr"@, "u"@,
    ]
}

/// The tags custom HTML may keep.
fn allowed_template_tags() -> (r: Vec<&'static str>)
    ensures
        str_texts(r@) == template_tags(),
{
    let r = vec![
        "address", "article", "aside", "b", "blockquote", "br", "code", "dd", "div", "dl", "dt",
        "em", "figcaption", "figure", "footer", "h1", "h2", "h3", "h4", "h5", "h6", "header", "hr",
        "i", "li", "main", "mark", "ol", "p", "pre", "s", "section", "small", "span", "strong",
        "sub", "sup", "table", "tbody", "td", "tfoot", "th", "thead", "tr", "u",
    ];
    assert(str_texts(r@) =~= template_tags());
    r
}

/// The attributes custom HTML may keep on any tag.
pub open spec fn template_attributes() -> Seq<Seq<char>> {
    seq![
        "aria-hidden"@, "aria-label"@, "class"@, "dir"@, "id"@, "lang"@, "role"@, "title"@,
    ]
}

/// The attributes custom HTML may keep on any tag.
fn allowed_template_attributes() -> (r: Vec<&'static str>)
    ensures
        str_texts(r@) == template_attributes(),
{
    let r = vec!["aria-hidden", "aria-label", "class", "dir", "id", "lang", "role", "title"];
    assert(str_texts(r@) =~= template_attributes());
    r
}

/// The elements removed from custom HTML together with their content.
pub open spec fn template_clean_content_tags() -> Seq<Seq<char>> {
    seq![
        "iframe"@, "math"@, "object"@, "script"@, "style"@, "svg"@, "template"@, "textarea"@,
    ]
}

/// The elements removed from custom HTML together with their content.
fn clean_content_template_tags() -> (r: Vec<&'static str>)
    ensures
        str_texts(r@) == template_clean_content_tags(),
{
    let r = vec!["iframe", "math", "object", "script", "style", "svg", "template", "textarea"];
    assert(str_texts(r@) =~= template_clean_content_tags());
    r
}

/// `rel` is not listed by `template_attributes`.
proof fn lemma_rel_not_template_attribute()
    ensures
        !template_attributes().contains("rel"@),
{
    reveal_strlit("aria-hidden");
    reveal_strlit("aria-label");
    reveal_strlit("class");
    reveal_strlit("dir");
    reveal_strlit("id");
    reveal_strlit("lang");
    reveal_strlit("rel");
    reveal_strlit("role");
    reveal_strlit("title");
    assert forall|i: int| 0 <= i < template_attributes().len() implies template_attributes()[i] != "rel"@ by {
        if i == 0 {
            assert(template_attributes()[0] == "aria-hidden"@);
            assert("aria-hidden"@.len() != "rel"@.len());
        } else if i == 1 {
            assert(template_attributes()[1] == "aria-label"@);
            assert("aria-label"@.len() != "rel"@.len());
        } else if i == 2 {
            assert(template_attributes()[2] == "class"@);
            assert("class"@.len() != "rel"@.len());
        } else if i == 3 {
            assert(template_attributes()[3] == "dir"@);
            assert("dir"@[0] != "rel"@[0]);
        } else if i == 4 {
            assert(template_attributes()[4] == "id"@);
            assert("id"@.len() != "rel"@.len());
        } else if i == 5 {
            assert(template_attributes()[5] == "lang"@);
            assert("lang"@.len() != "rel"@.len());
        } else if i == 6 {
            assert(template_attributes()[6] == "role"@);
            assert("role"@.len() != "rel"@.len());
        } else if i == 7 {
            assert(template_attributes()[7] == "title"@);
            assert("title"@.len() != "rel"@.len());
        }
    }
}

/// `iframe` is not listed by `template_tags`.
proof fn lemma_iframe_not_template_tag()
    ensures
        !template_tags().contains("iframe"@),
{
    reveal_strlit("address");
    reveal_strlit("article");
    reveal_strlit("aside");
    reveal_strlit("b");
    reveal_strlit("blockquote");
    reveal_strlit("br");
    reveal_strlit("code");
    reveal_strlit("dd");
    reveal_strlit("div");
    reveal_strlit("dl");
    reveal_strlit("dt");
    reveal_strlit("em");
    reveal_strlit("figcaption");
    reveal_strlit("figure");
    reveal_strlit("footer");
    reveal_strlit("h1");
    reveal_strlit("h2");
    reveal_strlit("h3");
    reveal_strlit("h4");
    reveal_strlit("h5");
    reveal_strlit("h6");
    reveal_strlit("header");
    reveal_strlit("hr");
    reveal_strlit("i");
    reveal_strlit("iframe");
    reveal_strlit("li");
    reveal_strlit("main");
    reveal_strlit("mark");
    reveal_strlit("ol");
    reveal_strlit("p");
    reveal_strlit("pre");
    reveal_strlit("s");
    reveal_strlit("section");
    reveal_strlit("small");
    reveal_strlit("span");
    reveal_strlit("strong");
    reveal_strlit("sub");
    reveal_strlit("sup");
    reveal_strlit("table");
    reveal_strlit("tbody");
    reveal_strlit("td");
    reveal_strlit("tfoot");
    reveal_strlit("th");
    reveal_strlit("thead");
    reveal_strlit("tr");
    reveal_strlit("u");
    assert forall|i: int| 0 <= i < template_tags().len() implies template_tags()[i] != "iframe"@ by {
        if i == 0 {
            assert(template_tags()[0] == "address"@);
            assert("address"@.len() != "iframe"@.len());
        } else if i == 1 {
            assert(template_tags()[1] == "article"@);
            assert("article"@.len() != "iframe"@.len());
        } else if i == 2 {
            assert(template_tags()[2] == "aside"@);
            assert("aside"@.len() != "iframe"@.len());
        } else if i == 3 {
            assert(template_tags()[3] == "b"@);
            assert("b"@.len() != "iframe"@.len());
        } else if i == 4 {
            assert(template_tags()[4] == "blockquote"@);
            assert("blockquote"@.len() != "iframe"@.len());
        } else if i == 5 {
            assert(template_tags()[5] == "br"@);
            assert("br"@.len() != "iframe"@.len());
        } else if i == 6 {
            assert(template_tags()[6] == "code"@);
            assert("code"@.len() != "iframe"@.len());
        } else if i == 7 {
            assert(template_tags()[7] == "dd"@);
            assert("dd"@.len() != "iframe"@.len());
        } else if i == 8 {
            assert(template_tags()[8] == "div"@);
            assert("div"@.len() != "iframe"@.len());
        } else if i == 9 {
            assert(template_tags()[9] == "dl"@);
            assert("dl"@.len() != "iframe"@.len());
        } else if i == 10 {
            assert(template_tags()[10] == "dt"@);
            assert("dt"@.len() != "iframe"@.len());
        } else if i == 11 {
            assert(template_tags()[11] == "em"@);
            assert("em"@.len() != "iframe"@.len());
        } else if i == 12 {
            assert(template_tags()[12] == "figcaption"@);
            assert("figcaption"@.len() != "iframe"@.len());
        } else if i == 13 {
            assert(template_tags()[13] == "figure"@);
            assert("figure"@[0] != "iframe"@[0]);
        } else if i == 14 {
            assert(template_tags()[14] == "footer"@);
            assert("footer"@[0] != "iframe"@[0]);
        } else if i == 15 {
            assert(template_tags()[15] == "h1"@);
            assert("h1"@.len() != "iframe"@.len());
        } else if i == 16 {
            assert(template_tags()[16] == "h2"@);
            assert("h2"@.len() != "iframe"@.len());
        } else if i == 17 {
            assert(template_tags()[17] == "h3"@);
            assert("h3"@.len() != "iframe"@.len());
        } else if i == 18 {
            assert(template_tags()[18] == "h4"@);
            assert("h4"@.len() != "iframe"@.len());
        } else if i == 19 {
            assert(template_tags()[19] == "h5"@);
            assert("h5"@.len() != "iframe"@.len());
        } else if i == 20 {
            assert(template_tags()[20] == "h6"@);
            assert("h6"@.len() != "iframe"@.len());
        } else if i == 21 {
            assert(template_tags()[21] == "header"@);
            assert("header"@[0] != "iframe"@[0]);
        } else if i == 22 {
            assert(template_tags()[22] == "hr"@);
            assert("hr"@.len() != "iframe"@.len());
        } else if i == 23 {
            assert(template_tags()[23] == "i"@);
            assert("i"@.len() != "iframe"@.len());
        } else if i == 24 {
            assert(template_tags()[24] == "li"@);
            assert("li"@.len() != "iframe"@.len());
        } else if i == 25 {
            assert(template_tags()[25] == "main"@);
            assert("main"@.len() != "iframe"@.len());
        } else if i == 26 {
            assert(template_tags()[26] == "mark"@);
            assert("mark"@.len() != "iframe"@.len());
        } else if i == 27 {
            assert(template_tags()[27] == "ol"@);
            assert("ol"@.len() != "iframe"@.len());
        } else if i == 28 {
            assert(template_tags()[28] == "p"@);
            assert("p"@.len() != "iframe"@.len());
        } else if i == 29 {
            assert(template_tags()[29] == "pre"@);
            assert("pre"@.len() != "iframe"@.len());
        } else if i == 30 {
            assert(template_tags()[30] == "s"@);
            assert("s"@.len() != "iframe"@.len());
        } else if i == 31 {
            assert(template_tags()[31] == "section"@);
            assert("section"@.len() != "iframe"@.len());
        } else if i == 32 {
            assert(template_tags()[32] == "small"@);
            assert("small"@.len() != "iframe"@.len());
        } else if i == 33 {
            assert(template_tags()[33] == "span"@);
            assert("span"@.len() != "iframe"@.len());
        } else if i == 34 {
            assert(template_tags()[34] == "strong"@);
            assert("strong"@[0] != "iframe"@[0]);
        } else if i == 35 {
            assert(template_tags()[35] == "sub"@);
            assert("sub"@.len() != "iframe"@.len());
        } else if i == 36 {
            assert(template_tags()[36] == "sup"@);
            assert("sup"@.len() != "iframe"@.len());
        } else if i == 37 {
            assert(template_tags()[37] == "table"@);
            assert("table"@.len() != "iframe"@.len());
        } else if i == 38 {
            assert(template_tags()[38] == "tbody"@);
            assert("tbody"@.len() != "iframe"@.len());
        } else if i == 39 {
            assert(template_tags()[39] == "td"@);
            assert("td"@.len() != "iframe"@.len());
        } else if i == 40 {
            assert(template_tags()[40] == "tfoot"@);
            assert("tfoot"@.len() != "iframe"@.len());
        } else if i == 41 {
            assert(template_tags()[41] == "th"@);
            assert("th"@.len() != "iframe"@.len());
        } else if i == 42 {
            assert(template_tags()[42] == "thead"@);
            assert("thead"@.len() != "iframe"@.len());
        } else if i == 43 {
            assert(template_tags()[43] == "tr"@);
            assert("tr"@.len() != "iframe"@.len());
        } else if i == 44 {
            assert(template_tags()[44] == "u"@);
            assert("u"@.len() != "iframe"@.len());
        }
    }
}

/// `iframe` is not listed by `sanitizer_attribute_rule_tags`.
proof fn lemma_iframe_has_no_attribute_rules()
    ensures
        !sanitizer_attribute_rule_tags().contains("iframe"@),
{
    reveal_strlit("a");
    reveal_strlit("bdo");
    reveal_strlit("blockquote");
    reveal_strlit("col");
    reveal_strlit("colgroup");
    reveal_strlit("del");
    reveal_strlit("hr");
    reveal_strlit("iframe");
    reveal_strlit("img");
    reveal_strlit("ins");
    reveal_strlit("ol");
    reveal_strlit("q");
    reveal_strlit("table");
    reveal_strlit("tbody");
    reveal_strlit("td");
    reveal_strlit("tfoot");
    reveal_strlit("th");
    reveal_strlit("thead");
    reveal_strlit("tr");
    assert forall|i: int| 0 <= i < sanitizer_attribute_rule_tags().len() implies sanitizer_attribute_rule_tags()[i] != "iframe"@ by {
        if i == 0 {
            assert(sanitizer_attribute_rule_tags()[0] == "a"@);
            assert("a"@.len() != "iframe"@.len());
        } else if i == 1 {
            assert(sanitizer_attribute_rule_tags()[1] == "bdo"@);
            assert("bdo"@.len() != "iframe"@.len());
        } else if i == 2 {
            assert(sanitizer_attribute_rule_tags()[2] == "blockquote"@);
            assert("blockquote"@.len() != "iframe"@.len());
        } else if i == 3 {
            assert(sanitizer_attribute_rule_tags()[3] == "col"@);
            assert("col"@.len() != "iframe"@.len());
        } else if i == 4 {
            assert(sanitizer_attribute_rule_tags()[4] == "colgroup"@);
            assert("colgroup"@.len() != "iframe"@.len());
        } else if i == 5 {
            assert(sanitizer_attribute_rule_tags()[5] == "del"@);
            assert("del"@.len() != "iframe"@.len());
        } else if i == 6 {
            assert(sanitizer_attribute_rule_tags()[6] == "hr"@);
            assert("hr"@.len() != "iframe"@.len());
        } else if i == 7 {
            assert(sanitizer_attribute_rule_tags()[7] == "img"@);
            assert("img"@.len() != "iframe"@.len());
        } else if i == 8 {
            assert(sanitizer_attribute_rule_tags()[8] == "ins"@);
            assert("ins"@.len() != "iframe"@.len());
        } else if i == 9 {
            assert(sanitizer_attribute_rule_tags()[9] == "ol"@);
            assert("ol"@.len() != "iframe"@.len());
        } else if i == 10 {
            assert(sanitizer_attribute_rule_tags()[10] == "q"@);
            assert("q"@.len() != "iframe"@.len());
        } else if i == 11 {
            assert(sanitizer_attribute_rule_tags()[11] == "table"@);
            assert("table"@.len() != "iframe"@.len());
        } else if i == 12 {
            assert(sanitizer_attribute_rule_tags()[12] == "tbody"@);
            assert("tbody"@.len() != "iframe"@.len());
        } else if i == 13 {
            assert(sanitizer_attribute_rule_tags()[13] == "td"@);
            assert("td"@.len() != "iframe"@.len());
        } else if i == 14 {
            assert(sanitizer_attribute_rule_tags()[14] == "tfoot"@);
            assert("tfoot"@.len() != "iframe"@.len());
        } else if i == 15 {
            assert(sanitizer_attribute_rule_tags()[15] == "th"@);
            assert("th"@.len() != "iframe"@.len());
        } else if i == 16 {
            assert(sanitizer_attribute_rule_tags()[16] == "thead"@);
            assert("thead"@.len() != "iframe"@.len());
        } else if i == 17 {
            assert(sanitizer_attribute_rule_tags()[17] == "tr"@);
            assert("tr"@.len() != "iframe"@.len());
        }
    }
}

/// `math` is not listed by `template_tags`.
proof fn lemma_math_not_template_tag()
    ensures
        !template_tags().contains("math"@),
{
    reveal_strlit("address");
    reveal_strlit("article");
    reveal_strlit("aside");
    reveal_strlit("b");
    reveal_strlit("blockquote");
    reveal_strlit("br");
    reveal_strlit("code");
    reveal_strlit("dd");
    reveal_strlit("div");
    reveal_strlit("dl");
    reveal_strlit("dt");
    reveal_strlit("em");
    reveal_strlit("figcaption");
    reveal_strlit("figure");
    reveal_strlit("footer");
    reveal_strlit("h1");
    reveal_strlit("h2");
    reveal_strlit("h3");
    reveal_strlit("h4");
    reveal_strlit("h5");
    reveal_strlit("h6");
    reveal_strlit("header");
    reveal_strlit("hr");
    reveal_strlit("i");
    reveal_strlit("li");
    reveal_strlit("main");
    reveal_strlit("mark");
    reveal_strlit("math");
    reveal_strlit("ol");
    reveal_strlit("p");
    reveal_strlit("pre");
    reveal_strlit("s");
    reveal_strlit("section");
    reveal_strlit("small");
    reveal_strlit("span");
    reveal_strlit("strong");
    reveal_strlit("sub");
    reveal_strlit("sup");
    reveal_strlit("table");
    reveal_strlit("tbody");
    reveal_strlit("td");
    reveal_strlit("tfoot");
    reveal_strlit("th");
    reveal_strlit("thead");
    reveal_strlit("tr");
    reveal_strlit("u");
    assert forall|i: int| 0 <= i < template_tags().len() implies template_tags()[i] != "math"@ by {
        if i == 0 {
            assert(template_tags()[0] == "address"@);
            assert("address"@.len() != "math"@.len());
        } else if i == 1 {
            assert(template_tags()[1] == "article"@);
            assert("article"@.len() != "math"@.len());
        } else if i == 2 {
            assert(template_tags()[2] == "aside"@);
            assert("aside"@.len() != "math"@.len());
        } else if i == 3 {
            assert(template_tags()[3] == "b"@);
            assert("b"@.len() != "math"@.len());
        } else if i == 4 {
            assert(template_tags()[4] == "blockquote"@);
            assert("blockquote"@.len() != "math"@.len());
        } else if i == 5 {
            assert(template_tags()[5] == "br"@);
            assert("br"@.len() != "math"@.len());
        } else if i == 6 {
            assert(template_tags()[6] == "code"@);
            assert("code"@[0] != "math"@[0]);
        } else if i == 7 {
            assert(template_tags()[7] == "dd"@);
            assert("dd"@.len() != "math"@.len());
        } else if i == 8 {
            assert(template_tags()[8] == "div"@);
            assert("div"@.len() != "math"@.len());
        } else if i == 9 {
            assert(template_tags()[9] == "dl"@);
            assert("dl"@.len() != "math"@.len());
        } else if i == 10 {
            assert(template_tags()[10] == "dt"@);
            assert("dt"@.len() != "math"@.len());
        } else if i == 11 {
            assert(template_tags()[11] == "em"@);
            assert("em"@.len() != "math"@.len());
        } else if i == 12 {
            assert(template_tags()[12] == "figcaption"@);
            assert("figcaption"@.len() != "math"@.len());
        } else if i == 13 {
            assert(template_tags()[13] == "figure"@);
            assert("figure"@.len() != "math"@.len());
        } else if i == 14 {
            assert(template_tags()[14] == "footer"@);
            assert("footer"@.len() != "math"@.len());
        } else if i == 15 {
            assert(template_tags()[15] == "h1"@);
            assert("h1"@.len() != "math"@.len());
        } else if i == 16 {
            assert(template_tags()[16] == "h2"@);
            assert("h2"@.len() != "math"@.len());
        } else if i == 17 {
            assert(template_tags()[17] == "h3"@);
            assert("h3"@.len() != "math"@.len());
        } else if i == 18 {
            assert(template_tags()[18] == "h4"@);
            assert("h4"@.len() != "math"@.len());
        } else if i == 19 {
            assert(template_tags()[19] == "h5"@);
            assert("h5"@.len() != "math"@.len());
        } else if i == 20 {
            assert(template_tags()[20] == "h6"@);
            assert("h6"@.len() != "math"@.len());
        } else if i == 21 {
            assert(template_tags()[21] == "header"@);
            assert("header"@.len() != "math"@.len());
        } else if i == 22 {
            assert(template_tags()[22] == "hr"@);
            assert("hr"@.len() != "math"@.len());
        } else if i == 23 {
            assert(template_tags()[23] == "i"@);
            assert("i"@.len() != "math"@.len());
        } else if i == 24 {
            assert(template_tags()[24] == "li"@);
            assert("li"@.len() != "math"@.len());
        } else if i == 25 {
            assert(template_tags()[25] == "main"@);
            assert("main"@[2] != "math"@[2]);
        } else if i == 26 {
            assert(template_tags()[26] == "mark"@);
            assert("mark"@[2] != "math"@[2]);
        } else if i == 27 {
            assert(template_tags()[27] == "ol"@);
            assert("ol"@.len() != "math"@.len());
        } else if i == 28 {
            assert(template_tags()[28] == "p"@);
            assert("p"@.len() != "math"@.len());
        } else if i == 29 {
            assert(template_tags()[29] == "pre"@);
            assert("pre"@.len() != "math"@.len());
        } else if i == 30 {
            assert(template_tags()[30] == "s"@);
            assert("s"@.len() != "math"@.len());
        } else if i == 31 {
            assert(template_tags()[31] == "section"@);
            assert("section"@.len() != "math"@.len());
        } else if i == 32 {
            assert(template_tags()[32] == "small"@);
            assert("small"@.len() != "math"@.len());
        } else if i == 33 {
            assert(template_tags()[33] == "span"@);
            assert("span"@[0] != "math"@[0]);
        } else if i == 34 {
            assert(template_tags()[34] == "strong"@);
            assert("strong"@.len() != "math"@.len());
        } else if i == 35 {
            assert(template_tags()[35] == "sub"@);
            assert("sub"@.len() != "math"@.len());
        } else if i == 36 {
            assert(template_tags()[36] == "sup"@);
            assert("sup"@.len() != "math"@.len());
        } else if i == 37 {
            assert(template_tags()[37] == "table"@);
            assert("table"@.len() != "math"@.len());
        } else if i == 38 {
            assert(template_tags()[38] == "tbody"@);
            assert("tbody"@.len() != "math"@.len());
        } else if i == 39 {
            assert(template_tags()[39] == "td"@);
            assert("td"@.len() != "math"@.len());
        } else if i == 40 {
            assert(template_tags()[40] == "tfoot"@);
            assert("tfoot"@.len() != "math"@.len());
        } else if i == 41 {
            assert(template_tags()[41] == "th"@);
            assert("th"@.len() != "math"@.len());
        } else if i == 42 {
            assert(template_tags()[42] == "thead"@);
            assert("thead"@.len() != "math"@.len());
        } else if i == 43 {
            assert(template_tags()[43] == "tr"@);
            assert("tr"@.len() != "math"@.len());
        } else if i == 44 {
            assert(template_tags()[44] == "u"@);
            assert("u"@.len() != "math"@.len());
        }
    }
}

/// `math` is not listed by `sanitizer_attribute_rule_tags`.
proof fn lemma_math_has_no_attribute_rules()
    ensures
        !sanitizer_attribute_rule_tags().contains("math"@),
{
    reveal_strlit("a");
    reveal_strlit("bdo");
    reveal_strlit("blockquote");
    reveal_strlit("col");
    reveal_strlit("colgroup");
    reveal_strlit("del");
    reveal_strlit("hr");
    reveal_strlit("img");
    reveal_strlit("ins");
    reveal_strlit("math");
    reveal_strlit("ol");
    reveal_strlit("q");
    reveal_strlit("table");
    reveal_strlit("tbody");
    reveal_strlit("td");
    reveal_strlit("tfoot");
    reveal_strlit("th");
    reveal_strlit("thead");
    reveal_strlit("tr");
    assert forall|i: int| 0 <= i < sanitizer_attribute_rule_tags().len() implies sanitizer_attribute_rule_tags()[i] != "math"@ by {
        if i == 0 {
            assert(sanitizer_attribute_rule_tags()[0] == "a"@);
            assert("a"@.len() != "math"@.len());
        } else if i == 1 {
            assert(sanitizer_attribute_rule_tags()[1] == "bdo"@);
            assert("bdo"@.len() != "math"@.len());
        } else if i == 2 {
            assert(sanitizer_attribute_rule_tags()[2] == "blockquote"@);
            assert("blockquote"@.len() != "math"@.len());
        } else if i == 3 {
            assert(sanitizer_attribute_rule_tags()[3] == "col"@);
            assert("col"@.len() != "math"@.len());
        } else if i == 4 {
            assert(sanitizer_attribute_rule_tags()[4] == "colgroup"@);
            assert("colgroup"@.len() != "math"@.len());
        } else if i == 5 {
            assert(sanitizer_attribute_rule_tags()[5] == "del"@);
            assert("del"@.len() != "math"@.len());
        } else if i == 6 {
            assert(sanitizer_attribute_rule_tags()[6] == "hr"@);
            assert("hr"@.len() != "math"@.len());
        } else if i == 7 {
            assert(sanitizer_attribute_rule_tags()[7] == "img"@);
            assert("img"@.len() != "math"@.len());
        } else if i == 8 {
            assert(sanitizer_attribute_rule_tags()[8] == "ins"@);
            assert("ins"@.len() != "math"@.len());
        } else if i == 9 {
            assert(sanitizer_attribute_rule_tags()[9] == "ol"@);
            assert("ol"@.len() != "math"@.len());
        } else if i == 10 {
            assert(sanitizer_attribute_rule_tags()[10] == "q"@);
            assert("q"@.len() != "math"@.len());
        } else if i == 11 {
            assert(sanitizer_attribute_rule_tags()[11] == "table"@);
            assert("table"@.len() != "math"@.len());
        } else if i == 12 {
            assert(sanitizer_attribute_rule_tags()[12] == "tbody"@);
            assert("tbody"@.len() != "math"@.len());
        } else if i == 13 {
            assert(sanitizer_attribute_rule_tags()[13] == "td"@);
            assert("td"@.len() != "math"@.len());
        } else if i == 14 {
            assert(sanitizer_attribute_rule_tags()[14] == "tfoot"@);
            assert("tfoot"@.len() != "math"@.len());
        } else if i == 15 {
            assert(sanitizer_attribute_rule_tags()[15] == "th"@);
            assert("th"@.len() != "math"@.len());
        } else if i == 16 {
            assert(sanitizer_attribute_rule_tags()[16] == "thead"@);
            assert("thead"@.len() != "math"@.len());
        } else if i == 17 {
            assert(sanitizer_attribute_rule_tags()[17] == "tr"@);
            assert("tr"@.len() != "math"@.len());
        }
    }
}

/// `object` is not listed by `template_tags`.
proof fn lemma_object_not_template_tag()
    ensures
        !template_tags().contains("object"@),
{
    reveal_strlit("address");
    reveal_strlit("article");
    reveal_strlit("aside");
    reveal_strlit("b");
    reveal_strlit("blockquote");
    reveal_strlit("br");
    reveal_strlit("code");
    reveal_strlit("dd");
    reveal_strlit("div");
    reveal_strlit("dl");
    reveal_strlit("dt");
    reveal_strlit("em");
    reveal_strlit("figcaption");
    reveal_strlit("figure");
    reveal_strlit("footer");
    reveal_strlit("h1");
    reveal_strlit("h2");
    reveal_strlit("h3");
    reveal_strlit("h4");
    reveal_strlit("h5");
    reveal_strlit("h6");
    reveal_strlit("header");
    reveal_strlit("hr");
    reveal_strlit("i");
    reveal_strlit("li");
    reveal_strlit("main");
    reveal_strlit("mark");
    reveal_strlit("object");
    reveal_strlit("ol");
    reveal_strlit("p");
    reveal_strlit("pre");
    reveal_strlit("s");
    reveal_strlit("section");
    reveal_strlit("small");
    reveal_strlit("span");
    reveal_strlit("strong");
    reveal_strlit("sub");
    reveal_strlit("sup");
    reveal_strlit("table");
    reveal_strlit("tbody");
    reveal_strlit("td");
    reveal_strlit("tfoot");
    reveal_strlit("th");
    reveal_strlit("thead");
    reveal_strlit("tr");
    reveal_strlit("u");
    assert forall|i: int| 0 <= i < template_tags().len() implies template_tags()[i] != "object"@ by {
        if i == 0 {
            assert(template_tags()[0] == "address"@);
            assert("address"@.len() != "object"@.len());
        } else if i == 1 {
            assert(template_tags()[1] == "article"@);
            assert("article"@.len() != "object"@.len());
        } else if i == 2 {
            assert(template_tags()[2] == "aside"@);
            assert("aside"@.len() != "object"@.len());
        } else if i == 3 {
            assert(template_tags()[3] == "b"@);
            assert("b"@.len() != "object"@.len());
        } else if i == 4 {
            assert(template_tags()[4] == "blockquote"@);
            assert("blockquote"@.len() != "object"@.len());
        } else if i == 5 {
            assert(template_tags()[5] == "br"@);
            assert("br"@.len() != "object"@.len());
        } else if i == 6 {
            assert(template_tags()[6] == "code"@);
            assert("code"@.len() != "object"@.len());
        } else if i == 7 {
            assert(template_tags()[7] == "dd"@);
            assert("dd"@.len() != "object"@.len());
        } else if i == 8 {
            assert(template_tags()[8] == "div"@);
            assert("div"@.len() != "object"@.len());
        } else if i == 9 {
            assert(template_tags()[9] == "dl"@);
            assert("dl"@.len() != "object"@.len());
        } else if i == 10 {
            assert(template_tags()[10] == "dt"@);
            assert("dt"@.len() != "object"@.len());
        } else if i == 11 {
            assert(template_tags()[11] == "em"@);
            assert("em"@.len() != "object"@.len());
        } else if i == 12 {
            assert(template_tags()[12] == "figcaption"@);
            assert("figcaption"@.len() != "object"@.len());
        } else if i == 13 {
            assert(template_tags()[13] == "figure"@);
            assert("figure"@[0] != "object"@[0]);
        } else if i == 14 {
            assert(template_tags()[14] == "footer"@);
            assert("footer"@[0] != "object"@[0]);
        } else if i == 15 {
            assert(template_tags()[15] == "h1"@);
            assert("h1"@.len() != "object"@.len());
        } else if i == 16 {
            assert(template_tags()[16] == "h2"@);
            assert("h2"@.len() != "object"@.len());
        } else if i == 17 {
            assert(template_tags()[17] == "h3"@);
            assert("h3"@.len() != "object"@.len());
        } else if i == 18 {
            assert(template_tags()[18] == "h4"@);
            assert("h4"@.len() != "object"@.len());
        } else if i == 19 {
            assert(template_tags()[19] == "h5"@);
            assert("h5"@.len() != "object"@.len());
        } else if i == 20 {
            assert(template_tags()[20] == "h6"@);
            assert("h6"@.len() != "object"@.len());
        } else if i == 21 {
            assert(template_tags()[21] == "header"@);
            assert("header"@[0] != "object"@[0]);
        } else if i == 22 {
            assert(template_tags()[22] == "hr"@);
            assert("hr"@.len() != "object"@.len());
        } else if i == 23 {
            assert(template_tags()[23] == "i"@);
            assert("i"@.len() != "object"@.len());
        } else if i == 24 {
            assert(template_tags()[24] == "li"@);
            assert("li"@.len() != "object"@.len());
        } else if i == 25 {
            assert(template_tags()[25] == "main"@);
            assert("main"@.len() != "object"@.len());
        } else if i == 26 {
            assert(template_tags()[26] == "mark"@);
            assert("mark"@.len() != "object"@.len());
        } else if i == 27 {
            assert(template_tags()[27] == "ol"@);
            assert("ol"@.len() != "object"@.len());
        } else if i == 28 {
            assert(template_tags()[28] == "p"@);
            assert("p"@.len() != "object"@.len());
        } else if i == 29 {
            assert(template_tags()[29] == "pre"@);
            assert("pre"@.len() != "object"@.len());
        } else if i == 30 {
            assert(template_tags()[30] == "s"@);
            assert("s"@.len() != "object"@.len());
        } else if i == 31 {
            assert(template_tags()[31] == "section"@);
            assert("section"@.len() != "object"@.len());
        } else if i == 32 {
            assert(template_tags()[32] == "small"@);
            assert("small"@.len() != "object"@.len());
        } else if i == 33 {
            assert(template_tags()[33] == "span"@);
            assert("span"@.len() != "object"@.len());
        } else if i == 34 {
            assert(template_tags()[34] == "strong"@);
            assert("strong"@[0] != "object"@[0]);
        } else if i == 35 {
            assert(template_tags()[35] == "sub"@);
            assert("sub"@.len() != "object"@.len());
        } else if i == 36 {
            assert(template_tags()[36] == "sup"@);
            assert("sup"@.len() != "object"@.len());
        } else if i == 37 {
            assert(template_tags()[37] == "table"@);
            assert("table"@.len() != "object"@.len());
        } else if i == 38 {
            assert(template_tags()[38] == "tbody"@);
            assert("tbody"@.len() != "object"@.len());
        } else if i == 39 {
            assert(template_tags()[39] == "td"@);
            assert("td"@.len() != "object"@.len());
        } else if i == 40 {
            assert(template_tags()[40] == "tfoot"@);
            assert("tfoot"@.len() != "object"@.len());
        } else if i == 41 {
            assert(template_tags()[41] == "th"@);
            assert("th"@.len() != "object"@.len());
        } else if i == 42 {
            assert(template_tags()[42] == "thead"@);
            assert("thead"@.len() != "object"@.len());
        } else if i == 43 {
            assert(template_tags()[43] == "tr"@);
            assert("tr"@.len() != "object"@.len());
        } else if i == 44 {
            assert(template_tags()[44] == "u"@);
            assert("u"@.len() != "object"@.len());
        }
    }
}

/// `object` is not listed by `sanitizer_attribute_rule_tags`.
proof fn lemma_object_has_no_attribute_rules()
    ensures
        !sanitizer_attribute_rule_tags().contains("object"@),
{
    reveal_strlit("a");
    reveal_strlit("bdo");
    reveal_strlit("blockquote");
    reveal_strlit("col");
    reveal_strlit("colgroup");
    reveal_strlit("del");
    reveal_strlit("hr");
    reveal_strlit("img");
    reveal_strlit("ins");
    reveal_strlit("object");
    reveal_strlit("ol");
    reveal_strlit("q");
    reveal_strlit("table");
    reveal_strlit("tbody");
    reveal_strlit("td");
    reveal_strlit("tfoot");
    reveal_strlit("th");
    reveal_strlit("thead");
    reveal_strlit("tr");
    assert forall|i: int| 0 <= i < sanitizer_attribute_rule_tags().len() implies sanitizer_attribute_rule_tags()[i] != "object"@ by {
        if i == 0 {
            assert(sanitizer_attribute_rule_tags()[0] == "a"@);
            assert("a"@.len() != "object"@.len());
        } else if i == 1 {
            assert(sanitizer_attribute_rule_tags()[1] == "bdo"@);
            assert("bdo"@.len() != "object"@.len());
        } else if i == 2 {
            assert(sanitizer_attribute_rule_tags()[2] == "blockquote"@);
            assert("blockquote"@.len() != "object"@.len());
        } else if i == 3 {
            assert(sanitizer_attribute_rule_tags()[3] == "col"@);
            assert("col"@.len() != "object"@.len());
        } else if i == 4 {
            assert(sanitizer_attribute_rule_tags()[4] == "colgroup"@);
            assert("colgroup"@.len() != "object"@.len());
        } else if i == 5 {
            assert(sanitizer_attribute_rule_tags()[5] == "del"@);
            assert("del"@.len() != "object"@.len());
        } else if i == 6 {
            assert(sanitizer_attribute_rule_tags()[6] == "hr"@);
            assert("hr"@.len() != "object"@.len());
        } else if i == 7 {
            assert(sanitizer_attribute_rule_tags()[7] == "img"@);
            assert("img"@.len() != "object"@.len());
        } else if i == 8 {
            assert(sanitizer_attribute_rule_tags()[8] == "ins"@);
            assert("ins"@.len() != "object"@.len());
        } else if i == 9 {
            assert(sanitizer_attribute_rule_tags()[9] == "ol"@);
            assert("ol"@.len() != "object"@.len());
        } else if i == 10 {
            assert(sanitizer_attribute_rule_tags()[10] == "q"@);
            assert("q"@.len() != "object"@.len());
        } else if i == 11 {
            assert(sanitizer_attribute_rule_tags()[11] == "table"@);
            assert("table"@.len() != "object"@.len());
        } else if i == 12 {
            assert(sanitizer_attribute_rule_tags()[12] == "tbody"@);
            assert("tbody"@.len() != "object"@.len());
        } else if i == 13 {
            assert(sanitizer_attribute_rule_tags()[13] == "td"@);
            assert("td"@.len() != "object"@.len());
        } else if i == 14 {
            assert(sanitizer_attribute_rule_tags()[14] == "tfoot"@);
            assert("tfoot"@.len() != "object"@.len());
        } else if i == 15 {
            assert(sanitizer_attribute_rule_tags()[15] == "th"@);
            assert("th"@.len() != "object"@.len());
        } else if i == 16 {
            assert(sanitizer_attribute_rule_tags()[16] == "thead"@);
            assert("thead"@.len() != "object"@.len());
        } else if i == 17 {
            assert(sanitizer_attribute_rule_tags()[17] == "tr"@);
            assert("tr"@.len() != "object"@.len());
        }
    }
}

/// `script` is not listed by `template_tags`.
proof fn lemma_script_not_template_tag()
    ensures
        !template_tags().contains("script"@),
{
    reveal_strlit("address");
    reveal_strlit("article");
    reveal_strlit("aside");
    reveal_strlit("b");
    reveal_strlit("blockquote");
    reveal_strlit("br");
    reveal_strlit("code");
    reveal_strlit("dd");
    reveal_strlit("div");
    reveal_strlit("dl");
    reveal_strlit("dt");
    reveal_strlit("em");
    reveal_strlit("figcaption");
    reveal_strlit("figure");
    reveal_strlit("footer");
    reveal_strlit("h1");
    reveal_strlit("h2");
    reveal_strlit("h3");
    reveal_strlit("h4");
    reveal_strlit("h5");
    reveal_strlit("h6");
    reveal_strlit("header");
    reveal_strlit("hr");
    reveal_strlit("i");
    reveal_strlit("li");
    reveal_strlit("main");
    reveal_strlit("mark");
    reveal_strlit("ol");
    reveal_strlit("p");
    reveal_strlit("pre");
    reveal_strlit("s");
    reveal_strlit("script");
    reveal_strlit("section");
    reveal_strlit("small");
    reveal_strlit("span");
    reveal_strlit("strong");
    reveal_strlit("sub");
    reveal_strlit("sup");
    reveal_strlit("table");
    reveal_strlit("tbody");
    reveal_strlit("td");
    reveal_strlit("tfoot");
    reveal_strlit("th");
    reveal_strlit("thead");
    reveal_strlit("tr");
    reveal_strlit("u");
    assert forall|i: int| 0 <= i < template_tags().len() implies template_tags()[i] != "script"@ by {
        if i == 0 {
            assert(template_tags()[0] == "address"@);
            assert("address"@.len() != "script"@.len());
        } else if i == 1 {
            assert(template_tags()[1] == "article"@);
            assert("article"@.len() != "script"@.len());
        } else if i == 2 {
            assert(template_tags()[2] == "aside"@);
            assert("aside"@.len() != "script"@.len());
        } else if i == 3 {
            assert(template_tags()[3] == "b"@);
            assert("b"@.len() != "script"@.len());
        } else if i == 4 {
            assert(template_tags()[4] == "blockquote"@);
            assert("blockquote"@.len() != "script"@.len());
        } else if i == 5 {
            assert(template_tags()[5] == "br"@);
            assert("br"@.len() != "script"@.len());
        } else if i == 6 {
            assert(template_tags()[6] == "code"@);
            assert("code"@.len() != "script"@.len());
        } else if i == 7 {
            assert(template_tags()[7] == "dd"@);
            assert("dd"@.len() != "script"@.len());
        } else if i == 8 {
            assert(template_tags()[8] == "div"@);
            assert("div"@.len() != "script"@.len());
        } else if i == 9 {
            assert(template_tags()[9] == "dl"@);
            assert("dl"@.len() != "script"@.len());
        } else if i == 10 {
            assert(template_tags()[10] == "dt"@);
            assert("dt"@.len() != "script"@.len());
        } else if i == 11 {
            assert(template_tags()[11] == "em"@);
            assert("em"@.len() != "script"@.len());
        } else if i == 12 {
            assert(template_tags()[12] == "figcaption"@);
            assert("figcaption"@.len() != "script"@.len());
        } else if i == 13 {
            assert(template_tags()[13] == "figure"@);
            assert("figure"@[0] != "script"@[0]);
        } else if i == 14 {
            assert(template_tags()[14] == "footer"@);
            assert("footer"@[0] != "script"@[0]);
        } else if i == 15 {
            assert(template_tags()[15] == "h1"@);
            assert("h1"@.len() != "script"@.len());
        } else if i == 16 {
            assert(template_tags()[16] == "h2"@);
            assert("h2"@.len() != "script"@.len());
        } else if i == 17 {
            assert(template_tags()[17] == "h3"@);
            assert("h3"@.len() != "script"@.len());
        } else if i == 18 {
            assert(template_tags()[18] == "h4"@);
            assert("h4"@.len() != "script"@.len());
        } else if i == 19 {
            assert(template_tags()[19] == "h5"@);
            assert("h5"@.len() != "script"@.len());
        } else if i == 20 {
            assert(template_tags()[20] == "h6"@);
            assert("h6"@.len() != "script"@.len());
        } else if i == 21 {
            assert(template_tags()[21] == "header"@);
            assert("header"@[0] != "script"@[0]);
        } else if i == 22 {
            assert(template_tags()[22] == "hr"@);
            assert("hr"@.len() != "script"@.len());
        } else if i == 23 {
            assert(template_tags()[23] == "i"@);
            assert("i"@.len() != "script"@.len());
        } else if i == 24 {
            assert(template_tags()[24] == "li"@);
            assert("li"@.len() != "script"@.len());
        } else if i == 25 {
            assert(template_tags()[25] == "main"@);
            assert("main"@.len() != "script"@.len());
        } else if i == 26 {
            assert(template_tags()[26] == "mark"@);
            assert("mark"@.len() != "script"@.len());
        } else if i == 27 {
            assert(template_tags()[27] == "ol"@);
            assert("ol"@.len() != "script"@.len());
        } else if i == 28 {
            assert(template_tags()[28] == "p"@);
            assert("p"@.len() != "script"@.len());
        } else if i == 29 {
            assert(template_tags()[29] == "pre"@);
            assert("pre"@.len() != "script"@.len());
        } else if i == 30 {
            assert(template_tags()[30] == "s"@);
            assert("s"@.len() != "script"@.len());
        } else if i == 31 {
            assert(template_tags()[31] == "section"@);
            assert("section"@.len() != "script"@.len());
        } else if i == 32 {
            assert(template_tags()[32] == "small"@);
            assert("small"@.len() != "script"@.len());
        } else if i == 33 {
            assert(template_tags()[33] == "span"@);
            assert("span"@.len() != "script"@.len());
        } else if i == 34 {
            assert(template_tags()[34] == "strong"@);
            assert("strong"@[1] != "script"@[1]);
        } else if i == 35 {
            assert(template_tags()[35] == "sub"@);
            assert("sub"@.len() != "script"@.len());
        } else if i == 36 {
            assert(template_tags()[36] == "sup"@);
            assert("sup"@.len() != "script"@.len());
        } else if i == 37 {
            assert(template_tags()[37] == "table"@);
            assert("table"@.len() != "script"@.len());
        } else if i == 38 {
            assert(template_tags()[38] == "tbody"@);
            assert("tbody"@.len() != "script"@.len());
        } else if i == 39 {
            assert(template_tags()[39] == "td"@);
            assert("td"@.len() != "script"@.len());
        } else if i == 40 {
            assert(template_tags()[40] == "tfoot"@);
            assert("tfoot"@.len() != "script"@.len());
        } else if i == 41 {
            assert(template_tags()[41] == "th"@);
            assert("th"@.len() != "script"@.len());
        } else if i == 42 {
            assert(template_tags()[42] == "thead"@);
            assert("thead"@.len() != "script"@.len());
        } else if i == 43 {
            assert(template_tags()[43] == "tr"@);
            assert("tr"@.len() != "script"@.len());
        } else if i == 44 {
            assert(template_tags()[44] == "u"@);
            assert("u"@.len() != "script"@.len());
        }
    }
}

/// `script` is not listed by `sanitizer_attribute_rule_tags`.
proof fn lemma_script_has_no_attribute_rules()
    ensures
        !sanitizer_attribute_rule_tags().contains("script"@),
{
    reveal_strlit("a");
    reveal_strlit("bdo");
    reveal_strlit("blockquote");
    reveal_strlit("col");
    reveal_strlit("colgroup");
    reveal_strlit("del");
    reveal_strlit("hr");
    reveal_strlit("img");
    reveal_strlit("ins");
    reveal_strlit("ol");
    reveal_strlit("q");
    reveal_strlit("script");
    reveal_strlit("table");
    reveal_strlit("tbody");
    reveal_strlit("td");
    reveal_strlit("tfoot");
    reveal_strlit("th");
    reveal_strlit("thead");
    reveal_strlit("tr");
    assert forall|i: int| 0 <= i < sanitizer_attribute_rule_tags().len() implies sanitizer_attribute_rule_tags()[i] != "script"@ by {
        if i == 0 {
            assert(sanitizer_attribute_rule_tags()[0] == "a"@);
            assert("a"@.len() != "script"@.len());
        } else if i == 1 {
            assert(sanitizer_attribute_rule_tags()[1] == "bdo"@);
            assert("bdo"@.len() != "script"@.len());
        } else if i == 2 {
            assert(sanitizer_attribute_rule_tags()[2] == "blockquote"@);
            assert("blockquote"@.len() != "script"@.len());
        } else if i == 3 {
            assert(sanitizer_attribute_rule_tags()[3] == "col"@);
            assert("col"@.len() != "script"@.len());
        } else if i == 4 {
            assert(sanitizer_attribute_rule_tags()[4] == "colgroup"@);
            assert("colgroup"@.len() != "script"@.len());
        } else if i == 5 {
            assert(sanitizer_attribute_rule_tags()[5] == "del"@);
            assert("del"@.len() != "script"@.len());
        } else if i == 6 {
            assert(sanitizer_attribute_rule_tags()[6] == "hr"@);
            assert("hr"@.len() != "script"@.len());
        } else if i == 7 {
            assert(sanitizer_attribute_rule_tags()[7] == "img"@);
            assert("img"@.len() != "script"@.len());
        } else if i == 8 {
            assert(sanitizer_attribute_rule_tags()[8] == "ins"@);
            assert("ins"@.len() != "script"@.len());
        } else if i == 9 {
            assert(sanitizer_attribute_rule_tags()[9] == "ol"@);
            assert("ol"@.len() != "script"@.len());
        } else if i == 10 {
            assert(sanitizer_attribute_rule_tags()[10] == "q"@);
            assert("q"@.len() != "script"@.len());
        } else if i == 11 {
            assert(sanitizer_attribute_rule_tags()[11] == "table"@);
            assert("table"@.len() != "script"@.len());
        } else if i == 12 {
            assert(sanitizer_attribute_rule_tags()[12] == "tbody"@);
            assert("tbody"@.len() != "script"@.len());
        } else if i == 13 {
            assert(sanitizer_attribute_rule_tags()[13] == "td"@);
            assert("td"@.len() != "script"@.len());
        } else if i == 14 {
            assert(sanitizer_attribute_rule_tags()[14] == "tfoot"@);
            assert("tfoot"@.len() != "script"@.len());
        } else if i == 15 {
            assert(sanitizer_attribute_rule_tags()[15] == "th"@);
            assert("th"@.len() != "script"@.len());
        } else if i == 16 {
            assert(sanitizer_attribute_rule_tags()[16] == "thead"@);
            assert("thead"@.len() != "script"@.len());
        } else if i == 17 {
            assert(sanitizer_attribute_rule_tags()[17] == "tr"@);
            assert("tr"@.len() != "script"@.len());
        }
    }
}

/// `style` is not listed by `template_tags`.
proof fn lemma_style_not_template_tag()
    ensures
        !template_tags().contains("style"@),
{
    reveal_strlit("address");
    reveal_strlit("article");
    reveal_strlit("aside");
    reveal_strlit("b");
    reveal_strlit("blockquote");
    reveal_strlit("br");
    reveal_strlit("code");
    reveal_strlit("dd");
    reveal_strlit("div");
    reveal_strlit("dl");
    reveal_strlit("dt");
    reveal_strlit("em");
    reveal_strlit("figcaption");
    reveal_strlit("figure");
    reveal_strlit("footer");
    reveal_strlit("h1");
    reveal_strlit("h2");
    reveal_strlit("h3");
    reveal_strlit("h4");
    reveal_strlit("h5");
    reveal_strlit("h6");
    reveal_strlit("header");
    reveal_strlit("hr");
    reveal_strlit("i");
    reveal_strlit("li");
    reveal_strlit("main");
    reveal_strlit("mark");
    reveal_strlit("ol");
    reveal_strlit("p");
    reveal_strlit("pre");
    reveal_strlit("s");
    reveal_strlit("section");
    reveal_strlit("small");
    reveal_strlit("span");
    reveal_strlit("strong");
    reveal_strlit("style");
    reveal_strlit("sub");
    reveal_strlit("sup");
    reveal_strlit("table");
    reveal_strlit("tbody");
    reveal_strlit("td");
    reveal_strlit("tfoot");
    reveal_strlit("th");
    reveal_strlit("thead");
    reveal_strlit("tr");
    reveal_strlit("u");
    assert forall|i: int| 0 <= i < template_tags().len() implies template_tags()[i] != "style"@ by {
        if i == 0 {
            assert(template_tags()[0] == "address"@);
            assert("address"@.len() != "style"@.len());
        } else if i == 1 {
            assert(template_tags()[1] == "article"@);
            assert("article"@.len() != "style"@.len());
        } else if i == 2 {
            assert(template_tags()[2] == "aside"@);
            assert("aside"@[0] != "style"@[0]);
        } else if i == 3 {
            assert(template_tags()[3] == "b"@);
            assert("b"@.len() != "style"@.len());
        } else if i == 4 {
            assert(template_tags()[4] == "blockquote"@);
            assert("blockquote"@.len() != "style"@.len());
        } else if i == 5 {
            assert(template_tags()[5] == "br"@);
            assert("br"@.len() != "style"@.len());
        } else if i == 6 {
            assert(template_tags()[6] == "code"@);
            assert("code"@.len() != "style"@.len());
        } else if i == 7 {
            assert(template_tags()[7] == "dd"@);
            assert("dd"@.len() != "style"@.len());
        } else if i == 8 {
            assert(template_tags()[8] == "div"@);
            assert("div"@.len() != "style"@.len());
        } else if i == 9 {
            assert(template_tags()[9] == "dl"@);
            assert("dl"@.len() != "style"@.len());
        } else if i == 10 {
            assert(template_tags()[10] == "dt"@);
            assert("dt"@.len() != "style"@.len());
        } else if i == 11 {
            assert(template_tags()[11] == "em"@);
            assert("em"@.len() != "style"@.len());
        } else if i == 12 {
            assert(template_tags()[12] == "figcaption"@);
            assert("figcaption"@.len() != "style"@.len());
        } else if i == 13 {
            assert(template_tags()[13] == "figure"@);
            assert("figure"@.len() != "style"@.len());
        } else if i == 14 {
            assert(template_tags()[14] == "footer"@);
            assert("footer"@.len() != "style"@.len());
        } else if i == 15 {
            assert(template_tags()[15] == "h1"@);
            assert("h1"@.len() != "style"@.len());
        } else if i == 16 {
            assert(template_tags()[16] == "h2"@);
            assert("h2"@.len() != "style"@.len());
        } else if i == 17 {
            assert(template_tags()[17] == "h3"@);
            assert("h3"@.len() != "style"@.len());
        } else if i == 18 {
            assert(template_tags()[18] == "h4"@);
            assert("h4"@.len() != "style"@.len());
        } else if i == 19 {
            assert(template_tags()[19] == "h5"@);
            assert("h5"@.len() != "style"@.len());
        } else if i == 20 {
            assert(template_tags()[20] == "h6"@);
            assert("h6"@.len() != "style"@.len());
        } else if i == 21 {
            assert(template_tags()[21] == "header"@);
            assert("header"@.len() != "style"@.len());
        } else if i == 22 {
            assert(template_tags()[22] == "hr"@);
            assert("hr"@.len() != "style"@.len());
        } else if i == 23 {
            assert(template_tags()[23] == "i"@);
            assert("i"@.len() != "style"@.len());
        } else if i == 24 {
            assert(template_tags()[24] == "li"@);
            assert("li"@.len() != "style"@.len());
        } else if i == 25 {
            assert(template_tags()[25] == "main"@);
            assert("main"@.len() != "style"@.len());
        } else if i == 26 {
            assert(template_tags()[26] == "mark"@);
            assert("mark"@.len() != "style"@.len());
        } else if i == 27 {
            assert(template_tags()[27] == "ol"@);
            assert("ol"@.len() != "style"@.len());
        } else if i == 28 {
            assert(template_tags()[28] == "p"@);
            assert("p"@.len() != "style"@.len());
        } else if i == 29 {
            assert(template_tags()[29] == "pre"@);
            assert("pre"@.len() != "style"@.len());
        } else if i == 30 {
            assert(template_tags()[30] == "s"@);
            assert("s"@.len() != "style"@.len());
        } else if i == 31 {
            assert(template_tags()[31] == "section"@);
            assert("section"@.len() != "style"@.len());
        } else if i == 32 {
            assert(template_tags()[32] == "small"@);
            assert("small"@[1] != "style"@[1]);
        } else if i == 33 {
            assert(template_tags()[33] == "span"@);
            assert("span"@.len() != "style"@.len());
        } else if i == 34 {
            assert(template_tags()[34] == "strong"@);
            assert("strong"@.len() != "style"@.len());
        } else if i == 35 {
            assert(template_tags()[35] == "sub"@);
            assert("sub"@.len() != "style"@.len());
        } else if i == 36 {
            assert(template_tags()[36] == "sup"@);
            assert("sup"@.len() != "style"@.len());
        } else if i == 37 {
            assert(template_tags()[37] == "table"@);
            assert("table"@[0] != "style"@[0]);
        } else if i == 38 {
            assert(template_tags()[38] == "tbody"@);
            assert("tbody"@[0] != "style"@[0]);
        } else if i == 39 {
            assert(template_tags()[39] == "td"@);
            assert("td"@.len() != "style"@.len());
        } else if i == 40 {
            assert(template_tags()[40] == "tfoot"@);
            assert("tfoot"@[0] != "style"@[0]);
        } else if i == 41 {
            assert(template_tags()[41] == "th"@);
            assert("th"@.len() != "style"@.len());
        } else if i == 42 {
            assert(template_tags()[42] == "thead"@);
            assert("thead"@[0] != "style"@[0]);
        } else if i == 43 {
            assert(template_tags()[43] == "tr"@);
            assert("tr"@.len() != "style"@.len());
        } else if i == 44 {
            assert(template_tags()[44] == "u"@);
            assert("u"@.len() != "style"@.len());
        }
    }
}

/// `style` is not listed by `sanitizer_attribute_rule_tags`.
proof fn lemma_style_has_no_attribute_rules()
    ensures
        !sanitizer_attribute_rule_tags().contains("style"@),
{
    reveal_strlit("a");
    reveal_strlit("bdo");
    reveal_strlit("blockquote");
    reveal_strlit("col");
    reveal_strlit("colgroup");
    reveal_strlit("del");
    reveal_strlit("hr");
    reveal_strlit("img");
    reveal_strlit("ins");
    reveal_strlit("ol");
    reveal_strlit("q");
    reveal_strlit("style");
    reveal_strlit("table");
    reveal_strlit("tbody");
    reveal_strlit("td");
    reveal_strlit("tfoot");
    reveal_strlit("th");
    reveal_strlit("thead");
    reveal_strlit("tr");
    assert forall|i: int| 0 <= i < sanitizer_attribute_rule_tags().len() implies sanitizer_attribute_rule_tags()[i] != "style"@ by {
        if i == 0 {
            assert(sanitizer_attribute_rule_tags()[0] == "a"@);
            assert("a"@.len() != "style"@.len());
        } else if i == 1 {
            assert(sanitizer_attribute_rule_tags()[1] == "bdo"@);
            assert("bdo"@.len() != "style"@.len());
        } else if i == 2 {
            assert(sanitizer_attribute_rule_tags()[2] == "blockquote"@);
            assert("blockquote"@.len() != "style"@.len());
        } else if i == 3 {
            assert(sanitizer_attribute_rule_tags()[3] == "col"@);
            assert("col"@.len() != "style"@.len());
        } else if i == 4 {
            assert(sanitizer_attribute_rule_tags()[4] == "colgroup"@);
            assert("colgroup"@.len() != "style"@.len());
        } else if i == 5 {
            assert(sanitizer_attribute_rule_tags()[5] == "del"@);
            assert("del"@.len() != "style"@.len());
        } else if i == 6 {
            assert(sanitizer_attribute_rule_tags()[6] == "hr"@);
            assert("hr"@.len() != "style"@.len());
        } else if i == 7 {
            assert(sanitizer_attribute_rule_tags()[7] == "img"@);
            assert("img"@.len() != "style"@.len());
        } else if i == 8 {
            assert(sanitizer_attribute_rule_tags()[8] == "ins"@);
            assert("ins"@.len() != "style"@.len());
        } else if i == 9 {
            assert(sanitizer_attribute_rule_tags()[9] == "ol"@);
            assert("ol"@.len() != "style"@.len());
        } else if i == 10 {
            assert(sanitizer_attribute_rule_tags()[10] == "q"@);
            assert("q"@.len() != "style"@.len());
        } else if i == 11 {
            assert(sanitizer_attribute_rule_tags()[11] == "table"@);
            assert("table"@[0] != "style"@[0]);
        } else if i == 12 {
            assert(sanitizer_attribute_rule_tags()[12] == "tbody"@);
            assert("tbody"@[0] != "style"@[0]);
        } else if i == 13 {
            assert(sanitizer_attribute_rule_tags()[13] == "td"@);
            assert("td"@.len() != "style"@.len());
        } else if i == 14 {
            assert(sanitizer_attribute_rule_tags()[14] == "tfoot"@);
            assert("tfoot"@[0] != "style"@[0]);
        } else if i == 15 {
            assert(sanitizer_attribute_rule_tags()[15] == "th"@);
            assert("th"@.len() != "style"@.len());
        } else if i == 16 {
            assert(sanitizer_attribute_rule_tags()[16] == "thead"@);
            assert("thead"@[0] != "style"@[0]);
        } else if i == 17 {
            assert(sanitizer_attribute_rule_tags()[17] == "tr"@);
            assert("tr"@.len() != "style"@.len());
        }
    }
}

/// `svg` is not listed by `template_tags`.
proof fn lemma_svg_not_template_tag()
    ensures
        !template_tags().contains("svg"@),
{
    reveal_strlit("address");
    reveal_strlit("article");
    reveal_strlit("aside");
    reveal_strlit("b");
    reveal_strlit("blockquote");
    reveal_strlit("br");
    reveal_strlit("code");
    reveal_strlit("dd");
    reveal_strlit("div");
    reveal_strlit("dl");
    reveal_strlit("dt");
    reveal_strlit("em");
    reveal_strlit("figcaption");
    reveal_strlit("figure");
    reveal_strlit("footer");
    reveal_strlit("h1");
    reveal_strlit("h2");
    reveal_strlit("h3");
    reveal_strlit("h4");
    reveal_strlit("h5");
    reveal_strlit("h6");
    reveal_strlit("header");
    reveal_strlit("hr");
    reveal_strlit("i");
    reveal_strlit("li");
    reveal_strlit("main");
    reveal_strlit("mark");
    reveal_strlit("ol");
    reveal_strlit("p");
    reveal_strlit("pre");
    reveal_strlit("s");
    reveal_strlit("section");
    reveal_strlit("small");
    reveal_strlit("span");
    reveal_strlit("strong");
    reveal_strlit("sub");
    reveal_strlit("sup");
    reveal_strlit("svg");
    reveal_strlit("table");
    reveal_strlit("tbody");
    reveal_strlit("td");
    reveal_strlit("tfoot");
    reveal_strlit("th");
    reveal_strlit("thead");
    reveal_strlit("tr");
    reveal_strlit("u");
    assert forall|i: int| 0 <= i < template_tags().len() implies template_tags()[i] != "svg"@ by {
        if i == 0 {
            assert(template_tags()[0] == "address"@);
            assert("address"@.len() != "svg"@.len());
        } else if i == 1 {
            assert(template_tags()[1] == "article"@);
            assert("article"@.len() != "svg"@.len());
        } else if i == 2 {
            assert(template_tags()[2] == "aside"@);
            assert("aside"@.len() != "svg"@.len());
        } else if i == 3 {
            assert(template_tags()[3] == "b"@);
            assert("b"@.len() != "svg"@.len());
        } else if i == 4 {
            assert(template_tags()[4] == "blockquote"@);
            assert("blockquote"@.len() != "svg"@.len());
        } else if i == 5 {
            assert(template_tags()[5] == "br"@);
            assert("br"@.len() != "svg"@.len());
        } else if i == 6 {
            assert(template_tags()[6] == "code"@);
            assert("code"@.len() != "svg"@.len());
        } else if i == 7 {
            assert(template_tags()[7] == "dd"@);
            assert("dd"@.len() != "svg"@.len());
        } else if i == 8 {
            assert(template_tags()[8] == "div"@);
            assert("div"@[0] != "svg"@[0]);
        } else if i == 9 {
            assert(template_tags()[9] == "dl"@);
            assert("dl"@.len() != "svg"@.len());
        } else if i == 10 {
            assert(template_tags()[10] == "dt"@);
            assert("dt"@.len() != "svg"@.len());
        } else if i == 11 {
            assert(template_tags()[11] == "em"@);
            assert("em"@.len() != "svg"@.len());
        } else if i == 12 {
            assert(template_tags()[12] == "figcaption"@);
            assert("figcaption"@.len() != "svg"@.len());
        } else if i == 13 {
            assert(template_tags()[13] == "figure"@);
            assert("figure"@.len() != "svg"@.len());
        } else if i == 14 {
            assert(template_tags()[14] == "footer"@);
            assert("footer"@.len() != "svg"@.len());
        } else if i == 15 {
            assert(template_tags()[15] == "h1"@);
            assert("h1"@.len() != "svg"@.len());
        } else if i == 16 {
            assert(template_tags()[16] == "h2"@);
            assert("h2"@.len() != "svg"@.len());
        } else if i == 17 {
            assert(template_tags()[17] == "h3"@);
            assert("h3"@.len() != "svg"@.len());
        } else if i == 18 {
            assert(template_tags()[18] == "h4"@);
            assert("h4"@.len() != "svg"@.len());
        } else if i == 19 {
            assert(template_tags()[19] == "h5"@);
            assert("h5"@.len() != "svg"@.len());
        } else if i == 20 {
            assert(template_tags()[20] == "h6"@);
            assert("h6"@.len() != "svg"@.len());
        } else if i == 21 {
            assert(template_tags()[21] == "header"@);
            assert("header"@.len() != "svg"@.len());
        } else if i == 22 {
            assert(template_tags()[22] == "hr"@);
            assert("hr"@.len() != "svg"@.len());
        } else if i == 23 {
            assert(template_tags()[23] == "i"@);
            assert("i"@.len() != "svg"@.len());
        } else if i == 24 {
            assert(template_tags()[24] == "li"@);
            assert("li"@.len() != "svg"@.len());
        } else if i == 25 {
            assert(template_tags()[25] == "main"@);
            assert("main"@.len() != "svg"@.len());
        } else if i == 26 {
            assert(template_tags()[26] == "mark"@);
            assert("mark"@.len() != "svg"@.len());
        } else if i == 27 {
            assert(template_tags()[27] == "ol"@);
            assert("ol"@.len() != "svg"@.len());
        } else if i == 28 {
            assert(template_tags()[28] == "p"@);
            assert("p"@.len() != "svg"@.len());
        } else if i == 29 {
            assert(template_tags()[29] == "pre"@);
            assert("pre"@[0] != "svg"@[0]);
        } else if i == 30 {
            assert(template_tags()[30] == "s"@);
            assert("s"@.len() != "svg"@.len());
        } else if i == 31 {
            assert(template_tags()[31] == "section"@);
            assert("section"@.len() != "svg"@.len());
        } else if i == 32 {
            assert(template_tags()[32] == "small"@);
            assert("small"@.len() != "svg"@.len());
        } else if i == 33 {
            assert(template_tags()[33] == "span"@);
            assert("span"@.len() != "svg"@.len());
        } else if i == 34 {
            assert(template_tags()[34] == "strong"@);
            assert("strong"@.len() != "svg"@.len());
        } else if i == 35 {
            assert(template_tags()[35] == "sub"@);
            assert("sub"@[1] != "svg"@[1]);
        } else if i == 36 {
            assert(template_tags()[36] == "sup"@);
            assert("sup"@[1] != "svg"@[1]);
        } else if i == 37 {
            assert(template_tags()[37] == "table"@);
            assert("table"@.len() != "svg"@.len());
        } else if i == 38 {
            assert(template_tags()[38] == "tbody"@);
            assert("tbody"@.len() != "svg"@.len());
        } else if i == 39 {
            assert(template_tags()[39] == "td"@);
            assert("td"@.len() != "svg"@.len());
        } else if i == 40 {
            assert(template_tags()[40] == "tfoot"@);
            assert("tfoot"@.len() != "svg"@.len());
        } else if i == 41 {
            assert(template_tags()[41] == "th"@);
            assert("th"@.len() != "svg"@.len());
        } else if i == 42 {
            assert(template_tags()[42] == "thead"@);
            assert("thead"@.len() != "svg"@.len());
        } else if i == 43 {
            assert(template_tags()[43] == "tr"@);
            assert("tr"@.len() != "svg"@.len());
        } else if i == 44 {
            assert(template_tags()[44] == "u"@);
            assert("u"@.len() != "svg"@.len());
        }
    }
}

/// `svg` is not listed by `sanitizer_attribute_rule_tags`.
proof fn lemma_svg_has_no_attribute_rules()
    ensures
        !sanitizer_attribute_rule_tags().contains("svg"@),
{
    reveal_strlit("a");
    reveal_strlit("bdo");
    reveal_strlit("blockquote");
    reveal_strlit("col");
    reveal_strlit("colgroup");
    reveal_strlit("del");
    reveal_strlit("hr");
    reveal_strlit("img");
    reveal_strlit("ins");
    reveal_strlit("ol");
    reveal_strlit("q");
    reveal_strlit("svg");
    reveal_strlit("table");
    reveal_strlit("tbody");
    reveal_strlit("td");
    reveal_strlit("tfoot");
    reveal_strlit("th");
    reveal_strlit("thead");
    reveal_strlit("tr");
    assert forall|i: int| 0 <= i < sanitizer_attribute_rule_tags().len() implies sanitizer_attribute_rule_tags()[i] != "svg"@ by {
        if i == 0 {
            assert(sanitizer_attribute_rule_tags()[0] == "a"@);
            assert("a"@.len() != "svg"@.len());
        } else if i == 1 {
            assert(sanitizer_attribute_rule_tags()[1] == "bdo"@);
            assert("bdo"@[0] != "svg"@[0]);
        } else if i == 2 {
            assert(sanitizer_attribute_rule_tags()[2] == "blockquote"@);
            assert("blockquote"@.len() != "svg"@.len());
        } else if i == 3 {
            assert(sanitizer_attribute_rule_tags()[3] == "col"@);
            assert("col"@[0] != "svg"@[0]);
        } else if i == 4 {
            assert(sanitizer_attribute_rule_tags()[4] == "colgroup"@);
            assert("colgroup"@.len() != "svg"@.len());
        } else if i == 5 {
            assert(sanitizer_attribute_rule_tags()[5] == "del"@);
            assert("del"@[0] != "svg"@[0]);
        } else if i == 6 {
            assert(sanitizer_attribute_rule_tags()[6] == "hr"@);
            assert("hr"@.len() != "svg"@.len());
        } else if i == 7 {
            assert(sanitizer_attribute_rule_tags()[7] == "img"@);
            assert("img"@[0] != "svg"@[0]);
        } else if i == 8 {
            assert(sanitizer_attribute_rule_tags()[8] == "ins"@);
            assert("ins"@[0] != "svg"@[0]);
        } else if i == 9 {
            assert(sanitizer_attribute_rule_tags()[9] == "ol"@);
            assert("ol"@.len() != "svg"@.len());
        } else if i == 10 {
            assert(sanitizer_attribute_rule_tags()[10] == "q"@);
            assert("q"@.len() != "svg"@.len());
        } else if i == 11 {
            assert(sanitizer_attribute_rule_tags()[11] == "table"@);
            assert("table"@.len() != "svg"@.len());
        } else if i == 12 {
            assert(sanitizer_attribute_rule_tags()[12] == "tbody"@);
            assert("tbody"@.len() != "svg"@.len());
        } else if i == 13 {
            assert(sanitizer_attribute_rule_tags()[13] == "td"@);
            assert("td"@.len() != "svg"@.len());
        } else if i == 14 {
            assert(sanitizer_attribute_rule_tags()[14] == "tfoot"@);
            assert("tfoot"@.len() != "svg"@.len());
        } else if i == 15 {
            assert(sanitizer_attribute_rule_tags()[15] == "th"@);
            assert("th"@.len() != "svg"@.len());
        } else if i == 16 {
            assert(sanitizer_attribute_rule_tags()[16] == "thead"@);
            assert("thead"@.len() != "svg"@.len());
        } else if i == 17 {
            assert(sanitizer_attribute_rule_tags()[17] == "tr"@);
            assert("tr"@.len() != "svg"@.len());
        }
    }
}

/// `template` is not listed by `template_tags`.
proof fn lemma_template_not_template_tag()
    ensures
        !template_tags().contains("template"@),
{
    reveal_strlit("address");
    reveal_strlit("article");
    reveal_strlit("aside");
    reveal_strlit("b");
    reveal_strlit("blockquote");
    reveal_strlit("br");
    reveal_strlit("code");
    reveal_strlit("dd");
    reveal_strlit("div");
    reveal_strlit("dl");
    reveal_strlit("dt");
    reveal_strlit("em");
    reveal_strlit("figcaption");
    reveal_strlit("figure");
    reveal_strlit("footer");
    reveal_strlit("h1");
    reveal_strlit("h2");
    reveal_strlit("h3");
    reveal_strlit("h4");
    reveal_strlit("h5");
    reveal_strlit("h6");
    reveal_strlit("header");
    reveal_strlit("hr");
    reveal_strlit("i");
    reveal_strlit("li");
    reveal_strlit("main");
    reveal_strlit("mark");
    reveal_strlit("ol");
    reveal_strlit("p");
    reveal_strlit("pre");
    reveal_strlit("s");
    reveal_strlit("section");
    reveal_strlit("small");
    reveal_strlit("span");
    reveal_strlit("strong");
    reveal_strlit("sub");
    reveal_strlit("sup");
    reveal_strlit("table");
    reveal_strlit("tbody");
    reveal_strlit("td");
    reveal_strlit("template");
    reveal_strlit("tfoot");
    reveal_strlit("th");
    reveal_strlit("thead");
    reveal_strlit("tr");
    reveal_strlit("u");
    assert forall|i: int| 0 <= i < template_tags().len() implies template_tags()[i] != "template"@ by {
        if i == 0 {
            assert(template_tags()[0] == "address"@);
            assert("address"@.len() != "template"@.len());
        } else if i == 1 {
            assert(template_tags()[1] == "article"@);
            assert("article"@.len() != "template"@.len());
        } else if i == 2 {
            assert(template_tags()[2] == "aside"@);
            assert("aside"@.len() != "template"@.len());
        } else if i == 3 {
            assert(template_tags()[3] == "b"@);
            assert("b"@.len() != "template"@.len());
        } else if i == 4 {
            assert(template_tags()[4] == "blockquote"@);
            assert("blockquote"@.len() != "template"@.len());
        } else if i == 5 {
            assert(template_tags()[5] == "br"@);
            assert("br"@.len() != "template"@.len());
        } else if i == 6 {
            assert(template_tags()[6] == "code"@);
            assert("code"@.len() != "template"@.len());
        } else if i == 7 {
            assert(template_tags()[7] == "dd"@);
            assert("dd"@.len() != "template"@.len());
        } else if i == 8 {
            assert(template_tags()[8] == "div"@);
            assert("div"@.len() != "template"@.len());
        } else if i == 9 {
            assert(template_tags()[9] == "dl"@);
            assert("dl"@.len() != "template"@.len());
        } else if i == 10 {
            assert(template_tags()[10] == "dt"@);
            assert("dt"@.len() != "template"@.len());
        } else if i == 11 {
            assert(template_tags()[11] == "em"@);
            assert("em"@.len() != "template"@.len());
        } else if i == 12 {
            assert(template_tags()[12] == "figcaption"@);
            assert("figcaption"@.len() != "template"@.len());
        } else if i == 13 {
            assert(template_tags()[13] == "figure"@);
            assert("figure"@.len() != "template"@.len());
        } else if i == 14 {
            assert(template_tags()[14] == "footer"@);
            assert("footer"@.len() != "template"@.len());
        } else if i == 15 {
            assert(template_tags()[15] == "h1"@);
            assert("h1"@.len() != "template"@.len());
        } else if i == 16 {
            assert(template_tags()[16] == "h2"@);
            assert("h2"@.len() != "template"@.len());
        } else if i == 17 {
            assert(template_tags()[17] == "h3"@);
            assert("h3"@.len() != "template"@.len());
        } else if i == 18 {
            assert(template_tags()[18] == "h4"@);
            assert("h4"@.len() != "template"@.len());
        } else if i == 19 {
            assert(template_tags()[19] == "h5"@);
            assert("h5"@.len() != "template"@.len());
        } else if i == 20 {
            assert(template_tags()[20] == "h6"@);
            assert("h6"@.len() != "template"@.len());
        } else if i == 21 {
            assert(template_tags()[21] == "header"@);
            assert("header"@.len() != "template"@.len());
        } else if i == 22 {
            assert(template_tags()[22] == "hr"@);
            assert("hr"@.len() != "template"@.len());
        } else if i == 23 {
            assert(template_tags()[23] == "i"@);
            assert("i"@.len() != "template"@.len());
        } else if i == 24 {
            assert(template_tags()[24] == "li"@);
            assert("li"@.len() != "template"@.len());
        } else if i == 25 {
            assert(template_tags()[25] == "main"@);
            assert("main"@.len() != "template"@.len());
        } else if i == 26 {
            assert(template_tags()[26] == "mark"@);
            assert("mark"@.len() != "template"@.len());
        } else if i == 27 {
            assert(template_tags()[27] == "ol"@);
            assert("ol"@.len() != "template"@.len());
        } else if i == 28 {
            assert(template_tags()[28] == "p"@);
            assert("p"@.len() != "template"@.len());
        } else if i == 29 {
            assert(template_tags()[29] == "pre"@);
            assert("pre"@.len() != "template"@.len());
        } else if i == 30 {
            assert(template_tags()[30] == "s"@);
            assert("s"@.len() != "template"@.len());
        } else if i == 31 {
            assert(template_tags()[31] == "section"@);
            assert("section"@.len() != "template"@.len());
        } else if i == 32 {
            assert(template_tags()[32] == "small"@);
            assert("small"@.len() != "template"@.len());
        } else if i == 33 {
            assert(template_tags()[33] == "span"@);
            assert("span"@.len() != "template"@.len());
        } else if i == 34 {
            assert(template_tags()[34] == "strong"@);
            assert("strong"@.len() != "template"@.len());
        } else if i == 35 {
            assert(template_tags()[35] == "sub"@);
            assert("sub"@.len() != "template"@.len());
        } else if i == 36 {
            assert(template_tags()[36] == "sup"@);
            assert("sup"@.len() != "template"@.len());
        } else if i == 37 {
            assert(template_tags()[37] == "table"@);
            assert("table"@.len() != "template"@.len());
        } else if i == 38 {
            assert(template_tags()[38] == "tbody"@);
            assert("tbody"@.len() != "template"@.len());
        } else if i == 39 {
            assert(template_tags()[39] == "td"@);
            assert("td"@.len() != "template"@.len());
        } else if i == 40 {
            assert(template_tags()[40] == "tfoot"@);
            assert("tfoot"@.len() != "template"@.len());
        } else if i == 41 {
            assert(template_tags()[41] == "th"@);
            assert("th"@.len() != "template"@.len());
        } else if i == 42 {
            assert(template_tags()[42] == "thead"@);
            assert("thead"@.len() != "template"@.len());
        } else if i == 43 {
            assert(template_tags()[43] == "tr"@);
            assert("tr"@.len() != "template"@.len());
        } else if i == 44 {
            assert(template_tags()[44] == "u"@);
            assert("u"@.len() != "template"@.len());
        }
    }
}

/// `template` is not listed by `sanitizer_attribute_rule_tags`.
proof fn lemma_template_has_no_attribute_rules()
    ensures
        !sanitizer_attribute_rule_tags().contains("template"@),
{
    reveal_strlit("a");
    reveal_strlit("bdo");
    reveal_strlit("blockquote");
    reveal_strlit("col");
    reveal_strlit("colgroup");
    reveal_strlit("del");
    reveal_strlit("hr");
    reveal_strlit("img");
    reveal_strlit("ins");
    reveal_strlit("ol");
    reveal_strlit("q");
    reveal_strlit("table");
    reveal_strlit("tbody");
    reveal_strlit("td");
    reveal_strlit("template");
    reveal_strlit("tfoot");
    reveal_strlit("th");
    reveal_strlit("thead");
    reveal_strlit("tr");
    assert forall|i: int| 0 <= i < sanitizer_attribute_rule_tags().len() implies sanitizer_attribute_rule_tags()[i] != "template"@ by {
        if i == 0 {
            assert(sanitizer_attribute_rule_tags()[0] == "a"@);
            assert("a"@.len() != "template"@.len());
        } else if i == 1 {
            assert(sanitizer_attribute_rule_tags()[1] == "bdo"@);
            assert("bdo"@.len() != "template"@.len());
        } else if i == 2 {
            assert(sanitizer_attribute_rule_tags()[2] == "blockquote"@);
            assert("blockquote"@.len() != "template"@.len());
        } else if i == 3 {
            assert(sanitizer_attribute_rule_tags()[3] == "col"@);
            assert("col"@.len() != "template"@.len());
        } else if i == 4 {
            assert(sanitizer_attribute_rule_tags()[4] == "colgroup"@);
            assert("colgroup"@[0] != "template"@[0]);
        } else if i == 5 {
            assert(sanitizer_attribute_rule_tags()[5] == "del"@);
            assert("del"@.len() != "template"@.len());
        } else if i == 6 {
            assert(sanitizer_attribute_rule_tags()[6] == "hr"@);
            assert("hr"@.len() != "template"@.len());
        } else if i == 7 {
            assert(sanitizer_attribute_rule_tags()[7] == "img"@);
            assert("img"@.len() != "template"@.len());
        } else if i == 8 {
            assert(sanitizer_attribute_rule_tags()[8] == "ins"@);
            assert("ins"@.len() != "template"@.len());
        } else if i == 9 {
            assert(sanitizer_attribute_rule_tags()[9] == "ol"@);
            assert("ol"@.len() != "template"@.len());
        } else if i == 10 {
            assert(sanitizer_attribute_rule_tags()[10] == "q"@);
            assert("q"@.len() != "template"@.len());
        } else if i == 11 {
            assert(sanitizer_attribute_rule_tags()[11] == "table"@);
            assert("table"@.len() != "template"@.len());
        } else if i == 12 {
            assert(sanitizer_attribute_rule_tags()[12] == "tbody"@);
            assert("tbody"@.len() != "template"@.len());
        } else if i == 13 {
            assert(sanitizer_attribute_rule_tags()[13] == "td"@);
            assert("td"@.len() != "template"@.len());
        } else if i == 14 {
            assert(sanitizer_attribute_rule_tags()[14] == "tfoot"@);
            assert("tfoot"@.len() != "template"@.len());
        } else if i == 15 {
            assert(sanitizer_attribute_rule_tags()[15] == "th"@);
            assert("th"@.len() != "template"@.len());
        } else if i == 16 {
            assert(sanitizer_attribute_rule_tags()[16] == "thead"@);
            assert("thead"@.len() != "template"@.len());
        } else if i == 17 {
            assert(sanitizer_attribute_rule_tags()[17] == "tr"@);
            assert("tr"@.len() != "template"@.len());
        }
    }
}

/// `textarea` is not listed by `template_tags`.
proof fn lemma_textarea_not_template_tag()
    ensures
        !template_tags().contains("textarea"@),
{
    reveal_strlit("address");
    reveal_strlit("article");
    reveal_strlit("aside");
    reveal_strlit("b");
    reveal_strlit("blockquote");
    reveal_strlit("br");
    reveal_strlit("code");
    reveal_strlit("dd");
    reveal_strlit("div");
    reveal_strlit("dl");
    reveal_strlit("dt");
    reveal_strlit("em");
    reveal_strlit("figcaption");
    reveal_strlit("figure");
    reveal_strlit("footer");
    reveal_strlit("h1");
    reveal_strlit("h2");
    reveal_strlit("h3");
    reveal_strlit("h4");
    reveal_strlit("h5");
    reveal_strlit("h6");
    reveal_strlit("header");
    reveal_strlit("hr");
    reveal_strlit("i");
    reveal_strlit("li");
    reveal_strlit("main");
    reveal_strlit("mark");
    reveal_strlit("ol");
    reveal_strlit("p");
    reveal_strlit("pre");
    reveal_strlit("s");
    reveal_strlit("section");
    reveal_strlit("small");
    reveal_strlit("span");
    reveal_strlit("strong");
    reveal_strlit("sub");
    reveal_strlit("sup");
    reveal_strlit("table");
    reveal_strlit("tbody");
    reveal_strlit("td");
    reveal_strlit("textarea");
    reveal_strlit("tfoot");
    reveal_strlit("th");
    reveal_strlit("thead");
    reveal_strlit("tr");
    reveal_strlit("u");
    assert forall|i: int| 0 <= i < template_tags().len() implies template_tags()[i] != "textarea"@ by {
        if i == 0 {
            assert(template_tags()[0] == "address"@);
            assert("address"@.len() != "textarea"@.len());
        } else if i == 1 {
            assert(template_tags()[1] == "article"@);
            assert("article"@.len() != "textarea"@.len());
        } else if i == 2 {
            assert(template_tags()[2] == "aside"@);
            assert("aside"@.len() != "textarea"@.len());
        } else if i == 3 {
            assert(template_tags()[3] == "b"@);
            assert("b"@.len() != "textarea"@.len());
        } else if i == 4 {
            assert(template_tags()[4] == "blockquote"@);
            assert("blockquote"@.len() != "textarea"@.len());
        } else if i == 5 {
            assert(template_tags()[5] == "br"@);
            assert("br"@.len() != "textarea"@.len());
        } else if i == 6 {
            assert(template_tags()[6] == "code"@);
            assert("code"@.len() != "textarea"@.len());
        } else if i == 7 {
            assert(template_tags()[7] == "dd"@);
            assert("dd"@.len() != "textarea"@.len());
        } else if i == 8 {
            assert(template_tags()[8] == "div"@);
            assert("div"@.len() != "textarea"@.len());
        } else if i == 9 {
            assert(template_tags()[9] == "dl"@);
            assert("dl"@.len() != "textarea"@.len());
        } else if i == 10 {
            assert(template_tags()[10] == "dt"@);
            assert("dt"@.len() != "textarea"@.len());
        } else if i == 11 {
            assert(template_tags()[11] == "em"@);
            assert("em"@.len() != "textarea"@.len());
        } else if i == 12 {
            assert(template_tags()[12] == "figcaption"@);
            assert("figcaption"@.len() != "textarea"@.len());
        } else if i == 13 {
            assert(template_tags()[13] == "figure"@);
            assert("figure"@.len() != "textarea"@.len());
        } else if i == 14 {
            assert(template_tags()[14] == "footer"@);
            assert("footer"@.len() != "textarea"@.len());
        } else if i == 15 {
            assert(template_tags()[15] == "h1"@);
            assert("h1"@.len() != "textarea"@.len());
        } else if i == 16 {
            assert(template_tags()[16] == "h2"@);
            assert("h2"@.len() != "textarea"@.len());
        } else if i == 17 {
            assert(template_tags()[17] == "h3"@);
            assert("h3"@.len() != "textarea"@.len());
        } else if i == 18 {
            assert(template_tags()[18] == "h4"@);
            assert("h4"@.len() != "textarea"@.len());
        } else if i == 19 {
            assert(template_tags()[19] == "h5"@);
            assert("h5"@.len() != "textarea"@.len());
        } else if i == 20 {
            assert(template_tags()[20] == "h6"@);
            assert("h6"@.len() != "textarea"@.len());
        } else if i == 21 {
            assert(template_tags()[21] == "header"@);
            assert("header"@.len() != "textarea"@.len());
        } else if i == 22 {
            assert(template_tags()[22] == "hr"@);
            assert("hr"@.len() != "textarea"@.len());
        } else if i == 23 {
            assert(template_tags()[23] == "i"@);
            assert("i"@.len() != "textarea"@.len());
        } else if i == 24 {
            assert(template_tags()[24] == "li"@);
            assert("li"@.len() != "textarea"@.len());
        } else if i == 25 {
            assert(template_tags()[25] == "main"@);
            assert("main"@.len() != "textarea"@.len());
        } else if i == 26 {
            assert(template_tags()[26] == "mark"@);
            assert("mark"@.len() != "textarea"@.len());
        } else if i == 27 {
            assert(template_tags()[27] == "ol"@);
            assert("ol"@.len() != "textarea"@.len());
        } else if i == 28 {
            assert(template_tags()[28] == "p"@);
            assert("p"@.len() != "textarea"@.len());
        } else if i == 29 {
            assert(template_tags()[29] == "pre"@);
            assert("pre"@.len() != "textarea"@.len());
        } else if i == 30 {
            assert(template_tags()[30] == "s"@);
            assert("s"@.len() != "textarea"@.len());
        } else if i == 31 {
            assert(template_tags()[31] == "section"@);
            assert("section"@.len() != "textarea"@.len());
        } else if i == 32 {
            assert(template_tags()[32] == "small"@);
            assert("small"@.len() != "textarea"@.len());
        } else if i == 33 {
            assert(template_tags()[33] == "span"@);
            assert("span"@.len() != "textarea"@.len());
        } else if i == 34 {
            assert(template_tags()[34] == "strong"@);
            assert("strong"@.len() != "textarea"@.len());
        } else if i == 35 {
            assert(template_tags()[35] == "sub"@);
            assert("sub"@.len() != "textarea"@.len());
        } else if i == 36 {
            assert(template_tags()[36] == "sup"@);
            assert("sup"@.len() != "textarea"@.len());
        } else if i == 37 {
            assert(template_tags()[37] == "table"@);
            assert("table"@.len() != "textarea"@.len());
        } else if i == 38 {
            assert(template_tags()[38] == "tbody"@);
            assert("tbody"@.len() != "textarea"@.len());
        } else if i == 39 {
            assert(template_tags()[39] == "td"@);
            assert("td"@.len() != "textarea"@.len());
        } else if i == 40 {
            assert(template_tags()[40] == "tfoot"@);
            assert("tfoot"@.len() != "textarea"@.len());
        } else if i == 41 {
            assert(template_tags()[41] == "th"@);
            assert("th"@.len() != "textarea"@.len());
        } else if i == 42 {
            assert(template_tags()[42] == "thead"@);
            assert("thead"@.len() != "textarea"@.len());
        } else if i == 43 {
            assert(template_tags()[43] == "tr"@);
            assert("tr"@.len() != "textarea"@.len());
        } else if i == 44 {
            assert(template_tags()[44] == "u"@);
            assert("u"@.len() != "textarea"@.len());
        }
    }
}

/// `textarea` is not listed by `sanitizer_attribute_rule_tags`.
proof fn lemma_textarea_has_no_attribute_rules()
    ensures
        !sanitizer_attribute_rule_tags().contains("textarea"@),
{
    reveal_strlit("a");
    reveal_strlit("bdo");
    reveal_strlit("blockquote");
    reveal_strlit("col");
    reveal_strlit("colgroup");
    reveal_strlit("del");
    reveal_strlit("hr");
    reveal_strlit("img");
    reveal_strlit("ins");
    reveal_strlit("ol");
    reveal_strlit("q");
    reveal_strlit("table");
    reveal_strlit("tbody");
    reveal_strlit("td");
    reveal_strlit("textarea");
    reveal_strlit("tfoot");
    reveal_strlit("th");
    reveal_strlit("thead");
    reveal_strlit("tr");
    assert forall|i: int| 0 <= i < sanitizer_attribute_rule_tags().len() implies sanitizer_attribute_rule_tags()[i] != "textarea"@ by {
        if i == 0 {
            assert(sanitizer_attribute_rule_tags()[0] == "a"@);
            assert("a"@.len() != "textarea"@.len());
        } else if i == 1 {
            assert(sanitizer_attribute_rule_tags()[1] == "bdo"@);
            assert("bdo"@.len() != "textarea"@.len());
        } else if i == 2 {
            assert(sanitizer_attribute_rule_tags()[2] == "blockquote"@);
            assert("blockquote"@.len() != "textarea"@.len());
        } else if i == 3 {
            assert(sanitizer_attribute_rule_tags()[3] == "col"@);
            assert("col"@.len() != "textarea"@.len());
        } else if i == 4 {
            assert(sanitizer_attribute_rule_tags()[4] == "colgroup"@);
            assert("colgroup"@[0] != "textarea"@[0]);
        } else if i == 5 {
            assert(sanitizer_attribute_rule_tags()[5] == "del"@);
            assert("del"@.len() != "textarea"@.len());
        } else if i == 6 {
            assert(sanitizer_attribute_rule_tags()[6] == "hr"@);
            assert("hr"@.len() != "textarea"@.len());
        } else if i == 7 {
            assert(sanitizer_attribute_rule_tags()[7] == "img"@);
            assert("img"@.len() != "textarea"@.len());
        } else if i == 8 {
            assert(sanitizer_attribute_rule_tags()[8] == "ins"@);
            assert("ins"@.len() != "textarea"@.len());
        } else if i == 9 {
            assert(sanitizer_attribute_rule_tags()[9] == "ol"@);
            assert("ol"@.len() != "textarea"@.len());
        } else if i == 10 {
            assert(sanitizer_attribute_rule_tags()[10] == "q"@);
            assert("q"@.len() != "textarea"@.len());
        } else if i == 11 {
            assert(sanitizer_attribute_rule_tags()[11] == "table"@);
            assert("table"@.len() != "textarea"@.len());
        } else if i == 12 {
            assert(sanitizer_attribute_rule_tags()[12] == "tbody"@);
            assert("tbody"@.len() != "textarea"@.len());
        } else if i == 13 {
            assert(sanitizer_attribute_rule_tags()[13] == "td"@);
            assert("td"@.len() != "textarea"@.len());
        } else if i == 14 {
            assert(sanitizer_attribute_rule_tags()[14] == "tfoot"@);
            assert("tfoot"@.len() != "textarea"@.len());
        } else if i == 15 {
            assert(sanitizer_attribute_rule_tags()[15] == "th"@);
            assert("th"@.len() != "textarea"@.len());
        } else if i == 16 {
            assert(sanitizer_attribute_rule_tags()[16] == "thead"@);
            assert("thead"@.len() != "textarea"@.len());
        } else if i == 17 {
            assert(sanitizer_attribute_rule_tags()[17] == "tr"@);
            assert("tr"@.len() != "textarea"@.len());
        }
    }
}

/// The template's sanitizer configuration is one the sanitizer accepts.
proof fn lemma_template_sanitizer_configuration_ok()
    ensures
        sanitizer_configuration_ok(
            template_tags(),
            template_attributes(),
            template_clean_content_tags(),
        ),
{
    lemma_rel_not_template_attribute();
    lemma_iframe_not_template_tag();
    lemma_iframe_has_no_attribute_rules();
    lemma_math_not_template_tag();
    lemma_math_has_no_attribute_rules();
    lemma_object_not_template_tag();
    lemma_object_has_no_attribute_rules();
    lemma_script_not_template_tag();
    lemma_script_has_no_attribute_rules();
    lemma_style_not_template_tag();
    lemma_style_has_no_attribute_rules();
    lemma_svg_not_template_tag();
    lemma_svg_has_no_attribute_rules();
    lemma_template_not_template_tag();
    lemma_template_has_no_attribute_rules();
    lemma_textarea_not_template_tag();
    lemma_textarea_has_no_attribute_rules();
    assert forall|c: Seq<char>|
        #![trigger template_clean_content_tags().contains(c)]
        #![trigger sanitizer_default_clean_content_tags().contains(c)]
        (template_clean_content_tags().contains(c) || sanitizer_default_clean_content_tags().contains(c))
            implies !template_tags().contains(c) && !sanitizer_attribute_rule_tags().contains(c) by {
        if template_clean_content_tags().contains(c) {
            let k = choose|k: int| 0 <= k < template_clean_content_tags().len() && template_clean_content_tags()[k] == c;
            assert(k == 0 || k == 1 || k == 2 || k == 3 || k == 4 || k == 5 || k == 6 || k == 7);
        } else {
            let k = choose|k: int| 0 <= k < sanitizer_default_clean_content_tags().len() && sanitizer_default_clean_content_tags()[k] == c;
            assert(k == 0 || k == 1);
            assert(sanitizer_default_clean_content_tags()[0] == template_clean_content_tags()[3]);
            assert(sanitizer_default_clean_content_tags()[1] == template_clean_content_tags()[4]);
        }
    }
}

/// Custom HTML as the template keeps it: trimmed and sanitized with the template's tags,
/// attributes and clean-content tags, comments stripped.
pub open spec fn sanitized_template_html(source: Seq<char>) -> Seq<char> {
    cleaned_html(
        trim(source),
        template_tags(),
        template_attributes(),
        template_clean_content_tags(),
        true,
    )
}

/// What checking custom HTML gives: the sanitized HTML, or the message that refuses it.
pub open spec fn html_outcome(source: Seq<char>) -> Result<Seq<char>, Seq<char>> {
    if encode_utf8(source).len() > MAXIMUM_TEMPLATE_HTML_BYTES {
        Err("is too large"@)
    } else if source.contains('\0') {
        Err("contains an invalid character"@)
    } else {
        match token_problem(sanitized_template_html(source), 0, 0) {
            Some(p) => Err(token_message(p)),
            None => Ok(sanitized_template_html(source)),
        }
    }
}

/// What checking custom CSS gives: the trimmed CSS, or the message that refuses it.
pub open spec fn css_outcome(source: Seq<char>) -> Result<Seq<char>, Seq<char>> {
    if encode_utf8(source).len() > MAXIMUM_TEMPLATE_CSS_BYTES {
        Err("is too large"@)
    } else if source.contains('\0') {
        Err("contains an invalid character"@)
    } else if contains_text(lowercase(source), "</style"@) {
        Err("contains an invalid style tag"@)
    } else if contains_text(lowercase(source), "@import"@) || contains_text(lowercase(source), "url("@) {
        Err("cannot load external resources"@)
    } else {
        Ok(trim(source))
    }
}

/// The result is the outcome `o` for the template part called `field`.
pub open spec fn follows_outcome(r: LibraryResult<String>, o: Result<Seq<char>, Seq<char>>, field: &'static str) -> bool {
    match o {
        Err(m) => r matches Err(e) && template_error(e, field, m),
        Ok(v) => r matches Ok(s) && s@ == v,
    }
}

/// Sanitizes the custom HTML called `field`: at most 200 000 bytes, no NUL character;
/// the trimmed HTML is sanitized and its field tokens must then be valid.
pub fn sanitize_template_html(source: &str, field: &'static str) -> (r: LibraryResult<String>)
    ensures
        encode_utf8(source@).len() > MAXIMUM_TEMPLATE_HTML_BYTES ==> (r matches Err(e)
            && template_error(e, field, "is too large"@)),
        encode_utf8(source@).len() <= MAXIMUM_TEMPLATE_HTML_BYTES && source@.contains('\0') ==> (
        r matches Err(e) && template_error(e, field, "contains an invalid character"@)),
        encode_utf8(source@).len() <= MAXIMUM_TEMPLATE_HTML_BYTES && !source@.contains('\0') ==> (
        match token_problem(sanitized_template_html(source@), 0, 0) {
            Some(p) => r matches Err(e) && template_error(e, field, token_message(p)),
            None => r matches Ok(s) && s@ == sanitized_template_html(source@),
        }),
        follows_outcome(r, html_outcome(source@), field),
{
    let size = source.as_bytes().len();
    if size > MAXIMUM_TEMPLATE_HTML_BYTES {
        return Err(LibraryError::InvalidTemplate { field, message: "is too large".to_owned() });
    }
    if has_nul(source) {
        return Err(
            LibraryError::InvalidTemplate {
                field,
                message: "contains an invalid character".to_owned(),
            },
        );
    }
    let tags = allowed_template_tags();
    let attributes = allowed_template_attributes();
    let clean_content = clean_content_template_tags();
    let trimmed_source = trimmed(source);
    proof {
        lemma_template_sanitizer_configuration_ok();
    }
    let sanitized = clean_html(trimmed_source.as_str(), &tags, &attributes, &clean_content, true);
    match validate_field_tokens(sanitized.as_str(), field) {
        Ok(()) => Ok(sanitized),
        Err(e) => Err(e),
    }
}

/// Whether the text holds the character NUL.
fn has_nul(s: &str) -> (r: bool)
    ensures
        r == s@.contains('\0'),
{
    let chars = chars_of(s);
    let mut i: usize = 0;
    while i < chars.len()
        invariant
            chars@ == s@,
            i <= chars.len(),
            forall|j: int| 0 <= j < i ==> chars@[j] != '\0',
        decreases chars.len() - i,
    {
        if chars[i] == '\0' {
            return true;
        }
        i = i + 1;
    }
    false
}

/// Whether `pattern` occurs in `s`.
fn contains_exec(s: &Vec<char>, pattern: &Vec<char>) -> (r: bool)
    ensures
        r == contains_text(s@, pattern@),
{
    let n = s.len();
    let m = pattern.len();
    if m > n {
        return false;
    }
    let mut i: usize = 0;
    while i <= n - m
        invariant
            n == s.len(),
            m == pattern.len(),
            m <= n,
            i <= n - m + 1,
            forall|j: int| 0 <= j < i ==> !crate::text::occurs_at(s@, pattern@, j),
        decreases n - i,
    {
        let mut k: usize = 0;
        while k < m && s[i + k] == pattern[k]
            invariant
                i + m <= n,
                n == s.len(),
                m == pattern.len(),
                k <= m,
                forall|t: int| 0 <= t < k ==> s@[i + t] == pattern@[t],
            decreases m - k,
        {
            k = k + 1;
        }
        if k == m {
            assert(s@.subrange(i as int, i + m) =~= pattern@);
            assert(crate::text::occurs_at(s@, pattern@, i as int));
            return true;
        }
        assert(s@.subrange(i as int, i + m)[k as int] != pattern@[k as int]);
        i = i + 1;
    }
    assert forall|j: int| crate::text::occurs_at(s@, pattern@, j) implies false by {
        assert(0 <= j < i);
    }
    false
}

/// Checks custom CSS: at most 100 000 bytes, no NUL character, and, ignoring case, no
/// closing style tag and no `@import` or `url(`; the CSS is kept trimmed.
pub fn validate_template_css(source: &str) -> (r: LibraryResult<String>)
    ensures
        encode_utf8(source@).len() > MAXIMUM_TEMPLATE_CSS_BYTES ==> (r matches Err(e)
            && template_error(e, "CSS", "is too large"@)),
        encode_utf8(source@).len() <= MAXIMUM_TEMPLATE_CSS_BYTES && source@.contains('\0') ==> (
        r matches Err(e) && template_error(e, "CSS", "contains an invalid character"@)),
        encode_utf8(source@).len() <= MAXIMUM_TEMPLATE_CSS_BYTES && !source@.contains('\0')
            && contains_text(lowercase(source@), "</style"@) ==> (r matches Err(e) && template_error(
            e,
            "CSS",
            "contains an invalid style tag"@,
        )),
        encode_utf8(source@).len() <= MAXIMUM_TEMPLATE_CSS_BYTES && !source@.contains('\0')
            && !contains_text(lowercase(source@), "</style"@) && (contains_text(
            lowercase(source@),
            "@import"@,
        ) || contains_text(lowercase(source@), "url("@)) ==> (r matches Err(e) && template_error(
            e,
            "CSS",
            "cannot load external resources"@,
        )),
        r is Ok <==> encode_utf8(source@).len() <= MAXIMUM_TEMPLATE_CSS_BYTES && !source@.contains(
            '\0',
        ) && !contains_text(lowercase(source@), "</style"@) && !contains_text(
            lowercase(source@),
            "@import"@,
        ) && !contains_text(lowercase(source@), "url("@),
        r matches Ok(s) ==> s@ == trim(source@),
        follows_outcome(r, css_outcome(source@), "CSS"),
{
    let size = source.as_bytes().len();
    if size > MAXIMUM_TEMPLATE_CSS_BYTES {
        return Err(LibraryError::InvalidTemplate { field: "CSS", message: "is too large".to_owned() });
    }
    if has_nul(source) {
        return Err(
            LibraryError::InvalidTemplate {
                field: "CSS",
                message: "contains an invalid character".to_owned(),
            },
        );
    }
    let normalized = to_lowercase(source);
    let text = chars_of(normalized.as_str());
    if contains_exec(&text, &chars_of("</style")) {
        return Err(
            LibraryError::InvalidTemplate {
                field: "CSS",
                message: "contains an invalid style tag".to_owned(),
            },
        );
    }
    if contains_exec(&text, &chars_of("@import")) || contains_exec(&text, &chars_of("url(")) {
        return Err(
            LibraryError::InvalidTemplate {
                field: "CSS",
                message: "cannot load external resources".to_owned(),
            },
        );
    }
    Ok(trimmed(source))
}

/// Checks the content of a template and returns it with its custom HTML sanitized and its
/// CSS trimmed: the schema version, then the visual front and answer sides, then the
/// custom front HTML, answer HTML and CSS.
pub fn validate_template_content(content: TemplateContent) -> (r: LibraryResult<TemplateContent>)
    ensures
        content.schema_version != TEMPLATE_SCHEMA_VERSION ==> (r matches Err(e) && template_error(
            e,
            "Template",
            "uses an unsupported schema version"@,
        )),
        r matches Ok(c) ==> {
            &&& content.schema_version == TEMPLATE_SCHEMA_VERSION
            &&& side_problem(content.visual.front.blocks@) is None
            &&& side_problem(content.visual.answer.blocks@) is None
            &&& c.schema_version == content.schema_version
            &&& c.mode == content.mode
            &&& c.visual == content.visual
            &&& c.custom.front_html@ == sanitized_template_html(content.custom.front_html@)
            &&& c.custom.answer_html@ == sanitized_template_html(content.custom.answer_html@)
            &&& c.custom.css@ == trim(content.custom.css@)
        },
        content.schema_version == TEMPLATE_SCHEMA_VERSION && side_problem(
            content.visual.front.blocks@,
        ) is Some ==> (r matches Err(e) && template_error(
            e,
            "Visual front",
            side_message(side_problem(content.visual.front.blocks@)->Some_0),
        )),
        content.schema_version == TEMPLATE_SCHEMA_VERSION && side_problem(
            content.visual.front.blocks@,
        ) is None && side_problem(content.visual.answer.blocks@) is Some ==> (r matches Err(e)
            && template_error(
            e,
            "Visual answer",
            side_message(side_problem(content.visual.answer.blocks@)->Some_0),
        )),        content.schema_version == TEMPLATE_SCHEMA_VERSION && side_problem(
            content.visual.front.blocks@,
        ) is None && side_problem(content.visual.answer.blocks@) is None ==> match (
            html_outcome(content.custom.front_html@),
            html_outcome(content.custom.answer_html@),
            css_outcome(content.custom.css@),
        ) {
            (Err(m), _, _) => r matches Err(e) && template_error(e, "Custom front HTML", m),
            (Ok(_), Err(m), _) => r matches Err(e) && template_error(e, "Custom answer HTML", m),
            (Ok(_), Ok(_), Err(m)) => r matches Err(e) && template_error(e, "CSS", m),
            (Ok(f), Ok(a), Ok(c)) => r matches Ok(t) && t.schema_version == content.schema_version
                && t.mode == content.mode && t.visual == content.visual && t.custom.front_html@ == f
                && t.custom.answer_html@ == a && t.custom.css@ == c,
        },
{
    if content.schema_version != TEMPLATE_SCHEMA_VERSION {
        return Err(
            LibraryError::InvalidTemplate {
                field: "Template",
                message: "uses an unsupported schema version".to_owned(),
            },
        );
    }
    match validate_visual_side(&content.visual.front.blocks, "Visual front") {
        Ok(()) => {},
        Err(e) => {
            return Err(e);
        },
    }
    match validate_visual_side(&content.visual.answer.blocks, "Visual answer") {
        Ok(()) => {},
        Err(e) => {
            return Err(e);
        },
    }
    let front_html = match sanitize_template_html(content.custom.front_html.as_str(), "Custom front HTML") {
        Ok(h) => h,
        Err(e) => {
            return Err(e);
        },
    };
    let answer_html = match sanitize_template_html(content.custom.answer_html.as_str(), "Custom answer HTML") {
        Ok(h) => h,
        Err(e) => {
            return Err(e);
        },
    };
    let css = match validate_template_css(content.custom.css.as_str()) {
        Ok(c) => c,
        Err(e) => {
            return Err(e);
        },
    };
    let TemplateContent { schema_version, mode, visual, custom: _ } = content;
    Ok(
        TemplateContent {
            schema_version,
            mode,
            visual,
            custom: CustomTemplate { front_html, answer_html, css },
        },
    )
}

/// A template still used by active cards cannot be deleted.
pub fn ensure_template_unused(retrieval_form_count: i64) -> (r: LibraryResult<()>)
    ensures
        r is Ok <==> retrieval_form_count <= 0,
        r matches Err(e) ==> (e matches LibraryError::TemplateInUse { retrieval_form_count: n } && n
            == retrieval_form_count),
{
    if retrieval_form_count > 0 {
        return Err(LibraryError::TemplateInUse { retrieval_form_count });
    }
    Ok(())
}

} // verus!
