//! The allowlist that rich concept content must follow: which nodes may appear where,
//! their attributes, links, equations, cloze omissions and image occlusion regions, and
//! the limits on size, depth, nodes and text. Validation also collects the cloze groups,
//! occlusion groups and media that the content refers to.

use vstd::prelude::*;

use crate::error::{LibraryError, LibraryResult};
use crate::id_set::{insert_text, strictly_ascending};
use crate::json_access::{
    ensure_keys, find_member, invalid_value_message, key_texts, keys_spec, member, member_index,
    not_object_message, optional_array_spec, optional_attributes, optional_attributes_spec,
    optional_integer, optional_integer_spec, required_array_spec, required_attributes,
    required_attributes_spec, required_integer, required_integer_spec, required_number,
    required_number_spec, required_string, required_string_spec, short_string_ok,
    validate_optional_short_string, invalid_value, lemma_member_index_bounds,
};
use crate::models::concepts::{ConceptContent, RICH_CONTENT_SCHEMA_VERSION};
use crate::models::json::{JsonNumber, JsonValue};
use crate::text::{chars_of, concat, is_uuid, parses_as_uuid, str_equals, texts, trim, trimmed};

verus! {

/// A rich document has at most this many bytes once encoded.
pub const MAXIMUM_DOCUMENT_BYTES: usize = 1_000_000;

/// Nodes are nested at most this deep.
pub const MAXIMUM_DOCUMENT_DEPTH: usize = 32;

/// The content has at most this many nodes.
pub const MAXIMUM_DOCUMENT_NODES: usize = 10_000;

/// The content has at most this many characters of text.
pub const MAXIMUM_DOCUMENT_TEXT: usize = 500_000;

/// An equation has at most this many characters.
pub const MAXIMUM_LATEX_LENGTH: usize = 10_000;

/// A link has at most this many bytes.
pub const MAXIMUM_LINK_LENGTH: usize = 2_048;

/// A descriptive attribute has at most this many characters.
pub const MAXIMUM_ATTRIBUTE_TEXT_LENGTH: usize = 500;

/// The content has at most this many cloze groups.
pub const MAXIMUM_CLOZE_GROUPS: usize = 100;

/// The content has at most this many image occlusion groups.
pub const MAXIMUM_IMAGE_OCCLUSION_GROUPS: usize = 100;

/// The content has at most this many image occlusion regions.
pub const MAXIMUM_IMAGE_OCCLUSION_REGIONS: usize = 500;

/// Where a node stands, which decides the node types it may have.
#[derive(Clone, Copy, Debug, PartialEq, Eq, Structural)]
pub enum NodeContext {
    Block,
    Code,
    Inline,
    ListItem,
}

/// The node types allowed in each place.
pub open spec fn allowed_node(node_type: Seq<char>, context: NodeContext) -> bool {
    match context {
        NodeContext::Block => node_type == "paragraph"@ || node_type == "heading"@ || node_type
            == "blockquote"@ || node_type == "bulletList"@ || node_type == "orderedList"@
            || node_type == "codeBlock"@ || node_type == "blockMath"@ || node_type == "mediaImage"@
            || node_type == "horizontalRule"@,
        NodeContext::Inline => node_type == "text"@ || node_type == "hardBreak"@ || node_type
            == "inlineMath"@,
        NodeContext::ListItem => node_type == "listItem"@,
        NodeContext::Code => node_type == "text"@,
    }
}

/// Whether a node of this type may stand in this place.
pub fn node_is_allowed(node_type: &str, context: NodeContext) -> (r: bool)
    ensures
        r == allowed_node(node_type@, context),
{
    match context {
        NodeContext::Block => str_equals(node_type, "paragraph") || str_equals(node_type, "heading")
            || str_equals(node_type, "blockquote") || str_equals(node_type, "bulletList")
            || str_equals(node_type, "orderedList") || str_equals(node_type, "codeBlock")
            || str_equals(node_type, "blockMath") || str_equals(node_type, "mediaImage")
            || str_equals(node_type, "horizontalRule"),
        NodeContext::Inline => str_equals(node_type, "text") || str_equals(node_type, "hardBreak")
            || str_equals(node_type, "inlineMath"),
        NodeContext::ListItem => str_equals(node_type, "listItem"),
        NodeContext::Code => str_equals(node_type, "text"),
    }
}

/// The numbers that place an occlusion region on its image.
#[derive(Clone, Copy, Debug, PartialEq, Eq)]
pub struct RegionGeometry {
    pub x: JsonNumber,
    pub y: JsonNumber,
    pub width: JsonNumber,
    pub height: JsonNumber,
}

/// What validation has collected so far.
pub struct ScanState {
    pub cloze: Seq<Seq<char>>,
    pub groups: Seq<Seq<char>>,
    pub sources: Seq<int>,
    pub regions: Seq<Seq<char>>,
    pub media: Set<Seq<char>>,
    pub nodes: int,
    pub text: int,
    pub checked: Seq<RegionGeometry>,
}

/// Nothing collected yet.
pub open spec fn empty_scan() -> ScanState {
    ScanState {
        cloze: Seq::empty(),
        groups: Seq::empty(),
        sources: Seq::empty(),
        regions: Seq::empty(),
        media: Set::empty(),
        nodes: 0,
        text: 0,
        checked: Seq::empty(),
    }
}

/// The result of checking a part of the content: what has been collected, or the message
/// that refuses the content.
pub type Scan = Result<ScanState, Seq<char>>;

/// Whether the region checked in position `index` lies on its image: the verdicts given,
/// in checking order, decide; a region without a verdict counts as lying on its image.
pub open spec fn region_inside(geometry: Seq<bool>, index: int) -> bool {
    if 0 <= index < geometry.len() {
        geometry[index]
    } else {
        true
    }
}

/// A control character, as `char::is_control` tests it.
pub open spec fn is_control(c: char) -> bool {
    c <= '\u{1f}' || ('\u{7f}' <= c && c <= '\u{9f}')
}

/// `c` is `p` when ASCII letters are compared without case (`p` being lower case).
pub open spec fn ascii_matches(c: char, p: char) -> bool {
    c == p || ('A' <= c && c <= 'Z' && (c as u32) + 32 == (p as u32))
}

/// `s` starts with `prefix` when ASCII letters are compared without case.
pub open spec fn starts_ignoring_case(s: Seq<char>, prefix: Seq<char>) -> bool {
    prefix.len() <= s.len() && forall|i: int| 0 <= i < prefix.len() ==> ascii_matches(#[trigger] s[i], prefix[i])
}

/// A link the content may hold: a non-empty `https`, `http` or `mailto` address of at
/// most 2,048 bytes and without control characters (the protocol read ignoring ASCII case).
pub open spec fn safe_href(href: Seq<char>) -> bool {
    &&& href.len() > 0
    &&& vstd::utf8::encode_utf8(href).len() <= MAXIMUM_LINK_LENGTH
    &&& !(exists|i: int| 0 <= i < href.len() && is_control(#[trigger] href[i]))
    &&& (starts_ignoring_case(href, "https://"@) || starts_ignoring_case(href, "http://"@)
        || starts_ignoring_case(href, "mailto:"@))
}

/// Checks a link mark.
pub open spec fn check_link(mark: Seq<(String, JsonValue)>) -> Result<(), Seq<char>> {
    match keys_spec(mark, seq!["type"@, "attrs"@]) {
        Err(m) => Err(m),
        Ok(()) => match required_attributes_spec(mark) {
            Err(m) => Err(m),
            Ok(attrs) => match keys_spec(attrs, seq!["href"@, "target"@, "rel"@, "class"@, "title"@]) {
                Err(m) => Err(m),
                Ok(()) => match required_string_spec(attrs, "href"@) {
                    Err(m) => Err(m),
                    Ok(href) => if !safe_href(trim(href)) {
                        Err("contains an unsafe link"@)
                    } else if !short_string_ok(attrs, "target"@, 32) {
                        Err(invalid_value_message("target"@))
                    } else if !short_string_ok(attrs, "rel"@, 100) {
                        Err(invalid_value_message("rel"@))
                    } else if !short_string_ok(attrs, "class"@, 100) {
                        Err(invalid_value_message("class"@))
                    } else if !short_string_ok(attrs, "title"@, MAXIMUM_ATTRIBUTE_TEXT_LENGTH as nat) {
                        Err(invalid_value_message("title"@))
                    } else {
                        Ok(())
                    },
                },
            },
        },
    }
}

/// Checks a cloze mark on `text` and records its group.
pub open spec fn check_cloze(mark: Seq<(String, JsonValue)>, text: Seq<char>, prompt: bool, s: ScanState) -> Scan {
    if !prompt {
        Err("cannot contain cloze omissions"@)
    } else if trim(text).len() == 0 {
        Err("contains an empty cloze omission"@)
    } else {
        match keys_spec(mark, seq!["type"@, "attrs"@]) {
            Err(m) => Err(m),
            Ok(()) => match required_attributes_spec(mark) {
                Err(m) => Err(m),
                Ok(attrs) => match keys_spec(attrs, seq!["groupId"@]) {
                    Err(m) => Err(m),
                    Ok(()) => match required_string_spec(attrs, "groupId"@) {
                        Err(m) => Err(m),
                        Ok(group) => if !parses_as_uuid(group) {
                            Err("contains an invalid cloze group"@)
                        } else if s.cloze.contains(group) {
                            Ok(s)
                        } else if s.cloze.len() >= MAXIMUM_CLOZE_GROUPS {
                            Err("cannot contain more than 100 cloze groups"@)
                        } else {
                            Ok(ScanState { cloze: s.cloze.push(group), ..s })
                        },
                    },
                },
            },
        }
    }
}

/// Checks the marks `marks[..n]` of a text node, `has_cloze` telling whether one of them
/// was a cloze omission.
pub open spec fn check_marks(marks: Seq<JsonValue>, n: int, text: Seq<char>, prompt: bool, s: ScanState) -> (Scan, bool)
    decreases n,
{
    if n <= 0 {
        (Ok(s), false)
    } else {
        match check_marks(marks, n - 1, text, prompt, s) {
            (Err(m), c) => (Err(m), c),
            (Ok(s1), has_cloze) => match marks[n - 1] {
                JsonValue::Object(mark) => match required_string_spec(mark@, "type"@) {
                    Err(m) => (Err(m), has_cloze),
                    Ok(t) => if t == "bold"@ || t == "italic"@ || t == "underline"@ || t == "strike"@
                        || t == "code"@ {
                        match keys_spec(mark@, seq!["type"@]) {
                            Err(m) => (Err(m), has_cloze),
                            Ok(()) => (Ok(s1), has_cloze),
                        }
                    } else if t == "link"@ {
                        match check_link(mark@) {
                            Err(m) => (Err(m), has_cloze),
                            Ok(()) => (Ok(s1), has_cloze),
                        }
                    } else if t == "cloze"@ {
                        if has_cloze {
                            (Err("contains overlapping cloze omissions"@), has_cloze)
                        } else {
                            (check_cloze(mark@, text, prompt, s1), true)
                        }
                    } else {
                        (Err("contains an unsupported "@ + t + " mark"@), has_cloze)
                    },
                },
                _ => (Err(not_object_message()), has_cloze),
            },
        }
    }
}

/// Checks the occlusion regions `regions[..n]` of the image counted as node `image`, and
/// records their identifiers, groups and geometry.
pub open spec fn check_regions(regions: Seq<JsonValue>, n: int, image: int, s: ScanState, geometry: Seq<bool>) -> Scan
    decreases n,
{
    if n <= 0 {
        Ok(s)
    } else {
        match check_regions(regions, n - 1, image, s, geometry) {
            Err(m) => Err(m),
            Ok(s1) => check_region(regions[n - 1], image, s1, geometry),
        }
    }
}

/// Checks one occlusion region of the image counted as node `image`.
pub open spec fn check_region(region: JsonValue, image: int, s: ScanState, geometry: Seq<bool>) -> Scan {
    if s.regions.len() >= MAXIMUM_IMAGE_OCCLUSION_REGIONS {
        Err("cannot contain more than 500 image occlusion regions"@)
    } else {
        match region {
            JsonValue::Object(r) => match keys_spec(
                r@,
                seq!["id"@, "groupId"@, "x"@, "y"@, "width"@, "height"@],
            ) {
                Err(m) => Err(m),
                Ok(()) => match (required_string_spec(r@, "id"@), required_string_spec(r@, "groupId"@)) {
                    (Err(m), _) => Err(m),
                    (Ok(_), Err(m)) => Err(m),
                    (Ok(id), Ok(group)) => if !parses_as_uuid(id) || s.regions.contains(id) {
                        Err("contains an invalid or duplicate image occlusion region"@)
                    } else if !parses_as_uuid(group) {
                        Err("contains an invalid image occlusion group"@)
                    } else {
                        let s2 = ScanState { regions: s.regions.push(id), ..s };
                        let placed = match s2.groups.index_of_first(group) {
                            Some(k) => if s2.sources[k] != image {
                                Err("contains an image occlusion group shared by multiple images"@)
                            } else {
                                Ok(s2)
                            },
                            None => if s2.groups.len() >= MAXIMUM_IMAGE_OCCLUSION_GROUPS {
                                Err("cannot contain more than 100 image occlusion groups"@)
                            } else {
                                Ok(
                                    ScanState {
                                        groups: s2.groups.push(group),
                                        sources: s2.sources.push(image),
                                        ..s2
                                    },
                                )
                            },
                        };
                        match placed {
                            Err(m) => Err(m),
                            Ok(s3) => match (
                                required_number_spec(r@, "x"@),
                                required_number_spec(r@, "y"@),
                                required_number_spec(r@, "width"@),
                                required_number_spec(r@, "height"@),
                            ) {
                                (Err(m), _, _, _) => Err(m),
                                (Ok(_), Err(m), _, _) => Err(m),
                                (Ok(_), Ok(_), Err(m), _) => Err(m),
                                (Ok(_), Ok(_), Ok(_), Err(m)) => Err(m),
                                (Ok(x), Ok(y), Ok(w), Ok(h)) => {
                                    let index = s3.checked.len() as int;
                                    let s4 = ScanState {
                                        checked: s3.checked.push(
                                            RegionGeometry { x: x, y: y, width: w, height: h },
                                        ),
                                        ..s3
                                    };
                                    if region_inside(geometry, index) {
                                        Ok(s4)
                                    } else {
                                        Err("contains an image occlusion region outside its image"@)
                                    }
                                },
                            },
                        }
                    },
                },
            },
            _ => Err(not_object_message()),
        }
    }
}

/// Checks an image node and records the media it shows.
pub open spec fn check_media_image(object: Seq<(String, JsonValue)>, prompt: bool, s: ScanState, geometry: Seq<bool>) -> Scan {
    match keys_spec(object, seq!["type"@, "attrs"@]) {
        Err(m) => Err(m),
        Ok(()) => match required_attributes_spec(object) {
            Err(m) => Err(m),
            Ok(attrs) => match keys_spec(attrs, seq!["mediaId"@, "alt"@, "title"@, "occlusionRegions"@]) {
                Err(m) => Err(m),
                Ok(()) => match required_string_spec(attrs, "mediaId"@) {
                    Err(m) => Err(m),
                    Ok(media_id) => if !parses_as_uuid(media_id) {
                        Err("contains an invalid image reference"@)
                    } else if !short_string_ok(attrs, "alt"@, MAXIMUM_ATTRIBUTE_TEXT_LENGTH as nat) {
                        Err(invalid_value_message("alt"@))
                    } else if !short_string_ok(attrs, "title"@, MAXIMUM_ATTRIBUTE_TEXT_LENGTH as nat) {
                        Err(invalid_value_message("title"@))
                    } else {
                        match optional_array_spec(attrs, "occlusionRegions"@) {
                            Err(m) => Err(m),
                            Ok(regions) => {
                                let checked = if regions.len() == 0 {
                                    Ok(s)
                                } else if !prompt {
                                    Err("cannot contain image occlusion regions"@)
                                } else {
                                    check_regions(regions, regions.len() as int, s.nodes, s, geometry)
                                };
                                match checked {
                                    Err(m) => Err(m),
                                    Ok(s1) => Ok(ScanState { media: s1.media.insert(media_id), ..s1 }),
                                }
                            },
                        }
                    },
                },
            },
        },
    }
}

/// Checks an equation node.
pub open spec fn check_math(object: Seq<(String, JsonValue)>) -> Result<(), Seq<char>> {
    match keys_spec(object, seq!["type"@, "attrs"@]) {
        Err(m) => Err(m),
        Ok(()) => match required_attributes_spec(object) {
            Err(m) => Err(m),
            Ok(attrs) => match keys_spec(attrs, seq!["latex"@]) {
                Err(m) => Err(m),
                Ok(()) => match required_string_spec(attrs, "latex"@) {
                    Err(m) => Err(m),
                    Ok(latex) => if latex.len() > MAXIMUM_LATEX_LENGTH {
                        Err("contains an equation that is too long"@)
                    } else {
                        Ok(())
                    },
                },
            },
        },
    }
}

/// Checks a text node, counting its characters and checking its marks outside code.
pub open spec fn check_text(object: Seq<(String, JsonValue)>, context: NodeContext, prompt: bool, s: ScanState) -> Scan {
    let allowed = if context == NodeContext::Code {
        seq!["type"@, "text"@]
    } else {
        seq!["type"@, "text"@, "marks"@]
    };
    match keys_spec(object, allowed) {
        Err(m) => Err(m),
        Ok(()) => match required_string_spec(object, "text"@) {
            Err(m) => Err(m),
            Ok(text) => if text.len() == 0 {
                Err("contains an empty text node"@)
            } else if s.text + text.len() > MAXIMUM_DOCUMENT_TEXT {
                Err("contains too much text"@)
            } else {
                let s1 = ScanState { text: s.text + text.len(), ..s };
                if context == NodeContext::Code {
                    Ok(s1)
                } else {
                    match optional_array_spec(object, "marks"@) {
                        Err(m) => Err(m),
                        Ok(marks) => check_marks(marks, marks.len() as int, text, prompt, s1).0,
                    }
                }
            },
        },
    }
}

/// The first child of a list item is a paragraph.
pub open spec fn starts_with_paragraph(items: Seq<JsonValue>) -> bool {
    items.len() > 0 && (items[0] matches JsonValue::Object(first) && required_string_spec(
        first@,
        "type"@,
    ) == Ok::<Seq<char>, Seq<char>>("paragraph"@))
}

/// Checks the first `n` children in the array member `key` of `parent`, in `context`.
pub open spec fn check_children(
    parent: JsonValue,
    key: Seq<char>,
    n: int,
    context: NodeContext,
    prompt: bool,
    depth: int,
    s: ScanState,
    geometry: Seq<bool>,
) -> Scan
    decreases parent, 0int, n,
{
    if n <= 0 {
        Ok(s)
    } else {
        match check_children(parent, key, n - 1, context, prompt, depth, s, geometry) {
            Err(m) => Err(m),
            Ok(s1) => match parent {
                JsonValue::Object(members) => match member_index(members@, key, 0) {
                    Some(k) => if 0 <= k < members@.len() {
                        match members@[k].1 {
                            JsonValue::Array(items) => if n - 1 < items@.len() {
                                proof {
                                    assert(decreases_to!(parent => members));
                                    assert(decreases_to!(members => members@));
                                    assert(decreases_to!(members@ => members@[k]));
                                    assert(decreases_to!(members@[k] => members@[k].1));
                                    assert(decreases_to!(members@[k].1 => items));
                                    assert(decreases_to!(items => items@));
                                    assert(decreases_to!(items@ => items@[n - 1]));
                                }
                                check_node(items@[n - 1], context, prompt, depth, s1, geometry)
                            } else {
                                Ok(s1)
                            },
                            _ => Ok(s1),
                        }
                    } else {
                        Ok(s1)
                    },
                    None => Ok(s1),
                },
                _ => Ok(s1),
            },
        }
    }
}

/// Checks all children in the array member `key` of the node `v` (absent reads as none).
pub open spec fn check_all_children(
    v: JsonValue,
    items: Seq<JsonValue>,
    key: Seq<char>,
    context: NodeContext,
    prompt: bool,
    depth: int,
    s: ScanState,
    geometry: Seq<bool>,
) -> Scan
    decreases v, 1int, 0int,
{
    check_children(v, key, items.len() as int, context, prompt, depth, s, geometry)
}

/// Checks a node standing in `context` at `depth`, counting it and what it holds.
pub open spec fn check_node(
    v: JsonValue,
    context: NodeContext,
    prompt: bool,
    depth: int,
    s: ScanState,
    geometry: Seq<bool>,
) -> Scan
    decreases v, 2int, 0int,
{
    if depth > MAXIMUM_DOCUMENT_DEPTH {
        Err("is nested too deeply"@)
    } else if s.nodes + 1 > MAXIMUM_DOCUMENT_NODES {
        Err("contains too many nodes"@)
    } else {
        let s1 = ScanState { nodes: s.nodes + 1, ..s };
        match v {
            JsonValue::Object(members) => match required_string_spec(members@, "type"@) {
                Err(m) => Err(m),
                Ok(t) => if !allowed_node(t, context) {
                    Err("contains an unsupported "@ + t + " node"@)
                } else if t == "paragraph"@ {
                    match keys_spec(members@, seq!["type"@, "content"@]) {
                        Err(m) => Err(m),
                        Ok(()) => match optional_array_spec(members@, "content"@) {
                            Err(m) => Err(m),
                            Ok(items) => check_all_children(
                                v,
                                items,
                                "content"@,
                                NodeContext::Inline,
                                prompt,
                                depth + 1,
                                s1,
                                geometry,
                            ),
                        },
                    }
                } else if t == "heading"@ {
                    match keys_spec(members@, seq!["type"@, "attrs"@, "content"@]) {
                        Err(m) => Err(m),
                        Ok(()) => match required_attributes_spec(members@) {
                            Err(m) => Err(m),
                            Ok(attrs) => match keys_spec(attrs, seq!["level"@]) {
                                Err(m) => Err(m),
                                Ok(()) => match required_integer_spec(attrs, "level"@) {
                                    Err(m) => Err(m),
                                    Ok(level) => if !(1 <= level <= 3) {
                                        Err("contains an unsupported heading level"@)
                                    } else {
                                        match optional_array_spec(members@, "content"@) {
                                            Err(m) => Err(m),
                                            Ok(items) => check_all_children(
                                                v,
                                                items,
                                                "content"@,
                                                NodeContext::Inline,
                                                prompt,
                                                depth + 1,
                                                s1,
                                                geometry,
                                            ),
                                        }
                                    },
                                },
                            },
                        },
                    }
                } else if t == "blockquote"@ {
                    match keys_spec(members@, seq!["type"@, "content"@]) {
                        Err(m) => Err(m),
                        Ok(()) => match required_array_spec(members@, "content"@) {
                            Err(m) => Err(m),
                            Ok(items) => if items.len() == 0 {
                                Err("contains an empty block container"@)
                            } else {
                                check_all_children(
                                    v,
                                    items,
                                    "content"@,
                                    NodeContext::Block,
                                    prompt,
                                    depth + 1,
                                    s1,
                                    geometry,
                                )
                            },
                        },
                    }
                } else if t == "bulletList"@ || t == "orderedList"@ {
                    let ordered = t == "orderedList"@;
                    match keys_spec(members@, seq!["type"@, "attrs"@, "content"@]) {
                        Err(m) => Err(m),
                        Ok(()) => match check_list_attributes(members@, ordered) {
                            Err(m) => Err(m),
                            Ok(()) => match required_array_spec(members@, "content"@) {
                                Err(m) => Err(m),
                                Ok(items) => if items.len() == 0 {
                                    Err("contains an empty list"@)
                                } else {
                                    check_all_children(
                                        v,
                                        items,
                                        "content"@,
                                        NodeContext::ListItem,
                                        prompt,
                                        depth + 1,
                                        s1,
                                        geometry,
                                    )
                                },
                            },
                        },
                    }
                } else if t == "listItem"@ {
                    match keys_spec(members@, seq!["type"@, "content"@]) {
                        Err(m) => Err(m),
                        Ok(()) => match required_array_spec(members@, "content"@) {
                            Err(m) => Err(m),
                            Ok(items) => if !starts_with_paragraph(items) {
                                Err("contains an invalid list item"@)
                            } else {
                                check_all_children(
                                    v,
                                    items,
                                    "content"@,
                                    NodeContext::Block,
                                    prompt,
                                    depth + 1,
                                    s1,
                                    geometry,
                                )
                            },
                        },
                    }
                } else if t == "codeBlock"@ {
                    match keys_spec(members@, seq!["type"@, "attrs"@, "content"@]) {
                        Err(m) => Err(m),
                        Ok(()) => match check_code_attributes(members@) {
                            Err(m) => Err(m),
                            Ok(()) => match optional_array_spec(members@, "content"@) {
                                Err(m) => Err(m),
                                Ok(items) => check_all_children(
                                    v,
                                    items,
                                    "content"@,
                                    NodeContext::Code,
                                    prompt,
                                    depth + 1,
                                    s1,
                                    geometry,
                                ),
                            },
                        },
                    }
                } else if t == "text"@ {
                    check_text(members@, context, prompt, s1)
                } else if t == "hardBreak"@ || t == "horizontalRule"@ {
                    match keys_spec(members@, seq!["type"@]) {
                        Err(m) => Err(m),
                        Ok(()) => Ok(s1),
                    }
                } else if t == "inlineMath"@ || t == "blockMath"@ {
                    match check_math(members@) {
                        Err(m) => Err(m),
                        Ok(()) => Ok(s1),
                    }
                } else if t == "mediaImage"@ {
                    check_media_image(members@, prompt, s1, geometry)
                } else {
                    Err("contains an unsupported node"@)
                },
            },
            _ => Err(not_object_message()),
        }
    }
}

/// Checks the optional attributes of a list: an ordered list may give its start, from 1
/// to 1,000,000, and both kinds a short list type.
pub open spec fn check_list_attributes(members: Seq<(String, JsonValue)>, ordered: bool) -> Result<(), Seq<char>> {
    match optional_attributes_spec(members) {
        Err(m) => Err(m),
        Ok(None) => Ok(()),
        Ok(Some(attrs)) => match keys_spec(
            attrs,
            if ordered {
                seq!["start"@, "type"@]
            } else {
                seq!["type"@]
            },
        ) {
            Err(m) => Err(m),
            Ok(()) => {
                let start = if ordered {
                    match optional_integer_spec(attrs, "start"@) {
                        Err(m) => Err(m),
                        Ok(Some(x)) => if !(1 <= x <= 1_000_000) {
                            Err("contains an invalid list start"@)
                        } else {
                            Ok(())
                        },
                        Ok(None) => Ok(()),
                    }
                } else {
                    Ok(())
                };
                match start {
                    Err(m) => Err(m),
                    Ok(()) => if short_string_ok(attrs, "type"@, 16) {
                        Ok(())
                    } else {
                        Err(invalid_value_message("type"@))
                    },
                }
            },
        },
    }
}

/// Checks the optional attributes of a code block: at most a short language.
pub open spec fn check_code_attributes(members: Seq<(String, JsonValue)>) -> Result<(), Seq<char>> {
    match optional_attributes_spec(members) {
        Err(m) => Err(m),
        Ok(None) => Ok(()),
        Ok(Some(attrs)) => match keys_spec(attrs, seq!["language"@]) {
            Err(m) => Err(m),
            Ok(()) => if short_string_ok(attrs, "language"@, 40) {
                Ok(())
            } else {
                Err(invalid_value_message("language"@))
            },
        },
    }
}

/// Checks one document of `encoded_length` bytes: at most 1 MB, a `doc` object with
/// at least one block.
pub open spec fn check_document(
    v: JsonValue,
    encoded_length: nat,
    prompt: bool,
    s: ScanState,
    geometry: Seq<bool>,
) -> Scan {
    if encoded_length > MAXIMUM_DOCUMENT_BYTES {
        Err("is too large"@)
    } else {
        match v {
            JsonValue::Object(members) => match keys_spec(members@, seq!["type"@, "content"@]) {
                Err(m) => Err(m),
                Ok(()) => match required_string_spec(members@, "type"@) {
                    Err(m) => Err(m),
                    Ok(t) => if t != "doc"@ {
                        Err("must be a rich-text document"@)
                    } else {
                        match required_array_spec(members@, "content"@) {
                            Err(m) => Err(m),
                            Ok(items) => if items.len() == 0 {
                                Err("must contain at least one block"@)
                            } else {
                                check_children(
                                    v,
                                    "content"@,
                                    items.len() as int,
                                    NodeContext::Block,
                                    prompt,
                                    1,
                                    s,
                                    geometry,
                                )
                            },
                        }
                    },
                },
            },
            _ => Err(not_object_message()),
        }
    }
}

/// Once a mark is refused, later marks do not change the outcome.
proof fn lemma_check_marks_error_stays(marks: Seq<JsonValue>, m: int, n: int, text: Seq<char>, prompt: bool, s: ScanState)
    requires
        0 <= m <= n,
        check_marks(marks, m, text, prompt, s).0 is Err,
    ensures
        check_marks(marks, n, text, prompt, s).0 == check_marks(marks, m, text, prompt, s).0,
    decreases n - m,
{
    if n > m {
        lemma_check_marks_error_stays(marks, m, n - 1, text, prompt, s);
    }
}

/// Once a region is refused, later regions do not change the outcome.
proof fn lemma_check_regions_error_stays(regions: Seq<JsonValue>, m: int, n: int, image: int, s: ScanState, geometry: Seq<bool>)
    requires
        0 <= m <= n,
        check_regions(regions, m, image, s, geometry) is Err,
    ensures
        check_regions(regions, n, image, s, geometry) == check_regions(regions, m, image, s, geometry),
    decreases n - m,
{
    if n > m {
        lemma_check_regions_error_stays(regions, m, n - 1, image, s, geometry);
    }
}

// ----- executable validation -----

/// What validation has collected so far, in executable form.
pub struct ContentState {
    pub cloze_group_ids: Vec<String>,
    pub image_occlusion_group_ids: Vec<String>,
    pub image_occlusion_group_sources: Vec<usize>,
    pub image_occlusion_region_ids: Vec<String>,
    pub media_ids: Vec<String>,
    pub node_count: usize,
    pub text_length: usize,
    pub checked_regions: Vec<RegionGeometry>,
}

impl ContentState {
    /// What the state has collected.
    pub open spec fn scan(&self) -> ScanState {
        ScanState {
            cloze: texts(self.cloze_group_ids@),
            groups: texts(self.image_occlusion_group_ids@),
            sources: self.image_occlusion_group_sources@.map_values(|x: usize| x as int),
            regions: texts(self.image_occlusion_region_ids@),
            media: texts(self.media_ids@).to_set(),
            nodes: self.node_count as int,
            text: self.text_length as int,
            checked: self.checked_regions@,
        }
    }

    /// The media are kept as an ascending set, each occlusion group has its image, and the
    /// counts are within their limits.
    pub open spec fn well_formed(&self) -> bool {
        &&& strictly_ascending(texts(self.media_ids@))
        &&& self.image_occlusion_group_sources@.len() == self.image_occlusion_group_ids@.len()
        &&& self.node_count <= MAXIMUM_DOCUMENT_NODES
        &&& self.text_length <= MAXIMUM_DOCUMENT_TEXT
    }

    /// Nothing collected.
    pub fn new() -> (r: Self)
        ensures
            r.scan() == empty_scan(),
            r.well_formed(),
    {
        let r = ContentState {
            cloze_group_ids: Vec::new(),
            image_occlusion_group_ids: Vec::new(),
            image_occlusion_group_sources: Vec::new(),
            image_occlusion_region_ids: Vec::new(),
            media_ids: Vec::new(),
            node_count: 0,
            text_length: 0,
            checked_regions: Vec::new(),
        };
        assert(r.scan().cloze =~= Seq::<Seq<char>>::empty());
        assert(r.scan().groups =~= Seq::<Seq<char>>::empty());
        assert(r.scan().sources =~= Seq::<int>::empty());
        assert(r.scan().regions =~= Seq::<Seq<char>>::empty());
        assert(r.scan().media =~= Set::<Seq<char>>::empty());
        r
    }
}

/// The executable result `r` and final state `after` agree with the checked result.
pub open spec fn scan_outcome(checked: Scan, r: Result<(), String>, after: ContentState) -> bool {
    match checked {
        Ok(s2) => r is Ok && after.scan() == s2 && after.well_formed(),
        Err(m) => r matches Err(x) && x@ == m,
    }
}

/// The executable result `r` agrees with the checked result.
pub open spec fn check_outcome(checked: Result<(), Seq<char>>, r: Result<(), String>) -> bool {
    match checked {
        Ok(()) => r is Ok,
        Err(m) => r matches Err(x) && x@ == m,
    }
}

/// A list of allowed keys.
fn keys(list: Vec<&'static str>) -> (r: Vec<&'static str>)
    ensures
        r@ == list@,
{
    list
}

/// Whether some character is a control character.
fn has_control(chars: &Vec<char>) -> (r: bool)
    ensures
        r == exists|i: int| 0 <= i < chars@.len() && is_control(#[trigger] chars@[i]),
{
    let mut i: usize = 0;
    while i < chars.len()
        invariant
            i <= chars.len(),
            forall|j: int| 0 <= j < i ==> !is_control(#[trigger] chars@[j]),
        decreases chars.len() - i,
    {
        let c = chars[i];
        if c <= '\u{1f}' || ('\u{7f}' <= c && c <= '\u{9f}') {
            return true;
        }
        i = i + 1;
    }
    false
}

/// Whether the characters start with `prefix`, ASCII letters compared without case.
fn starts_with_ignoring_case(chars: &Vec<char>, prefix: &str) -> (r: bool)
    ensures
        r == starts_ignoring_case(chars@, prefix@),
{
    let p = chars_of(prefix);
    if p.len() > chars.len() {
        return false;
    }
    let mut i: usize = 0;
    while i < p.len()
        invariant
            p@ == prefix@,
            p.len() <= chars.len(),
            i <= p.len(),
            forall|j: int| 0 <= j < i ==> ascii_matches(#[trigger] chars@[j], p@[j]),
        decreases p.len() - i,
    {
        let c = chars[i];
        let q = p[i];
        if !(c == q || ('A' <= c && c <= 'Z' && (c as u32) + 32 == q as u32)) {
            return false;
        }
        i = i + 1;
    }
    true
}

/// Checks a link mark (see [`check_link`]).
fn check_link_exec(mark: &Vec<(String, JsonValue)>) -> (r: Result<(), String>)
    ensures
        check_outcome(check_link(mark@), r),
{
    let k1 = keys(vec!["type", "attrs"]);
    assert(key_texts(k1@) =~= seq!["type"@, "attrs"@]);
    match ensure_keys(mark, &k1) {
        Err(m) => {
            return Err(m);
        },
        Ok(()) => {},
    }
    let attrs = match required_attributes(mark) {
        Err(m) => {
            return Err(m);
        },
        Ok(a) => a,
    };
    let k2 = keys(vec!["href", "target", "rel", "class", "title"]);
    assert(key_texts(k2@) =~= seq!["href"@, "target"@, "rel"@, "class"@, "title"@]);
    match ensure_keys(attrs, &k2) {
        Err(m) => {
            return Err(m);
        },
        Ok(()) => {},
    }
    let href = match required_string(attrs, "href") {
        Err(m) => {
            return Err(m);
        },
        Ok(h) => h,
    };
    let href = trimmed(href.as_str());
    let chars = chars_of(href.as_str());
    let size = href.as_str().as_bytes().len();
    if chars.len() == 0 || size > MAXIMUM_LINK_LENGTH || has_control(&chars) || !(
    starts_with_ignoring_case(&chars, "https://") || starts_with_ignoring_case(&chars, "http://")
        || starts_with_ignoring_case(&chars, "mailto:")) {
        return Err("contains an unsafe link".to_owned());
    }
    match validate_optional_short_string(attrs, "target", 32) {
        Err(m) => {
            return Err(m);
        },
        Ok(()) => {},
    }
    match validate_optional_short_string(attrs, "rel", 100) {
        Err(m) => {
            return Err(m);
        },
        Ok(()) => {},
    }
    match validate_optional_short_string(attrs, "class", 100) {
        Err(m) => {
            return Err(m);
        },
        Ok(()) => {},
    }
    match validate_optional_short_string(attrs, "title", MAXIMUM_ATTRIBUTE_TEXT_LENGTH) {
        Err(m) => {
            return Err(m);
        },
        Ok(()) => {},
    }
    Ok(())
}

/// The index of an entry of `list` equal to `text`, the first one.
fn first_position(list: &Vec<String>, text: &String) -> (r: Option<usize>)
    ensures
        r matches Some(k) ==> k < list.len() && texts(list@).index_of_first(text@) == Some(k as int),
        r is None ==> texts(list@).index_of_first(text@) is None,
{
    proof {
        texts(list@).index_of_first_ensures(text@);
    }
    let mut j: usize = 0;
    while j < list.len()
        invariant
            j <= list.len(),
            forall|k: int| 0 <= k < j ==> list@[k]@ != text@,
        decreases list.len() - j,
    {
        if list[j] == *text {
            proof {
                texts(list@).index_of_first_ensures(text@);
                assert(texts(list@)[j as int] == text@);
                assert(texts(list@).contains(text@));
                let f = texts(list@).index_of_first(text@)->Some_0;
                assert(f >= j) by {
                    if f < j {
                        assert(texts(list@)[f] == list@[f]@);
                    }
                }
                assert(f <= j);
            }
            return Some(j);
        }
        j = j + 1;
    }
    proof {
        texts(list@).index_of_first_ensures(text@);
        if texts(list@).contains(text@) {
            let k = choose|k: int| 0 <= k < texts(list@).len() && texts(list@)[k] == text@;
            assert(list@[k]@ == text@);
        }
    }
    None
}

/// Checks a cloze mark and records its group (see [`check_cloze`]).
fn check_cloze_exec(mark: &Vec<(String, JsonValue)>, text: &String, prompt: bool, state: &mut ContentState) -> (r: Result<(), String>)
    requires
        old(state).well_formed(),
    ensures
        scan_outcome(check_cloze(mark@, text@, prompt, old(state).scan()), r, *final(state)),
{
    if !prompt {
        return Err("cannot contain cloze omissions".to_owned());
    }
    let t = trimmed(text.as_str());
    if t.unicode_len() == 0 {
        return Err("contains an empty cloze omission".to_owned());
    }
    let k1 = keys(vec!["type", "attrs"]);
    assert(key_texts(k1@) =~= seq!["type"@, "attrs"@]);
    match ensure_keys(mark, &k1) {
        Err(m) => {
            return Err(m);
        },
        Ok(()) => {},
    }
    let attrs = match required_attributes(mark) {
        Err(m) => {
            return Err(m);
        },
        Ok(a) => a,
    };
    let k2 = keys(vec!["groupId"]);
    assert(key_texts(k2@) =~= seq!["groupId"@]);
    match ensure_keys(attrs, &k2) {
        Err(m) => {
            return Err(m);
        },
        Ok(()) => {},
    }
    let group = match required_string(attrs, "groupId") {
        Err(m) => {
            return Err(m);
        },
        Ok(g) => g,
    };
    if !is_uuid(group.as_str()) {
        return Err("contains an invalid cloze group".to_owned());
    }
    if crate::text::has_text(&state.cloze_group_ids, group) {
        proof {
            let k = choose|k: int| 0 <= k < state.cloze_group_ids@.len() && state.cloze_group_ids@[k]@ == group@;
            assert(texts(state.cloze_group_ids@)[k] == group@);
        }
        return Ok(());
    }
    proof {
        assert(!texts(state.cloze_group_ids@).contains(group@)) by {
            if texts(state.cloze_group_ids@).contains(group@) {
                let k = choose|k: int| 0 <= k < texts(state.cloze_group_ids@).len() && texts(state.cloze_group_ids@)[k] == group@;
                assert(state.cloze_group_ids@[k]@ == group@);
            }
        }
    }
    if state.cloze_group_ids.len() >= MAXIMUM_CLOZE_GROUPS {
        return Err("cannot contain more than 100 cloze groups".to_owned());
    }
    let ghost before = texts(state.cloze_group_ids@);
    state.cloze_group_ids.push(group.clone());
    assert(texts(state.cloze_group_ids@) =~= before.push(group@));
    Ok(())
}

/// Checks the marks of a text node (see [`check_marks`]).
fn check_marks_exec(marks: &Vec<JsonValue>, text: &String, prompt: bool, state: &mut ContentState) -> (r: Result<(), String>)
    requires
        old(state).well_formed(),
    ensures
        scan_outcome(check_marks(marks@, marks.len() as int, text@, prompt, old(state).scan()).0, r, *final(state)),
{
    let ghost s0 = state.scan();
    let mut has_cloze = false;
    let mut i: usize = 0;
    while i < marks.len()
        invariant
            i <= marks.len(),
            s0 == old(state).scan(),
            state.well_formed(),
            check_marks(marks@, i as int, text@, prompt, s0) == (Ok::<ScanState, Seq<char>>(state.scan()), has_cloze),
        decreases marks.len() - i,
    {
        let mark = match &marks[i] {
            JsonValue::Object(m) => m,
            _ => {
                proof {
                    assert(check_marks(marks@, i as int, text@, prompt, s0).0 is Ok);
                    assert(!(marks@[i as int] is Object));
                    assert(check_marks(marks@, i + 1, text@, prompt, s0).0 == Err::<ScanState, Seq<char>>(not_object_message()));
                    lemma_check_marks_error_stays(marks@, i + 1, marks.len() as int, text@, prompt, s0);
                }
                return Err("contains a value that is not an object".to_owned());
            },
        };
        let t = match required_string(mark, "type") {
            Err(m) => {
                proof {
                    lemma_check_marks_error_stays(marks@, i + 1, marks.len() as int, text@, prompt, s0);
                }
                return Err(m);
            },
            Ok(t) => t,
        };
        if str_equals(t.as_str(), "bold") || str_equals(t.as_str(), "italic") || str_equals(t.as_str(), "underline")
            || str_equals(t.as_str(), "strike") || str_equals(t.as_str(), "code") {
            let k = keys(vec!["type"]);
            assert(key_texts(k@) =~= seq!["type"@]);
            match ensure_keys(mark, &k) {
                Err(m) => {
                    proof {
                        lemma_check_marks_error_stays(marks@, i + 1, marks.len() as int, text@, prompt, s0);
                    }
                    return Err(m);
                },
                Ok(()) => {},
            }
        } else if str_equals(t.as_str(), "link") {
            match check_link_exec(mark) {
                Err(m) => {
                    proof {
                        lemma_check_marks_error_stays(marks@, i + 1, marks.len() as int, text@, prompt, s0);
                    }
                    return Err(m);
                },
                Ok(()) => {},
            }
        } else if str_equals(t.as_str(), "cloze") {
            if has_cloze {
                proof {
                    lemma_check_marks_error_stays(marks@, i + 1, marks.len() as int, text@, prompt, s0);
                }
                return Err("contains overlapping cloze omissions".to_owned());
            }
            match check_cloze_exec(mark, text, prompt, state) {
                Err(m) => {
                    proof {
                        lemma_check_marks_error_stays(marks@, i + 1, marks.len() as int, text@, prompt, s0);
                    }
                    return Err(m);
                },
                Ok(()) => {},
            }
            has_cloze = true;
        } else {
            proof {
                lemma_check_marks_error_stays(marks@, i + 1, marks.len() as int, text@, prompt, s0);
            }
            let start = concat("contains an unsupported ", t.as_str());
            return Err(concat(start.as_str(), " mark"));
        }
        i = i + 1;
    }
    Ok(())
}

/// Checks one occlusion region of the image counted as node `image` (see
/// [`check_region`]).
fn check_region_exec(region: &JsonValue, image: usize, state: &mut ContentState, geometry: &Vec<bool>) -> (r: Result<(), String>)
    requires
        old(state).well_formed(),
    ensures
        scan_outcome(check_region(*region, image as int, old(state).scan(), geometry@), r, *final(state)),
{
    if state.image_occlusion_region_ids.len() >= MAXIMUM_IMAGE_OCCLUSION_REGIONS {
        return Err("cannot contain more than 500 image occlusion regions".to_owned());
    }
    let r = match region {
        JsonValue::Object(r) => r,
        _ => {
            return Err("contains a value that is not an object".to_owned());
        },
    };
    let k = keys(vec!["id", "groupId", "x", "y", "width", "height"]);
    assert(key_texts(k@) =~= seq!["id"@, "groupId"@, "x"@, "y"@, "width"@, "height"@]);
    match ensure_keys(r, &k) {
        Err(m) => {
            return Err(m);
        },
        Ok(()) => {},
    }
    let id = match required_string(r, "id") {
        Err(m) => {
            return Err(m);
        },
        Ok(x) => x,
    };
    let group = match required_string(r, "groupId") {
        Err(m) => {
            return Err(m);
        },
        Ok(x) => x,
    };
    if !is_uuid(id.as_str()) || crate::text::has_text(&state.image_occlusion_region_ids, id) {
        proof {
            if crate::text::lists_text(state.image_occlusion_region_ids@, id@) {
                let j = choose|j: int| 0 <= j < state.image_occlusion_region_ids@.len() && state.image_occlusion_region_ids@[j]@ == id@;
                assert(texts(state.image_occlusion_region_ids@)[j] == id@);
            }
        }
        return Err("contains an invalid or duplicate image occlusion region".to_owned());
    }
    proof {
        assert(!texts(state.image_occlusion_region_ids@).contains(id@)) by {
            if texts(state.image_occlusion_region_ids@).contains(id@) {
                let j = choose|j: int| 0 <= j < texts(state.image_occlusion_region_ids@).len() && texts(state.image_occlusion_region_ids@)[j] == id@;
                assert(state.image_occlusion_region_ids@[j]@ == id@);
            }
        }
    }
    if !is_uuid(group.as_str()) {
        return Err("contains an invalid image occlusion group".to_owned());
    }
    let ghost regions_before = texts(state.image_occlusion_region_ids@);
    state.image_occlusion_region_ids.push(id.clone());
    assert(texts(state.image_occlusion_region_ids@) =~= regions_before.push(id@));
    match first_position(&state.image_occlusion_group_ids, group) {
        Some(j) => {
            assert(state.scan().sources[j as int] == state.image_occlusion_group_sources@[j as int] as int);
            if state.image_occlusion_group_sources[j] != image {
                return Err("contains an image occlusion group shared by multiple images".to_owned());
            }
        },
        None => {
            if state.image_occlusion_group_ids.len() >= MAXIMUM_IMAGE_OCCLUSION_GROUPS {
                return Err("cannot contain more than 100 image occlusion groups".to_owned());
            }
            let ghost groups_before = texts(state.image_occlusion_group_ids@);
            let ghost sources_before = state.image_occlusion_group_sources@;
            state.image_occlusion_group_ids.push(group.clone());
            state.image_occlusion_group_sources.push(image);
            assert(texts(state.image_occlusion_group_ids@) =~= groups_before.push(group@));
            assert(state.image_occlusion_group_sources@.map_values(|x: usize| x as int)
                =~= sources_before.map_values(|x: usize| x as int).push(image as int));
        },
    }
    let x = match required_number(r, "x") {
        Err(m) => {
            return Err(m);
        },
        Ok(v) => v,
    };
    let y = match required_number(r, "y") {
        Err(m) => {
            return Err(m);
        },
        Ok(v) => v,
    };
    let width = match required_number(r, "width") {
        Err(m) => {
            return Err(m);
        },
        Ok(v) => v,
    };
    let height = match required_number(r, "height") {
        Err(m) => {
            return Err(m);
        },
        Ok(v) => v,
    };
    let index = state.checked_regions.len();
    state.checked_regions.push(RegionGeometry { x, y, width, height });
    let inside = if index < geometry.len() {
        geometry[index]
    } else {
        true
    };
    if !inside {
        return Err("contains an image occlusion region outside its image".to_owned());
    }
    Ok(())
}

/// Checks an image node and records its media (see [`check_media_image`]).
#[verifier::loop_isolation(false)]
fn check_media_image_exec(
    object: &Vec<(String, JsonValue)>,
    prompt: bool,
    state: &mut ContentState,
    geometry: &Vec<bool>,
) -> (r: Result<(), String>)
    requires
        old(state).well_formed(),
    ensures
        scan_outcome(check_media_image(object@, prompt, old(state).scan(), geometry@), r, *final(state)),
{
    let k1 = keys(vec!["type", "attrs"]);
    assert(key_texts(k1@) =~= seq!["type"@, "attrs"@]);
    match ensure_keys(object, &k1) {
        Err(m) => {
            return Err(m);
        },
        Ok(()) => {},
    }
    let attrs = match required_attributes(object) {
        Err(m) => {
            return Err(m);
        },
        Ok(a) => a,
    };
    let k2 = keys(vec!["mediaId", "alt", "title", "occlusionRegions"]);
    assert(key_texts(k2@) =~= seq!["mediaId"@, "alt"@, "title"@, "occlusionRegions"@]);
    match ensure_keys(attrs, &k2) {
        Err(m) => {
            return Err(m);
        },
        Ok(()) => {},
    }
    let media_id = match required_string(attrs, "mediaId") {
        Err(m) => {
            return Err(m);
        },
        Ok(x) => x,
    };
    if !is_uuid(media_id.as_str()) {
        return Err("contains an invalid image reference".to_owned());
    }
    match validate_optional_short_string(attrs, "alt", MAXIMUM_ATTRIBUTE_TEXT_LENGTH) {
        Err(m) => {
            return Err(m);
        },
        Ok(()) => {},
    }
    match validate_optional_short_string(attrs, "title", MAXIMUM_ATTRIBUTE_TEXT_LENGTH) {
        Err(m) => {
            return Err(m);
        },
        Ok(()) => {},
    }
    let ghost s0 = state.scan();
    match find_member(attrs, "occlusionRegions") {
        None => {},
        Some(k) => match &attrs[k].1 {
            JsonValue::Array(regions) => {
                if regions.len() > 0 {
                    if !prompt {
                        return Err("cannot contain image occlusion regions".to_owned());
                    }
                    let image = state.node_count;
                    let mut i: usize = 0;
                    while i < regions.len()
                        invariant
                            i <= regions.len(),
                            image as int == s0.nodes,
                            s0 == old(state).scan(),
                            state.well_formed(),
                            check_regions(regions@, i as int, s0.nodes, s0, geometry@) == Ok::<ScanState, Seq<char>>(state.scan()),
                        decreases regions.len() - i,
                    {
                        match check_region_exec(&regions[i], image, state, geometry) {
                            Err(m) => {
                                proof {
                                    lemma_check_regions_error_stays(regions@, i + 1, regions.len() as int, s0.nodes, s0, geometry@);
                                }
                                return Err(m);
                            },
                            Ok(()) => {},
                        }
                        i = i + 1;
                    }
                }
            },
            _ => {
                return Err(invalid_value("occlusionRegions"));
            },
        },
    }
    let ghost media_before = texts(state.media_ids@);
    insert_text(&mut state.media_ids, media_id.clone());
    Ok(())
}

/// Checks an equation node (see [`check_math`]).
fn check_math_exec(object: &Vec<(String, JsonValue)>) -> (r: Result<(), String>)
    ensures
        check_outcome(check_math(object@), r),
{
    let k1 = keys(vec!["type", "attrs"]);
    assert(key_texts(k1@) =~= seq!["type"@, "attrs"@]);
    match ensure_keys(object, &k1) {
        Err(m) => {
            return Err(m);
        },
        Ok(()) => {},
    }
    let attrs = match required_attributes(object) {
        Err(m) => {
            return Err(m);
        },
        Ok(a) => a,
    };
    let k2 = keys(vec!["latex"]);
    assert(key_texts(k2@) =~= seq!["latex"@]);
    match ensure_keys(attrs, &k2) {
        Err(m) => {
            return Err(m);
        },
        Ok(()) => {},
    }
    let latex = match required_string(attrs, "latex") {
        Err(m) => {
            return Err(m);
        },
        Ok(x) => x,
    };
    if latex.unicode_len() > MAXIMUM_LATEX_LENGTH {
        return Err("contains an equation that is too long".to_owned());
    }
    Ok(())
}

/// Checks a text node (see [`check_text`]).
fn check_text_exec(object: &Vec<(String, JsonValue)>, context: NodeContext, prompt: bool, state: &mut ContentState) -> (r: Result<(), String>)
    requires
        old(state).well_formed(),
    ensures
        scan_outcome(check_text(object@, context, prompt, old(state).scan()), r, *final(state)),
{
    let allowed = if context == NodeContext::Code {
        keys(vec!["type", "text"])
    } else {
        keys(vec!["type", "text", "marks"])
    };
    assert(key_texts(allowed@) =~= if context == NodeContext::Code {
        seq!["type"@, "text"@]
    } else {
        seq!["type"@, "text"@, "marks"@]
    });
    match ensure_keys(object, &allowed) {
        Err(m) => {
            return Err(m);
        },
        Ok(()) => {},
    }
    let text = match required_string(object, "text") {
        Err(m) => {
            return Err(m);
        },
        Ok(x) => x,
    };
    let count = text.unicode_len();
    if count == 0 {
        return Err("contains an empty text node".to_owned());
    }
    if count > MAXIMUM_DOCUMENT_TEXT - state.text_length {
        return Err("contains too much text".to_owned());
    }
    state.text_length = state.text_length + count;
    if context == NodeContext::Code {
        return Ok(());
    }
    match find_member(object, "marks") {
        None => Ok(()),
        Some(k) => match &object[k].1 {
            JsonValue::Array(marks) => check_marks_exec(marks, text, prompt, state),
            _ => Err(invalid_value("marks")),
        },
    }
}

/// Checks the optional attributes of a list (see [`check_list_attributes`]).
fn check_list_attributes_exec(members: &Vec<(String, JsonValue)>, ordered: bool) -> (r: Result<(), String>)
    ensures
        check_outcome(check_list_attributes(members@, ordered), r),
{
    let attrs = match optional_attributes(members) {
        Err(m) => {
            return Err(m);
        },
        Ok(None) => {
            return Ok(());
        },
        Ok(Some(a)) => a,
    };
    let allowed = if ordered {
        keys(vec!["start", "type"])
    } else {
        keys(vec!["type"])
    };
    assert(key_texts(allowed@) =~= if ordered {
        seq!["start"@, "type"@]
    } else {
        seq!["type"@]
    });
    match ensure_keys(attrs, &allowed) {
        Err(m) => {
            return Err(m);
        },
        Ok(()) => {},
    }
    if ordered {
        match optional_integer(attrs, "start") {
            Err(m) => {
                return Err(m);
            },
            Ok(Some(x)) => {
                if x < 1 || x > 1_000_000 {
                    return Err("contains an invalid list start".to_owned());
                }
            },
            Ok(None) => {},
        }
    }
    validate_optional_short_string(attrs, "type", 16)
}

/// Checks the optional attributes of a code block (see [`check_code_attributes`]).
fn check_code_attributes_exec(members: &Vec<(String, JsonValue)>) -> (r: Result<(), String>)
    ensures
        check_outcome(check_code_attributes(members@), r),
{
    let attrs = match optional_attributes(members) {
        Err(m) => {
            return Err(m);
        },
        Ok(None) => {
            return Ok(());
        },
        Ok(Some(a)) => a,
    };
    let k = keys(vec!["language"]);
    assert(key_texts(k@) =~= seq!["language"@]);
    match ensure_keys(attrs, &k) {
        Err(m) => {
            return Err(m);
        },
        Ok(()) => {},
    }
    validate_optional_short_string(attrs, "language", 40)
}

/// The children of `parent` under `key` are `items`.
pub open spec fn children_at(parent: JsonValue, key: Seq<char>, items: Seq<JsonValue>) -> bool {
    &&& parent is Object
    &&& member_index(parent->Object_0@, key, 0) is Some
    &&& 0 <= member_index(parent->Object_0@, key, 0)->Some_0 < parent->Object_0@.len()
    &&& parent->Object_0@[member_index(parent->Object_0@, key, 0)->Some_0].1 is Array
    &&& parent->Object_0@[member_index(parent->Object_0@, key, 0)->Some_0].1->Array_0@ == items
}

/// Checks the children `items` of `parent` under `key` (see [`check_children`]).
fn validate_children(
    parent: &JsonValue,
    key: &str,
    items: &Vec<JsonValue>,
    context: NodeContext,
    prompt: bool,
    depth: usize,
    state: &mut ContentState,
    geometry: &Vec<bool>,
) -> (r: Result<(), String>)
    requires
        old(state).well_formed(),
        children_at(*parent, key@, items@),
        depth <= MAXIMUM_DOCUMENT_DEPTH + 1,
    ensures
        scan_outcome(
            check_children(*parent, key@, items.len() as int, context, prompt, depth as int, old(state).scan(), geometry@),
            r,
            *final(state),
        ),
    decreases *parent, 0int, 0int,
{
    let ghost s0 = state.scan();
    let mut i: usize = 0;
    while i < items.len()
        invariant
            i <= items.len(),
            s0 == old(state).scan(),
            children_at(*parent, key@, items@),
            depth <= MAXIMUM_DOCUMENT_DEPTH + 1,
            state.well_formed(),
            check_children(*parent, key@, i as int, context, prompt, depth as int, s0, geometry@)
                == Ok::<ScanState, Seq<char>>(state.scan()),
        decreases items.len() - i,
    {
        proof {
            let members = parent->Object_0;
            let k = member_index(members@, key@, 0)->Some_0;
            let a = members@[k].1->Array_0;
            assert(decreases_to!(*parent => members));
            assert(decreases_to!(members => members@));
            assert(decreases_to!(members@ => members@[k]));
            assert(decreases_to!(members@[k] => members@[k].1));
            assert(decreases_to!(members@[k].1 => a));
            assert(decreases_to!(a => a@));
            assert(decreases_to!(a@ => a@[i as int]));
            assert(a@[i as int] == items@[i as int]);
        }
        match validate_node(&items[i], context, prompt, depth, state, geometry) {
            Err(m) => {
                proof {
                    lemma_check_children_error_stays(*parent, key@, i + 1, items.len() as int, context, prompt, depth as int, s0, geometry@);
                }
                return Err(m);
            },
            Ok(()) => {},
        }
        i = i + 1;
    }
    Ok(())
}

/// Once a child is refused, later children do not change the outcome.
proof fn lemma_check_children_error_stays(
    parent: JsonValue,
    key: Seq<char>,
    m: int,
    n: int,
    context: NodeContext,
    prompt: bool,
    depth: int,
    s: ScanState,
    geometry: Seq<bool>,
)
    requires
        0 <= m <= n,
        check_children(parent, key, m, context, prompt, depth, s, geometry) is Err,
    ensures
        check_children(parent, key, n, context, prompt, depth, s, geometry) == check_children(
            parent,
            key,
            m,
            context,
            prompt,
            depth,
            s,
            geometry,
        ),
    decreases n - m,
{
    if n > m {
        lemma_check_children_error_stays(parent, key, m, n - 1, context, prompt, depth, s, geometry);
    }
}

/// Checks the children of `node` in the array member `key`, absent reading as none, or
/// refuses a member that is not an array when `required` is unset.
fn validate_optional_children(
    node: &JsonValue,
    members: &Vec<(String, JsonValue)>,
    key: &str,
    context: NodeContext,
    prompt: bool,
    depth: usize,
    state: &mut ContentState,
    geometry: &Vec<bool>,
) -> (r: Result<(), String>)
    requires
        old(state).well_formed(),
        *node == JsonValue::Object(*members),
        depth <= MAXIMUM_DOCUMENT_DEPTH + 1,
    ensures
        match optional_array_spec(members@, key@) {
            Err(m) => r matches Err(x) && x@ == m,
            Ok(items) => scan_outcome(
                check_all_children(*node, items, key@, context, prompt, depth as int, old(state).scan(), geometry@),
                r,
                *final(state),
            ),
        },
    decreases *node, 1int, 0int,
{
    match find_member(members, key) {
        None => Ok(()),
        Some(k) => match &members[k].1 {
            JsonValue::Array(items) => validate_children(node, key, items, context, prompt, depth, state, geometry),
            _ => Err(invalid_value(key)),
        },
    }
}

/// The array member `key`, or the message that refuses it.
fn required_array<'a>(members: &'a Vec<(String, JsonValue)>, key: &str) -> (r: Result<&'a Vec<JsonValue>, String>)
    ensures
        match r {
            Ok(items) => required_array_spec(members@, key@) == Ok::<Seq<JsonValue>, Seq<char>>(items@)
                && (exists|k: int| member_index(members@, key@, 0) == Some(k) && 0 <= k < members@.len()
                && members@[k].1 == JsonValue::Array(*items)),
            Err(m) => required_array_spec(members@, key@) == Err::<Seq<JsonValue>, Seq<char>>(m@),
        },
{
    match find_member(members, key) {
        None => Err(invalid_value(key)),
        Some(k) => match &members[k].1 {
            JsonValue::Array(items) => Ok(items),
            _ => Err(invalid_value(key)),
        },
    }
}

/// Checks a node (see [`check_node`]).
fn validate_node(
    node: &JsonValue,
    context: NodeContext,
    prompt: bool,
    depth: usize,
    state: &mut ContentState,
    geometry: &Vec<bool>,
) -> (r: Result<(), String>)
    requires
        old(state).well_formed(),
        depth <= MAXIMUM_DOCUMENT_DEPTH + 1,
    ensures
        scan_outcome(check_node(*node, context, prompt, depth as int, old(state).scan(), geometry@), r, *final(state)),
    decreases *node, 2int, 0int,
{
    if depth > MAXIMUM_DOCUMENT_DEPTH {
        return Err("is nested too deeply".to_owned());
    }
    if state.node_count + 1 > MAXIMUM_DOCUMENT_NODES {
        return Err("contains too many nodes".to_owned());
    }
    state.node_count = state.node_count + 1;
    let members = match node {
        JsonValue::Object(m) => m,
        _ => {
            return Err("contains a value that is not an object".to_owned());
        },
    };
    let t = match required_string(members, "type") {
        Err(m) => {
            return Err(m);
        },
        Ok(t) => t,
    };
    let t = t.as_str();
    if !node_is_allowed(t, context) {
        let start = concat("contains an unsupported ", t);
        return Err(concat(start.as_str(), " node"));
    }
    if str_equals(t, "paragraph") {
        let k = keys(vec!["type", "content"]);
        assert(key_texts(k@) =~= seq!["type"@, "content"@]);
        match ensure_keys(members, &k) {
            Err(m) => {
                return Err(m);
            },
            Ok(()) => {},
        }
        validate_optional_children(node, members, "content", NodeContext::Inline, prompt, depth + 1, state, geometry)
    } else if str_equals(t, "heading") {
        let k = keys(vec!["type", "attrs", "content"]);
        assert(key_texts(k@) =~= seq!["type"@, "attrs"@, "content"@]);
        match ensure_keys(members, &k) {
            Err(m) => {
                return Err(m);
            },
            Ok(()) => {},
        }
        let attrs = match required_attributes(members) {
            Err(m) => {
                return Err(m);
            },
            Ok(a) => a,
        };
        let k2 = keys(vec!["level"]);
        assert(key_texts(k2@) =~= seq!["level"@]);
        match ensure_keys(attrs, &k2) {
            Err(m) => {
                return Err(m);
            },
            Ok(()) => {},
        }
        let level = match required_integer(attrs, "level") {
            Err(m) => {
                return Err(m);
            },
            Ok(l) => l,
        };
        if level < 1 || level > 3 {
            return Err("contains an unsupported heading level".to_owned());
        }
        validate_optional_children(node, members, "content", NodeContext::Inline, prompt, depth + 1, state, geometry)
    } else if str_equals(t, "blockquote") {
        let k = keys(vec!["type", "content"]);
        assert(key_texts(k@) =~= seq!["type"@, "content"@]);
        match ensure_keys(members, &k) {
            Err(m) => {
                return Err(m);
            },
            Ok(()) => {},
        }
        let items = match required_array(members, "content") {
            Err(m) => {
                return Err(m);
            },
            Ok(items) => items,
        };
        if items.len() == 0 {
            return Err("contains an empty block container".to_owned());
        }
        validate_children(node, "content", items, NodeContext::Block, prompt, depth + 1, state, geometry)
    } else if str_equals(t, "bulletList") || str_equals(t, "orderedList") {
        let ordered = str_equals(t, "orderedList");
        let k = keys(vec!["type", "attrs", "content"]);
        assert(key_texts(k@) =~= seq!["type"@, "attrs"@, "content"@]);
        match ensure_keys(members, &k) {
            Err(m) => {
                return Err(m);
            },
            Ok(()) => {},
        }
        match check_list_attributes_exec(members, ordered) {
            Err(m) => {
                return Err(m);
            },
            Ok(()) => {},
        }
        let items = match required_array(members, "content") {
            Err(m) => {
                return Err(m);
            },
            Ok(items) => items,
        };
        if items.len() == 0 {
            return Err("contains an empty list".to_owned());
        }
        validate_children(node, "content", items, NodeContext::ListItem, prompt, depth + 1, state, geometry)
    } else if str_equals(t, "listItem") {
        let k = keys(vec!["type", "content"]);
        assert(key_texts(k@) =~= seq!["type"@, "content"@]);
        match ensure_keys(members, &k) {
            Err(m) => {
                return Err(m);
            },
            Ok(()) => {},
        }
        let items = match required_array(members, "content") {
            Err(m) => {
                return Err(m);
            },
            Ok(items) => items,
        };
        let first_is_paragraph = items.len() > 0 && match &items[0] {
            JsonValue::Object(first) => match required_string(first, "type") {
                Ok(ft) => str_equals(ft.as_str(), "paragraph"),
                Err(_) => false,
            },
            _ => false,
        };
        if !first_is_paragraph {
            return Err("contains an invalid list item".to_owned());
        }
        validate_children(node, "content", items, NodeContext::Block, prompt, depth + 1, state, geometry)
    } else if str_equals(t, "codeBlock") {
        let k = keys(vec!["type", "attrs", "content"]);
        assert(key_texts(k@) =~= seq!["type"@, "attrs"@, "content"@]);
        match ensure_keys(members, &k) {
            Err(m) => {
                return Err(m);
            },
            Ok(()) => {},
        }
        match check_code_attributes_exec(members) {
            Err(m) => {
                return Err(m);
            },
            Ok(()) => {},
        }
        validate_optional_children(node, members, "content", NodeContext::Code, prompt, depth + 1, state, geometry)
    } else if str_equals(t, "text") {
        check_text_exec(members, context, prompt, state)
    } else if str_equals(t, "hardBreak") || str_equals(t, "horizontalRule") {
        let k = keys(vec!["type"]);
        assert(key_texts(k@) =~= seq!["type"@]);
        ensure_keys(members, &k)
    } else if str_equals(t, "inlineMath") || str_equals(t, "blockMath") {
        check_math_exec(members)
    } else if str_equals(t, "mediaImage") {
        check_media_image_exec(members, prompt, state, geometry)
    } else {
        Err("contains an unsupported node".to_owned())
    }
}

/// Checks one document (see [`check_document`]).
fn validate_document(
    document: &JsonValue,
    encoded_length: usize,
    prompt: bool,
    state: &mut ContentState,
    geometry: &Vec<bool>,
) -> (r: Result<(), String>)
    requires
        old(state).well_formed(),
    ensures
        scan_outcome(check_document(*document, encoded_length as nat, prompt, old(state).scan(), geometry@), r, *final(state)),
{
    if encoded_length > MAXIMUM_DOCUMENT_BYTES {
        return Err("is too large".to_owned());
    }
    let members = match document {
        JsonValue::Object(m) => m,
        _ => {
            return Err("contains a value that is not an object".to_owned());
        },
    };
    let k = keys(vec!["type", "content"]);
    assert(key_texts(k@) =~= seq!["type"@, "content"@]);
    match ensure_keys(members, &k) {
        Err(m) => {
            return Err(m);
        },
        Ok(()) => {},
    }
    let t = match required_string(members, "type") {
        Err(m) => {
            return Err(m);
        },
        Ok(t) => t,
    };
    if !str_equals(t.as_str(), "doc") {
        return Err("must be a rich-text document".to_owned());
    }
    let items = match required_array(members, "content") {
        Err(m) => {
            return Err(m);
        },
        Ok(items) => items,
    };
    if items.len() == 0 {
        return Err("must contain at least one block".to_owned());
    }
    validate_children(document, "content", items, NodeContext::Block, prompt, 1, state, geometry)
}

/// Whether the child `n - 1` or an earlier one, in the `content` array of `v`, has content.
pub open spec fn some_child_has_content(v: JsonValue, n: int) -> bool
    decreases v, 0int, n,
{
    if n <= 0 {
        false
    } else {
        some_child_has_content(v, n - 1) || match v {
            JsonValue::Object(members) => match member_index(members@, "content"@, 0) {
                Some(k) => if 0 <= k < members@.len() {
                    match members@[k].1 {
                        JsonValue::Array(items) => if n - 1 < items@.len() {
                            proof {
                                assert(decreases_to!(v => members));
                                assert(decreases_to!(members => members@));
                                assert(decreases_to!(members@ => members@[k]));
                                assert(decreases_to!(members@[k] => members@[k].1));
                                assert(decreases_to!(members@[k].1 => items));
                                assert(decreases_to!(items => items@));
                                assert(decreases_to!(items@ => items@[n - 1]));
                            }
                            has_content(items@[n - 1])
                        } else {
                            false
                        },
                        _ => false,
                    }
                } else {
                    false
                },
                None => false,
            },
            _ => false,
        }
    }
}

/// The number of children in the `content` array of `v`.
pub open spec fn content_count(v: JsonValue) -> int {
    match v {
        JsonValue::Object(members) => match member(members@, "content"@) {
            Some(JsonValue::Array(items)) => items@.len() as int,
            _ => 0,
        },
        _ => 0,
    }
}

/// A document holds something to study: non-blank text, a non-blank equation or an image,
/// at any depth.
pub open spec fn has_content(v: JsonValue) -> bool
    decreases v, 1int, 0int,
{
    match v {
        JsonValue::Object(members) => {
            let kind = match member(members@, "type"@) {
                Some(JsonValue::String(t)) => Some(t@),
                _ => None,
            };
            if kind == Some("text"@) {
                match member(members@, "text"@) {
                    Some(JsonValue::String(t)) => trim(t@).len() > 0,
                    _ => false,
                }
            } else if kind == Some("inlineMath"@) || kind == Some("blockMath"@) {
                match member(members@, "attrs"@) {
                    Some(JsonValue::Object(a)) => match member(a@, "latex"@) {
                        Some(JsonValue::String(l)) => trim(l@).len() > 0,
                        _ => false,
                    },
                    _ => false,
                }
            } else if kind == Some("mediaImage"@) {
                true
            } else {
                some_child_has_content(v, content_count(v))
            }
        },
        _ => false,
    }
}

/// Whether a string member holds non-blank text.
fn non_blank_member(members: &Vec<(String, JsonValue)>, key: &str) -> (r: bool)
    ensures
        r == match member(members@, key@) {
            Some(JsonValue::String(t)) => trim(t@).len() > 0,
            _ => false,
        },
{
    match find_member(members, key) {
        Some(k) => match &members[k].1 {
            JsonValue::String(t) => trimmed(t.as_str()).unicode_len() > 0,
            _ => false,
        },
        None => false,
    }
}

/// Whether the node type is `name`.
fn kind_is(kind: Option<&str>, name: &str) -> (r: bool)
    ensures
        r == (kind matches Some(t) && t@ == name@),
{
    match kind {
        Some(t) => str_equals(t, name),
        None => false,
    }
}

/// Once some child has content, more children keep it so.
proof fn lemma_some_child_stays(v: JsonValue, m: int, n: int)
    requires
        0 <= m <= n,
        some_child_has_content(v, m),
    ensures
        some_child_has_content(v, n),
    decreases n - m,
{
    if n > m {
        lemma_some_child_stays(v, m, n - 1);
    }
}

/// Whether a document holds something to study (see [`has_content`]).
#[verifier::loop_isolation(false)]
pub fn rich_document_has_content(document: &JsonValue) -> (r: bool)
    ensures
        r == has_content(*document),
    decreases *document, 1int, 0int,
{
    let members = match document {
        JsonValue::Object(m) => m,
        _ => {
            return false;
        },
    };
    let kind = match find_member(members, "type") {
        Some(k) => match &members[k].1 {
            JsonValue::String(t) => Some(t.as_str()),
            _ => None,
        },
        None => None,
    };
    if kind_is(kind, "text") {
        return non_blank_member(members, "text");
    }
    if kind_is(kind, "inlineMath") || kind_is(kind, "blockMath") {
        return match find_member(members, "attrs") {
            Some(k) => match &members[k].1 {
                JsonValue::Object(a) => non_blank_member(a, "latex"),
                _ => false,
            },
            None => false,
        };
    }
    if kind_is(kind, "mediaImage") {
        return true;
    }
    match find_member(members, "content") {
        Some(k) => match &members[k].1 {
            JsonValue::Array(items) => {
                let mut i: usize = 0;
                while i < items.len()
                    invariant
                        i <= items.len(),
                        *document == JsonValue::Object(*members),
                        member_index(members@, "content"@, 0) == Some(k as int),
                        k < members@.len(),
                        members@[k as int].1 == JsonValue::Array(*items),
                        some_child_has_content(*document, i as int) == false,
                    decreases items.len() - i,
                {
                    proof {
                        assert(decreases_to!(*document => *members));
                        assert(decreases_to!(*members => members@));
                        assert(decreases_to!(members@ => members@[k as int]));
                        assert(decreases_to!(members@[k as int] => members@[k as int].1));
                        assert(decreases_to!(members@[k as int].1 => members@[k as int].1->Array_0));
                        assert(members@[k as int].1->Array_0 == *items);
                        assert(decreases_to!(*items => items@));
                        assert(decreases_to!(items@ => items@[i as int]));
                    }
                    if rich_document_has_content(&items[i]) {
                        proof {
                            assert(some_child_has_content(*document, i + 1));
                            lemma_some_child_stays(*document, i + 1, items.len() as int);
                        }
                        return true;
                    }
                    i = i + 1;
                }
                false
            },
            _ => false,
        },
        None => false,
    }
}

/// What validated content refers to.
#[derive(Debug)]
pub struct ValidatedContent {
    /// The cloze groups, in the order they first appear.
    pub cloze_group_ids: Vec<String>,
    /// The image occlusion groups, in the order they first appear.
    pub image_occlusion_group_ids: Vec<String>,
    /// The images shown, as an ascending set.
    pub media_ids: Vec<String>,
    /// Whether the prompt holds something to study.
    pub prompt_has_content: bool,
    /// The geometry of each occlusion region, in checking order.
    pub checked_regions: Vec<RegionGeometry>,
}

/// The outcome of checking concept content: the schema version, at most 2 MB encoded
/// (`encoded_length` bytes), then the prompt and the answer, each of their encoded length;
/// errors name the part they concern.
pub open spec fn content_scan(
    content: ConceptContent,
    encoded_length: nat,
    prompt_length: nat,
    answer_length: nat,
    geometry: Seq<bool>,
) -> Result<ScanState, (Seq<char>, Seq<char>)> {
    if content.schema_version != RICH_CONTENT_SCHEMA_VERSION {
        Err(("Content"@, "uses an unsupported schema version"@))
    } else if encoded_length > 2 * MAXIMUM_DOCUMENT_BYTES {
        Err(("Content"@, "is too large"@))
    } else {
        match check_document(content.prompt, prompt_length, true, empty_scan(), geometry) {
            Err(m) => Err(("Prompt"@, m)),
            Ok(s1) => match check_document(content.answer, answer_length, false, s1, geometry) {
                Err(m) => Err(("Answer"@, m)),
                Ok(s2) => Ok(s2),
            },
        }
    }
}

/// Checks concept content against the allowlist (see [`content_scan`]) and gives what it
/// refers to. `geometry` holds, in checking order, whether each occlusion region lies on
/// its image; a region without a verdict counts as lying on it.
pub fn validate_content(
    content: &ConceptContent,
    encoded_length: usize,
    prompt_length: usize,
    answer_length: usize,
    geometry: &Vec<bool>,
) -> (r: LibraryResult<ValidatedContent>)
    ensures
        match content_scan(*content, encoded_length as nat, prompt_length as nat, answer_length as nat, geometry@) {
            Err((f, m)) => r matches Err(e) && e matches LibraryError::InvalidContent { field, message }
                && field@ == f && message@ == m,
            Ok(s) => r matches Ok(v) && texts(v.cloze_group_ids@) == s.cloze && texts(
                v.image_occlusion_group_ids@,
            ) == s.groups && strictly_ascending(texts(v.media_ids@)) && texts(v.media_ids@).to_set()
                == s.media && v.checked_regions@ == s.checked && v.prompt_has_content == has_content(
                content.prompt,
            ),
        },
{
    if content.schema_version != RICH_CONTENT_SCHEMA_VERSION {
        return Err(
            LibraryError::InvalidContent {
                field: "Content",
                message: "uses an unsupported schema version".to_owned(),
            },
        );
    }
    if encoded_length > 2 * MAXIMUM_DOCUMENT_BYTES {
        return Err(LibraryError::InvalidContent { field: "Content", message: "is too large".to_owned() });
    }
    let mut state = ContentState::new();
    match validate_document(&content.prompt, prompt_length, true, &mut state, geometry) {
        Err(m) => {
            return Err(LibraryError::InvalidContent { field: "Prompt", message: m });
        },
        Ok(()) => {},
    }
    match validate_document(&content.answer, answer_length, false, &mut state, geometry) {
        Err(m) => {
            return Err(LibraryError::InvalidContent { field: "Answer", message: m });
        },
        Ok(()) => {},
    }
    let prompt_has_content = rich_document_has_content(&content.prompt);
    Ok(
        ValidatedContent {
            cloze_group_ids: state.cloze_group_ids,
            image_occlusion_group_ids: state.image_occlusion_group_ids,
            media_ids: state.media_ids,
            prompt_has_content,
            checked_regions: state.checked_regions,
        },
    )
}

/// The node is not a leaf: neither text, an equation nor an image.
pub open spec fn is_container_node(members: Seq<(String, JsonValue)>) -> bool {
    !(member(members, "type"@) matches Some(JsonValue::String(t)) && (t@ == "text"@ || t@
        == "inlineMath"@ || t@ == "blockMath"@ || t@ == "mediaImage"@))
}

/// A node that holds other nodes has content exactly when one of its children, at any
/// position of its `content` array, has content.
pub proof fn lemma_container_content_is_some_child(
    members: Vec<(String, JsonValue)>,
    items: Vec<JsonValue>,
)
    requires
        is_container_node(members@),
        member(members@, "content"@) == Some(JsonValue::Array(items)),
    ensures
        has_content(JsonValue::Object(members)) <==> exists|k: int|
            0 <= k < items@.len() && has_content(#[trigger] items@[k]),
{
    let v = JsonValue::Object(members);
    lemma_member_index_bounds(members@, "content"@, 0);
    assert(content_count(v) == items@.len());
    if exists|k: int| 0 <= k < items@.len() && has_content(#[trigger] items@[k]) {
        let k = choose|k: int| 0 <= k < items@.len() && has_content(#[trigger] items@[k]);
        assert(some_child_has_content(v, k + 1));
        lemma_some_child_stays(v, k + 1, items@.len() as int);
    }
    if has_content(v) {
        lemma_some_child_witness(v, items, items@.len() as int);
    }
}

/// A child that has content stands behind any prefix in which some child has content.
proof fn lemma_some_child_witness(v: JsonValue, items: Vec<JsonValue>, n: int)
    requires
        v matches JsonValue::Object(members) && member(members@, "content"@) == Some(
            JsonValue::Array(items),
        ),
        some_child_has_content(v, n),
    ensures
        exists|k: int| 0 <= k < n && k < items@.len() && has_content(#[trigger] items@[k]),
    decreases n,
{
    if n > 0 {
        if some_child_has_content(v, n - 1) {
            lemma_some_child_witness(v, items, n - 1);
        } else {
            let members = v->Object_0;
            lemma_member_index_bounds(members@, "content"@, 0);
            assert(has_content(items@[n - 1]));
        }
    }
}

} // verus!
