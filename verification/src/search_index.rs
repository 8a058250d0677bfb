//! The text a concept is found by: the readable words of its rich documents and the
//! answers, key points and checkpoints of its cards. Identifiers and other attributes of
//! the documents are left out.

use vstd::prelude::*;

use crate::json_access::{find_member, member, member_index};
use crate::models::concepts::ConceptDetail;
use crate::models::json::JsonValue;
use crate::models::retrieval::CardSummary;
use crate::json_access::lemma_member_index_bounds;
use crate::text::{contains_text, occurs_at, push_char, str_equals};

verus! {

/// The string member `key`, or nothing when it is missing or not a string.
pub open spec fn text_member(members: Seq<(String, JsonValue)>, key: Seq<char>) -> Seq<char> {
    match member(members, key) {
        Some(JsonValue::String(s)) => s@,
        _ => Seq::empty(),
    }
}

/// The type of a node, or nothing.
pub open spec fn node_kind(v: JsonValue) -> Seq<char> {
    match v {
        JsonValue::Object(members) => text_member(members@, "type"@),
        _ => Seq::empty(),
    }
}

/// The string attribute `key` of a node, or nothing.
pub open spec fn attribute_text(v: JsonValue, key: Seq<char>) -> Seq<char> {
    match v {
        JsonValue::Object(members) => match member(members@, "attrs"@) {
            Some(JsonValue::Object(attributes)) => text_member(attributes@, key),
            _ => Seq::empty(),
        },
        _ => Seq::empty(),
    }
}

/// The number of children of a node.
pub open spec fn child_count(v: JsonValue) -> int {
    match v {
        JsonValue::Object(members) => match member(members@, "content"@) {
            Some(JsonValue::Array(items)) => items@.len() as int,
            _ => 0,
        },
        _ => 0,
    }
}

/// The text of the first `n` children of `parent`, one after the other.
pub open spec fn children_text(parent: JsonValue, n: int) -> Seq<char>
    decreases parent, 0int, n,
{
    if n <= 0 {
        Seq::empty()
    } else {
        children_text(parent, n - 1) + match parent {
            JsonValue::Object(members) => match member_index(members@, "content"@, 0) {
                Some(k) => if 0 <= k < members@.len() {
                    match members@[k].1 {
                        JsonValue::Array(items) => if n - 1 < items@.len() {
                            proof {
                                assert(decreases_to!(parent => members));
                                assert(decreases_to!(members => members@));
                                assert(decreases_to!(members@ => members@[k]));
                                assert(decreases_to!(members@[k] => members@[k].1));
                                assert(decreases_to!(members@[k].1 => items));
                                assert(decreases_to!(items => items@));
                                assert(decreases_to!(items@ => items@[n - 1]));
                            }
                            node_text(items@[n - 1])
                        } else {
                            Seq::empty()
                        },
                        _ => Seq::empty(),
                    }
                } else {
                    Seq::empty()
                },
                None => Seq::empty(),
            },
            _ => Seq::empty(),
        }
    }
}

/// The readable text of a node: a text node gives its text; an equation gives its LaTeX
/// between spaces; an image gives its alternative text and title on lines of their own;
/// then come the node's children, and every node but a text or inline equation ends its
/// line.
pub open spec fn node_text(v: JsonValue) -> Seq<char>
    decreases v, 1int, 0int,
{
    let kind = node_kind(v);
    if kind == "text"@ {
        match v {
            JsonValue::Object(members) => text_member(members@, "text"@),
            _ => Seq::empty(),
        }
    } else {
        let math = if kind == "inlineMath"@ || kind == "blockMath"@ {
            seq![' '] + attribute_text(v, "latex"@) + seq![' ']
        } else {
            Seq::empty()
        };
        let image = if kind == "mediaImage"@ {
            attribute_text(v, "alt"@) + seq!['\n'] + attribute_text(v, "title"@) + seq!['\n']
        } else {
            Seq::empty()
        };
        let end = if kind == "inlineMath"@ {
            Seq::empty()
        } else {
            seq!['\n']
        };
        math + image + children_text(v, child_count(v)) + end
    }
}

/// The string member `key` of the members, or the empty text.
fn text_member_of<'a>(members: &'a Vec<(String, JsonValue)>, key: &str) -> (r: &'a str)
    ensures
        r@ == text_member(members@, key@),
{
    proof {
        reveal_strlit("");
    }
    match find_member(members, key) {
        Some(i) => match &members[i].1 {
            JsonValue::String(s) => s.as_str(),
            _ => "",
        },
        None => "",
    }
}

/// The type of a node, or the empty text.
fn kind_of<'a>(v: &'a JsonValue) -> (r: &'a str)
    ensures
        r@ == node_kind(*v),
{
    proof {
        reveal_strlit("");
    }
    match v {
        JsonValue::Object(members) => text_member_of(members, "type"),
        _ => "",
    }
}

/// The string attribute `key` of a node, or the empty text.
fn attribute_of<'a>(v: &'a JsonValue, key: &str) -> (r: &'a str)
    ensures
        r@ == attribute_text(*v, key@),
{
    proof {
        reveal_strlit("");
    }
    match v {
        JsonValue::Object(members) => match find_member(members, "attrs") {
            Some(i) => match &members[i].1 {
                JsonValue::Object(attributes) => text_member_of(attributes, key),
                _ => "",
            },
            None => "",
        },
        _ => "",
    }
}

/// Appends the readable text of a node (see [`node_text`]).
#[verifier::loop_isolation(false)]
#[verifier::rlimit(40)]
pub fn append_document_text(node: &JsonValue, output: &mut String)
    ensures
        final(output)@ == old(output)@ + node_text(*node),
    decreases node,
{
    let kind = kind_of(node);
    proof {
        reveal_strlit("text");
        reveal_strlit("inlineMath");
        reveal_strlit("blockMath");
        reveal_strlit("mediaImage");
    }
    if str_equals(kind, "text") {
        match node {
            JsonValue::Object(members) => output.append(text_member_of(members, "text")),
            _ => {},
        }
        return;
    }
    let ghost start = output@;
    let inline_math = str_equals(kind, "inlineMath");
    if inline_math || str_equals(kind, "blockMath") {
        push_char(output, ' ');
        output.append(attribute_of(node, "latex"));
        push_char(output, ' ');
    }
    if str_equals(kind, "mediaImage") {
        output.append(attribute_of(node, "alt"));
        push_char(output, '\n');
        output.append(attribute_of(node, "title"));
        push_char(output, '\n');
    }
    let ghost before_children = output@;
    match node {
        JsonValue::Object(members) => match find_member(members, "content") {
            Some(k) => match &members[k].1 {
                JsonValue::Array(items) => {
                    let mut i: usize = 0;
                    while i < items.len()
                        invariant
                            i <= items.len(),
                            output@ == before_children + children_text(*node, i as int),
                        decreases items.len() - i,
                    {
                        assert(decreases_to!(*node => node->Object_0));
                        assert(decreases_to!(*members => members@));
                        assert(decreases_to!(members@ => members@[k as int]));
                        assert(decreases_to!(members@[k as int] => members@[k as int].1));
                        assert(decreases_to!(members@[k as int].1 => members@[k as int].1->Array_0));
                        assert(decreases_to!(*items => items@));
                        assert(decreases_to!(items@ => items@[i as int]));
                        append_document_text(&items[i], output);
                        i = i + 1;
                    }
                    assert(child_count(*node) == items@.len());
                },
                _ => {
                    assert(child_count(*node) == 0);
                },
            },
            None => {
                assert(child_count(*node) == 0);
            },
        },
        _ => {},
    }
    if !inline_math {
        push_char(output, '\n');
    }
    assert(output@ =~= start + node_text(*node));
}

/// The answers, key points or checkpoints a card is found by: those of its type-answer,
/// explain or problem settings, the first it has.
pub open spec fn card_parts(card: CardSummary) -> Seq<String> {
    match (card.type_answer, card.explain, card.problem) {
        (Some(t), _, _) => t.accepted_answers@,
        (None, Some(e), _) => e.key_points@,
        (None, None, Some(p)) => p.checkpoints@,
        _ => Seq::empty(),
    }
}

/// The parts one per line.
pub open spec fn lines_text(parts: Seq<String>) -> Seq<char>
    decreases parts.len(),
{
    if parts.len() == 0 {
        Seq::empty()
    } else {
        lines_text(parts.drop_last()) + parts.last()@ + seq!['\n']
    }
}

/// The parts of the cards, in card order, one per line.
pub open spec fn cards_text(cards: Seq<CardSummary>) -> Seq<char>
    decreases cards.len(),
{
    if cards.len() == 0 {
        Seq::empty()
    } else {
        cards_text(cards.drop_last()) + lines_text(card_parts(cards.last()))
    }
}

/// The text a concept is found by: the text of its prompt, answer, explanation and common
/// mistakes, each ending a line, then the parts of its cards.
pub open spec fn search_text(concept: ConceptDetail) -> Seq<char> {
    node_text(concept.content.prompt) + seq!['\n'] + node_text(concept.content.answer) + seq!['\n']
        + node_text(concept.content.feedback.explanation) + seq!['\n'] + node_text(
        concept.content.feedback.common_mistakes,
    ) + seq!['\n'] + cards_text(concept.cards@)
}

/// Appends the parts one per line.
fn append_lines(parts: &Vec<String>, output: &mut String)
    ensures
        final(output)@ == old(output)@ + lines_text(parts@),
{
    let ghost start = output@;
    let mut i: usize = 0;
    while i < parts.len()
        invariant
            i <= parts.len(),
            output@ == start + lines_text(parts@.take(i as int)),
        decreases parts.len() - i,
    {
        assert(parts@.take(i + 1).drop_last() =~= parts@.take(i as int));
        output.append(parts[i].as_str());
        push_char(output, '\n');
        i = i + 1;
    }
    assert(parts@.take(i as int) =~= parts@);
}

/// The text a concept is found by (see [`search_text`]).
pub fn concept_search_text(concept: &ConceptDetail) -> (r: String)
    ensures
        r@ == search_text(*concept),
{
    let mut body = String::new();
    append_document_text(&concept.content.prompt, &mut body);
    push_char(&mut body, '\n');
    append_document_text(&concept.content.answer, &mut body);
    push_char(&mut body, '\n');
    append_document_text(&concept.content.feedback.explanation, &mut body);
    push_char(&mut body, '\n');
    append_document_text(&concept.content.feedback.common_mistakes, &mut body);
    push_char(&mut body, '\n');
    let ghost documents = body@;
    let cards = &concept.cards;
    let mut i: usize = 0;
    while i < cards.len()
        invariant
            i <= cards.len(),
            body@ == documents + cards_text(cards@.take(i as int)),
        decreases cards.len() - i,
    {
        assert(cards@.take(i + 1).drop_last() =~= cards@.take(i as int));
        let card = &cards[i];
        match &card.type_answer {
            Some(settings) => append_lines(&settings.accepted_answers, &mut body),
            None => match &card.explain {
                Some(settings) => append_lines(&settings.key_points, &mut body),
                None => match &card.problem {
                    Some(settings) => append_lines(&settings.checkpoints, &mut body),
                    None => {
                        assert(lines_text(card_parts(*card)) =~= Seq::<char>::empty());
                    },
                },
            },
        }
        i = i + 1;
    }
    assert(cards@.take(i as int) =~= cards@);
    body
}

/// `pattern` found in `s` is found at the same place in `s` followed by more text, and
/// further on in `s` preceded by more text.
proof fn lemma_occurs_extended(s: Seq<char>, pattern: Seq<char>, i: int, before: Seq<char>, after: Seq<char>)
    requires
        occurs_at(s, pattern, i),
    ensures
        occurs_at(before + s + after, pattern, i + before.len()),
{
    assert((before + s + after).subrange(i + before.len(), i + before.len() + pattern.len()) =~= s.subrange(
        i,
        i + pattern.len(),
    ));
}

/// A text occurs in any text that contains a text in which it occurs.
pub proof fn lemma_contains_text_transitive(s: Seq<char>, middle: Seq<char>, pattern: Seq<char>)
    requires
        contains_text(s, middle),
        contains_text(middle, pattern),
    ensures
        contains_text(s, pattern),
{
    let i = choose|i: int| occurs_at(s, middle, i);
    let j = choose|j: int| occurs_at(middle, pattern, j);
    assert(s.subrange(i + j, i + j + pattern.len()) =~= middle.subrange(j, j + pattern.len()));
    assert(occurs_at(s, pattern, i + j));
}

/// The text of the children up to `n` holds the text of each of them.
proof fn lemma_children_text_holds_child(v: JsonValue, items: Vec<JsonValue>, k: int, n: int)
    requires
        v matches JsonValue::Object(members) && member(members@, "content"@) == Some(JsonValue::Array(items)),
        0 <= k < n <= items@.len(),
    ensures
        contains_text(children_text(v, n), node_text(items@[k])),
    decreases n,
{
    let members = v->Object_0;
    lemma_member_index_bounds(members@, "content"@, 0);
    let p = node_text(items@[k]);
    if n == k + 1 {
        let before = children_text(v, k);
        assert(children_text(v, n) == before + p);
        assert(occurs_at(p, p, 0)) by {
            assert(p.subrange(0, p.len() as int) =~= p);
        }
        lemma_occurs_extended(p, p, 0, before, Seq::empty());
        assert(before + p + Seq::<char>::empty() =~= before + p);
    } else {
        lemma_children_text_holds_child(v, items, k, n - 1);
        let prev = children_text(v, n - 1);
        let i = choose|i: int| occurs_at(prev, p, i);
        let last = node_text(items@[n - 1]);
        assert(children_text(v, n) == children_text(v, n - 1) + last);
        lemma_occurs_extended(children_text(v, n - 1), p, i, Seq::empty(), last);
        assert(Seq::<char>::empty() + children_text(v, n - 1) + last =~= children_text(v, n - 1) + last);
    }
}

/// A text node reads as its text.
pub proof fn lemma_text_nodes_read_their_text(members: Vec<(String, JsonValue)>)
    requires
        text_member(members@, "type"@) == "text"@,
    ensures
        node_text(JsonValue::Object(members)) == text_member(members@, "text"@),
{
}

/// Any other node's text holds the text of each of its children, at every position of its
/// `content` array; so the text of every text node of a document occurs in the document's
/// text.
pub proof fn lemma_node_text_holds_children(members: Vec<(String, JsonValue)>, items: Vec<JsonValue>, k: int)
    requires
        text_member(members@, "type"@) != "text"@,
        member(members@, "content"@) == Some(JsonValue::Array(items)),
        0 <= k < items@.len(),
    ensures
        contains_text(node_text(JsonValue::Object(members)), node_text(items@[k])),
{
    let v = JsonValue::Object(members);
    assert(child_count(v) == items@.len());
    lemma_children_text_holds_child(v, items, k, items@.len() as int);
    let c = children_text(v, child_count(v));
    let i = choose|i: int| occurs_at(c, node_text(items@[k]), i);
    let kind = node_kind(v);
    let math = if kind == "inlineMath"@ || kind == "blockMath"@ {
        seq![' '] + attribute_text(v, "latex"@) + seq![' ']
    } else {
        Seq::empty()
    };
    let image = if kind == "mediaImage"@ {
        attribute_text(v, "alt"@) + seq!['\n'] + attribute_text(v, "title"@) + seq!['\n']
    } else {
        Seq::empty()
    };
    let end = if kind == "inlineMath"@ {
        Seq::empty()
    } else {
        seq!['\n']
    };
    assert(node_text(v) == math + image + c + end);
    lemma_occurs_extended(c, node_text(items@[k]), i, math + image, end);
    assert((math + image) + c + end =~= math + image + c + end);
}

/// A concept is found by the text of each of its four documents, prompt, answer,
/// explanation and common mistakes, and by the text of its cards.
pub proof fn lemma_search_text_holds_every_document(concept: ConceptDetail)
    ensures
        contains_text(search_text(concept), node_text(concept.content.prompt)),
        contains_text(search_text(concept), node_text(concept.content.answer)),
        contains_text(search_text(concept), node_text(concept.content.feedback.explanation)),
        contains_text(search_text(concept), node_text(concept.content.feedback.common_mistakes)),
        contains_text(search_text(concept), cards_text(concept.cards@)),
{
    lemma_lines_hold_their_parts(
        node_text(concept.content.prompt),
        node_text(concept.content.answer),
        node_text(concept.content.feedback.explanation),
        node_text(concept.content.feedback.common_mistakes),
        cards_text(concept.cards@),
    );
}

/// Five texts on lines of their own each occur in the whole.
proof fn lemma_lines_hold_their_parts(p: Seq<char>, a: Seq<char>, e: Seq<char>, m: Seq<char>, c: Seq<char>)
    ensures
        ({
            let all = p + seq!['\n'] + a + seq!['\n'] + e + seq!['\n'] + m + seq!['\n'] + c;
            &&& contains_text(all, p)
            &&& contains_text(all, a)
            &&& contains_text(all, e)
            &&& contains_text(all, m)
            &&& contains_text(all, c)
        }),
{
    let nl = seq!['\n'];
    let all = p + nl + a + nl + e + nl + m + nl + c;
    lemma_occurs_in_middle(Seq::empty(), p, nl + a + nl + e + nl + m + nl + c);
    assert(Seq::<char>::empty() + p + (nl + a + nl + e + nl + m + nl + c) =~= all);
    lemma_occurs_in_middle(p + nl, a, nl + e + nl + m + nl + c);
    assert((p + nl) + a + (nl + e + nl + m + nl + c) =~= all);
    lemma_occurs_in_middle(p + nl + a + nl, e, nl + m + nl + c);
    assert((p + nl + a + nl) + e + (nl + m + nl + c) =~= all);
    lemma_occurs_in_middle(p + nl + a + nl + e + nl, m, nl + c);
    assert((p + nl + a + nl + e + nl) + m + (nl + c) =~= all);
    lemma_occurs_in_middle(p + nl + a + nl + e + nl + m + nl, c, Seq::empty());
    assert((p + nl + a + nl + e + nl + m + nl) + c + Seq::<char>::empty() =~= all);
}

/// A text occurs in any text made of it with more text before and after.
proof fn lemma_occurs_in_middle(before: Seq<char>, pattern: Seq<char>, after: Seq<char>)
    ensures
        contains_text(before + pattern + after, pattern),
{
    let i: int = before.len() as int;
    assert((before + pattern + after).subrange(i, i + pattern.len()) =~= pattern);
    assert(occurs_at(before + pattern + after, pattern, before.len() as int));
}

} // verus!
