//! Reading the fields of a concept request: its title and its selected retrieval forms.

use vstd::prelude::*;

use crate::cards::{
    forms_match, retrieval_forms_unchanged, selects_nothing, validate_retrieval_form_selection,
    RetrievalFormSelection,
};
use crate::models::concepts::{ConceptContent, ConceptDetail};
use crate::models::json::{json_equal, json_same};
use crate::organizations::item_id_texts;
use crate::text::{has_text, lists_text};
use crate::error::{LibraryError, LibraryResult};
use crate::id_set::strictly_ascending;
use crate::models::retrieval::{ExplainSettings, ProblemSettings, TypeAnswerSettings};
use crate::organizations::{has_blank_id, normalize_ids, trimmed_texts};
use crate::retrieval_forms::{
    entries_problem, explain_error, normalize_explain, normalize_problem, normalize_type_answer,
    normalized_entries, problem_error, type_answer_error, EntryProblem,
    MAXIMUM_ACCEPTED_ANSWERS, MAXIMUM_ACCEPTED_ANSWER_LENGTH, MAXIMUM_EXPLAIN_KEY_POINTS,
    MAXIMUM_EXPLAIN_KEY_POINT_LENGTH, MAXIMUM_PROBLEM_CHECKPOINTS,
    MAXIMUM_PROBLEM_CHECKPOINT_LENGTH,
};
use crate::text::{texts, trim, trimmed};

verus! {

/// A concept title has at most this many characters.
pub const MAXIMUM_CONCEPT_TITLE_LENGTH: usize = 200;

/// Reads a required text field: surrounding whitespace is removed, and the rest must be
/// non-empty and at most `maximum` characters long.
pub fn normalize_value(value: String, field: &'static str, maximum: usize) -> (r: LibraryResult<String>)
    ensures
        r matches Ok(v) ==> v@ == trim(value@) && 0 < v@.len() <= maximum,
        trim(value@).len() == 0 ==> (r matches Err(e) && e matches LibraryError::EmptyValue { field: f }
            && f == field),
        trim(value@).len() > maximum ==> (r matches Err(e) && e matches LibraryError::ValueTooLong {
            field: f,
            maximum: m,
        } && f == field && m == maximum),
        r is Ok <==> 0 < trim(value@).len() <= maximum,
{
    let value = trimmed(value.as_str());
    if value.unicode_len() == 0 {
        return Err(LibraryError::EmptyValue { field });
    }
    if value.unicode_len() > maximum {
        return Err(LibraryError::ValueTooLong { field, maximum });
    }
    Ok(value)
}

/// Reads the selected templates: each identifier is trimmed, a blank one is an invalid
/// template selection, and the result is the set of identifiers.
pub fn normalize_template_ids(ids: Vec<String>) -> (r: LibraryResult<Vec<String>>)
    ensures
        r is Err <==> has_blank_id(texts(ids@)),
        r matches Err(e) ==> (e matches LibraryError::InvalidSelection { kind, id } && kind@
            == "template"@ && id@.len() == 0),
        r matches Ok(v) ==> strictly_ascending(texts(v@)) && texts(v@).to_set() == trimmed_texts(
            texts(ids@),
        ).to_set(),
{
    normalize_ids(ids, "template")
}

/// What is wrong with the explain settings, if they are given.
pub open spec fn explain_settings_problem(settings: Option<ExplainSettings>) -> Option<EntryProblem> {
    match settings {
        Some(s) => entries_problem(
            texts(s.key_points@),
            MAXIMUM_EXPLAIN_KEY_POINTS as nat,
            MAXIMUM_EXPLAIN_KEY_POINT_LENGTH as nat,
        ),
        None => None,
    }
}

/// What is wrong with the problem settings, if they are given.
pub open spec fn problem_settings_problem(settings: Option<ProblemSettings>) -> Option<EntryProblem> {
    match settings {
        Some(s) => entries_problem(
            texts(s.checkpoints@),
            MAXIMUM_PROBLEM_CHECKPOINTS as nat,
            MAXIMUM_PROBLEM_CHECKPOINT_LENGTH as nat,
        ),
        None => None,
    }
}

/// What is wrong with the type-answer settings, if they are given.
pub open spec fn type_answer_settings_problem(settings: Option<TypeAnswerSettings>) -> Option<
    EntryProblem,
> {
    match settings {
        Some(s) => entries_problem(
            texts(s.accepted_answers@),
            MAXIMUM_ACCEPTED_ANSWERS as nat,
            MAXIMUM_ACCEPTED_ANSWER_LENGTH as nat,
        ),
        None => None,
    }
}

/// Reads the retrieval forms of a concept request, checking in this order: the template
/// identifiers, the explain, problem and type-answer settings, that a problem card has a
/// problem in its prompt, and that at least one form is selected.
pub fn prepare_retrieval_forms(
    include_standard_recall: bool,
    template_ids: Vec<String>,
    explain: Option<ExplainSettings>,
    problem: Option<ProblemSettings>,
    type_answer: Option<TypeAnswerSettings>,
    cloze_group_ids: Vec<String>,
    image_occlusion_group_ids: Vec<String>,
    prompt_has_content: bool,
) -> (r: LibraryResult<RetrievalFormSelection>)
    ensures
        has_blank_id(texts(template_ids@)) ==> (r matches Err(e) && e matches LibraryError::InvalidSelection {
            kind,
            id,
        } && kind@ == "template"@ && id@.len() == 0),
        !has_blank_id(texts(template_ids@)) && explain_settings_problem(explain) is Some ==> (r matches Err(e)
            && explain_error(explain_settings_problem(explain)->Some_0, e)),
        !has_blank_id(texts(template_ids@)) && explain_settings_problem(explain) is None
            && problem_settings_problem(problem) is Some ==> (r matches Err(e) && problem_error(
            problem_settings_problem(problem)->Some_0,
            e,
        )),
        !has_blank_id(texts(template_ids@)) && explain_settings_problem(explain) is None
            && problem_settings_problem(problem) is None && type_answer_settings_problem(type_answer)
            is Some ==> (r matches Err(e) && type_answer_error(
            type_answer_settings_problem(type_answer)->Some_0,
            e,
        )),
        !has_blank_id(texts(template_ids@)) && explain_settings_problem(explain) is None
            && problem_settings_problem(problem) is None && type_answer_settings_problem(type_answer)
            is None && problem is Some && !prompt_has_content ==> (r matches Err(e)
            && e is MissingProblemPrompt),
        !has_blank_id(texts(template_ids@)) && explain_settings_problem(explain) is None
            && problem_settings_problem(problem) is None && type_answer_settings_problem(type_answer)
            is None && !(problem is Some && !prompt_has_content) && selects_nothing(
            include_standard_recall,
            template_ids@.len(),
            explain is Some,
            problem is Some,
            type_answer is Some,
            cloze_group_ids@.len() > 0,
            image_occlusion_group_ids@.len() > 0,
        ) ==> (r matches Err(e) && e is MissingRetrievalForm),
        r is Ok <==> !has_blank_id(texts(template_ids@)) && explain_settings_problem(explain) is None
            && problem_settings_problem(problem) is None && type_answer_settings_problem(type_answer)
            is None && !(problem is Some && !prompt_has_content) && !selects_nothing(
            include_standard_recall,
            template_ids@.len(),
            explain is Some,
            problem is Some,
            type_answer is Some,
            cloze_group_ids@.len() > 0,
            image_occlusion_group_ids@.len() > 0,
        ),
        r matches Ok(s) ==> {
            &&& s.include_standard_recall == include_standard_recall
            &&& strictly_ascending(texts(s.template_ids@))
            &&& texts(s.template_ids@).to_set() == trimmed_texts(texts(template_ids@)).to_set()
            &&& (s.explain is Some <==> explain is Some)
            &&& (s.explain matches Some(x) ==> x.focus == explain->Some_0.focus && texts(x.key_points@)
                == normalized_entries(texts(explain->Some_0.key_points@)))
            &&& (s.problem is Some <==> problem is Some)
            &&& (s.problem matches Some(x) ==> texts(x.checkpoints@) == normalized_entries(
                texts(problem->Some_0.checkpoints@),
            ))
            &&& (s.type_answer is Some <==> type_answer is Some)
            &&& (s.type_answer matches Some(x) ==> texts(x.accepted_answers@) == normalized_entries(
                texts(type_answer->Some_0.accepted_answers@),
            ))
            &&& s.cloze_group_ids@ == cloze_group_ids@
            &&& s.image_occlusion_group_ids@ == image_occlusion_group_ids@
        },
{
    let ghost given_templates = template_ids@;
    let templates = match normalize_template_ids(template_ids) {
        Ok(t) => t,
        Err(e) => {
            return Err(e);
        },
    };
    let explain = match explain {
        Some(settings) => match normalize_explain(settings) {
            Ok(s) => Some(s),
            Err(e) => {
                return Err(e);
            },
        },
        None => None,
    };
    let problem = match problem {
        Some(settings) => match normalize_problem(settings) {
            Ok(s) => Some(s),
            Err(e) => {
                return Err(e);
            },
        },
        None => None,
    };
    let type_answer = match type_answer {
        Some(settings) => match normalize_type_answer(settings) {
            Ok(s) => Some(s),
            Err(e) => {
                return Err(e);
            },
        },
        None => None,
    };
    if problem.is_some() && !prompt_has_content {
        return Err(LibraryError::MissingProblemPrompt);
    }
    proof {
        let ts = texts(templates@);
        let gs = trimmed_texts(texts(given_templates));
        if given_templates.len() > 0 {
            assert(gs.to_set().contains(gs[0]));
            if ts.len() == 0 {
                assert(ts.to_set() =~= Set::<Seq<char>>::empty());
            }
        }
        if templates@.len() > 0 {
            assert(ts.to_set().contains(ts[0]));
            if given_templates.len() == 0 {
                assert(gs.to_set() =~= Set::<Seq<char>>::empty());
            }
        }
    }
    match validate_retrieval_form_selection(
        include_standard_recall,
        &templates,
        explain.is_some(),
        problem.is_some(),
        type_answer.is_some(),
        cloze_group_ids.len() > 0,
        image_occlusion_group_ids.len() > 0,
    ) {
        Ok(()) => {},
        Err(e) => {
            return Err(e);
        },
    }
    Ok(
        RetrievalFormSelection {
            include_standard_recall,
            template_ids: templates,
            explain,
            problem,
            type_answer,
            cloze_group_ids,
            image_occlusion_group_ids,
        },
    )
}

/// Two concept contents are equal.
pub open spec fn content_same(a: ConceptContent, b: ConceptContent) -> bool {
    &&& a.schema_version == b.schema_version
    &&& json_same(a.prompt, b.prompt)
    &&& json_same(a.answer, b.answer)
    &&& json_same(a.feedback.explanation, b.feedback.explanation)
    &&& json_same(a.feedback.common_mistakes, b.feedback.common_mistakes)
}

/// Whether two concept contents are equal.
pub fn same_content(a: &ConceptContent, b: &ConceptContent) -> (r: bool)
    ensures
        r == content_same(*a, *b),
{
    a.schema_version == b.schema_version && json_equal(&a.prompt, &b.prompt) && json_equal(
        &a.answer,
        &b.answer,
    ) && json_equal(&a.feedback.explanation, &b.feedback.explanation) && json_equal(
        &a.feedback.common_mistakes,
        &b.feedback.common_mistakes,
    )
}

/// Whether two lists hold the same set of texts.
pub fn same_text_sets(a: &Vec<String>, b: &Vec<String>) -> (r: bool)
    ensures
        r == (texts(a@).to_set() == texts(b@).to_set()),
{
    let mut i: usize = 0;
    while i < a.len()
        invariant
            i <= a.len(),
            forall|k: int| 0 <= k < i ==> lists_text(b@, #[trigger] a@[k]@),
        decreases a.len() - i,
    {
        if !has_text(b, &a[i]) {
            proof {
                assert(texts(a@)[i as int] == a@[i as int]@);
                assert(texts(a@).to_set().contains(a@[i as int]@));
                if texts(b@).to_set().contains(a@[i as int]@) {
                    let k = choose|k: int| 0 <= k < texts(b@).len() && texts(b@)[k] == a@[i as int]@;
                    assert(b@[k]@ == a@[i as int]@);
                }
            }
            return false;
        }
        i = i + 1;
    }
    let mut j: usize = 0;
    while j < b.len()
        invariant
            j <= b.len(),
            forall|k: int| 0 <= k < a.len() ==> lists_text(b@, #[trigger] a@[k]@),
            forall|k: int| 0 <= k < j ==> lists_text(a@, #[trigger] b@[k]@),
        decreases b.len() - j,
    {
        if !has_text(a, &b[j]) {
            proof {
                assert(texts(b@)[j as int] == b@[j as int]@);
                assert(texts(b@).to_set().contains(b@[j as int]@));
                if texts(a@).to_set().contains(b@[j as int]@) {
                    let k = choose|k: int| 0 <= k < texts(a@).len() && texts(a@)[k] == b@[j as int]@;
                    assert(a@[k]@ == b@[j as int]@);
                }
            }
            return false;
        }
        j = j + 1;
    }
    proof {
        assert forall|t: Seq<char>| texts(a@).to_set().contains(t) <==> texts(b@).to_set().contains(t) by {
            if texts(a@).to_set().contains(t) {
                let k = choose|k: int| 0 <= k < texts(a@).len() && texts(a@)[k] == t;
                assert(lists_text(b@, a@[k]@));
                let m = choose|m: int| 0 <= m < b@.len() && b@[m]@ == a@[k]@;
                assert(texts(b@)[m] == t);
            }
            if texts(b@).to_set().contains(t) {
                let k = choose|k: int| 0 <= k < texts(b@).len() && texts(b@)[k] == t;
                assert(lists_text(a@, b@[k]@));
                let m = choose|m: int| 0 <= m < a@.len() && a@[m]@ == b@[k]@;
                assert(texts(a@)[m] == t);
            }
        }
        assert(texts(a@).to_set() =~= texts(b@).to_set());
    }
    true
}

/// The identifiers of the items, as a list of strings.
fn item_id_list(items: &Vec<crate::models::concepts::NamedItem>) -> (r: Vec<String>)
    ensures
        texts(r@) == item_id_texts(items@),
{
    let mut out: Vec<String> = Vec::new();
    let mut i: usize = 0;
    while i < items.len()
        invariant
            i <= items.len(),
            texts(out@) == item_id_texts(items@).take(i as int),
        decreases items.len() - i,
    {
        let ghost before = texts(out@);
        out.push(items[i].id.clone());
        assert(texts(out@) =~= before.push(items@[i as int].id@));
        assert(item_id_texts(items@).take(i + 1) =~= item_id_texts(items@).take(i as int).push(items@[i as int].id@));
        i = i + 1;
    }
    assert(item_id_texts(items@).take(i as int) =~= item_id_texts(items@));
    out
}

/// A save leaves the concept as it is: same title, decks, tags, content, media and
/// retrieval forms.
pub open spec fn concept_same(
    current: ConceptDetail,
    current_media: Seq<String>,
    title: Seq<char>,
    deck_ids: Seq<String>,
    tag_ids: Seq<String>,
    content: ConceptContent,
    media_ids: Seq<String>,
    selection: RetrievalFormSelection,
) -> bool {
    &&& current.title@ == title
    &&& item_id_texts(current.decks@).to_set() == texts(deck_ids).to_set()
    &&& item_id_texts(current.tags@).to_set() == texts(tag_ids).to_set()
    &&& content_same(current.content, content)
    &&& texts(current_media).to_set() == texts(media_ids).to_set()
    &&& forms_match(current.cards@, selection)
}

/// Whether saving the concept would leave it as it is (see [`concept_same`]); such a save
/// records no change.
pub fn concept_unchanged(
    current: &ConceptDetail,
    current_media: &Vec<String>,
    title: &String,
    deck_ids: &Vec<String>,
    tag_ids: &Vec<String>,
    content: &ConceptContent,
    media_ids: &Vec<String>,
    selection: &RetrievalFormSelection,
) -> (r: bool)
    ensures
        r == concept_same(*current, current_media@, title@, deck_ids@, tag_ids@, *content, media_ids@, *selection),
{
    let decks = item_id_list(&current.decks);
    let tags = item_id_list(&current.tags);
    current.title == *title && same_text_sets(&decks, deck_ids) && same_text_sets(&tags, tag_ids)
        && same_content(&current.content, content) && same_text_sets(current_media, media_ids)
        && retrieval_forms_unchanged(&current.cards, selection)
}

/// Some item of the list has the identifier `id`.
pub open spec fn lists_item(items: Seq<crate::models::concepts::NamedItem>, id: Seq<char>) -> bool {
    exists|i: int| 0 <= i < items.len() && items[i].id@ == id
}

/// The set of item identifiers holds exactly the identifiers of the items.
proof fn lemma_item_id_set(items: Seq<crate::models::concepts::NamedItem>, id: Seq<char>)
    ensures
        item_id_texts(items).to_set().contains(id) <==> lists_item(items, id),
{
    if item_id_texts(items).to_set().contains(id) {
        let i = choose|i: int| 0 <= i < item_id_texts(items).len() && item_id_texts(items)[i] == id;
        assert(items[i].id@ == id);
    }
    if lists_item(items, id) {
        let i = choose|i: int| 0 <= i < items.len() && items[i].id@ == id;
        assert(item_id_texts(items)[i] == id);
    }
}

/// The set of texts of a list holds exactly the texts the list holds.
proof fn lemma_text_set(list: Seq<String>, t: Seq<char>)
    ensures
        texts(list).to_set().contains(t) <==> lists_text(list, t),
{
    if texts(list).to_set().contains(t) {
        let i = choose|i: int| 0 <= i < texts(list).len() && texts(list)[i] == t;
        assert(list[i]@ == t);
    }
    if lists_text(list, t) {
        let i = choose|i: int| 0 <= i < list.len() && list[i]@ == t;
        assert(texts(list)[i] == t);
    }
}

/// A save counts as no change only when it keeps the title, asks for exactly the decks,
/// tags and media the concept has (each requested one is there and each one there is
/// requested), and its cards already have the selected forms; adding or removing a deck,
/// a tag or an image is always a change.
pub proof fn lemma_unchanged_saves_keep_everything(
    current: ConceptDetail,
    current_media: Seq<String>,
    title: Seq<char>,
    deck_ids: Seq<String>,
    tag_ids: Seq<String>,
    content: ConceptContent,
    media_ids: Seq<String>,
    selection: RetrievalFormSelection,
)
    requires
        concept_same(current, current_media, title, deck_ids, tag_ids, content, media_ids, selection),
    ensures
        current.title@ == title,
        forall|id: Seq<char>| lists_text(tag_ids, id) <==> lists_item(current.tags@, id),
        forall|id: Seq<char>| lists_text(deck_ids, id) <==> lists_item(current.decks@, id),
        forall|id: Seq<char>| lists_text(media_ids, id) <==> lists_text(current_media, id),
        forms_match(current.cards@, selection),
{
    assert forall|id: Seq<char>| lists_text(tag_ids, id) <==> lists_item(current.tags@, id) by {
        lemma_item_id_set(current.tags@, id);
        lemma_text_set(tag_ids, id);
    }
    assert forall|id: Seq<char>| lists_text(deck_ids, id) <==> lists_item(current.decks@, id) by {
        lemma_item_id_set(current.decks@, id);
        lemma_text_set(deck_ids, id);
    }
    assert forall|id: Seq<char>| lists_text(media_ids, id) <==> lists_text(current_media, id) by {
        lemma_text_set(media_ids, id);
        lemma_text_set(current_media, id);
    }
}

} // verus!
