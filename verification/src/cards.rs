//! Which cards a concept has: the cards a new concept starts with, and the changes that
//! bring the cards of an existing concept in line with its selected retrieval forms.

use vstd::prelude::*;

use crate::error::{LibraryError, LibraryResult};
use crate::models::retrieval::{
    CardSummary, ClozeSettings, ExplainSettings, ImageOcclusionSettings, ProblemSettings,
    RetrievalFormKind, TypeAnswerSettings,
};
use crate::retrieval_forms::RetrievalFormConfiguration;
use crate::text::{has_text, lists_text, texts};

verus! {

/// The retrieval forms selected for a concept.
#[derive(Clone, Debug, PartialEq, Eq)]
pub struct RetrievalFormSelection {
    /// A standard recall card, without a template.
    pub include_standard_recall: bool,
    /// One recall card per template.
    pub template_ids: Vec<String>,
    pub explain: Option<ExplainSettings>,
    pub problem: Option<ProblemSettings>,
    pub type_answer: Option<TypeAnswerSettings>,
    /// One cloze card per cloze group of the content.
    pub cloze_group_ids: Vec<String>,
    /// One image occlusion card per occlusion group of the content.
    pub image_occlusion_group_ids: Vec<String>,
}

/// One change to the cards of a concept.
#[derive(Clone, Debug, PartialEq, Eq)]
pub enum CardChange {
    /// The card is deleted.
    Delete { card_id: String },
    /// A card is created, from a template or not.
    Create { template_id: Option<String>, form: RetrievalFormConfiguration },
    /// The card keeps its identity and gets new settings.
    Update { card_id: String, form: RetrievalFormConfiguration },
}

/// A selection that selects no retrieval form at all.
pub open spec fn selects_nothing(
    include_standard_recall: bool,
    template_count: nat,
    include_explain: bool,
    include_problem: bool,
    include_type_answer: bool,
    include_cloze: bool,
    include_image_occlusion: bool,
) -> bool {
    !include_standard_recall && !include_explain && !include_problem && !include_type_answer
        && !include_cloze && !include_image_occlusion && template_count == 0
}

/// A concept needs at least one retrieval form.
pub fn validate_retrieval_form_selection(
    include_standard_recall: bool,
    template_ids: &Vec<String>,
    include_explain: bool,
    include_problem: bool,
    include_type_answer: bool,
    include_cloze: bool,
    include_image_occlusion: bool,
) -> (r: LibraryResult<()>)
    ensures
        r is Err <==> selects_nothing(
            include_standard_recall,
            template_ids.len() as nat,
            include_explain,
            include_problem,
            include_type_answer,
            include_cloze,
            include_image_occlusion,
        ),
        r matches Err(e) ==> e is MissingRetrievalForm,
{
    if !include_standard_recall && !include_explain && !include_problem && !include_type_answer
        && !include_cloze && !include_image_occlusion && template_ids.len() == 0 {
        return Err(LibraryError::MissingRetrievalForm);
    }
    Ok(())
}

/// The card keeps its place under the selection.
pub open spec fn is_retained(card: CardSummary, selection: RetrievalFormSelection) -> bool {
    match card.retrieval_kind {
        RetrievalFormKind::Recall => match card.template {
            Some(t) => lists_text(selection.template_ids@, t.id@),
            None => selection.include_standard_recall,
        },
        RetrievalFormKind::TypeAnswer => selection.type_answer is Some,
        RetrievalFormKind::Explain => selection.explain is Some,
        RetrievalFormKind::Problem => selection.problem is Some,
        RetrievalFormKind::Cloze => card.cloze matches Some(c) && lists_text(
            selection.cloze_group_ids@,
            c.group_id@,
        ),
        RetrievalFormKind::ImageOcclusion => card.image_occlusion matches Some(o) && lists_text(
            selection.image_occlusion_group_ids@,
            o.group_id@,
        ),
    }
}

/// The deletions of the cards that the selection no longer keeps, in card order.
pub open spec fn deletions(cards: Seq<CardSummary>, selection: RetrievalFormSelection) -> Seq<CardChange>
    decreases cards.len(),
{
    if cards.len() == 0 {
        Seq::empty()
    } else {
        deletions(cards.drop_last(), selection) + if is_retained(cards.last(), selection) {
            Seq::empty()
        } else {
            seq![CardChange::Delete { card_id: cards.last().id }]
        }
    }
}

/// Some card is a standard recall card.
pub open spec fn has_standard_recall(cards: Seq<CardSummary>) -> bool {
    exists|i: int|
        0 <= i < cards.len() && cards[i].retrieval_kind == RetrievalFormKind::Recall
            && #[trigger] cards[i].template is None
}

/// The position of the first card of `kind` at or after `from`.
pub open spec fn first_of_kind(cards: Seq<CardSummary>, kind: RetrievalFormKind, from: int) -> Option<int>
    decreases cards.len() - from,
{
    if from < 0 || from >= cards.len() {
        None
    } else if cards[from].retrieval_kind == kind {
        Some(from)
    } else {
        first_of_kind(cards, kind, from + 1)
    }
}

/// The card already has exactly these explain settings.
pub open spec fn has_explain(card: CardSummary, settings: ExplainSettings) -> bool {
    card.explain matches Some(e) && e.focus == settings.focus && texts(e.key_points@) == texts(
        settings.key_points@,
    )
}

/// The card already has exactly these problem settings.
pub open spec fn has_problem(card: CardSummary, settings: ProblemSettings) -> bool {
    card.problem matches Some(p) && texts(p.checkpoints@) == texts(settings.checkpoints@)
}

/// The card already has exactly these type-answer settings.
pub open spec fn has_type_answer(card: CardSummary, settings: TypeAnswerSettings) -> bool {
    card.type_answer matches Some(t) && texts(t.accepted_answers@) == texts(
        settings.accepted_answers@,
    )
}

/// The explain card is created, or updated when its settings differ.
pub open spec fn explain_change(cards: Seq<CardSummary>, wanted: Option<ExplainSettings>) -> Seq<
    CardChange,
> {
    match (first_of_kind(cards, RetrievalFormKind::Explain, 0), wanted) {
        (None, Some(s)) => seq![
            CardChange::Create { template_id: None, form: RetrievalFormConfiguration::Explain(s) },
        ],
        (Some(i), Some(s)) => if has_explain(cards[i], s) {
            Seq::empty()
        } else {
            seq![
                CardChange::Update {
                    card_id: cards[i].id,
                    form: RetrievalFormConfiguration::Explain(s),
                },
            ]
        },
        _ => Seq::empty(),
    }
}

/// The problem card is created, or updated when its settings differ.
pub open spec fn problem_change(cards: Seq<CardSummary>, wanted: Option<ProblemSettings>) -> Seq<
    CardChange,
> {
    match (first_of_kind(cards, RetrievalFormKind::Problem, 0), wanted) {
        (None, Some(s)) => seq![
            CardChange::Create { template_id: None, form: RetrievalFormConfiguration::Problem(s) },
        ],
        (Some(i), Some(s)) => if has_problem(cards[i], s) {
            Seq::empty()
        } else {
            seq![
                CardChange::Update {
                    card_id: cards[i].id,
                    form: RetrievalFormConfiguration::Problem(s),
                },
            ]
        },
        _ => Seq::empty(),
    }
}

/// The type-answer card is created, or updated when its settings differ.
pub open spec fn type_answer_change(
    cards: Seq<CardSummary>,
    wanted: Option<TypeAnswerSettings>,
) -> Seq<CardChange> {
    match (first_of_kind(cards, RetrievalFormKind::TypeAnswer, 0), wanted) {
        (None, Some(s)) => seq![
            CardChange::Create {
                template_id: None,
                form: RetrievalFormConfiguration::TypeAnswer(s),
            },
        ],
        (Some(i), Some(s)) => if has_type_answer(cards[i], s) {
            Seq::empty()
        } else {
            seq![
                CardChange::Update {
                    card_id: cards[i].id,
                    form: RetrievalFormConfiguration::TypeAnswer(s),
                },
            ]
        },
        _ => Seq::empty(),
    }
}

/// Some card asks about the cloze group `group`.
pub open spec fn has_cloze_group(cards: Seq<CardSummary>, group: Seq<char>) -> bool {
    exists|i: int| 0 <= i < cards.len() && (#[trigger] cards[i].cloze matches Some(c) && c.group_id@ == group)
}

/// Some card asks about the occlusion group `group`.
pub open spec fn has_occlusion_group(cards: Seq<CardSummary>, group: Seq<char>) -> bool {
    exists|i: int|
        0 <= i < cards.len() && (#[trigger] cards[i].image_occlusion matches Some(o) && o.group_id@
            == group)
}

/// Some card was made from the template `template`.
pub open spec fn has_template(cards: Seq<CardSummary>, template: Seq<char>) -> bool {
    exists|i: int| 0 <= i < cards.len() && (#[trigger] cards[i].template matches Some(t) && t.id@ == template)
}

/// A cloze card for each listed group that no card asks about yet, in list order.
pub open spec fn cloze_creations(cards: Seq<CardSummary>, groups: Seq<String>) -> Seq<CardChange>
    decreases groups.len(),
{
    if groups.len() == 0 {
        Seq::empty()
    } else {
        cloze_creations(cards, groups.drop_last()) + if has_cloze_group(cards, groups.last()@) {
            Seq::empty()
        } else {
            seq![cloze_card(groups.last())]
        }
    }
}

/// An occlusion card for each listed group that no card asks about yet, in list order.
pub open spec fn occlusion_creations(cards: Seq<CardSummary>, groups: Seq<String>) -> Seq<CardChange>
    decreases groups.len(),
{
    if groups.len() == 0 {
        Seq::empty()
    } else {
        occlusion_creations(cards, groups.drop_last()) + if has_occlusion_group(
            cards,
            groups.last()@,
        ) {
            Seq::empty()
        } else {
            seq![occlusion_card(groups.last())]
        }
    }
}

/// A recall card for each listed template that no card was made from yet, in list order.
pub open spec fn template_creations(cards: Seq<CardSummary>, templates: Seq<String>) -> Seq<CardChange>
    decreases templates.len(),
{
    if templates.len() == 0 {
        Seq::empty()
    } else {
        template_creations(cards, templates.drop_last()) + if has_template(
            cards,
            templates.last()@,
        ) {
            Seq::empty()
        } else {
            seq![template_card(templates.last())]
        }
    }
}

/// A new cloze card for a group.
pub open spec fn cloze_card(group: String) -> CardChange {
    CardChange::Create {
        template_id: None,
        form: RetrievalFormConfiguration::Cloze(ClozeSettings { group_id: group }),
    }
}

/// A new image occlusion card for a group.
pub open spec fn occlusion_card(group: String) -> CardChange {
    CardChange::Create {
        template_id: None,
        form: RetrievalFormConfiguration::ImageOcclusion(ImageOcclusionSettings { group_id: group }),
    }
}

/// A new recall card made from a template.
pub open spec fn template_card(template: String) -> CardChange {
    CardChange::Create { template_id: Some(template), form: RetrievalFormConfiguration::Recall }
}

/// A new standard recall card.
pub open spec fn standard_recall_card() -> CardChange {
    CardChange::Create { template_id: None, form: RetrievalFormConfiguration::Recall }
}

/// The changes that bring the cards of a concept in line with a selection: the cards no
/// longer selected are deleted; then, in this order, a standard recall card is created
/// if selected and missing, the explain, problem and type-answer cards are created or
/// updated, and cards are created for the new cloze groups, occlusion groups and
/// templates.
pub open spec fn planned_changes(cards: Seq<CardSummary>, selection: RetrievalFormSelection) -> Seq<
    CardChange,
> {
    deletions(cards, selection) + (if selection.include_standard_recall && !has_standard_recall(
        cards,
    ) {
        seq![standard_recall_card()]
    } else {
        Seq::empty()
    }) + explain_change(cards, selection.explain) + problem_change(cards, selection.problem)
        + type_answer_change(cards, selection.type_answer) + cloze_creations(
        cards,
        selection.cloze_group_ids@,
    ) + occlusion_creations(cards, selection.image_occlusion_group_ids@) + template_creations(
        cards,
        selection.template_ids@,
    )
}

/// Whether the card is kept under the selection.
fn card_is_retained(card: &CardSummary, selection: &RetrievalFormSelection) -> (r: bool)
    ensures
        r == is_retained(*card, *selection),
{
    match card.retrieval_kind {
        RetrievalFormKind::Recall => match &card.template {
            Some(t) => has_text(&selection.template_ids, &t.id),
            None => selection.include_standard_recall,
        },
        RetrievalFormKind::TypeAnswer => selection.type_answer.is_some(),
        RetrievalFormKind::Explain => selection.explain.is_some(),
        RetrievalFormKind::Problem => selection.problem.is_some(),
        RetrievalFormKind::Cloze => match &card.cloze {
            Some(c) => has_text(&selection.cloze_group_ids, &c.group_id),
            None => false,
        },
        RetrievalFormKind::ImageOcclusion => match &card.image_occlusion {
            Some(o) => has_text(&selection.image_occlusion_group_ids, &o.group_id),
            None => false,
        },
    }
}

/// Whether two lists of strings hold the same texts in the same order.
pub fn same_texts(a: &Vec<String>, b: &Vec<String>) -> (r: bool)
    ensures
        r == (texts(a@) == texts(b@)),
{
    if a.len() != b.len() {
        proof {
            assert(texts(a@).len() != texts(b@).len());
        }
        return false;
    }
    let mut i: usize = 0;
    while i < a.len()
        invariant
            a.len() == b.len(),
            i <= a.len(),
            forall|j: int| 0 <= j < i ==> a@[j]@ == b@[j]@,
        decreases a.len() - i,
    {
        if a[i] != b[i] {
            proof {
                assert(texts(a@)[i as int] != texts(b@)[i as int]);
            }
            return false;
        }
        i = i + 1;
    }
    assert(texts(a@) =~= texts(b@));
    true
}

/// The position of the first card of `kind`.
fn find_first_of_kind(cards: &Vec<CardSummary>, kind: RetrievalFormKind) -> (r: Option<usize>)
    ensures
        r matches Some(i) ==> i < cards.len() && first_of_kind(cards@, kind, 0) == Some(i as int),
        r is None ==> first_of_kind(cards@, kind, 0) is None,
{
    let mut i: usize = 0;
    while i < cards.len()
        invariant
            i <= cards.len(),
            first_of_kind(cards@, kind, 0) == first_of_kind(cards@, kind, i as int),
        decreases cards.len() - i,
    {
        if cards[i].retrieval_kind == kind {
            return Some(i);
        }
        i = i + 1;
    }
    None
}

/// Whether some card is a standard recall card.
fn find_standard_recall(cards: &Vec<CardSummary>) -> (r: bool)
    ensures
        r == has_standard_recall(cards@),
{
    let mut i: usize = 0;
    while i < cards.len()
        invariant
            i <= cards.len(),
            forall|j: int|
                0 <= j < i ==> !(cards@[j].retrieval_kind == RetrievalFormKind::Recall
                    && #[trigger] cards@[j].template is None),
        decreases cards.len() - i,
    {
        if cards[i].retrieval_kind == RetrievalFormKind::Recall && cards[i].template.is_none() {
            return true;
        }
        i = i + 1;
    }
    false
}

/// Whether some card asks about the cloze group.
fn find_cloze_group(cards: &Vec<CardSummary>, group: &String) -> (r: bool)
    ensures
        r == has_cloze_group(cards@, group@),
{
    let mut i: usize = 0;
    while i < cards.len()
        invariant
            i <= cards.len(),
            forall|j: int|
                0 <= j < i ==> !(#[trigger] cards@[j].cloze matches Some(c) && c.group_id@
                    == group@),
        decreases cards.len() - i,
    {
        match &cards[i].cloze {
            Some(c) => {
                if c.group_id == *group {
                    return true;
                }
            },
            None => {},
        }
        i = i + 1;
    }
    false
}

/// Whether some card asks about the occlusion group.
fn find_occlusion_group(cards: &Vec<CardSummary>, group: &String) -> (r: bool)
    ensures
        r == has_occlusion_group(cards@, group@),
{
    let mut i: usize = 0;
    while i < cards.len()
        invariant
            i <= cards.len(),
            forall|j: int|
                0 <= j < i ==> !(#[trigger] cards@[j].image_occlusion matches Some(o)
                    && o.group_id@ == group@),
        decreases cards.len() - i,
    {
        match &cards[i].image_occlusion {
            Some(o) => {
                if o.group_id == *group {
                    return true;
                }
            },
            None => {},
        }
        i = i + 1;
    }
    false
}

/// Whether some card was made from the template.
fn find_template(cards: &Vec<CardSummary>, template: &String) -> (r: bool)
    ensures
        r == has_template(cards@, template@),
{
    let mut i: usize = 0;
    while i < cards.len()
        invariant
            i <= cards.len(),
            forall|j: int|
                0 <= j < i ==> !(#[trigger] cards@[j].template matches Some(t) && t.id@
                    == template@),
        decreases cards.len() - i,
    {
        match &cards[i].template {
            Some(t) => {
                if t.id == *template {
                    return true;
                }
            },
            None => {},
        }
        i = i + 1;
    }
    false
}

/// The changes that bring the cards of a concept in line with the selected retrieval
/// forms (see [`planned_changes`]).
#[verifier::spinoff_prover]
#[verifier::rlimit(40)]
pub fn retrieval_form_changes(cards: &Vec<CardSummary>, selection: RetrievalFormSelection) -> (r: Vec<
    CardChange,
>)
    ensures
        r@ == planned_changes(cards@, selection),
{
    let ghost sel = selection;
    let mut changes: Vec<CardChange> = Vec::new();
    let mut i: usize = 0;
    while i < cards.len()
        invariant
            i <= cards.len(),
            sel == selection,
            changes@ == deletions(cards@.take(i as int), sel),
        decreases cards.len() - i,
    {
        assert(cards@.take(i + 1).drop_last() =~= cards@.take(i as int));
        assert(cards@.take(i + 1).last() == cards@[i as int]);
        let ghost before = changes@;
        if !card_is_retained(&cards[i], &selection) {
            let id = cards[i].id.clone();
            changes.push(CardChange::Delete { card_id: id });
            assert(changes@ =~= before + seq![CardChange::Delete { card_id: cards@[i as int].id }]);
        } else {
            assert(changes@ =~= before + Seq::<CardChange>::empty());
        }
        i = i + 1;
    }
    assert(cards@.take(i as int) =~= cards@);
    let ghost after_deletions = changes@;
    if selection.include_standard_recall && !find_standard_recall(cards) {
        changes.push(
            CardChange::Create { template_id: None, form: RetrievalFormConfiguration::Recall },
        );
    }
    let ghost after_recall = changes@;
    let RetrievalFormSelection {
        include_standard_recall,
        template_ids,
        explain,
        problem,
        type_answer,
        cloze_group_ids,
        image_occlusion_group_ids,
    } = selection;
    match (find_first_of_kind(cards, RetrievalFormKind::Explain), explain) {
        (None, Some(s)) => {
            changes.push(
                CardChange::Create {
                    template_id: None,
                    form: RetrievalFormConfiguration::Explain(s),
                },
            );
        },
        (Some(k), Some(s)) => {
            let same = match &cards[k].explain {
                Some(e) => e.focus == s.focus && same_texts(&e.key_points, &s.key_points),
                None => false,
            };
            if !same {
                changes.push(
                    CardChange::Update {
                        card_id: cards[k].id.clone(),
                        form: RetrievalFormConfiguration::Explain(s),
                    },
                );
            }
        },
        _ => {},
    }
    assert(changes@ =~= after_recall + explain_change(cards@, sel.explain));
    let ghost after_explain = changes@;
    match (find_first_of_kind(cards, RetrievalFormKind::Problem), problem) {
        (None, Some(s)) => {
            changes.push(
                CardChange::Create {
                    template_id: None,
                    form: RetrievalFormConfiguration::Problem(s),
                },
            );
        },
        (Some(k), Some(s)) => {
            let same = match &cards[k].problem {
                Some(p) => same_texts(&p.checkpoints, &s.checkpoints),
                None => false,
            };
            if !same {
                changes.push(
                    CardChange::Update {
                        card_id: cards[k].id.clone(),
                        form: RetrievalFormConfiguration::Problem(s),
                    },
                );
            }
        },
        _ => {},
    }
    assert(changes@ =~= after_explain + problem_change(cards@, sel.problem));
    let ghost after_problem = changes@;
    match (find_first_of_kind(cards, RetrievalFormKind::TypeAnswer), type_answer) {
        (None, Some(s)) => {
            changes.push(
                CardChange::Create {
                    template_id: None,
                    form: RetrievalFormConfiguration::TypeAnswer(s),
                },
            );
        },
        (Some(k), Some(s)) => {
            let same = match &cards[k].type_answer {
                Some(t) => same_texts(&t.accepted_answers, &s.accepted_answers),
                None => false,
            };
            if !same {
                changes.push(
                    CardChange::Update {
                        card_id: cards[k].id.clone(),
                        form: RetrievalFormConfiguration::TypeAnswer(s),
                    },
                );
            }
        },
        _ => {},
    }
    assert(changes@ =~= after_problem + type_answer_change(cards@, sel.type_answer));
    let ghost after_type_answer = changes@;
    let mut g: usize = 0;
    while g < cloze_group_ids.len()
        invariant
            g <= cloze_group_ids.len(),
            changes@ == after_type_answer + cloze_creations(cards@, cloze_group_ids@.take(g as int)),
        decreases cloze_group_ids.len() - g,
    {
        assert(cloze_group_ids@.take(g + 1).drop_last() =~= cloze_group_ids@.take(g as int));
        if !find_cloze_group(cards, &cloze_group_ids[g]) {
            changes.push(
                CardChange::Create {
                    template_id: None,
                    form: RetrievalFormConfiguration::Cloze(
                        ClozeSettings { group_id: cloze_group_ids[g].clone() },
                    ),
                },
            );
        }
        g = g + 1;
    }
    assert(cloze_group_ids@.take(g as int) =~= cloze_group_ids@);
    let ghost after_cloze = changes@;
    let mut g: usize = 0;
    while g < image_occlusion_group_ids.len()
        invariant
            g <= image_occlusion_group_ids.len(),
            changes@ == after_cloze + occlusion_creations(
                cards@,
                image_occlusion_group_ids@.take(g as int),
            ),
        decreases image_occlusion_group_ids.len() - g,
    {
        assert(image_occlusion_group_ids@.take(g + 1).drop_last()
            =~= image_occlusion_group_ids@.take(g as int));
        if !find_occlusion_group(cards, &image_occlusion_group_ids[g]) {
            changes.push(
                CardChange::Create {
                    template_id: None,
                    form: RetrievalFormConfiguration::ImageOcclusion(
                        ImageOcclusionSettings { group_id: image_occlusion_group_ids[g].clone() },
                    ),
                },
            );
        }
        g = g + 1;
    }
    assert(image_occlusion_group_ids@.take(g as int) =~= image_occlusion_group_ids@);
    let ghost after_occlusion = changes@;
    let mut t: usize = 0;
    while t < template_ids.len()
        invariant
            t <= template_ids.len(),
            changes@ == after_occlusion + template_creations(cards@, template_ids@.take(t as int)),
        decreases template_ids.len() - t,
    {
        assert(template_ids@.take(t + 1).drop_last() =~= template_ids@.take(t as int));
        if !find_template(cards, &template_ids[t]) {
            changes.push(
                CardChange::Create {
                    template_id: Some(template_ids[t].clone()),
                    form: RetrievalFormConfiguration::Recall,
                },
            );
        }
        t = t + 1;
    }
    assert(template_ids@.take(t as int) =~= template_ids@);
    changes
}

/// The cards a new concept starts with, in creation order: a standard recall card if
/// selected, the type-answer, explain and problem cards if selected, a cloze card per
/// cloze group, an occlusion card per occlusion group and a recall card per template.
pub open spec fn initial_changes(selection: RetrievalFormSelection) -> Seq<CardChange> {
    (if selection.include_standard_recall {
        seq![standard_recall_card()]
    } else {
        Seq::empty()
    }) + (match selection.type_answer {
        Some(s) => seq![
            CardChange::Create {
                template_id: None,
                form: RetrievalFormConfiguration::TypeAnswer(s),
            },
        ],
        None => Seq::empty(),
    }) + (match selection.explain {
        Some(s) => seq![
            CardChange::Create { template_id: None, form: RetrievalFormConfiguration::Explain(s) },
        ],
        None => Seq::empty(),
    }) + (match selection.problem {
        Some(s) => seq![
            CardChange::Create { template_id: None, form: RetrievalFormConfiguration::Problem(s) },
        ],
        None => Seq::empty(),
    }) + selection.cloze_group_ids@.map_values(|g: String| cloze_card(g))
        + selection.image_occlusion_group_ids@.map_values(|g: String| occlusion_card(g))
        + selection.template_ids@.map_values(|t: String| template_card(t))
}

/// The cards a new concept starts with (see [`initial_changes`]).
pub fn initial_cards(selection: RetrievalFormSelection) -> (r: Vec<CardChange>)
    ensures
        r@ == initial_changes(selection),
{
    let ghost sel = selection;
    let RetrievalFormSelection {
        include_standard_recall,
        template_ids,
        explain,
        problem,
        type_answer,
        cloze_group_ids,
        image_occlusion_group_ids,
    } = selection;
    let mut changes: Vec<CardChange> = Vec::new();
    if include_standard_recall {
        changes.push(
            CardChange::Create { template_id: None, form: RetrievalFormConfiguration::Recall },
        );
    }
    if let Some(s) = type_answer {
        changes.push(
            CardChange::Create { template_id: None, form: RetrievalFormConfiguration::TypeAnswer(s) },
        );
    }
    if let Some(s) = explain {
        changes.push(
            CardChange::Create { template_id: None, form: RetrievalFormConfiguration::Explain(s) },
        );
    }
    if let Some(s) = problem {
        changes.push(
            CardChange::Create { template_id: None, form: RetrievalFormConfiguration::Problem(s) },
        );
    }
    let ghost fixed = changes@;
    let mut g: usize = 0;
    while g < cloze_group_ids.len()
        invariant
            g <= cloze_group_ids.len(),
            changes@ == fixed + cloze_group_ids@.take(g as int).map_values(
                |c: String| cloze_card(c),
            ),
        decreases cloze_group_ids.len() - g,
    {
        let ghost before = changes@;
        changes.push(
            CardChange::Create {
                template_id: None,
                form: RetrievalFormConfiguration::Cloze(
                    ClozeSettings { group_id: cloze_group_ids[g].clone() },
                ),
            },
        );
        assert(cloze_group_ids@.take(g + 1).map_values(|c: String| cloze_card(c))
            =~= cloze_group_ids@.take(g as int).map_values(|c: String| cloze_card(c)).push(
            cloze_card(cloze_group_ids@[g as int]),
        ));
        g = g + 1;
    }
    assert(cloze_group_ids@.take(g as int) =~= cloze_group_ids@);
    let ghost with_cloze = changes@;
    let mut g: usize = 0;
    while g < image_occlusion_group_ids.len()
        invariant
            g <= image_occlusion_group_ids.len(),
            changes@ == with_cloze + image_occlusion_group_ids@.take(g as int).map_values(
                |o: String| occlusion_card(o),
            ),
        decreases image_occlusion_group_ids.len() - g,
    {
        changes.push(
            CardChange::Create {
                template_id: None,
                form: RetrievalFormConfiguration::ImageOcclusion(
                    ImageOcclusionSettings { group_id: image_occlusion_group_ids[g].clone() },
                ),
            },
        );
        assert(image_occlusion_group_ids@.take(g + 1).map_values(|o: String| occlusion_card(o))
            =~= image_occlusion_group_ids@.take(g as int).map_values(
            |o: String| occlusion_card(o),
        ).push(occlusion_card(image_occlusion_group_ids@[g as int])));
        g = g + 1;
    }
    assert(image_occlusion_group_ids@.take(g as int) =~= image_occlusion_group_ids@);
    let ghost with_occlusion = changes@;
    let mut t: usize = 0;
    while t < template_ids.len()
        invariant
            t <= template_ids.len(),
            changes@ == with_occlusion + template_ids@.take(t as int).map_values(
                |x: String| template_card(x),
            ),
        decreases template_ids.len() - t,
    {
        changes.push(
            CardChange::Create {
                template_id: Some(template_ids[t].clone()),
                form: RetrievalFormConfiguration::Recall,
            },
        );
        assert(template_ids@.take(t + 1).map_values(|x: String| template_card(x))
            =~= template_ids@.take(t as int).map_values(|x: String| template_card(x)).push(
            template_card(template_ids@[t as int]),
        ));
        t = t + 1;
    }
    assert(template_ids@.take(t as int) =~= template_ids@);
    assert(changes@ =~= initial_changes(sel));
    changes
}

/// The explain settings of the first card that has some, at or after `from`.
pub open spec fn first_explain(cards: Seq<CardSummary>, from: int) -> Option<ExplainSettings>
    decreases cards.len() - from,
{
    if from < 0 || from >= cards.len() {
        None
    } else if cards[from].explain is Some {
        cards[from].explain
    } else {
        first_explain(cards, from + 1)
    }
}

/// The problem settings of the first card that has some, at or after `from`.
pub open spec fn first_problem(cards: Seq<CardSummary>, from: int) -> Option<ProblemSettings>
    decreases cards.len() - from,
{
    if from < 0 || from >= cards.len() {
        None
    } else if cards[from].problem is Some {
        cards[from].problem
    } else {
        first_problem(cards, from + 1)
    }
}

/// The type-answer settings of the first card that has some, at or after `from`.
pub open spec fn first_type_answer(cards: Seq<CardSummary>, from: int) -> Option<TypeAnswerSettings>
    decreases cards.len() - from,
{
    if from < 0 || from >= cards.len() {
        None
    } else if cards[from].type_answer is Some {
        cards[from].type_answer
    } else {
        first_type_answer(cards, from + 1)
    }
}

/// Two optional explain settings are equal.
pub open spec fn same_explain(a: Option<ExplainSettings>, b: Option<ExplainSettings>) -> bool {
    match (a, b) {
        (None, None) => true,
        (Some(x), Some(y)) => x.focus == y.focus && texts(x.key_points@) == texts(y.key_points@),
        _ => false,
    }
}

/// Two optional problem settings are equal.
pub open spec fn same_problem(a: Option<ProblemSettings>, b: Option<ProblemSettings>) -> bool {
    match (a, b) {
        (None, None) => true,
        (Some(x), Some(y)) => texts(x.checkpoints@) == texts(y.checkpoints@),
        _ => false,
    }
}

/// Two optional type-answer settings are equal.
pub open spec fn same_type_answer(a: Option<TypeAnswerSettings>, b: Option<TypeAnswerSettings>) -> bool {
    match (a, b) {
        (None, None) => true,
        (Some(x), Some(y)) => texts(x.accepted_answers@) == texts(y.accepted_answers@),
        _ => false,
    }
}

/// The cloze groups the cards ask about.
pub open spec fn cloze_groups_of(cards: Seq<CardSummary>) -> Set<Seq<char>> {
    Set::new(|g: Seq<char>| has_cloze_group(cards, g))
}

/// The occlusion groups the cards ask about.
pub open spec fn occlusion_groups_of(cards: Seq<CardSummary>) -> Set<Seq<char>> {
    Set::new(|g: Seq<char>| has_occlusion_group(cards, g))
}

/// The templates the cards were made from.
pub open spec fn templates_of(cards: Seq<CardSummary>) -> Set<Seq<char>> {
    Set::new(|t: Seq<char>| has_template(cards, t))
}

/// The cards already have exactly the selected retrieval forms: the standard recall card,
/// the explain, problem and type-answer settings, and the sets of cloze groups, occlusion
/// groups and templates.
pub open spec fn forms_match(cards: Seq<CardSummary>, selection: RetrievalFormSelection) -> bool {
    &&& has_standard_recall(cards) == selection.include_standard_recall
    &&& same_explain(first_explain(cards, 0), selection.explain)
    &&& same_problem(first_problem(cards, 0), selection.problem)
    &&& same_type_answer(first_type_answer(cards, 0), selection.type_answer)
    &&& cloze_groups_of(cards) == texts(selection.cloze_group_ids@).to_set()
    &&& occlusion_groups_of(cards) == texts(selection.image_occlusion_group_ids@).to_set()
    &&& templates_of(cards) == texts(selection.template_ids@).to_set()
}

/// The first card at or after `from` that has explain settings, and its settings.
fn find_first_explain(cards: &Vec<CardSummary>) -> (r: Option<usize>)
    ensures
        r matches Some(i) ==> i < cards.len() && cards@[i as int].explain is Some && first_explain(cards@, 0) == cards@[i as int].explain,
        r is None ==> first_explain(cards@, 0) is None,
{
    let mut i: usize = 0;
    while i < cards.len()
        invariant
            i <= cards.len(),
            first_explain(cards@, 0) == first_explain(cards@, i as int),
        decreases cards.len() - i,
    {
        if cards[i].explain.is_some() {
            return Some(i);
        }
        i = i + 1;
    }
    None
}

/// The first card that has problem settings.
fn find_first_problem(cards: &Vec<CardSummary>) -> (r: Option<usize>)
    ensures
        r matches Some(i) ==> i < cards.len() && cards@[i as int].problem is Some && first_problem(cards@, 0) == cards@[i as int].problem,
        r is None ==> first_problem(cards@, 0) is None,
{
    let mut i: usize = 0;
    while i < cards.len()
        invariant
            i <= cards.len(),
            first_problem(cards@, 0) == first_problem(cards@, i as int),
        decreases cards.len() - i,
    {
        if cards[i].problem.is_some() {
            return Some(i);
        }
        i = i + 1;
    }
    None
}

/// The first card that has type-answer settings.
fn find_first_type_answer(cards: &Vec<CardSummary>) -> (r: Option<usize>)
    ensures
        r matches Some(i) ==> i < cards.len() && cards@[i as int].type_answer is Some && first_type_answer(cards@, 0) == cards@[i as int].type_answer,
        r is None ==> first_type_answer(cards@, 0) is None,
{
    let mut i: usize = 0;
    while i < cards.len()
        invariant
            i <= cards.len(),
            first_type_answer(cards@, 0) == first_type_answer(cards@, i as int),
        decreases cards.len() - i,
    {
        if cards[i].type_answer.is_some() {
            return Some(i);
        }
        i = i + 1;
    }
    None
}

/// Whether every listed cloze group is asked about by some card.
fn all_cloze_groups_present(cards: &Vec<CardSummary>, groups: &Vec<String>) -> (r: bool)
    ensures
        r == (forall|j: int| 0 <= j < groups.len() ==> has_cloze_group(cards@, #[trigger] groups@[j]@)),
{
    let mut j: usize = 0;
    while j < groups.len()
        invariant
            j <= groups.len(),
            forall|k: int| 0 <= k < j ==> has_cloze_group(cards@, #[trigger] groups@[k]@),
        decreases groups.len() - j,
    {
        if !find_cloze_group(cards, &groups[j]) {
            return false;
        }
        j = j + 1;
    }
    true
}

/// Whether every listed occlusion group is asked about by some card.
fn all_occlusion_groups_present(cards: &Vec<CardSummary>, groups: &Vec<String>) -> (r: bool)
    ensures
        r == (forall|j: int| 0 <= j < groups.len() ==> has_occlusion_group(cards@, #[trigger] groups@[j]@)),
{
    let mut j: usize = 0;
    while j < groups.len()
        invariant
            j <= groups.len(),
            forall|k: int| 0 <= k < j ==> has_occlusion_group(cards@, #[trigger] groups@[k]@),
        decreases groups.len() - j,
    {
        if !find_occlusion_group(cards, &groups[j]) {
            return false;
        }
        j = j + 1;
    }
    true
}

/// Whether every listed template has a card made from it.
fn all_templates_present(cards: &Vec<CardSummary>, templates: &Vec<String>) -> (r: bool)
    ensures
        r == (forall|j: int| 0 <= j < templates.len() ==> has_template(cards@, #[trigger] templates@[j]@)),
{
    let mut j: usize = 0;
    while j < templates.len()
        invariant
            j <= templates.len(),
            forall|k: int| 0 <= k < j ==> has_template(cards@, #[trigger] templates@[k]@),
        decreases templates.len() - j,
    {
        if !find_template(cards, &templates[j]) {
            return false;
        }
        j = j + 1;
    }
    true
}

/// Whether every card's cloze group, occlusion group and template is selected.
fn all_card_groups_selected(cards: &Vec<CardSummary>, selection: &RetrievalFormSelection) -> (r: bool)
    ensures
        r == (forall|i: int| #![trigger cards@[i]] 0 <= i < cards.len() ==> {
            &&& (cards@[i].cloze matches Some(c) ==> lists_text(selection.cloze_group_ids@, c.group_id@))
            &&& (cards@[i].image_occlusion matches Some(o) ==> lists_text(selection.image_occlusion_group_ids@, o.group_id@))
            &&& (cards@[i].template matches Some(t) ==> lists_text(selection.template_ids@, t.id@))
        }),
{
    let mut i: usize = 0;
    while i < cards.len()
        invariant
            i <= cards.len(),
            forall|k: int| #![trigger cards@[k]] 0 <= k < i ==> {
                &&& (cards@[k].cloze matches Some(c) ==> lists_text(selection.cloze_group_ids@, c.group_id@))
                &&& (cards@[k].image_occlusion matches Some(o) ==> lists_text(selection.image_occlusion_group_ids@, o.group_id@))
                &&& (cards@[k].template matches Some(t) ==> lists_text(selection.template_ids@, t.id@))
            },
        decreases cards.len() - i,
    {
        match &cards[i].cloze {
            Some(c) => {
                if !has_text(&selection.cloze_group_ids, &c.group_id) {
                    return false;
                }
            },
            None => {},
        }
        match &cards[i].image_occlusion {
            Some(o) => {
                if !has_text(&selection.image_occlusion_group_ids, &o.group_id) {
                    return false;
                }
            },
            None => {},
        }
        match &cards[i].template {
            Some(t) => {
                if !has_text(&selection.template_ids, &t.id) {
                    return false;
                }
            },
            None => {},
        }
        i = i + 1;
    }
    true
}

/// Whether the cards already have exactly the selected retrieval forms (see
/// [`forms_match`]).
pub fn retrieval_forms_unchanged(cards: &Vec<CardSummary>, selection: &RetrievalFormSelection) -> (r: bool)
    ensures
        r == forms_match(cards@, *selection),
{
    let recall_same = find_standard_recall(cards) == selection.include_standard_recall;
    let explain_same = match (find_first_explain(cards), &selection.explain) {
        (None, None) => true,
        (Some(i), Some(s)) => match &cards[i].explain {
            Some(e) => e.focus == s.focus && same_texts(&e.key_points, &s.key_points),
            None => false,
        },
        _ => false,
    };
    let problem_same = match (find_first_problem(cards), &selection.problem) {
        (None, None) => true,
        (Some(i), Some(s)) => match &cards[i].problem {
            Some(p) => same_texts(&p.checkpoints, &s.checkpoints),
            None => false,
        },
        _ => false,
    };
    let type_answer_same = match (find_first_type_answer(cards), &selection.type_answer) {
        (None, None) => true,
        (Some(i), Some(s)) => match &cards[i].type_answer {
            Some(t) => same_texts(&t.accepted_answers, &s.accepted_answers),
            None => false,
        },
        _ => false,
    };
    let forward = all_cloze_groups_present(cards, &selection.cloze_group_ids)
        && all_occlusion_groups_present(cards, &selection.image_occlusion_group_ids)
        && all_templates_present(cards, &selection.template_ids);
    let backward = all_card_groups_selected(cards, selection);
    proof {
        let c = cards@;
        let sel = *selection;
        let cs = texts(sel.cloze_group_ids@).to_set();
        let os = texts(sel.image_occlusion_group_ids@).to_set();
        let ts = texts(sel.template_ids@).to_set();
        if forward && backward {
            assert forall|g: Seq<char>| cloze_groups_of(c).contains(g) <==> cs.contains(g) by {
                if cloze_groups_of(c).contains(g) {
                    let i = choose|i: int| 0 <= i < c.len() && (#[trigger] c[i].cloze matches Some(x) && x.group_id@ == g);
                    let k = choose|k: int| 0 <= k < sel.cloze_group_ids@.len() && sel.cloze_group_ids@[k]@ == c[i].cloze->Some_0.group_id@;
                    assert(texts(sel.cloze_group_ids@)[k] == g);
                }
                if cs.contains(g) {
                    let k = choose|k: int| 0 <= k < texts(sel.cloze_group_ids@).len() && texts(sel.cloze_group_ids@)[k] == g;
                    assert(has_cloze_group(c, sel.cloze_group_ids@[k]@));
                }
            }
            assert forall|g: Seq<char>| occlusion_groups_of(c).contains(g) <==> os.contains(g) by {
                if occlusion_groups_of(c).contains(g) {
                    let i = choose|i: int| 0 <= i < c.len() && (#[trigger] c[i].image_occlusion matches Some(x) && x.group_id@ == g);
                    let k = choose|k: int| 0 <= k < sel.image_occlusion_group_ids@.len() && sel.image_occlusion_group_ids@[k]@ == c[i].image_occlusion->Some_0.group_id@;
                    assert(texts(sel.image_occlusion_group_ids@)[k] == g);
                }
                if os.contains(g) {
                    let k = choose|k: int| 0 <= k < texts(sel.image_occlusion_group_ids@).len() && texts(sel.image_occlusion_group_ids@)[k] == g;
                    assert(has_occlusion_group(c, sel.image_occlusion_group_ids@[k]@));
                }
            }
            assert forall|g: Seq<char>| templates_of(c).contains(g) <==> ts.contains(g) by {
                if templates_of(c).contains(g) {
                    let i = choose|i: int| 0 <= i < c.len() && (#[trigger] c[i].template matches Some(x) && x.id@ == g);
                    let k = choose|k: int| 0 <= k < sel.template_ids@.len() && sel.template_ids@[k]@ == c[i].template->Some_0.id@;
                    assert(texts(sel.template_ids@)[k] == g);
                }
                if ts.contains(g) {
                    let k = choose|k: int| 0 <= k < texts(sel.template_ids@).len() && texts(sel.template_ids@)[k] == g;
                    assert(has_template(c, sel.template_ids@[k]@));
                }
            }
            assert(cloze_groups_of(c) =~= cs);
            assert(occlusion_groups_of(c) =~= os);
            assert(templates_of(c) =~= ts);
        }
        if cloze_groups_of(c) == cs && occlusion_groups_of(c) == os && templates_of(c) == ts {
            assert forall|j: int| 0 <= j < sel.cloze_group_ids@.len() implies has_cloze_group(c, #[trigger] sel.cloze_group_ids@[j]@) by {
                assert(texts(sel.cloze_group_ids@)[j] == sel.cloze_group_ids@[j]@);
                assert(cs.contains(sel.cloze_group_ids@[j]@));
            }
            assert forall|j: int| 0 <= j < sel.image_occlusion_group_ids@.len() implies has_occlusion_group(c, #[trigger] sel.image_occlusion_group_ids@[j]@) by {
                assert(texts(sel.image_occlusion_group_ids@)[j] == sel.image_occlusion_group_ids@[j]@);
                assert(os.contains(sel.image_occlusion_group_ids@[j]@));
            }
            assert forall|j: int| 0 <= j < sel.template_ids@.len() implies has_template(c, #[trigger] sel.template_ids@[j]@) by {
                assert(texts(sel.template_ids@)[j] == sel.template_ids@[j]@);
                assert(ts.contains(sel.template_ids@[j]@));
            }
            assert forall|i: int| #![trigger c[i]] 0 <= i < c.len() implies {
                &&& (c[i].cloze matches Some(x) ==> lists_text(sel.cloze_group_ids@, x.group_id@))
                &&& (c[i].image_occlusion matches Some(o) ==> lists_text(sel.image_occlusion_group_ids@, o.group_id@))
                &&& (c[i].template matches Some(t) ==> lists_text(sel.template_ids@, t.id@))
            } by {
                if c[i].cloze is Some {
                    let g = c[i].cloze->Some_0.group_id@;
                    assert(has_cloze_group(c, g));
                    assert(cloze_groups_of(c).contains(g));
                    let k = choose|k: int| 0 <= k < texts(sel.cloze_group_ids@).len() && texts(sel.cloze_group_ids@)[k] == g;
                    assert(sel.cloze_group_ids@[k]@ == g);
                }
                if c[i].image_occlusion is Some {
                    let g = c[i].image_occlusion->Some_0.group_id@;
                    assert(has_occlusion_group(c, g));
                    assert(occlusion_groups_of(c).contains(g));
                    let k = choose|k: int| 0 <= k < texts(sel.image_occlusion_group_ids@).len() && texts(sel.image_occlusion_group_ids@)[k] == g;
                    assert(sel.image_occlusion_group_ids@[k]@ == g);
                }
                if c[i].template is Some {
                    let g = c[i].template->Some_0.id@;
                    assert(has_template(c, g));
                    assert(templates_of(c).contains(g));
                    let k = choose|k: int| 0 <= k < texts(sel.template_ids@).len() && texts(sel.template_ids@)[k] == g;
                    assert(sel.template_ids@[k]@ == g);
                }
            }
        }
    }
    recall_same && explain_same && problem_same && type_answer_same && forward && backward
}

/// Each card carries the settings of its own form and no others, as cards read back from
/// storage do: explain, problem and type-answer settings exactly on cards of those forms,
/// cloze and occlusion settings on cards of those forms, and templates only on recall cards.
pub open spec fn cards_consistent(cards: Seq<CardSummary>) -> bool {
    forall|i: int| #![trigger cards[i]] 0 <= i < cards.len() ==> {
        &&& (cards[i].retrieval_kind == RetrievalFormKind::Explain) == (cards[i].explain is Some)
        &&& (cards[i].retrieval_kind == RetrievalFormKind::Problem) == (cards[i].problem is Some)
        &&& (cards[i].retrieval_kind == RetrievalFormKind::TypeAnswer) == (cards[i].type_answer is Some)
        &&& (cards[i].retrieval_kind == RetrievalFormKind::Cloze ==> cards[i].cloze is Some)
        &&& (cards[i].retrieval_kind == RetrievalFormKind::ImageOcclusion ==> cards[i].image_occlusion is Some)
        &&& (cards[i].template is Some ==> cards[i].retrieval_kind == RetrievalFormKind::Recall)
    }
}

/// On consistent cards, the first card with explain settings is the first explain card.
proof fn lemma_first_explain_card(cards: Seq<CardSummary>, from: int)
    requires
        cards_consistent(cards),
        0 <= from,
    ensures
        first_explain(cards, from) == match first_of_kind(cards, RetrievalFormKind::Explain, from) {
            Some(i) => cards[i].explain,
            None => None,
        },
        first_of_kind(cards, RetrievalFormKind::Explain, from) matches Some(i) ==> from <= i < cards.len(),
    decreases cards.len() - from,
{
    if from < cards.len() {
        assert(cards[from] == cards[from]);
        lemma_first_explain_card(cards, from + 1);
    }
}

/// On consistent cards, the first card with problem settings is the first problem card.
proof fn lemma_first_problem_card(cards: Seq<CardSummary>, from: int)
    requires
        cards_consistent(cards),
        0 <= from,
    ensures
        first_problem(cards, from) == match first_of_kind(cards, RetrievalFormKind::Problem, from) {
            Some(i) => cards[i].problem,
            None => None,
        },
        first_of_kind(cards, RetrievalFormKind::Problem, from) matches Some(i) ==> from <= i < cards.len(),
    decreases cards.len() - from,
{
    if from < cards.len() {
        assert(cards[from] == cards[from]);
        lemma_first_problem_card(cards, from + 1);
    }
}

/// On consistent cards, the first card with type-answer settings is the first type-answer
/// card.
proof fn lemma_first_type_answer_card(cards: Seq<CardSummary>, from: int)
    requires
        cards_consistent(cards),
        0 <= from,
    ensures
        first_type_answer(cards, from) == match first_of_kind(cards, RetrievalFormKind::TypeAnswer, from) {
            Some(i) => cards[i].type_answer,
            None => None,
        },
        first_of_kind(cards, RetrievalFormKind::TypeAnswer, from) matches Some(i) ==> from <= i < cards.len(),
    decreases cards.len() - from,
{
    if from < cards.len() {
        assert(cards[from] == cards[from]);
        lemma_first_type_answer_card(cards, from + 1);
    }
}

/// When the first card with settings of a form is found, every card of that form has
/// settings that make the first search succeed.
proof fn lemma_first_settings_found(cards: Seq<CardSummary>, i: int, from: int)
    requires
        0 <= from <= i < cards.len(),
    ensures
        cards[i].explain is Some ==> first_explain(cards, from) is Some,
        cards[i].problem is Some ==> first_problem(cards, from) is Some,
        cards[i].type_answer is Some ==> first_type_answer(cards, from) is Some,
    decreases i - from,
{
    if from < i {
        lemma_first_settings_found(cards, i, from + 1);
    }
}

/// Under a matching selection every consistent card is kept.
proof fn lemma_matching_card_retained(cards: Seq<CardSummary>, selection: RetrievalFormSelection, i: int)
    requires
        cards_consistent(cards),
        forms_match(cards, selection),
        0 <= i < cards.len(),
    ensures
        is_retained(cards[i], selection),
{
    let card = cards[i];
    assert(cards[i] == cards[i]);
    lemma_first_settings_found(cards, i, 0);
    match card.retrieval_kind {
        RetrievalFormKind::Recall => {
            if card.template is Some {
                let t = card.template->Some_0.id@;
                assert(has_template(cards, t));
                assert(templates_of(cards).contains(t));
                let k = choose|k: int| 0 <= k < texts(selection.template_ids@).len() && texts(selection.template_ids@)[k] == t;
                assert(selection.template_ids@[k]@ == t);
            } else {
                assert(has_standard_recall(cards));
            }
        },
        RetrievalFormKind::Cloze => {
            let g = card.cloze->Some_0.group_id@;
            assert(has_cloze_group(cards, g));
            assert(cloze_groups_of(cards).contains(g));
            let k = choose|k: int| 0 <= k < texts(selection.cloze_group_ids@).len() && texts(selection.cloze_group_ids@)[k] == g;
            assert(selection.cloze_group_ids@[k]@ == g);
        },
        RetrievalFormKind::ImageOcclusion => {
            let g = card.image_occlusion->Some_0.group_id@;
            assert(has_occlusion_group(cards, g));
            assert(occlusion_groups_of(cards).contains(g));
            let k = choose|k: int| 0 <= k < texts(selection.image_occlusion_group_ids@).len() && texts(selection.image_occlusion_group_ids@)[k] == g;
            assert(selection.image_occlusion_group_ids@[k]@ == g);
        },
        _ => {},
    }
}

/// No card of a prefix is deleted when all of them are kept.
proof fn lemma_no_deletions(cards: Seq<CardSummary>, selection: RetrievalFormSelection, n: int)
    requires
        0 <= n <= cards.len(),
        forall|i: int| 0 <= i < n ==> is_retained(#[trigger] cards[i], selection),
    ensures
        deletions(cards.take(n), selection) == Seq::<CardChange>::empty(),
    decreases n,
{
    if n > 0 {
        lemma_no_deletions(cards, selection, n - 1);
        assert(cards.take(n).drop_last() =~= cards.take(n - 1));
        assert(cards.take(n).last() == cards[n - 1]);
    }
}

/// No group card is created when every listed group already has one.
proof fn lemma_no_group_creations(cards: Seq<CardSummary>, selection: RetrievalFormSelection, n: int, m: int, t: int)
    requires
        forms_match(cards, selection),
        0 <= n <= selection.cloze_group_ids@.len(),
        0 <= m <= selection.image_occlusion_group_ids@.len(),
        0 <= t <= selection.template_ids@.len(),
    ensures
        cloze_creations(cards, selection.cloze_group_ids@.take(n)) == Seq::<CardChange>::empty(),
        occlusion_creations(cards, selection.image_occlusion_group_ids@.take(m)) == Seq::<CardChange>::empty(),
        template_creations(cards, selection.template_ids@.take(t)) == Seq::<CardChange>::empty(),
    decreases n + m + t,
{
    if n > 0 {
        lemma_no_group_creations(cards, selection, n - 1, m, t);
        let g = selection.cloze_group_ids@[n - 1]@;
        assert(texts(selection.cloze_group_ids@)[n - 1] == g);
        assert(texts(selection.cloze_group_ids@).to_set().contains(g));
        assert(cloze_groups_of(cards).contains(g));
        assert(selection.cloze_group_ids@.take(n).drop_last() =~= selection.cloze_group_ids@.take(n - 1));
    }
    if m > 0 {
        lemma_no_group_creations(cards, selection, n, m - 1, t);
        let g = selection.image_occlusion_group_ids@[m - 1]@;
        assert(texts(selection.image_occlusion_group_ids@)[m - 1] == g);
        assert(texts(selection.image_occlusion_group_ids@).to_set().contains(g));
        assert(occlusion_groups_of(cards).contains(g));
        assert(selection.image_occlusion_group_ids@.take(m).drop_last() =~= selection.image_occlusion_group_ids@.take(m - 1));
    }
    if t > 0 {
        lemma_no_group_creations(cards, selection, n, m, t - 1);
        let g = selection.template_ids@[t - 1]@;
        assert(texts(selection.template_ids@)[t - 1] == g);
        assert(texts(selection.template_ids@).to_set().contains(g));
        assert(templates_of(cards).contains(g));
        assert(selection.template_ids@.take(t).drop_last() =~= selection.template_ids@.take(t - 1));
    }
}

/// Saving a concept whose cards already have exactly the selected retrieval forms changes
/// no card: nothing is deleted, created or updated.
pub proof fn lemma_unchanged_forms_plan_no_changes(cards: Seq<CardSummary>, selection: RetrievalFormSelection)
    requires
        cards_consistent(cards),
        forms_match(cards, selection),
    ensures
        planned_changes(cards, selection) == Seq::<CardChange>::empty(),
{
    assert forall|i: int| 0 <= i < cards.len() implies is_retained(#[trigger] cards[i], selection) by {
        lemma_matching_card_retained(cards, selection, i);
    }
    lemma_no_deletions(cards, selection, cards.len() as int);
    assert(cards.take(cards.len() as int) =~= cards);
    lemma_first_explain_card(cards, 0);
    lemma_first_problem_card(cards, 0);
    lemma_first_type_answer_card(cards, 0);
    lemma_no_group_creations(
        cards,
        selection,
        selection.cloze_group_ids@.len() as int,
        selection.image_occlusion_group_ids@.len() as int,
        selection.template_ids@.len() as int,
    );
    assert(selection.cloze_group_ids@.take(selection.cloze_group_ids@.len() as int) =~= selection.cloze_group_ids@);
    assert(selection.image_occlusion_group_ids@.take(selection.image_occlusion_group_ids@.len() as int) =~= selection.image_occlusion_group_ids@);
    assert(selection.template_ids@.take(selection.template_ids@.len() as int) =~= selection.template_ids@);
    assert(explain_change(cards, selection.explain) =~= Seq::<CardChange>::empty());
    assert(problem_change(cards, selection.problem) =~= Seq::<CardChange>::empty());
    assert(type_answer_change(cards, selection.type_answer) =~= Seq::<CardChange>::empty());
    assert(planned_changes(cards, selection) =~= Seq::<CardChange>::empty());
}

/// The change deletes the card with this identifier.
pub open spec fn deletes_card(change: CardChange, id: Seq<char>) -> bool {
    change matches CardChange::Delete { card_id } && card_id@ == id
}

/// Every deletion planned for the cards names a card that the selection no longer keeps.
proof fn lemma_deletions_name_dropped_cards(cards: Seq<CardSummary>, selection: RetrievalFormSelection, id: Seq<char>)
    requires
        exists|k: int| 0 <= k < deletions(cards, selection).len() && deletes_card(
            #[trigger] deletions(cards, selection)[k],
            id,
        ),
    ensures
        exists|j: int| 0 <= j < cards.len() && cards[j].id@ == id && !is_retained(#[trigger] cards[j], selection),
    decreases cards.len(),
{
    let rest = cards.drop_last();
    let earlier = deletions(rest, selection);
    let k = choose|k: int| 0 <= k < deletions(cards, selection).len() && deletes_card(
        #[trigger] deletions(cards, selection)[k],
        id,
    );
    if k < earlier.len() {
        assert(deletions(cards, selection)[k] == earlier[k]);
        lemma_deletions_name_dropped_cards(rest, selection, id);
        let j = choose|j: int| 0 <= j < rest.len() && rest[j].id@ == id && !is_retained(#[trigger] rest[j], selection);
        assert(cards[j] == rest[j]);
    } else {
        let last = cards.len() - 1;
        assert(cards[last] == cards.last());
        assert(!is_retained(cards[last], selection));
    }
}

/// The cards created for new cloze groups are creations only.
proof fn lemma_cloze_creations_create(cards: Seq<CardSummary>, groups: Seq<String>, k: int)
    requires
        0 <= k < cloze_creations(cards, groups).len(),
    ensures
        cloze_creations(cards, groups)[k] is Create,
    decreases groups.len(),
{
    let earlier = cloze_creations(cards, groups.drop_last());
    if k < earlier.len() {
        lemma_cloze_creations_create(cards, groups.drop_last(), k);
    }
}

/// The cards created for new occlusion groups are creations only.
proof fn lemma_occlusion_creations_create(cards: Seq<CardSummary>, groups: Seq<String>, k: int)
    requires
        0 <= k < occlusion_creations(cards, groups).len(),
    ensures
        occlusion_creations(cards, groups)[k] is Create,
    decreases groups.len(),
{
    let earlier = occlusion_creations(cards, groups.drop_last());
    if k < earlier.len() {
        lemma_occlusion_creations_create(cards, groups.drop_last(), k);
    }
}

/// The cards created for new templates are creations only.
proof fn lemma_template_creations_create(cards: Seq<CardSummary>, templates: Seq<String>, k: int)
    requires
        0 <= k < template_creations(cards, templates).len(),
    ensures
        template_creations(cards, templates)[k] is Create,
    decreases templates.len(),
{
    let earlier = template_creations(cards, templates.drop_last());
    if k < earlier.len() {
        lemma_template_creations_create(cards, templates.drop_last(), k);
    }
}

/// Changing the retrieval forms of a concept never deletes a card whose form stays
/// selected, so the schedule of every retained card is kept; the cards have distinct
/// identifiers.
pub proof fn lemma_selected_cards_are_never_deleted(
    cards: Seq<CardSummary>,
    selection: RetrievalFormSelection,
    i: int,
)
    requires
        0 <= i < cards.len(),
        forall|a: int, b: int| 0 <= a < b < cards.len() ==> #[trigger] cards[a].id@ != #[trigger] cards[b].id@,
        is_retained(cards[i], selection),
    ensures
        forall|k: int|
            0 <= k < planned_changes(cards, selection).len() ==> !deletes_card(
                #[trigger] planned_changes(cards, selection)[k],
                cards[i].id@,
            ),
{
    let plan = planned_changes(cards, selection);
    let dels = deletions(cards, selection);
    let recall = if selection.include_standard_recall && !has_standard_recall(cards) {
        seq![standard_recall_card()]
    } else {
        Seq::empty()
    };
    let singles = explain_change(cards, selection.explain) + problem_change(cards, selection.problem)
        + type_answer_change(cards, selection.type_answer);
    let clozes = cloze_creations(cards, selection.cloze_group_ids@);
    let occlusions = occlusion_creations(cards, selection.image_occlusion_group_ids@);
    let templates = template_creations(cards, selection.template_ids@);
    assert(plan =~= dels + recall + singles + clozes + occlusions + templates);
    assert forall|k: int| 0 <= k < plan.len() implies !deletes_card(#[trigger] plan[k], cards[i].id@) by {
        let id = cards[i].id@;
        let a = dels.len() as int;
        let b = a + recall.len();
        let c = b + singles.len();
        let d = c + clozes.len();
        let e = d + occlusions.len();
        if k < a {
            assert(plan[k] == dels[k]);
            if deletes_card(dels[k], id) {
                lemma_deletions_name_dropped_cards(cards, selection, id);
                let j = choose|j: int| 0 <= j < cards.len() && cards[j].id@ == id && !is_retained(#[trigger] cards[j], selection);
                if j < i {
                    assert(cards[j].id@ != cards[i].id@);
                } else if j > i {
                    assert(cards[i].id@ != cards[j].id@);
                }
            }
        } else if k < b {
            assert(plan[k] == recall[k - a]);
        } else if k < c {
            assert(plan[k] == singles[k - b]);
        } else if k < d {
            assert(plan[k] == clozes[k - c]);
            lemma_cloze_creations_create(cards, selection.cloze_group_ids@, k - c);
        } else if k < e {
            assert(plan[k] == occlusions[k - d]);
            lemma_occlusion_creations_create(cards, selection.image_occlusion_group_ids@, k - d);
        } else {
            assert(plan[k] == templates[k - e]);
            lemma_template_creations_create(cards, selection.template_ids@, k - e);
        }
    }
}

/// A creation that the initial cards may hold: a card of a selected form.
pub open spec fn creates_selected_form(selection: RetrievalFormSelection, change: CardChange) -> bool {
    match change {
        CardChange::Create { template_id, form } => match template_id {
            Some(t) => form == RetrievalFormConfiguration::Recall && selection.template_ids@.contains(t),
            None => match form {
                RetrievalFormConfiguration::Recall => selection.include_standard_recall,
                RetrievalFormConfiguration::TypeAnswer(s) => selection.type_answer == Some(s),
                RetrievalFormConfiguration::Explain(s) => selection.explain == Some(s),
                RetrievalFormConfiguration::Problem(s) => selection.problem == Some(s),
                RetrievalFormConfiguration::Cloze(c) => selection.cloze_group_ids@.contains(c.group_id),
                RetrievalFormConfiguration::ImageOcclusion(o) => selection.image_occlusion_group_ids@.contains(
                    o.group_id,
                ),
            },
        },
        _ => false,
    }
}

/// How many cards the selection asks for: one per selected form, group and template.
pub open spec fn selected_card_count(selection: RetrievalFormSelection) -> int {
    (if selection.include_standard_recall { 1int } else { 0int }) + (if selection.type_answer is Some {
        1int
    } else {
        0int
    }) + (if selection.explain is Some { 1int } else { 0int }) + (if selection.problem is Some {
        1int
    } else {
        0int
    }) + selection.cloze_group_ids@.len() + selection.image_occlusion_group_ids@.len()
        + selection.template_ids@.len()
}

/// A new concept starts with one creation for each selected form, cloze group, occlusion
/// group and template, and with nothing else: each initial change creates a card of a
/// selected form, and there are exactly as many as the selection asks for.
pub proof fn lemma_initial_cards_are_the_selected_forms(selection: RetrievalFormSelection)
    ensures
        selection.include_standard_recall ==> initial_changes(selection).contains(
            CardChange::Create { template_id: None, form: RetrievalFormConfiguration::Recall },
        ),
        selection.type_answer matches Some(s) ==> initial_changes(selection).contains(
            CardChange::Create { template_id: None, form: RetrievalFormConfiguration::TypeAnswer(s) },
        ),
        selection.explain matches Some(s) ==> initial_changes(selection).contains(
            CardChange::Create { template_id: None, form: RetrievalFormConfiguration::Explain(s) },
        ),
        selection.problem matches Some(s) ==> initial_changes(selection).contains(
            CardChange::Create { template_id: None, form: RetrievalFormConfiguration::Problem(s) },
        ),
        forall|q: int|
            0 <= q < selection.cloze_group_ids@.len() ==> initial_changes(selection).contains(
                CardChange::Create {
                    template_id: None,
                    form: RetrievalFormConfiguration::Cloze(ClozeSettings { group_id: #[trigger] selection.cloze_group_ids@[q] }),
                },
            ),
        forall|q: int|
            0 <= q < selection.image_occlusion_group_ids@.len() ==> initial_changes(selection).contains(
                CardChange::Create {
                    template_id: None,
                    form: RetrievalFormConfiguration::ImageOcclusion(
                        ImageOcclusionSettings { group_id: #[trigger] selection.image_occlusion_group_ids@[q] },
                    ),
                },
            ),
        forall|q: int|
            0 <= q < selection.template_ids@.len() ==> initial_changes(selection).contains(
                CardChange::Create {
                    template_id: Some(#[trigger] selection.template_ids@[q]),
                    form: RetrievalFormConfiguration::Recall,
                },
            ),
        forall|k: int|
            0 <= k < initial_changes(selection).len() ==> creates_selected_form(
                selection,
                #[trigger] initial_changes(selection)[k],
            ),
        initial_changes(selection).len() == selected_card_count(selection),
{
    let changes = initial_changes(selection);
    let recall = if selection.include_standard_recall {
        seq![standard_recall_card()]
    } else {
        Seq::empty()
    };
    let type_answer = match selection.type_answer {
        Some(s) => seq![CardChange::Create { template_id: None, form: RetrievalFormConfiguration::TypeAnswer(s) }],
        None => Seq::empty(),
    };
    let explain = match selection.explain {
        Some(s) => seq![CardChange::Create { template_id: None, form: RetrievalFormConfiguration::Explain(s) }],
        None => Seq::empty(),
    };
    let problem = match selection.problem {
        Some(s) => seq![CardChange::Create { template_id: None, form: RetrievalFormConfiguration::Problem(s) }],
        None => Seq::empty(),
    };
    let clozes = selection.cloze_group_ids@.map_values(|g: String| cloze_card(g));
    let occlusions = selection.image_occlusion_group_ids@.map_values(|g: String| occlusion_card(g));
    let templates = selection.template_ids@.map_values(|t: String| template_card(t));
    assert(changes =~= recall + type_answer + explain + problem + clozes + occlusions + templates);
    let a = recall.len() as int;
    let b = a + type_answer.len();
    let c = b + explain.len();
    let d = c + problem.len();
    let e = d + clozes.len();
    let f = e + occlusions.len();
    if selection.include_standard_recall {
        assert(changes[0] == recall[0]);
    }
    if selection.type_answer is Some {
        assert(changes[a] == type_answer[0]);
    }
    if selection.explain is Some {
        assert(changes[b] == explain[0]);
    }
    if selection.problem is Some {
        assert(changes[c] == problem[0]);
    }
    assert forall|q: int| 0 <= q < selection.cloze_group_ids@.len() implies changes.contains(
        CardChange::Create {
            template_id: None,
            form: RetrievalFormConfiguration::Cloze(ClozeSettings { group_id: #[trigger] selection.cloze_group_ids@[q] }),
        },
    ) by {
        assert(changes[d + q] == clozes[q]);
    }
    assert forall|q: int| 0 <= q < selection.image_occlusion_group_ids@.len() implies changes.contains(
        CardChange::Create {
            template_id: None,
            form: RetrievalFormConfiguration::ImageOcclusion(
                ImageOcclusionSettings { group_id: #[trigger] selection.image_occlusion_group_ids@[q] },
            ),
        },
    ) by {
        assert(changes[e + q] == occlusions[q]);
    }
    assert forall|q: int| 0 <= q < selection.template_ids@.len() implies changes.contains(
        CardChange::Create { template_id: Some(#[trigger] selection.template_ids@[q]), form: RetrievalFormConfiguration::Recall },
    ) by {
        assert(changes[f + q] == templates[q]);
    }
    assert forall|k: int| 0 <= k < changes.len() implies creates_selected_form(selection, #[trigger] changes[k]) by {
        if k < a {
            assert(changes[k] == recall[k]);
        } else if k < b {
            assert(changes[k] == type_answer[k - a]);
        } else if k < c {
            assert(changes[k] == explain[k - b]);
        } else if k < d {
            assert(changes[k] == problem[k - c]);
        } else if k < e {
            assert(changes[k] == clozes[k - d]);
            assert(selection.cloze_group_ids@[k - d] == selection.cloze_group_ids@[k - d]);
        } else if k < f {
            assert(changes[k] == occlusions[k - e]);
            assert(selection.image_occlusion_group_ids@[k - e] == selection.image_occlusion_group_ids@[k - e]);
        } else {
            assert(changes[k] == templates[k - f]);
            assert(selection.template_ids@[k - f] == selection.template_ids@[k - f]);
        }
    }
}

} // verus!
