//! What carrying out the planned card changes leaves: a model of how the store applies a
//! change, and the law that applying the plan gives a concept exactly its selected forms.

use vstd::prelude::*;

use crate::cards::{
    cloze_card, cloze_creations, deletions, explain_change, first_explain, first_of_kind,
    first_problem, first_type_answer, forms_match, has_cloze_group, same_explain, same_problem,
    same_type_answer, cloze_groups_of, occlusion_groups_of, templates_of,
    has_explain, has_occlusion_group, has_problem, has_standard_recall, has_template,
    has_type_answer, is_retained, occlusion_card, occlusion_creations, planned_changes,
    problem_change, standard_recall_card, template_card, template_creations,
    type_answer_change, CardChange, RetrievalFormSelection,
};
use crate::models::retrieval::{
    CardSummary, ExplainSettings, ProblemSettings, RetrievalFormKind, TypeAnswerSettings,
};
use crate::retrieval_forms::RetrievalFormConfiguration;
use crate::text::{lists_text, texts};

verus! {

broadcast use vstd::seq_lib::group_seq_properties;

/// The card with the settings of `form` and no others; its identity, form, template and
/// schedule are kept. This is what updating a card's configuration does.
pub open spec fn with_settings(card: CardSummary, form: RetrievalFormConfiguration) -> CardSummary {
    CardSummary {
        id: card.id,
        retrieval_kind: card.retrieval_kind,
        explain: match form {
            RetrievalFormConfiguration::Explain(s) => Some(s),
            _ => None,
        },
        problem: match form {
            RetrievalFormConfiguration::Problem(s) => Some(s),
            _ => None,
        },
        cloze: match form {
            RetrievalFormConfiguration::Cloze(s) => Some(s),
            _ => None,
        },
        image_occlusion: match form {
            RetrievalFormConfiguration::ImageOcclusion(s) => Some(s),
            _ => None,
        },
        type_answer: match form {
            RetrievalFormConfiguration::TypeAnswer(s) => Some(s),
            _ => None,
        },
        template: card.template,
        scheduling_state: card.scheduling_state,
        due_at: card.due_at,
        review_count: card.review_count,
        lapse_count: card.lapse_count,
    }
}

/// A card that a creation made: the form and settings of the configuration, and the
/// template the creation names, if any.
pub open spec fn made_by(card: CardSummary, template_id: Option<String>, form: RetrievalFormConfiguration) -> bool {
    &&& card.retrieval_kind == form.form_kind()
    &&& card == with_settings(card, form)
    &&& match template_id {
        Some(t) => card.template matches Some(n) && n.id@ == t@,
        None => card.template is None,
    }
}

/// Whether a card has another identifier than `id`.
pub open spec fn other_than(id: Seq<char>) -> spec_fn(CardSummary) -> bool {
    |c: CardSummary| c.id@ != id
}

/// The cards after one change: a deleted card is gone, an updated card takes the settings
/// of its new configuration, and a created card, described by `created`, comes last.
pub open spec fn apply_change(cards: Seq<CardSummary>, change: CardChange, created: CardSummary) -> Seq<CardSummary> {
    match change {
        CardChange::Delete { card_id } => cards.filter(other_than(card_id@)),
        CardChange::Update { card_id, form } => Seq::new(
            cards.len(),
            |j: int|
                if cards[j].id@ == card_id@ {
                    with_settings(cards[j], form)
                } else {
                    cards[j]
                },
        ),
        CardChange::Create { .. } => cards.push(created),
    }
}

/// The cards after the first `n` changes, in order; `created[k]` describes the card that
/// the `k`-th change creates, if it is a creation.
pub open spec fn applied(
    cards: Seq<CardSummary>,
    changes: Seq<CardChange>,
    created: Seq<CardSummary>,
    n: int,
) -> Seq<CardSummary>
    decreases n,
{
    if n <= 0 {
        cards
    } else {
        apply_change(applied(cards, changes, created, n - 1), changes[n - 1], created[n - 1])
    }
}

/// The cards after all the changes, in order.
pub open spec fn apply_changes(
    cards: Seq<CardSummary>,
    changes: Seq<CardChange>,
    created: Seq<CardSummary>,
) -> Seq<CardSummary> {
    applied(cards, changes, created, changes.len() as int)
}

/// The cards have distinct identifiers.
pub open spec fn distinct_ids(cards: Seq<CardSummary>) -> bool {
    forall|a: int, b: int| 0 <= a < b < cards.len() ==> #[trigger] cards[a].id@ != #[trigger] cards[b].id@
}

/// Applying the same first `n` changes gives the same cards.
proof fn lemma_applied_prefix(
    cards: Seq<CardSummary>,
    first: Seq<CardChange>,
    second: Seq<CardChange>,
    created: Seq<CardSummary>,
    n: int,
)
    requires
        0 <= n <= first.len(),
        n <= second.len(),
        forall|k: int| 0 <= k < n ==> first[k] == second[k],
    ensures
        applied(cards, first, created, n) == applied(cards, second, created, n),
    decreases n,
{
    if n > 0 {
        lemma_applied_prefix(cards, first, second, created, n - 1);
    }
}

/// After the deletions planned for the first `m` cards, a card remains exactly when it was
/// there and no card among the first `m` that the selection drops has its identifier.
proof fn lemma_deletions_remove(
    cards: Seq<CardSummary>,
    selection: RetrievalFormSelection,
    created: Seq<CardSummary>,
    m: int,
    c: CardSummary,
)
    requires
        0 <= m <= cards.len(),
    ensures
        applied(cards, deletions(cards.take(m), selection), created, deletions(cards.take(m), selection).len() as int).contains(c)
            <==> (cards.contains(c) && !exists|j: int|
            0 <= j < m && #[trigger] cards[j].id@ == c.id@ && !is_retained(cards[j], selection)),
    decreases m,
{
    let dels = deletions(cards.take(m), selection);
    if m == 0 {
        assert(cards.take(0) =~= Seq::<CardSummary>::empty());
        assert(dels.len() == 0);
    } else {
        let prev = deletions(cards.take(m - 1), selection);
        assert(cards.take(m).drop_last() =~= cards.take(m - 1));
        assert(cards.take(m).last() == cards[m - 1]);
        lemma_deletions_remove(cards, selection, created, m - 1, c);
        lemma_applied_prefix(cards, dels, prev, created, prev.len() as int);
        let before = applied(cards, prev, created, prev.len() as int);
        if is_retained(cards[m - 1], selection) {
            assert(dels =~= prev);
        } else {
            let id = cards[m - 1].id@;
            let pred = other_than(id);
            assert(dels.len() == prev.len() + 1);
            assert(dels[prev.len() as int] == CardChange::Delete { card_id: cards[m - 1].id });
            let after = applied(cards, dels, created, dels.len() as int);
            assert(after == before.filter(pred));
            if after.contains(c) {
                before.lemma_filter_contains_rev(pred, c);
                let i = choose|i: int| 0 <= i < after.len() && after[i] == c;
                before.lemma_filter_pred(pred, i);
            }
            if before.contains(c) && c.id@ != id {
                let i = choose|i: int| 0 <= i < before.len() && before[i] == c;
                before.lemma_filter_contains(pred, i);
            }
        }
    }
}

/// Cards as the store keeps them for one concept: distinct identifiers; each card carries
/// exactly the settings of its own form, and a template only when it is a recall card; and
/// at most one explain, one problem and one type-answer card.
pub open spec fn stored_cards(cards: Seq<CardSummary>) -> bool {
    &&& distinct_ids(cards)
    &&& forall|i: int| #![trigger cards[i]] 0 <= i < cards.len() ==> {
        &&& (cards[i].retrieval_kind == RetrievalFormKind::Explain) == (cards[i].explain is Some)
        &&& (cards[i].retrieval_kind == RetrievalFormKind::Problem) == (cards[i].problem is Some)
        &&& (cards[i].retrieval_kind == RetrievalFormKind::TypeAnswer) == (cards[i].type_answer is Some)
        &&& (cards[i].retrieval_kind == RetrievalFormKind::Cloze) == (cards[i].cloze is Some)
        &&& (cards[i].retrieval_kind == RetrievalFormKind::ImageOcclusion) == (cards[i].image_occlusion is Some)
        &&& (cards[i].template is Some ==> cards[i].retrieval_kind == RetrievalFormKind::Recall)
    }
    &&& forall|a: int, b: int|
        #![trigger cards[a], cards[b]]
        0 <= a < b < cards.len() && cards[a].retrieval_kind == cards[b].retrieval_kind
            ==> cards[a].retrieval_kind != RetrievalFormKind::Explain
            && cards[a].retrieval_kind != RetrievalFormKind::Problem
            && cards[a].retrieval_kind != RetrievalFormKind::TypeAnswer
}

/// A change the plan makes after its deletions: a creation of a selected form that no card
/// has yet, or an update of the explain, problem or type-answer card to the selected
/// settings.
pub open spec fn later_change_ok(cards: Seq<CardSummary>, selection: RetrievalFormSelection, change: CardChange) -> bool {
    match change {
        CardChange::Delete { .. } => false,
        CardChange::Update { card_id, form } => match form {
            RetrievalFormConfiguration::Explain(s) => selection.explain == Some(s)
                && (first_of_kind(cards, RetrievalFormKind::Explain, 0) matches Some(i)
                && cards[i].id == card_id),
            RetrievalFormConfiguration::Problem(s) => selection.problem == Some(s)
                && (first_of_kind(cards, RetrievalFormKind::Problem, 0) matches Some(i)
                && cards[i].id == card_id),
            RetrievalFormConfiguration::TypeAnswer(s) => selection.type_answer == Some(s)
                && (first_of_kind(cards, RetrievalFormKind::TypeAnswer, 0) matches Some(i)
                && cards[i].id == card_id),
            _ => false,
        },
        CardChange::Create { template_id, form } => match template_id {
            Some(t) => form == RetrievalFormConfiguration::Recall && lists_text(selection.template_ids@, t@)
                && !has_template(cards, t@),
            None => match form {
                RetrievalFormConfiguration::Recall => selection.include_standard_recall
                    && !has_standard_recall(cards),
                RetrievalFormConfiguration::Explain(s) => selection.explain == Some(s)
                    && first_of_kind(cards, RetrievalFormKind::Explain, 0) is None,
                RetrievalFormConfiguration::Problem(s) => selection.problem == Some(s)
                    && first_of_kind(cards, RetrievalFormKind::Problem, 0) is None,
                RetrievalFormConfiguration::TypeAnswer(s) => selection.type_answer == Some(s)
                    && first_of_kind(cards, RetrievalFormKind::TypeAnswer, 0) is None,
                RetrievalFormConfiguration::Cloze(c) => lists_text(selection.cloze_group_ids@, c.group_id@)
                    && !has_cloze_group(cards, c.group_id@),
                RetrievalFormConfiguration::ImageOcclusion(o) => lists_text(
                    selection.image_occlusion_group_ids@,
                    o.group_id@,
                ) && !has_occlusion_group(cards, o.group_id@),
            },
        },
    }
}

/// Every cloze creation is for a listed group that no card asks about.
proof fn lemma_cloze_creations_ok(cards: Seq<CardSummary>, selection: RetrievalFormSelection, groups: Seq<String>, k: int)
    requires
        0 <= k < cloze_creations(cards, groups).len(),
        forall|q: int| 0 <= q < groups.len() ==> lists_text(selection.cloze_group_ids@, #[trigger] groups[q]@),
    ensures
        later_change_ok(cards, selection, cloze_creations(cards, groups)[k]),
    decreases groups.len(),
{
    let earlier = cloze_creations(cards, groups.drop_last());
    if k < earlier.len() {
        lemma_cloze_creations_ok(cards, selection, groups.drop_last(), k);
    } else {
        assert(groups[groups.len() - 1] == groups.last());
    }
}

/// Every occlusion creation is for a listed group that no card asks about.
proof fn lemma_occlusion_creations_ok(cards: Seq<CardSummary>, selection: RetrievalFormSelection, groups: Seq<String>, k: int)
    requires
        0 <= k < occlusion_creations(cards, groups).len(),
        forall|q: int| 0 <= q < groups.len() ==> lists_text(selection.image_occlusion_group_ids@, #[trigger] groups[q]@),
    ensures
        later_change_ok(cards, selection, occlusion_creations(cards, groups)[k]),
    decreases groups.len(),
{
    let earlier = occlusion_creations(cards, groups.drop_last());
    if k < earlier.len() {
        lemma_occlusion_creations_ok(cards, selection, groups.drop_last(), k);
    } else {
        assert(groups[groups.len() - 1] == groups.last());
    }
}

/// Every template creation is for a listed template that no card was made from.
proof fn lemma_template_creations_ok(cards: Seq<CardSummary>, selection: RetrievalFormSelection, templates: Seq<String>, k: int)
    requires
        0 <= k < template_creations(cards, templates).len(),
        forall|q: int| 0 <= q < templates.len() ==> lists_text(selection.template_ids@, #[trigger] templates[q]@),
    ensures
        later_change_ok(cards, selection, template_creations(cards, templates)[k]),
    decreases templates.len(),
{
    let earlier = template_creations(cards, templates.drop_last());
    if k < earlier.len() {
        lemma_template_creations_ok(cards, selection, templates.drop_last(), k);
    } else {
        assert(templates[templates.len() - 1] == templates.last());
    }
}

/// The parts of the plan, in order.
pub open spec fn plan_parts(cards: Seq<CardSummary>, selection: RetrievalFormSelection) -> Seq<Seq<CardChange>> {
    seq![
        deletions(cards, selection),
        if selection.include_standard_recall && !has_standard_recall(cards) {
            seq![standard_recall_card()]
        } else {
            Seq::empty()
        },
        explain_change(cards, selection.explain),
        problem_change(cards, selection.problem),
        type_answer_change(cards, selection.type_answer),
        cloze_creations(cards, selection.cloze_group_ids@),
        occlusion_creations(cards, selection.image_occlusion_group_ids@),
        template_creations(cards, selection.template_ids@),
    ]
}

/// The plan is its parts one after the other.
proof fn lemma_plan_is_its_parts(cards: Seq<CardSummary>, selection: RetrievalFormSelection)
    ensures
        planned_changes(cards, selection) == plan_parts(cards, selection)[0] + plan_parts(cards, selection)[1]
            + plan_parts(cards, selection)[2] + plan_parts(cards, selection)[3] + plan_parts(cards, selection)[4]
            + plan_parts(cards, selection)[5] + plan_parts(cards, selection)[6] + plan_parts(cards, selection)[7],
{
}

/// Every change of the plan after its deletions is one that [`later_change_ok`] allows.
proof fn lemma_later_changes_ok(cards: Seq<CardSummary>, selection: RetrievalFormSelection, k: int)
    requires
        deletions(cards, selection).len() <= k < planned_changes(cards, selection).len(),
    ensures
        later_change_ok(cards, selection, planned_changes(cards, selection)[k]),
{
    let parts = plan_parts(cards, selection);
    let plan = planned_changes(cards, selection);
    lemma_plan_is_its_parts(cards, selection);
    let a = parts[0].len() as int;
    let b = a + parts[1].len();
    let c = b + parts[2].len();
    let d = c + parts[3].len();
    let e = d + parts[4].len();
    let f = e + parts[5].len();
    let g = f + parts[6].len();
    assert(plan =~= parts[0] + parts[1] + parts[2] + parts[3] + parts[4] + parts[5] + parts[6] + parts[7]);
    if k < b {
        assert(plan[k] == parts[1][k - a]);
    } else if k < c {
        assert(plan[k] == parts[2][k - b]);
    } else if k < d {
        assert(plan[k] == parts[3][k - c]);
    } else if k < e {
        assert(plan[k] == parts[4][k - d]);
    } else if k < f {
        assert(plan[k] == parts[5][k - e]);
        assert forall|q: int| 0 <= q < selection.cloze_group_ids@.len() implies lists_text(
            selection.cloze_group_ids@,
            #[trigger] selection.cloze_group_ids@[q]@,
        ) by {}
        lemma_cloze_creations_ok(cards, selection, selection.cloze_group_ids@, k - e);
    } else if k < g {
        assert(plan[k] == parts[6][k - f]);
        assert forall|q: int| 0 <= q < selection.image_occlusion_group_ids@.len() implies lists_text(
            selection.image_occlusion_group_ids@,
            #[trigger] selection.image_occlusion_group_ids@[q]@,
        ) by {}
        lemma_occlusion_creations_ok(cards, selection, selection.image_occlusion_group_ids@, k - f);
    } else {
        assert(plan[k] == parts[7][k - g]);
        assert forall|q: int| 0 <= q < selection.template_ids@.len() implies lists_text(
            selection.template_ids@,
            #[trigger] selection.template_ids@[q]@,
        ) by {}
        lemma_template_creations_ok(cards, selection, selection.template_ids@, k - g);
    }
}

/// The position of the first card of a form lies at or after `from`; every card of that
/// form at or after `from` comes no earlier.
proof fn lemma_first_of_kind(cards: Seq<CardSummary>, kind: RetrievalFormKind, from: int)
    requires
        0 <= from,
    ensures
        first_of_kind(cards, kind, from) matches Some(i) ==> from <= i < cards.len() && cards[i].retrieval_kind == kind,
        forall|j: int| from <= j < cards.len() && #[trigger] cards[j].retrieval_kind == kind ==> first_of_kind(cards, kind, from) is Some,
    decreases cards.len() - from,
{
    if from < cards.len() {
        lemma_first_of_kind(cards, kind, from + 1);
    }
}

/// After the planned deletions, exactly the retained cards are left.
proof fn lemma_after_deletions(cards: Seq<CardSummary>, selection: RetrievalFormSelection, created: Seq<CardSummary>, c: CardSummary)
    requires
        distinct_ids(cards),
    ensures
        applied(cards, planned_changes(cards, selection), created, deletions(cards, selection).len() as int).contains(c)
            <==> (cards.contains(c) && is_retained(c, selection)),
{
    let n = cards.len() as int;
    assert(cards.take(n) =~= cards);
    let dels = deletions(cards, selection);
    lemma_plan_is_its_parts(cards, selection);
    let plan = planned_changes(cards, selection);
    assert forall|k: int| 0 <= k < dels.len() implies plan[k] == dels[k] by {
        assert(plan[k] == (dels + (plan.subrange(dels.len() as int, plan.len() as int)))[k]);
    }
    lemma_applied_prefix(cards, plan, dels, created, dels.len() as int);
    lemma_deletions_remove(cards, selection, created, n, c);
    if cards.contains(c) {
        let i = choose|i: int| 0 <= i < cards.len() && cards[i] == c;
        if is_retained(c, selection) {
            assert forall|j: int| 0 <= j < n && #[trigger] cards[j].id@ == c.id@ implies is_retained(cards[j], selection) by {
                if j < i {
                    assert(cards[j].id@ != cards[i].id@);
                } else if j > i {
                    assert(cards[i].id@ != cards[j].id@);
                }
            }
        } else {
            assert(cards[i].id@ == c.id@);
        }
    }
}

/// The card with the selected settings of its own form when it is the explain, problem or
/// type-answer card; other cards are unchanged.
pub open spec fn settled(card: CardSummary, selection: RetrievalFormSelection) -> CardSummary {
    match card.retrieval_kind {
        RetrievalFormKind::Explain => match selection.explain {
            Some(s) => with_settings(card, RetrievalFormConfiguration::Explain(s)),
            None => card,
        },
        RetrievalFormKind::Problem => match selection.problem {
            Some(s) => with_settings(card, RetrievalFormConfiguration::Problem(s)),
            None => card,
        },
        RetrievalFormKind::TypeAnswer => match selection.type_answer {
            Some(s) => with_settings(card, RetrievalFormConfiguration::TypeAnswer(s)),
            None => card,
        },
        _ => card,
    }
}

/// Some change at a position in `from .. n` updates the card with identifier `id`.
pub open spec fn updated_within(changes: Seq<CardChange>, from: int, n: int, id: Seq<char>) -> bool {
    exists|k: int| from <= k < n && (#[trigger] changes[k] matches CardChange::Update { card_id, .. } && card_id@ == id)
}

/// What the `j`-th card has become after the changes at positions `from .. n`.
pub open spec fn later_card(
    cards: Seq<CardSummary>,
    selection: RetrievalFormSelection,
    changes: Seq<CardChange>,
    from: int,
    n: int,
    j: int,
) -> CardSummary {
    if updated_within(changes, from, n, cards[j].id@) {
        settled(cards[j], selection)
    } else {
        cards[j]
    }
}

/// The card is a retained card as the changes at `from .. n` left it, or a card that one
/// of those changes created.
pub open spec fn holds_card(
    cards: Seq<CardSummary>,
    selection: RetrievalFormSelection,
    changes: Seq<CardChange>,
    created: Seq<CardSummary>,
    from: int,
    n: int,
    c: CardSummary,
) -> bool {
    ||| exists|j: int|
        0 <= j < cards.len() && is_retained(cards[j], selection) && c == #[trigger] later_card(
            cards,
            selection,
            changes,
            from,
            n,
            j,
        )
    ||| exists|k: int| from <= k < n && changes[k] is Create && c == #[trigger] created[k]
}

/// The new cards have identifiers that no existing card has.
pub open spec fn fresh_cards(cards: Seq<CardSummary>, changes: Seq<CardChange>, created: Seq<CardSummary>) -> bool {
    forall|k: int, i: int|
        0 <= k < changes.len() && 0 <= i < cards.len() && #[trigger] changes[k] is Create
            ==> created[k].id@ != #[trigger] cards[i].id@
}

/// After the changes that follow the deletions, up to position `n`, the cards are the
/// retained ones, updated where a change updated them, and the cards created so far.
proof fn lemma_after_later_changes(
    cards: Seq<CardSummary>,
    selection: RetrievalFormSelection,
    created: Seq<CardSummary>,
    n: int,
    c: CardSummary,
)
    requires
        stored_cards(cards),
        deletions(cards, selection).len() <= n <= planned_changes(cards, selection).len(),
        created.len() == planned_changes(cards, selection).len(),
        fresh_cards(cards, planned_changes(cards, selection), created),
    ensures
        applied(cards, planned_changes(cards, selection), created, n).contains(c) <==> holds_card(
            cards,
            selection,
            planned_changes(cards, selection),
            created,
            deletions(cards, selection).len() as int,
            n,
            c,
        ),
    decreases n,
{
    let plan = planned_changes(cards, selection);
    let d = deletions(cards, selection).len() as int;
    if n == d {
        lemma_after_deletions(cards, selection, created, c);
        if cards.contains(c) && is_retained(c, selection) {
            let j = choose|j: int| 0 <= j < cards.len() && cards[j] == c;
            assert(c == later_card(cards, selection, plan, d, n, j));
        }
        if holds_card(cards, selection, plan, created, d, n, c) {
            let j = choose|j: int|
                0 <= j < cards.len() && is_retained(cards[j], selection) && c == #[trigger] later_card(
                    cards,
                    selection,
                    plan,
                    d,
                    n,
                    j,
                );
            assert(c == cards[j]);
        }
    } else {
        let before = applied(cards, plan, created, n - 1);
        let after = applied(cards, plan, created, n);
        let change = plan[n - 1];
        lemma_later_changes_ok(cards, selection, n - 1);
        assert(after == apply_change(before, change, created[n - 1]));
        assert forall|j: int| 0 <= j < cards.len() && !(change matches CardChange::Update { card_id, .. } && card_id@ == cards[j].id@)
            implies #[trigger] later_card(cards, selection, plan, d, n, j) == later_card(cards, selection, plan, d, n - 1, j) by {
            if updated_within(plan, d, n, cards[j].id@) {
                let k = choose|k: int| d <= k < n && (#[trigger] plan[k] matches CardChange::Update { card_id, .. } && card_id@ == cards[j].id@);
                assert(k < n - 1);
            }
        }
        match change {
            CardChange::Create { .. } => {
                assert(after == before.push(created[n - 1]));
                lemma_after_later_changes(cards, selection, created, n - 1, c);
                if before.contains(c) {
                    assert(holds_card(cards, selection, plan, created, d, n - 1, c));
                    if exists|j: int| 0 <= j < cards.len() && is_retained(cards[j], selection) && c == #[trigger] later_card(cards, selection, plan, d, n - 1, j) {
                        let j = choose|j: int| 0 <= j < cards.len() && is_retained(cards[j], selection) && c == #[trigger] later_card(cards, selection, plan, d, n - 1, j);
                        assert(c == later_card(cards, selection, plan, d, n, j));
                    }
                }
                if c == created[n - 1] {
                    assert(holds_card(cards, selection, plan, created, d, n, c));
                }
                if holds_card(cards, selection, plan, created, d, n, c) {
                    if exists|j: int| 0 <= j < cards.len() && is_retained(cards[j], selection) && c == #[trigger] later_card(cards, selection, plan, d, n, j) {
                        let j = choose|j: int| 0 <= j < cards.len() && is_retained(cards[j], selection) && c == #[trigger] later_card(cards, selection, plan, d, n, j);
                        assert(c == later_card(cards, selection, plan, d, n - 1, j));
                        assert(holds_card(cards, selection, plan, created, d, n - 1, c));
                    } else {
                        let k = choose|k: int| d <= k < n && plan[k] is Create && c == #[trigger] created[k];
                        if k < n - 1 {
                            assert(holds_card(cards, selection, plan, created, d, n - 1, c));
                        }
                    }
                }
            },
            CardChange::Update { card_id, form } => {
                let kind = form.form_kind();
                lemma_first_of_kind(cards, kind, 0);
                let i = first_of_kind(cards, kind, 0)->Some_0;
                assert(0 <= i < cards.len() && cards[i].retrieval_kind == kind && cards[i].id@ == card_id@);
                assert(settled(cards[i], selection) == with_settings(cards[i], form));
                assert(updated_within(plan, d, n, cards[i].id@));
                assert(later_card(cards, selection, plan, d, n, i) == with_settings(cards[i], form));
                let x = later_card(cards, selection, plan, d, n - 1, i);
                assert(with_settings(x, form) == with_settings(cards[i], form));
                assert forall|j: int| 0 <= j < cards.len() && cards[j].id@ == card_id@ implies j == i by {
                    if j < i {
                        assert(cards[j].id@ != cards[i].id@);
                    } else if j > i {
                        assert(cards[i].id@ != cards[j].id@);
                    }
                }
                assert forall|k: int| 0 <= k < plan.len() && plan[k] is Create implies created[k].id@ != card_id@ by {
                    assert(created[k].id@ != cards[i].id@);
                }
                lemma_after_later_changes(cards, selection, created, n - 1, c);
                if after.contains(c) {
                    let m = choose|m: int| 0 <= m < after.len() && after[m] == c;
                    let y = before[m];
                    lemma_after_later_changes(cards, selection, created, n - 1, y);
                    assert(before.contains(y));
                    if exists|j: int| 0 <= j < cards.len() && is_retained(cards[j], selection) && y == #[trigger] later_card(cards, selection, plan, d, n - 1, j) {
                        let j = choose|j: int| 0 <= j < cards.len() && is_retained(cards[j], selection) && y == #[trigger] later_card(cards, selection, plan, d, n - 1, j);
                        if cards[j].id@ == card_id@ {
                            assert(j == i);
                            assert(c == later_card(cards, selection, plan, d, n, i));
                        } else {
                            assert(c == later_card(cards, selection, plan, d, n, j));
                        }
                    } else {
                        let k = choose|k: int| d <= k < n - 1 && plan[k] is Create && y == #[trigger] created[k];
                        assert(c == created[k]);
                    }
                    assert(holds_card(cards, selection, plan, created, d, n, c));
                }
                if holds_card(cards, selection, plan, created, d, n, c) {
                    if exists|j: int| 0 <= j < cards.len() && is_retained(cards[j], selection) && c == #[trigger] later_card(cards, selection, plan, d, n, j) {
                        let j = choose|j: int| 0 <= j < cards.len() && is_retained(cards[j], selection) && c == #[trigger] later_card(cards, selection, plan, d, n, j);
                        let y = later_card(cards, selection, plan, d, n - 1, j);
                        lemma_after_later_changes(cards, selection, created, n - 1, y);
                        let m = choose|m: int| 0 <= m < before.len() && before[m] == y;
                        if cards[j].id@ == card_id@ {
                            assert(j == i);
                            assert(after[m] == c);
                        } else {
                            assert(after[m] == c);
                        }
                    } else {
                        let k = choose|k: int| d <= k < n && plan[k] is Create && c == #[trigger] created[k];
                        assert(k < n - 1);
                        lemma_after_later_changes(cards, selection, created, n - 1, created[k]);
                        let m = choose|m: int| 0 <= m < before.len() && before[m] == created[k];
                        assert(after[m] == c);
                    }
                }
            },
            CardChange::Delete { .. } => {},
        }
    }
}

/// Where the `p`-th part of the plan starts.
pub open spec fn part_start(cards: Seq<CardSummary>, selection: RetrievalFormSelection, p: int) -> int
    decreases p,
{
    if p <= 0 {
        0
    } else {
        part_start(cards, selection, p - 1) + plan_parts(cards, selection)[p - 1].len()
    }
}

/// The `t`-th change of the `p`-th part stands at `part_start(p) + t` in the plan, after the
/// deletions when `p` is not the first part.
proof fn lemma_plan_part(cards: Seq<CardSummary>, selection: RetrievalFormSelection, p: int, t: int)
    requires
        0 <= p < 8,
        0 <= t < plan_parts(cards, selection)[p].len(),
    ensures
        0 <= part_start(cards, selection, p) + t < planned_changes(cards, selection).len(),
        planned_changes(cards, selection)[part_start(cards, selection, p) + t] == plan_parts(cards, selection)[p][t],
        p >= 1 ==> deletions(cards, selection).len() <= part_start(cards, selection, p) + t,
{
    reveal_with_fuel(part_start, 9);
    let parts = plan_parts(cards, selection);
    let plan = planned_changes(cards, selection);
    lemma_plan_is_its_parts(cards, selection);
    assert(plan =~= parts[0] + parts[1] + parts[2] + parts[3] + parts[4] + parts[5] + parts[6] + parts[7]);
    let k = part_start(cards, selection, p) + t;
    if p == 0 {
        assert(plan[k] == parts[0][t]);
    } else if p == 1 {
        assert(plan[k] == parts[1][t]);
    } else if p == 2 {
        assert(plan[k] == parts[2][t]);
    } else if p == 3 {
        assert(plan[k] == parts[3][t]);
    } else if p == 4 {
        assert(plan[k] == parts[4][t]);
    } else if p == 5 {
        assert(plan[k] == parts[5][t]);
    } else if p == 6 {
        assert(plan[k] == parts[6][t]);
    } else {
        assert(plan[k] == parts[7][t]);
    }
}

/// A listed group that no card asks about gets a cloze creation.
proof fn lemma_cloze_creation_exists(cards: Seq<CardSummary>, groups: Seq<String>, q: int)
    requires
        0 <= q < groups.len(),
        !has_cloze_group(cards, groups[q]@),
    ensures
        exists|t: int| 0 <= t < cloze_creations(cards, groups).len() && #[trigger] cloze_creations(cards, groups)[t] == cloze_card(groups[q]),
    decreases groups.len(),
{
    let earlier = cloze_creations(cards, groups.drop_last());
    if q == groups.len() - 1 {
        assert(cloze_creations(cards, groups)[earlier.len() as int] == cloze_card(groups[q]));
    } else {
        lemma_cloze_creation_exists(cards, groups.drop_last(), q);
        let t = choose|t: int| 0 <= t < earlier.len() && #[trigger] earlier[t] == cloze_card(groups.drop_last()[q]);
        assert(cloze_creations(cards, groups)[t] == earlier[t]);
    }
}

/// A listed group that no card asks about gets an occlusion creation.
proof fn lemma_occlusion_creation_exists(cards: Seq<CardSummary>, groups: Seq<String>, q: int)
    requires
        0 <= q < groups.len(),
        !has_occlusion_group(cards, groups[q]@),
    ensures
        exists|t: int| 0 <= t < occlusion_creations(cards, groups).len() && #[trigger] occlusion_creations(cards, groups)[t] == occlusion_card(groups[q]),
    decreases groups.len(),
{
    let earlier = occlusion_creations(cards, groups.drop_last());
    if q == groups.len() - 1 {
        assert(occlusion_creations(cards, groups)[earlier.len() as int] == occlusion_card(groups[q]));
    } else {
        lemma_occlusion_creation_exists(cards, groups.drop_last(), q);
        let t = choose|t: int| 0 <= t < earlier.len() && #[trigger] earlier[t] == occlusion_card(groups.drop_last()[q]);
        assert(occlusion_creations(cards, groups)[t] == earlier[t]);
    }
}

/// A listed template that no card was made from gets a recall creation.
proof fn lemma_template_creation_exists(cards: Seq<CardSummary>, templates: Seq<String>, q: int)
    requires
        0 <= q < templates.len(),
        !has_template(cards, templates[q]@),
    ensures
        exists|t: int| 0 <= t < template_creations(cards, templates).len() && #[trigger] template_creations(cards, templates)[t] == template_card(templates[q]),
    decreases templates.len(),
{
    let earlier = template_creations(cards, templates.drop_last());
    if q == templates.len() - 1 {
        assert(template_creations(cards, templates)[earlier.len() as int] == template_card(templates[q]));
    } else {
        lemma_template_creation_exists(cards, templates.drop_last(), q);
        let t = choose|t: int| 0 <= t < earlier.len() && #[trigger] earlier[t] == template_card(templates.drop_last()[q]);
        assert(template_creations(cards, templates)[t] == earlier[t]);
    }
}

/// The cards that the plan creates are described by `created`: one per change, each new
/// card with an identifier no existing card has, made as its creation says.
pub open spec fn creations_described(
    cards: Seq<CardSummary>,
    selection: RetrievalFormSelection,
    created: Seq<CardSummary>,
) -> bool {
    &&& created.len() == planned_changes(cards, selection).len()
    &&& fresh_cards(cards, planned_changes(cards, selection), created)
    &&& forall|k: int|
        0 <= k < created.len() ==> (#[trigger] planned_changes(cards, selection)[k] matches CardChange::Create {
            template_id,
            form,
        } ==> made_by(created[k], template_id, form))
}

/// After the whole plan, the cards are the retained ones, updated where the plan updated
/// them, and the created ones.
proof fn lemma_after_plan(
    cards: Seq<CardSummary>,
    selection: RetrievalFormSelection,
    created: Seq<CardSummary>,
    c: CardSummary,
)
    requires
        stored_cards(cards),
        creations_described(cards, selection, created),
    ensures
        apply_changes(cards, planned_changes(cards, selection), created).contains(c) <==> holds_card(
            cards,
            selection,
            planned_changes(cards, selection),
            created,
            deletions(cards, selection).len() as int,
            planned_changes(cards, selection).len() as int,
            c,
        ),
{
    lemma_plan_is_its_parts(cards, selection);
    lemma_after_later_changes(cards, selection, created, planned_changes(cards, selection).len() as int, c);
}

/// A retained card, as the plan leaves it, keeps its identity, form, template, cloze and
/// occlusion settings; only the explain card can carry explain settings, and likewise for
/// problem and type-answer settings.
proof fn lemma_later_card_keeps(
    cards: Seq<CardSummary>,
    selection: RetrievalFormSelection,
    changes: Seq<CardChange>,
    from: int,
    n: int,
    j: int,
)
    requires
        stored_cards(cards),
        0 <= j < cards.len(),
    ensures
        later_card(cards, selection, changes, from, n, j).id == cards[j].id,
        later_card(cards, selection, changes, from, n, j).retrieval_kind == cards[j].retrieval_kind,
        later_card(cards, selection, changes, from, n, j).template == cards[j].template,
        later_card(cards, selection, changes, from, n, j).cloze == cards[j].cloze,
        later_card(cards, selection, changes, from, n, j).image_occlusion == cards[j].image_occlusion,
        cards[j].retrieval_kind != RetrievalFormKind::Explain ==> later_card(cards, selection, changes, from, n, j).explain is None,
        cards[j].retrieval_kind != RetrievalFormKind::Problem ==> later_card(cards, selection, changes, from, n, j).problem is None,
        cards[j].retrieval_kind != RetrievalFormKind::TypeAnswer ==> later_card(cards, selection, changes, from, n, j).type_answer is None,
{
    assert(cards[j] == cards[j]);
}

/// After the plan, a standard recall card is there exactly when it is selected.
proof fn lemma_plan_standard_recall(cards: Seq<CardSummary>, selection: RetrievalFormSelection, created: Seq<CardSummary>)
    requires
        stored_cards(cards),
        creations_described(cards, selection, created),
    ensures
        has_standard_recall(apply_changes(cards, planned_changes(cards, selection), created))
            == selection.include_standard_recall,
{
    let plan = planned_changes(cards, selection);
    let result = apply_changes(cards, plan, created);
    let d = deletions(cards, selection).len() as int;
    let n = plan.len() as int;
    if selection.include_standard_recall {
        if has_standard_recall(cards) {
            let i = choose|i: int|
                0 <= i < cards.len() && cards[i].retrieval_kind == RetrievalFormKind::Recall
                    && #[trigger] cards[i].template is None;
            let c = later_card(cards, selection, plan, d, n, i);
            lemma_later_card_keeps(cards, selection, plan, d, n, i);
            lemma_after_plan(cards, selection, created, c);
            let m = choose|m: int| 0 <= m < result.len() && result[m] == c;
            assert(result[m].template is None);
        } else {
            lemma_plan_part(cards, selection, 1, 0);
            reveal_with_fuel(part_start, 3);
            let k = part_start(cards, selection, 1);
            assert(plan[k] == standard_recall_card());
            let c = created[k];
            assert(made_by(c, None, RetrievalFormConfiguration::Recall));
            lemma_after_plan(cards, selection, created, c);
            let m = choose|m: int| 0 <= m < result.len() && result[m] == c;
            assert(result[m].template is None);
        }
    }
    if has_standard_recall(result) {
        let m = choose|m: int|
            0 <= m < result.len() && result[m].retrieval_kind == RetrievalFormKind::Recall
                && #[trigger] result[m].template is None;
        let c = result[m];
        lemma_after_plan(cards, selection, created, c);
        if exists|j: int| 0 <= j < cards.len() && is_retained(cards[j], selection) && c == #[trigger] later_card(cards, selection, plan, d, n, j) {
            let j = choose|j: int| 0 <= j < cards.len() && is_retained(cards[j], selection) && c == #[trigger] later_card(cards, selection, plan, d, n, j);
            lemma_later_card_keeps(cards, selection, plan, d, n, j);
        } else {
            let k = choose|k: int| d <= k < n && plan[k] is Create && c == #[trigger] created[k];
            lemma_later_changes_ok(cards, selection, k);
        }
    }
}

/// The first explain settings from `from` on are those of some card there, and there are
/// some when a card there has them.
proof fn lemma_first_explain_shape(cards: Seq<CardSummary>, from: int)
    requires
        0 <= from,
    ensures
        first_explain(cards, from) matches Some(x) ==> exists|m: int| from <= m < cards.len() && #[trigger] cards[m].explain == Some(x),
        (exists|m: int| from <= m < cards.len() && (#[trigger] cards[m]).explain is Some) ==> first_explain(cards, from) is Some,
    decreases cards.len() - from,
{
    if from < cards.len() {
        lemma_first_explain_shape(cards, from + 1);
        if let Some(x) = first_explain(cards, from) {
            if cards[from].explain is None {
                let m = choose|m: int| from + 1 <= m < cards.len() && #[trigger] cards[m].explain == Some(x);
                assert(from <= m);
            }
        }
        if exists|m: int| from <= m < cards.len() && (#[trigger] cards[m]).explain is Some {
            let m = choose|m: int| from <= m < cards.len() && (#[trigger] cards[m]).explain is Some;
            if m > from {
                assert(cards[m].explain is Some);
            }
        }
    }
}

/// The explain settings are the selected ones.
pub open spec fn explain_as_selected(e: ExplainSettings, selection: RetrievalFormSelection) -> bool {
    selection.explain matches Some(s) && e.focus == s.focus && texts(e.key_points@) == texts(s.key_points@)
}

/// After the plan, the first explain settings are the selected ones, and there are none when
/// none are selected.
proof fn lemma_plan_explain(cards: Seq<CardSummary>, selection: RetrievalFormSelection, created: Seq<CardSummary>)
    requires
        stored_cards(cards),
        creations_described(cards, selection, created),
    ensures
        same_explain(first_explain(apply_changes(cards, planned_changes(cards, selection), created), 0), selection.explain),
{
    let plan = planned_changes(cards, selection);
    let result = apply_changes(cards, plan, created);
    let d = deletions(cards, selection).len() as int;
    let n = plan.len() as int;
    lemma_first_of_kind(cards, RetrievalFormKind::Explain, 0);
    assert forall|m: int| 0 <= m < result.len() && (#[trigger] result[m]).explain is Some implies explain_as_selected(
        result[m].explain->Some_0,
        selection,
    ) by {
        let c = result[m];
        let e = c.explain->Some_0;
        lemma_after_plan(cards, selection, created, c);
        if exists|j: int| 0 <= j < cards.len() && is_retained(cards[j], selection) && c == #[trigger] later_card(cards, selection, plan, d, n, j) {
            let j = choose|j: int| 0 <= j < cards.len() && is_retained(cards[j], selection) && c == #[trigger] later_card(cards, selection, plan, d, n, j);
            lemma_later_card_keeps(cards, selection, plan, d, n, j);
            assert(cards[j].retrieval_kind == RetrievalFormKind::Explain);
            let i = first_of_kind(cards, RetrievalFormKind::Explain, 0)->Some_0;
            if i < j {
                assert(cards[i].retrieval_kind == cards[j].retrieval_kind);
            } else if j < i {
                assert(cards[j].retrieval_kind == cards[i].retrieval_kind);
            }
            assert(i == j);
            let s = selection.explain->Some_0;
            if !updated_within(plan, d, n, cards[j].id@) {
                if !has_explain(cards[i], s) {
                    lemma_plan_part(cards, selection, 2, 0);
                    let k = part_start(cards, selection, 2);
                    assert(plan[k] == CardChange::Update { card_id: cards[i].id, form: RetrievalFormConfiguration::Explain(s) });
                    assert(updated_within(plan, d, n, cards[j].id@));
                }
            }
        } else {
            let k = choose|k: int| d <= k < n && plan[k] is Create && c == #[trigger] created[k];
            lemma_later_changes_ok(cards, selection, k);
        }
    }
    if let Some(s) = selection.explain {
        if let Some(i) = first_of_kind(cards, RetrievalFormKind::Explain, 0) {
            let c = later_card(cards, selection, plan, d, n, i);
            lemma_after_plan(cards, selection, created, c);
            assert(cards[i] == cards[i]);
            let m = choose|m: int| 0 <= m < result.len() && result[m] == c;
            assert(result[m].explain is Some);
        } else {
            lemma_plan_part(cards, selection, 2, 0);
            let k = part_start(cards, selection, 2);
            assert(plan[k] == CardChange::Create { template_id: None, form: RetrievalFormConfiguration::Explain(s) });
            let c = created[k];
            lemma_after_plan(cards, selection, created, c);
            let m = choose|m: int| 0 <= m < result.len() && result[m] == c;
            assert(result[m].explain is Some);
        }
    }
    lemma_first_explain_shape(result, 0);
}
/// The first problem settings from `from` on are those of some card there, and there are
/// some when a card there has them.
proof fn lemma_first_problem_shape(cards: Seq<CardSummary>, from: int)
    requires
        0 <= from,
    ensures
        first_problem(cards, from) matches Some(x) ==> exists|m: int| from <= m < cards.len() && #[trigger] cards[m].problem == Some(x),
        (exists|m: int| from <= m < cards.len() && (#[trigger] cards[m]).problem is Some) ==> first_problem(cards, from) is Some,
    decreases cards.len() - from,
{
    if from < cards.len() {
        lemma_first_problem_shape(cards, from + 1);
        if let Some(x) = first_problem(cards, from) {
            if cards[from].problem is None {
                let m = choose|m: int| from + 1 <= m < cards.len() && #[trigger] cards[m].problem == Some(x);
                assert(from <= m);
            }
        }
        if exists|m: int| from <= m < cards.len() && (#[trigger] cards[m]).problem is Some {
            let m = choose|m: int| from <= m < cards.len() && (#[trigger] cards[m]).problem is Some;
            if m > from {
                assert(cards[m].problem is Some);
            }
        }
    }
}

/// The problem settings are the selected ones.
pub open spec fn problem_as_selected(e: ProblemSettings, selection: RetrievalFormSelection) -> bool {
    selection.problem matches Some(s) && texts(e.checkpoints@) == texts(s.checkpoints@)
}

/// After the plan, the first problem settings are the selected ones, and there are none when
/// none are selected.
proof fn lemma_plan_problem(cards: Seq<CardSummary>, selection: RetrievalFormSelection, created: Seq<CardSummary>)
    requires
        stored_cards(cards),
        creations_described(cards, selection, created),
    ensures
        same_problem(first_problem(apply_changes(cards, planned_changes(cards, selection), created), 0), selection.problem),
{
    let plan = planned_changes(cards, selection);
    let result = apply_changes(cards, plan, created);
    let d = deletions(cards, selection).len() as int;
    let n = plan.len() as int;
    lemma_first_of_kind(cards, RetrievalFormKind::Problem, 0);
    assert forall|m: int| 0 <= m < result.len() && (#[trigger] result[m]).problem is Some implies problem_as_selected(
        result[m].problem->Some_0,
        selection,
    ) by {
        let c = result[m];
        let e = c.problem->Some_0;
        lemma_after_plan(cards, selection, created, c);
        if exists|j: int| 0 <= j < cards.len() && is_retained(cards[j], selection) && c == #[trigger] later_card(cards, selection, plan, d, n, j) {
            let j = choose|j: int| 0 <= j < cards.len() && is_retained(cards[j], selection) && c == #[trigger] later_card(cards, selection, plan, d, n, j);
            lemma_later_card_keeps(cards, selection, plan, d, n, j);
            assert(cards[j].retrieval_kind == RetrievalFormKind::Problem);
            let i = first_of_kind(cards, RetrievalFormKind::Problem, 0)->Some_0;
            if i < j {
                assert(cards[i].retrieval_kind == cards[j].retrieval_kind);
            } else if j < i {
                assert(cards[j].retrieval_kind == cards[i].retrieval_kind);
            }
            assert(i == j);
            let s = selection.problem->Some_0;
            if !updated_within(plan, d, n, cards[j].id@) {
                if !has_problem(cards[i], s) {
                    lemma_plan_part(cards, selection, 3, 0);
                    let k = part_start(cards, selection, 3);
                    assert(plan[k] == CardChange::Update { card_id: cards[i].id, form: RetrievalFormConfiguration::Problem(s) });
                    assert(updated_within(plan, d, n, cards[j].id@));
                }
            }
        } else {
            let k = choose|k: int| d <= k < n && plan[k] is Create && c == #[trigger] created[k];
            lemma_later_changes_ok(cards, selection, k);
        }
    }
    if let Some(s) = selection.problem {
        if let Some(i) = first_of_kind(cards, RetrievalFormKind::Problem, 0) {
            let c = later_card(cards, selection, plan, d, n, i);
            lemma_after_plan(cards, selection, created, c);
            assert(cards[i] == cards[i]);
            let m = choose|m: int| 0 <= m < result.len() && result[m] == c;
            assert(result[m].problem is Some);
        } else {
            lemma_plan_part(cards, selection, 3, 0);
            let k = part_start(cards, selection, 3);
            assert(plan[k] == CardChange::Create { template_id: None, form: RetrievalFormConfiguration::Problem(s) });
            let c = created[k];
            lemma_after_plan(cards, selection, created, c);
            let m = choose|m: int| 0 <= m < result.len() && result[m] == c;
            assert(result[m].problem is Some);
        }
    }
    lemma_first_problem_shape(result, 0);
}

/// The first type-answer settings from `from` on are those of some card there, and there are
/// some when a card there has them.
proof fn lemma_first_type_answer_shape(cards: Seq<CardSummary>, from: int)
    requires
        0 <= from,
    ensures
        first_type_answer(cards, from) matches Some(x) ==> exists|m: int| from <= m < cards.len() && #[trigger] cards[m].type_answer == Some(x),
        (exists|m: int| from <= m < cards.len() && (#[trigger] cards[m]).type_answer is Some) ==> first_type_answer(cards, from) is Some,
    decreases cards.len() - from,
{
    if from < cards.len() {
        lemma_first_type_answer_shape(cards, from + 1);
        if let Some(x) = first_type_answer(cards, from) {
            if cards[from].type_answer is None {
                let m = choose|m: int| from + 1 <= m < cards.len() && #[trigger] cards[m].type_answer == Some(x);
                assert(from <= m);
            }
        }
        if exists|m: int| from <= m < cards.len() && (#[trigger] cards[m]).type_answer is Some {
            let m = choose|m: int| from <= m < cards.len() && (#[trigger] cards[m]).type_answer is Some;
            if m > from {
                assert(cards[m].type_answer is Some);
            }
        }
    }
}

/// The type-answer settings are the selected ones.
pub open spec fn type_answer_as_selected(e: TypeAnswerSettings, selection: RetrievalFormSelection) -> bool {
    selection.type_answer matches Some(s) && texts(e.accepted_answers@) == texts(s.accepted_answers@)
}

/// After the plan, the first type-answer settings are the selected ones, and there are none when
/// none are selected.
proof fn lemma_plan_type_answer(cards: Seq<CardSummary>, selection: RetrievalFormSelection, created: Seq<CardSummary>)
    requires
        stored_cards(cards),
        creations_described(cards, selection, created),
    ensures
        same_type_answer(first_type_answer(apply_changes(cards, planned_changes(cards, selection), created), 0), selection.type_answer),
{
    let plan = planned_changes(cards, selection);
    let result = apply_changes(cards, plan, created);
    let d = deletions(cards, selection).len() as int;
    let n = plan.len() as int;
    lemma_first_of_kind(cards, RetrievalFormKind::TypeAnswer, 0);
    assert forall|m: int| 0 <= m < result.len() && (#[trigger] result[m]).type_answer is Some implies type_answer_as_selected(
        result[m].type_answer->Some_0,
        selection,
    ) by {
        let c = result[m];
        let e = c.type_answer->Some_0;
        lemma_after_plan(cards, selection, created, c);
        if exists|j: int| 0 <= j < cards.len() && is_retained(cards[j], selection) && c == #[trigger] later_card(cards, selection, plan, d, n, j) {
            let j = choose|j: int| 0 <= j < cards.len() && is_retained(cards[j], selection) && c == #[trigger] later_card(cards, selection, plan, d, n, j);
            lemma_later_card_keeps(cards, selection, plan, d, n, j);
            assert(cards[j].retrieval_kind == RetrievalFormKind::TypeAnswer);
            let i = first_of_kind(cards, RetrievalFormKind::TypeAnswer, 0)->Some_0;
            if i < j {
                assert(cards[i].retrieval_kind == cards[j].retrieval_kind);
            } else if j < i {
                assert(cards[j].retrieval_kind == cards[i].retrieval_kind);
            }
            assert(i == j);
            let s = selection.type_answer->Some_0;
            if !updated_within(plan, d, n, cards[j].id@) {
                if !has_type_answer(cards[i], s) {
                    lemma_plan_part(cards, selection, 4, 0);
                    let k = part_start(cards, selection, 4);
                    assert(plan[k] == CardChange::Update { card_id: cards[i].id, form: RetrievalFormConfiguration::TypeAnswer(s) });
                    assert(updated_within(plan, d, n, cards[j].id@));
                }
            }
        } else {
            let k = choose|k: int| d <= k < n && plan[k] is Create && c == #[trigger] created[k];
            lemma_later_changes_ok(cards, selection, k);
        }
    }
    if let Some(s) = selection.type_answer {
        if let Some(i) = first_of_kind(cards, RetrievalFormKind::TypeAnswer, 0) {
            let c = later_card(cards, selection, plan, d, n, i);
            lemma_after_plan(cards, selection, created, c);
            assert(cards[i] == cards[i]);
            let m = choose|m: int| 0 <= m < result.len() && result[m] == c;
            assert(result[m].type_answer is Some);
        } else {
            lemma_plan_part(cards, selection, 4, 0);
            let k = part_start(cards, selection, 4);
            assert(plan[k] == CardChange::Create { template_id: None, form: RetrievalFormConfiguration::TypeAnswer(s) });
            let c = created[k];
            lemma_after_plan(cards, selection, created, c);
            let m = choose|m: int| 0 <= m < result.len() && result[m] == c;
            assert(result[m].type_answer is Some);
        }
    }
    lemma_first_type_answer_shape(result, 0);
}

/// A list holds a text exactly when the set of its texts does.
proof fn lemma_lists_text_set(list: Seq<String>, t: Seq<char>)
    ensures
        lists_text(list, t) <==> texts(list).to_set().contains(t),
{
    if lists_text(list, t) {
        let k = choose|k: int| 0 <= k < list.len() && list[k]@ == t;
        assert(texts(list)[k] == t);
    }
    if texts(list).to_set().contains(t) {
        let k = choose|k: int| 0 <= k < texts(list).len() && texts(list)[k] == t;
        assert(list[k]@ == t);
    }
}

/// After the plan, the cards ask about exactly the selected cloze groups.
proof fn lemma_plan_cloze(cards: Seq<CardSummary>, selection: RetrievalFormSelection, created: Seq<CardSummary>)
    requires
        stored_cards(cards),
        creations_described(cards, selection, created),
    ensures
        cloze_groups_of(apply_changes(cards, planned_changes(cards, selection), created)) == texts(
            selection.cloze_group_ids@,
        ).to_set(),
{
    let plan = planned_changes(cards, selection);
    let result = apply_changes(cards, plan, created);
    let d = deletions(cards, selection).len() as int;
    let n = plan.len() as int;
    let ids = selection.cloze_group_ids@;
    assert forall|g: Seq<char>| cloze_groups_of(result).contains(g) <==> texts(ids).to_set().contains(g) by {
        lemma_lists_text_set(ids, g);
        if has_cloze_group(result, g) {
            let m = choose|m: int| 0 <= m < result.len() && (#[trigger] result[m].cloze matches Some(c) && c.group_id@ == g);
            let c = result[m];
            lemma_after_plan(cards, selection, created, c);
            if exists|j: int| 0 <= j < cards.len() && is_retained(cards[j], selection) && c == #[trigger] later_card(cards, selection, plan, d, n, j) {
                let j = choose|j: int| 0 <= j < cards.len() && is_retained(cards[j], selection) && c == #[trigger] later_card(cards, selection, plan, d, n, j);
                lemma_later_card_keeps(cards, selection, plan, d, n, j);
                assert(cards[j] == cards[j]);
            } else {
                let k = choose|k: int| d <= k < n && plan[k] is Create && c == #[trigger] created[k];
                lemma_later_changes_ok(cards, selection, k);
            }
        }
        if lists_text(ids, g) {
            let q = choose|q: int| 0 <= q < ids.len() && ids[q]@ == g;
            if has_cloze_group(cards, g) {
                let i = choose|i: int| 0 <= i < cards.len() && (#[trigger] cards[i].cloze matches Some(c) && c.group_id@ == g);
                let c = later_card(cards, selection, plan, d, n, i);
                lemma_later_card_keeps(cards, selection, plan, d, n, i);
                assert(cards[i] == cards[i]);
                lemma_after_plan(cards, selection, created, c);
                let m = choose|m: int| 0 <= m < result.len() && result[m] == c;
                assert(result[m].cloze matches Some(x) && x.group_id@ == g);
            } else {
                lemma_cloze_creation_exists(cards, ids, q);
                let t = choose|t: int| 0 <= t < cloze_creations(cards, ids).len() && #[trigger] cloze_creations(cards, ids)[t] == cloze_card(ids[q]);
                lemma_plan_part(cards, selection, 5, t);
                let k = part_start(cards, selection, 5) + t;
                let c = created[k];
                lemma_after_plan(cards, selection, created, c);
                let m = choose|m: int| 0 <= m < result.len() && result[m] == c;
                assert(result[m].cloze matches Some(x) && x.group_id@ == g);
            }
        }
    }
    assert(cloze_groups_of(result) =~= texts(ids).to_set());
}

/// After the plan, the cards ask about exactly the selected occlusion groups.
proof fn lemma_plan_occlusion(cards: Seq<CardSummary>, selection: RetrievalFormSelection, created: Seq<CardSummary>)
    requires
        stored_cards(cards),
        creations_described(cards, selection, created),
    ensures
        occlusion_groups_of(apply_changes(cards, planned_changes(cards, selection), created)) == texts(
            selection.image_occlusion_group_ids@,
        ).to_set(),
{
    let plan = planned_changes(cards, selection);
    let result = apply_changes(cards, plan, created);
    let d = deletions(cards, selection).len() as int;
    let n = plan.len() as int;
    let ids = selection.image_occlusion_group_ids@;
    assert forall|g: Seq<char>| occlusion_groups_of(result).contains(g) <==> texts(ids).to_set().contains(g) by {
        lemma_lists_text_set(ids, g);
        if has_occlusion_group(result, g) {
            let m = choose|m: int| 0 <= m < result.len() && (#[trigger] result[m].image_occlusion matches Some(o) && o.group_id@ == g);
            let c = result[m];
            lemma_after_plan(cards, selection, created, c);
            if exists|j: int| 0 <= j < cards.len() && is_retained(cards[j], selection) && c == #[trigger] later_card(cards, selection, plan, d, n, j) {
                let j = choose|j: int| 0 <= j < cards.len() && is_retained(cards[j], selection) && c == #[trigger] later_card(cards, selection, plan, d, n, j);
                lemma_later_card_keeps(cards, selection, plan, d, n, j);
                assert(cards[j] == cards[j]);
            } else {
                let k = choose|k: int| d <= k < n && plan[k] is Create && c == #[trigger] created[k];
                lemma_later_changes_ok(cards, selection, k);
            }
        }
        if lists_text(ids, g) {
            let q = choose|q: int| 0 <= q < ids.len() && ids[q]@ == g;
            if has_occlusion_group(cards, g) {
                let i = choose|i: int| 0 <= i < cards.len() && (#[trigger] cards[i].image_occlusion matches Some(o) && o.group_id@ == g);
                let c = later_card(cards, selection, plan, d, n, i);
                lemma_later_card_keeps(cards, selection, plan, d, n, i);
                assert(cards[i] == cards[i]);
                lemma_after_plan(cards, selection, created, c);
                let m = choose|m: int| 0 <= m < result.len() && result[m] == c;
                assert(result[m].image_occlusion matches Some(x) && x.group_id@ == g);
            } else {
                lemma_occlusion_creation_exists(cards, ids, q);
                let t = choose|t: int| 0 <= t < occlusion_creations(cards, ids).len() && #[trigger] occlusion_creations(cards, ids)[t] == occlusion_card(ids[q]);
                lemma_plan_part(cards, selection, 6, t);
                let k = part_start(cards, selection, 6) + t;
                let c = created[k];
                lemma_after_plan(cards, selection, created, c);
                let m = choose|m: int| 0 <= m < result.len() && result[m] == c;
                assert(result[m].image_occlusion matches Some(x) && x.group_id@ == g);
            }
        }
    }
    assert(occlusion_groups_of(result) =~= texts(ids).to_set());
}

/// After the plan, the cards were made from exactly the selected templates.
proof fn lemma_plan_templates(cards: Seq<CardSummary>, selection: RetrievalFormSelection, created: Seq<CardSummary>)
    requires
        stored_cards(cards),
        creations_described(cards, selection, created),
    ensures
        templates_of(apply_changes(cards, planned_changes(cards, selection), created)) == texts(
            selection.template_ids@,
        ).to_set(),
{
    let plan = planned_changes(cards, selection);
    let result = apply_changes(cards, plan, created);
    let d = deletions(cards, selection).len() as int;
    let n = plan.len() as int;
    let ids = selection.template_ids@;
    assert forall|g: Seq<char>| templates_of(result).contains(g) <==> texts(ids).to_set().contains(g) by {
        lemma_lists_text_set(ids, g);
        if has_template(result, g) {
            let m = choose|m: int| 0 <= m < result.len() && (#[trigger] result[m].template matches Some(t) && t.id@ == g);
            let c = result[m];
            lemma_after_plan(cards, selection, created, c);
            if exists|j: int| 0 <= j < cards.len() && is_retained(cards[j], selection) && c == #[trigger] later_card(cards, selection, plan, d, n, j) {
                let j = choose|j: int| 0 <= j < cards.len() && is_retained(cards[j], selection) && c == #[trigger] later_card(cards, selection, plan, d, n, j);
                lemma_later_card_keeps(cards, selection, plan, d, n, j);
                assert(cards[j] == cards[j]);
            } else {
                let k = choose|k: int| d <= k < n && plan[k] is Create && c == #[trigger] created[k];
                lemma_later_changes_ok(cards, selection, k);
            }
        }
        if lists_text(ids, g) {
            let q = choose|q: int| 0 <= q < ids.len() && ids[q]@ == g;
            if has_template(cards, g) {
                let i = choose|i: int| 0 <= i < cards.len() && (#[trigger] cards[i].template matches Some(t) && t.id@ == g);
                let c = later_card(cards, selection, plan, d, n, i);
                lemma_later_card_keeps(cards, selection, plan, d, n, i);
                assert(cards[i] == cards[i]);
                lemma_after_plan(cards, selection, created, c);
                let m = choose|m: int| 0 <= m < result.len() && result[m] == c;
                assert(result[m].template matches Some(x) && x.id@ == g);
            } else {
                lemma_template_creation_exists(cards, ids, q);
                let t = choose|t: int| 0 <= t < template_creations(cards, ids).len() && #[trigger] template_creations(cards, ids)[t] == template_card(ids[q]);
                lemma_plan_part(cards, selection, 7, t);
                let k = part_start(cards, selection, 7) + t;
                let c = created[k];
                lemma_after_plan(cards, selection, created, c);
                let m = choose|m: int| 0 <= m < result.len() && result[m] == c;
                assert(result[m].template matches Some(x) && x.id@ == g);
            }
        }
    }
    assert(templates_of(result) =~= texts(ids).to_set());
}

/// Carrying out the planned changes gives a concept exactly its selected retrieval forms:
/// its standard recall card, its explain, problem and type-answer settings, and its cloze
/// groups, occlusion groups and templates. The cards are stored cards of the concept, and
/// each created card is new and made as its creation says.
pub proof fn lemma_applying_the_plan_gives_the_selected_forms(
    cards: Seq<CardSummary>,
    selection: RetrievalFormSelection,
    created: Seq<CardSummary>,
)
    requires
        stored_cards(cards),
        creations_described(cards, selection, created),
    ensures
        forms_match(apply_changes(cards, planned_changes(cards, selection), created), selection),
{
    lemma_plan_standard_recall(cards, selection, created);
    lemma_plan_explain(cards, selection, created);
    lemma_plan_problem(cards, selection, created);
    lemma_plan_type_answer(cards, selection, created);
    lemma_plan_cloze(cards, selection, created);
    lemma_plan_occlusion(cards, selection, created);
    lemma_plan_templates(cards, selection, created);
}

} // verus!
