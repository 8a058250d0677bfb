//! Mixed practice: due cards are reordered inside consecutive priority groups so that
//! neighbouring cards change concept, favour related concepts, and vary form and state.

use vstd::multiset::Multiset;
use vstd::prelude::*;

use crate::models::study::StudyCard;
use crate::text::{has_text, lists_text, texts};

verus! {

broadcast use vstd::seq_lib::group_seq_properties;

/// Cards are reordered only within consecutive groups of this many due cards.
pub const PRIORITY_GROUP_SIZE: usize = 12;

/// The active tags of one concept. The application fills a list of them from a map of
/// sets, so a concept appears once and its tags have no repeats (see
/// [`concept_tags_valid`]).
#[derive(Clone, Debug, PartialEq, Eq)]
pub struct ConceptTags {
    pub concept_id: String,
    pub tag_ids: Vec<String>,
}

/// Position of the first entry, at or after `from`, that lists the tags of `concept`.
pub open spec fn find_concept_tags(tags: Seq<ConceptTags>, concept: Seq<char>, from: int) -> Option<int>
    decreases tags.len() - from,
{
    if from < 0 || from >= tags.len() {
        None
    } else if tags[from].concept_id@ == concept {
        Some(from)
    } else {
        find_concept_tags(tags, concept, from + 1)
    }
}

/// The tags of `concept`, if it has an entry.
pub open spec fn tags_of(tags: Seq<ConceptTags>, concept: Seq<char>) -> Option<Seq<String>> {
    match find_concept_tags(tags, concept, 0) {
        Some(i) => Some(tags[i].tag_ids@),
        None => None,
    }
}

/// How many tags of `first` also occur in `second`; for lists without repeats this is
/// the size of their intersection.
pub open spec fn count_shared(first: Seq<String>, second: Seq<String>) -> nat
    decreases first.len(),
{
    if first.len() == 0 {
        0
    } else {
        count_shared(first.drop_last(), second) + if lists_text(second, first.last()@) {
            1nat
        } else {
            0nat
        }
    }
}

/// The number of tags two concepts share; zero when either has no tags recorded.
pub open spec fn shared_tags(first: Option<Seq<String>>, second: Option<Seq<String>>) -> nat {
    match (first, second) {
        (Some(a), Some(b)) => count_shared(a, b),
        _ => 0,
    }
}

/// What makes `candidate` a good successor of `previous`, most important first: a change
/// of concept, then (only on a change of concept) the number of shared tags, then a change
/// of retrieval form, then a change of scheduling state.
pub open spec fn mix_key(previous: StudyCard, candidate: StudyCard, tags: Seq<ConceptTags>) -> (
    bool,
    nat,
    bool,
    bool,
) {
    let changes_concept = candidate.concept_id@ != previous.concept_id@;
    (
        changes_concept,
        if changes_concept {
            shared_tags(tags_of(tags, previous.concept_id@), tags_of(tags, candidate.concept_id@))
        } else {
            0
        },
        candidate.retrieval_kind != previous.retrieval_kind,
        candidate.scheduling_state != previous.scheduling_state,
    )
}

/// Lexicographic order on keys, with `false` before `true`.
pub open spec fn key_less(a: (bool, nat, bool, bool), b: (bool, nat, bool, bool)) -> bool {
    ||| (!a.0 && b.0)
    ||| (a.0 == b.0 && a.1 < b.1)
    ||| (a.0 == b.0 && a.1 == b.1 && !a.2 && b.2)
    ||| (a.0 == b.0 && a.1 == b.1 && a.2 == b.2 && !a.3 && b.3)
}

/// Among the first `n` cards of `group`, the position of the earliest card with the
/// greatest key after `previous`.
pub open spec fn best_in_prefix(
    group: Seq<StudyCard>,
    previous: StudyCard,
    tags: Seq<ConceptTags>,
    n: int,
) -> int
    decreases n,
{
    if n <= 1 {
        0
    } else {
        let best = best_in_prefix(group, previous, tags, n - 1);
        if key_less(mix_key(previous, group[best], tags), mix_key(previous, group[n - 1], tags)) {
            n - 1
        } else {
            best
        }
    }
}

/// The position of the card that follows `previous`: the first card when nothing precedes,
/// otherwise the earliest card with the greatest key.
pub open spec fn best_index(group: Seq<StudyCard>, previous: Option<StudyCard>, tags: Seq<ConceptTags>) -> int {
    match previous {
        None => 0,
        Some(p) => best_in_prefix(group, p, tags, group.len() as int),
    }
}

/// A priority group in mixed order: repeatedly take the best successor of the card
/// placed last.
pub open spec fn order_group(
    group: Seq<StudyCard>,
    previous: Option<StudyCard>,
    tags: Seq<ConceptTags>,
) -> Seq<StudyCard>
    decreases group.len(),
{
    if group.len() == 0 {
        Seq::empty()
    } else {
        let i = best_index(group, previous, tags);
        if 0 <= i < group.len() {
            seq![group[i]] + order_group(group.remove(i), Some(group[i]), tags)
        } else {
            Seq::empty()
        }
    }
}

/// The last card of a sequence, if any.
pub open spec fn last_card(s: Seq<StudyCard>) -> Option<StudyCard> {
    if s.len() == 0 {
        None
    } else {
        Some(s.last())
    }
}

/// The size of the next priority group of `cards`.
pub open spec fn group_length(cards: Seq<StudyCard>) -> int {
    if cards.len() < PRIORITY_GROUP_SIZE {
        cards.len() as int
    } else {
        PRIORITY_GROUP_SIZE as int
    }
}

/// The cards in mixed order, each priority group ordered after the card placed before it.
pub open spec fn mix_from(cards: Seq<StudyCard>, previous: Option<StudyCard>, tags: Seq<ConceptTags>) -> Seq<StudyCard>
    decreases cards.len(),
{
    if cards.len() == 0 {
        Seq::empty()
    } else {
        let n = group_length(cards);
        let ordered = order_group(cards.take(n), previous, tags);
        ordered + mix_from(cards.skip(n), last_card(ordered), tags)
    }
}

/// The due cards in mixed practice order.
pub open spec fn mixed_order(cards: Seq<StudyCard>, tags: Seq<ConceptTags>) -> Seq<StudyCard> {
    mix_from(cards, None, tags)
}

/// The best position of a non-empty prefix lies inside that prefix.
proof fn lemma_best_in_prefix_bounds(
    group: Seq<StudyCard>,
    previous: StudyCard,
    tags: Seq<ConceptTags>,
    n: int,
)
    requires
        1 <= n,
    ensures
        0 <= best_in_prefix(group, previous, tags, n) < n,
    decreases n,
{
    if n > 1 {
        lemma_best_in_prefix_bounds(group, previous, tags, n - 1);
    }
}

/// The next card of a non-empty group is one of its cards.
proof fn lemma_best_index_bounds(group: Seq<StudyCard>, previous: Option<StudyCard>, tags: Seq<ConceptTags>)
    requires
        group.len() > 0,
    ensures
        0 <= best_index(group, previous, tags) < group.len(),
{
    if let Some(p) = previous {
        lemma_best_in_prefix_bounds(group, p, tags, group.len() as int);
    }
}

/// The entry of `concept_tags` that lists the tags of `concept_id`, if any.
fn concept_tag_entry(concept_tags: &Vec<ConceptTags>, concept_id: &String) -> (r: Option<usize>)
    ensures
        r matches Some(i) ==> find_concept_tags(concept_tags@, concept_id@, 0) == Some(i as int)
            && i < concept_tags.len(),
        r is None ==> find_concept_tags(concept_tags@, concept_id@, 0) is None,
{
    let mut i: usize = 0;
    while i < concept_tags.len()
        invariant
            i <= concept_tags.len(),
            find_concept_tags(concept_tags@, concept_id@, 0) == find_concept_tags(
                concept_tags@,
                concept_id@,
                i as int,
            ),
        decreases concept_tags.len() - i,
    {
        if concept_tags[i].concept_id == *concept_id {
            return Some(i);
        }
        i = i + 1;
    }
    None
}

/// How many tags of `first` also occur in `second`.
fn count_shared_tags(first: &Vec<String>, second: &Vec<String>) -> (r: usize)
    ensures
        r == count_shared(first@, second@),
        r <= first.len(),
{
    let mut count: usize = 0;
    let mut j: usize = 0;
    while j < first.len()
        invariant
            j <= first.len(),
            count == count_shared(first@.take(j as int), second@),
            count <= j,
        decreases first.len() - j,
    {
        assert(first@.take(j + 1).drop_last() =~= first@.take(j as int));
        if has_text(second, &first[j]) {
            count = count + 1;
        }
        j = j + 1;
    }
    assert(first@.take(first.len() as int) =~= first@);
    count
}

/// The number of tags two concepts share; zero when either has no tags recorded.
pub fn shared_tag_count(concept_tags: &Vec<ConceptTags>, first: &String, second: &String) -> (r: usize)
    ensures
        r == shared_tags(tags_of(concept_tags@, first@), tags_of(concept_tags@, second@)),
{
    match (concept_tag_entry(concept_tags, first), concept_tag_entry(concept_tags, second)) {
        (Some(a), Some(b)) => count_shared_tags(&concept_tags[a].tag_ids, &concept_tags[b].tag_ids),
        _ => 0,
    }
}

/// The key of `candidate` after `previous`, with the shared tag count as a machine integer.
fn card_key(concept_tags: &Vec<ConceptTags>, previous: &StudyCard, candidate: &StudyCard) -> (r: (
    bool,
    usize,
    bool,
    bool,
))
    ensures
        (r.0, r.1 as nat, r.2, r.3) == mix_key(*previous, *candidate, concept_tags@),
{
    let changes_concept = candidate.concept_id != previous.concept_id;
    let shared = if changes_concept {
        shared_tag_count(concept_tags, &previous.concept_id, &candidate.concept_id)
    } else {
        0
    };
    (
        changes_concept,
        shared,
        candidate.retrieval_kind != previous.retrieval_kind,
        candidate.scheduling_state != previous.scheduling_state,
    )
}

/// Lexicographic comparison of keys.
fn key_is_less(a: (bool, usize, bool, bool), b: (bool, usize, bool, bool)) -> (r: bool)
    ensures
        r == key_less((a.0, a.1 as nat, a.2, a.3), (b.0, b.1 as nat, b.2, b.3)),
{
    (!a.0 && b.0) || (a.0 == b.0 && a.1 < b.1) || (a.0 == b.0 && a.1 == b.1 && !a.2 && b.2) || (
    a.0 == b.0 && a.1 == b.1 && a.2 == b.2 && !a.3 && b.3)
}

/// The position of the card that should follow `previous` within `group`.
fn next_card_index(
    group: &Vec<StudyCard>,
    previous: Option<&StudyCard>,
    concept_tags: &Vec<ConceptTags>,
) -> (r: usize)
    requires
        group.len() > 0,
    ensures
        r == best_index(
            group@,
            match previous {
                Some(p) => Some(*p),
                None => None,
            },
            concept_tags@,
        ),
        r < group.len(),
{
    let previous = match previous {
        Some(p) => p,
        None => {
            return 0;
        },
    };
    let mut best: usize = 0;
    let mut best_key = card_key(concept_tags, previous, &group[0]);
    let mut n: usize = 1;
    while n < group.len()
        invariant
            1 <= n <= group.len(),
            best < n,
            best as int == best_in_prefix(group@, *previous, concept_tags@, n as int),
            (best_key.0, best_key.1 as nat, best_key.2, best_key.3) == mix_key(
                *previous,
                group@[best as int],
                concept_tags@,
            ),
        decreases group.len() - n,
    {
        let key = card_key(concept_tags, previous, &group[n]);
        if key_is_less(best_key, key) {
            best = n;
            best_key = key;
        }
        n = n + 1;
    }
    best
}

/// Orders the due cards for mixed practice. Cards are taken in groups of
/// [`PRIORITY_GROUP_SIZE`] in their due order; within a group each next card is the
/// earliest one that best changes concept, shares tags with the previous concept, and
/// changes retrieval form and scheduling state.
#[verifier::rlimit(50)]
pub fn mix_due_cards(cards: Vec<StudyCard>, concept_tags: &Vec<ConceptTags>) -> (r: Vec<StudyCard>)
    ensures
        r@ == mixed_order(cards@, concept_tags@),
{
    let ghost target = mixed_order(cards@, concept_tags@);
    let mut remaining = cards;
    let mut mixed: Vec<StudyCard> = Vec::new();
    while remaining.len() > 0
        invariant
            mixed@ + mix_from(remaining@, last_card(mixed@), concept_tags@) == target,
        decreases remaining.len(),
    {
        let ghost remaining0 = remaining@;
        let ghost mixed0 = mixed@;
        let group_size = if remaining.len() < PRIORITY_GROUP_SIZE {
            remaining.len()
        } else {
            PRIORITY_GROUP_SIZE
        };
        let mut group: Vec<StudyCard> = Vec::new();
        while group.len() < group_size
            invariant
                group_size <= remaining0.len(),
                group.len() <= group_size,
                group@ == remaining0.take(group.len() as int),
                remaining@ == remaining0.skip(group.len() as int),
            decreases group_size - group.len(),
        {
            let card = remaining.remove(0);
            group.push(card);
            assert(group@ =~= remaining0.take(group.len() as int));
            assert(remaining@ =~= remaining0.skip(group.len() as int));
        }
        let ghost ordered = order_group(group@, last_card(mixed0), concept_tags@);
        proof {
            lemma_best_index_bounds(group@, last_card(mixed0), concept_tags@);
        }
        while group.len() > 0
            invariant
                mixed@ + order_group(group@, last_card(mixed@), concept_tags@) == mixed0 + ordered,
            decreases group.len(),
        {
            let ghost group0 = group@;
            let ghost before = mixed@;
            let next_index = if mixed.len() == 0 {
                next_card_index(&group, None, concept_tags)
            } else {
                next_card_index(&group, Some(&mixed[mixed.len() - 1]), concept_tags)
            };
            let card = group.remove(next_index);
            mixed.push(card);
            assert(mixed@ + order_group(group@, last_card(mixed@), concept_tags@) =~= before
                + order_group(group0, last_card(before), concept_tags@));
        }
        assert(mixed@ =~= mixed0 + ordered);
        assert(ordered.len() > 0);
        assert(last_card(mixed@) == last_card(ordered));
    }
    assert(mixed@ =~= target);
    mixed
}

/// Ordering a group keeps exactly its cards.
proof fn lemma_order_group_permutes(group: Seq<StudyCard>, previous: Option<StudyCard>, tags: Seq<ConceptTags>)
    ensures
        order_group(group, previous, tags).len() == group.len(),
        order_group(group, previous, tags).to_multiset() == group.to_multiset(),
    decreases group.len(),
{
    broadcast use vstd::multiset::group_multiset_axioms;

    if group.len() > 0 {
        lemma_best_index_bounds(group, previous, tags);
        let i = best_index(group, previous, tags);
        let rest = order_group(group.remove(i), Some(group[i]), tags);
        lemma_order_group_permutes(group.remove(i), Some(group[i]), tags);
        vstd::seq_lib::lemma_multiset_commutative(seq![group[i]], rest);
        assert(seq![group[i]].to_multiset() =~= Multiset::singleton(group[i])) by {
            assert(seq![group[i]] =~= Seq::<StudyCard>::empty().push(group[i]));
        }
        assert(group.to_multiset().count(group[i]) > 0);
        assert(group.to_multiset() =~= group.remove(i).to_multiset().insert(group[i]));
    }
}

/// Mixing from any previous card keeps exactly the given cards.
proof fn lemma_mix_from_permutes(cards: Seq<StudyCard>, previous: Option<StudyCard>, tags: Seq<ConceptTags>)
    ensures
        mix_from(cards, previous, tags).len() == cards.len(),
        mix_from(cards, previous, tags).to_multiset() == cards.to_multiset(),
    decreases cards.len(),
{
    broadcast use vstd::multiset::group_multiset_axioms;

    if cards.len() > 0 {
        let n = group_length(cards);
        let ordered = order_group(cards.take(n), previous, tags);
        lemma_order_group_permutes(cards.take(n), previous, tags);
        lemma_mix_from_permutes(cards.skip(n), last_card(ordered), tags);
        let rest = mix_from(cards.skip(n), last_card(ordered), tags);
        vstd::seq_lib::lemma_multiset_commutative(ordered, rest);
        vstd::seq_lib::lemma_multiset_commutative(cards.take(n), cards.skip(n));
        assert(cards.take(n) + cards.skip(n) =~= cards);
    }
}

/// Mixed practice only reorders the due cards: it neither drops, adds nor repeats one.
pub proof fn lemma_mixing_is_a_permutation(cards: Seq<StudyCard>, tags: Seq<ConceptTags>)
    ensures
        mixed_order(cards, tags).len() == cards.len(),
        mixed_order(cards, tags).to_multiset() == cards.to_multiset(),
{
    lemma_mix_from_permutes(cards, None, tags);
}

/// The end of the `k`-th priority group of `len` cards.
pub open spec fn group_end(len: int, k: int) -> int {
    if PRIORITY_GROUP_SIZE * k + PRIORITY_GROUP_SIZE < len {
        PRIORITY_GROUP_SIZE * k + PRIORITY_GROUP_SIZE
    } else {
        len
    }
}

proof fn lemma_mix_from_keeps_groups(
    cards: Seq<StudyCard>,
    previous: Option<StudyCard>,
    tags: Seq<ConceptTags>,
    k: int,
)
    requires
        0 <= k,
        PRIORITY_GROUP_SIZE * k < cards.len(),
    ensures
        mix_from(cards, previous, tags).subrange(
            PRIORITY_GROUP_SIZE * k,
            group_end(cards.len() as int, k),
        ).to_multiset() == cards.subrange(
            PRIORITY_GROUP_SIZE * k,
            group_end(cards.len() as int, k),
        ).to_multiset(),
    decreases k,
{
    let n = group_length(cards);
    let ordered = order_group(cards.take(n), previous, tags);
    let rest = mix_from(cards.skip(n), last_card(ordered), tags);
    lemma_order_group_permutes(cards.take(n), previous, tags);
    let result = mix_from(cards, previous, tags);
    assert(result == ordered + rest);
    if k == 0 {
        assert(group_end(cards.len() as int, 0) == n);
        assert(result.subrange(0, n) =~= ordered);
        assert(cards.subrange(0, n) =~= cards.take(n));
    } else {
        assert(n == PRIORITY_GROUP_SIZE);
        let tail = cards.skip(n);
        lemma_mix_from_keeps_groups(tail, last_card(ordered), tags, k - 1);
        lemma_mix_from_permutes(tail, last_card(ordered), tags);
        let lo = PRIORITY_GROUP_SIZE * k;
        let hi = group_end(cards.len() as int, k);
        assert(PRIORITY_GROUP_SIZE * (k - 1) == lo - n);
        assert(group_end(tail.len() as int, k - 1) == hi - n);
        assert(result.subrange(lo, hi) =~= rest.subrange(lo - n, hi - n));
        assert(cards.subrange(lo, hi) =~= tail.subrange(lo - n, hi - n));
    }
}

/// Mixing never moves a card out of its priority group: the cards at positions
/// `12k .. 12k + 12` of the mixed order are those at the same positions in due order.
pub proof fn lemma_mixing_keeps_priority_groups(cards: Seq<StudyCard>, tags: Seq<ConceptTags>, k: int)
    requires
        0 <= k,
        PRIORITY_GROUP_SIZE * k < cards.len(),
    ensures
        mixed_order(cards, tags).subrange(
            PRIORITY_GROUP_SIZE * k,
            group_end(cards.len() as int, k),
        ).to_multiset() == cards.subrange(
            PRIORITY_GROUP_SIZE * k,
            group_end(cards.len() as int, k),
        ).to_multiset(),
{
    lemma_mix_from_keeps_groups(cards, None, tags, k);
}

/// The most urgent due card is always studied first.
pub proof fn lemma_mixing_keeps_the_first_card(cards: Seq<StudyCard>, tags: Seq<ConceptTags>)
    requires
        cards.len() > 0,
    ensures
        mixed_order(cards, tags)[0] == cards[0],
{
    let n = group_length(cards);
    let ordered = order_group(cards.take(n), None, tags);
    assert(mixed_order(cards, tags) == ordered + mix_from(cards.skip(n), last_card(ordered), tags));
    assert(ordered[0] == cards.take(n)[0]);
}

/// No two strings of the list hold the same text.
pub open spec fn texts_distinct(v: Seq<String>) -> bool {
    forall|i: int, j: int| 0 <= i < j < v.len() ==> v[i]@ != v[j]@
}

/// Tag lists as the application reads them: each concept listed once, and no tag twice in
/// the list of a concept.
pub open spec fn concept_tags_valid(tags: Seq<ConceptTags>) -> bool {
    &&& forall|i: int, j: int| 0 <= i < j < tags.len() ==> tags[i].concept_id@ != tags[j].concept_id@
    &&& forall|i: int| 0 <= i < tags.len() ==> texts_distinct(#[trigger] tags[i].tag_ids@)
}

/// For a list without repeats, the shared count is the size of the intersection of the two
/// sets of tag texts.
pub proof fn lemma_count_shared_is_intersection_size(first: Seq<String>, second: Seq<String>)
    requires
        texts_distinct(first),
    ensures
        count_shared(first, second) == texts(first).to_set().intersect(texts(second).to_set()).len(),
    decreases first.len(),
{
    broadcast use vstd::set::group_set_axioms;
    broadcast use vstd::seq_lib::seq_to_set_is_finite;

    let other = texts(second).to_set();
    if first.len() == 0 {
        assert(texts(first).to_set().intersect(other) =~= Set::<Seq<char>>::empty());
    } else {
        let rest = first.drop_last();
        let t = first.last()@;
        lemma_count_shared_is_intersection_size(rest, second);
        let s1 = texts(rest).to_set();
        assert(texts(first) =~= texts(rest) + seq![t]);
        Seq::lemma_to_set_insert_commutes(texts(rest), t);
        assert(texts(first).to_set() =~= s1.insert(t));
        assert(!s1.contains(t)) by {
            if s1.contains(t) {
                let k = choose|k: int| 0 <= k < texts(rest).len() && texts(rest)[k] == t;
                assert(rest[k]@ == first[k]@);
                assert(first[k]@ != first[first.len() - 1]@);
            }
        }
        assert(lists_text(second, t) <==> other.contains(t)) by {
            if lists_text(second, t) {
                let k = choose|k: int| 0 <= k < second.len() && second[k]@ == t;
                assert(texts(second)[k] == t);
            }
            if other.contains(t) {
                let k = choose|k: int| 0 <= k < texts(second).len() && texts(second)[k] == t;
                assert(second[k]@ == t);
            }
        }
        if other.contains(t) {
            assert(s1.insert(t).intersect(other) =~= s1.intersect(other).insert(t));
        } else {
            assert(s1.insert(t).intersect(other) =~= s1.intersect(other));
        }
    }
}

/// The number of tags two concepts share does not depend on which comes first, when each
/// concept's tags have no repeats.
pub proof fn lemma_shared_tags_symmetric(tags: Seq<ConceptTags>, first: Seq<char>, second: Seq<char>)
    requires
        concept_tags_valid(tags),
    ensures
        shared_tags(tags_of(tags, first), tags_of(tags, second)) == shared_tags(
            tags_of(tags, second),
            tags_of(tags, first),
        ),
{
    lemma_find_concept_tags_bounds(tags, first, 0);
    lemma_find_concept_tags_bounds(tags, second, 0);
    match (tags_of(tags, first), tags_of(tags, second)) {
        (Some(a), Some(b)) => {
            let i = find_concept_tags(tags, first, 0)->Some_0;
            let j = find_concept_tags(tags, second, 0)->Some_0;
            assert(texts_distinct(tags[i].tag_ids@));
            assert(texts_distinct(tags[j].tag_ids@));
            lemma_count_shared_is_intersection_size(a, b);
            lemma_count_shared_is_intersection_size(b, a);
            assert(texts(a).to_set().intersect(texts(b).to_set()) =~= texts(b).to_set().intersect(
                texts(a).to_set(),
            ));
        },
        _ => {},
    }
}

/// A found entry lies within the list, at or after where the search began.
proof fn lemma_find_concept_tags_bounds(tags: Seq<ConceptTags>, concept: Seq<char>, from: int)
    ensures
        find_concept_tags(tags, concept, from) matches Some(i) ==> from <= i < tags.len()
            && tags[i].concept_id@ == concept,
    decreases tags.len() - from,
{
    if 0 <= from < tags.len() && tags[from].concept_id@ != concept {
        lemma_find_concept_tags_bounds(tags, concept, from + 1);
    }
}

/// No key comes before itself, and the order on keys is transitive.
proof fn lemma_key_less_strict(a: (bool, nat, bool, bool), b: (bool, nat, bool, bool), c: (bool, nat, bool, bool))
    ensures
        !key_less(a, a),
        key_less(a, b) && key_less(b, c) ==> key_less(a, c),
{
}

/// No card of the first `n` has a greater key than the one chosen among them.
proof fn lemma_best_in_prefix_is_greatest(
    group: Seq<StudyCard>,
    previous: StudyCard,
    tags: Seq<ConceptTags>,
    n: int,
    j: int,
)
    requires
        0 <= j < n,
    ensures
        !key_less(
            mix_key(previous, group[best_in_prefix(group, previous, tags, n)], tags),
            mix_key(previous, group[j], tags),
        ),
    decreases n,
{
    if n > 1 {
        let best = best_in_prefix(group, previous, tags, n - 1);
        let kb = mix_key(previous, group[best], tags);
        let kl = mix_key(previous, group[n - 1], tags);
        let kj = mix_key(previous, group[j], tags);
        lemma_key_less_strict(kl, kl, kl);
        if j < n - 1 {
            lemma_best_in_prefix_is_greatest(group, previous, tags, n - 1, j);
            lemma_key_less_strict(kb, kl, kj);
        }
    } else {
        let k0 = mix_key(previous, group[0], tags);
        lemma_key_less_strict(k0, k0, k0);
    }
}

/// The number of tags the concept of `card` shares with that of `previous`.
pub open spec fn tags_shared_with(previous: StudyCard, card: StudyCard, tags: Seq<ConceptTags>) -> nat {
    shared_tags(tags_of(tags, previous.concept_id@), tags_of(tags, card.concept_id@))
}

/// The card placed right after `previous` in a priority group is one that no other card of
/// the group beats: a card that changes concept is preferred to one that does not; among
/// cards that change concept, one sharing more tags with the previous concept; then, all
/// else equal, one that changes retrieval form; then, all else equal, one that changes
/// scheduling state.
pub proof fn lemma_next_card_is_the_best_successor(
    group: Seq<StudyCard>,
    previous: StudyCard,
    tags: Seq<ConceptTags>,
    j: int,
)
    requires
        0 <= j < group.len(),
    ensures
        ({
            let next = order_group(group, Some(previous), tags)[0];
            let other = group[j];
            let next_moves = next.concept_id@ != previous.concept_id@;
            let other_moves = other.concept_id@ != previous.concept_id@;
            let same_rank = next_moves == other_moves && (!next_moves || tags_shared_with(previous, next, tags)
                == tags_shared_with(previous, other, tags));
            &&& group.contains(next)
            &&& (other_moves ==> next_moves)
            &&& (next_moves && other_moves ==> tags_shared_with(previous, other, tags) <= tags_shared_with(
                previous,
                next,
                tags,
            ))
            &&& (same_rank && other.retrieval_kind != previous.retrieval_kind ==> next.retrieval_kind
                != previous.retrieval_kind)
            &&& (same_rank && (other.retrieval_kind != previous.retrieval_kind) == (next.retrieval_kind
                != previous.retrieval_kind) && other.scheduling_state != previous.scheduling_state
                ==> next.scheduling_state != previous.scheduling_state)
        }),
{
    let n = group.len() as int;
    lemma_best_in_prefix_bounds(group, previous, tags, n);
    let i = best_in_prefix(group, previous, tags, n);
    assert(order_group(group, Some(previous), tags)[0] == group[i]);
    lemma_best_in_prefix_is_greatest(group, previous, tags, n, j);
}

} // verus!
