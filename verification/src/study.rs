//! Scheduling decisions around a review that do not depend on the scheduler's memory
//! model: whether a card may be graded, how its scheduling state moves, how its counters
//! grow, how long since its last review, and which grade may be undone.

use vstd::prelude::*;

use crate::error::{LibraryError, LibraryResult};
use crate::id_set::{insert_text, strictly_ascending};
use crate::models::retrieval::RetrievalFormKind;
use crate::models::study::{ReviewRating, SchedulingState, StudyCard};
use crate::models::templates::TemplateMode;
use crate::text::texts;

verus! {

/// Milliseconds in a day.
pub const MILLISECONDS_PER_DAY: i64 = 86_400_000;

/// The shortest maximum interval a learner can choose, in days.
pub const MINIMUM_INTERVAL_DAYS: i64 = 1;

/// The longest maximum interval a learner can choose, in days.
pub const MAXIMUM_INTERVAL_DAYS: i64 = 36_500;

/// The state a card moves to when it is graded: a failed grade sends a new or learning
/// card to learning and a card in review or relearning to relearning; any other grade
/// puts the card in review.
pub open spec fn scheduling_state_after(current: SchedulingState, rating: ReviewRating) -> SchedulingState {
    match (current, rating) {
        (SchedulingState::New, ReviewRating::Again) => SchedulingState::Learning,
        (SchedulingState::Learning, ReviewRating::Again) => SchedulingState::Learning,
        (SchedulingState::Review, ReviewRating::Again) => SchedulingState::Relearning,
        (SchedulingState::Relearning, ReviewRating::Again) => SchedulingState::Relearning,
        _ => SchedulingState::Review,
    }
}

/// The state a card moves to when it is graded (see [`scheduling_state_after`]).
pub fn next_scheduling_state(current: SchedulingState, rating: ReviewRating) -> (r: SchedulingState)
    ensures
        r == scheduling_state_after(current, rating),
{
    match (current, rating) {
        (SchedulingState::New, ReviewRating::Again) | (
            SchedulingState::Learning,
            ReviewRating::Again,
        ) => SchedulingState::Learning,
        (SchedulingState::Review, ReviewRating::Again) | (
            SchedulingState::Relearning,
            ReviewRating::Again,
        ) => SchedulingState::Relearning,
        (_, _) => SchedulingState::Review,
    }
}

/// `now - since`, held to the range of `i64` as `i64::saturating_sub` holds it.
pub open spec fn saturating_difference(now: i64, since: i64) -> int {
    let d = now - since;
    if d > i64::MAX {
        i64::MAX as int
    } else if d < i64::MIN {
        i64::MIN as int
    } else {
        d
    }
}

/// Whole days in `milliseconds`, rounded toward zero as integer division rounds.
pub open spec fn whole_days(milliseconds: int) -> int {
    if milliseconds >= 0 {
        milliseconds / (MILLISECONDS_PER_DAY as int)
    } else {
        -((-milliseconds) / (MILLISECONDS_PER_DAY as int))
    }
}

/// The whole days since the last review, as the scheduler reads them: none before a first
/// review, and the largest `u32` when the day count does not fit in one (a last review
/// more than a day in the future counts as such).
pub open spec fn days_since(last_reviewed_at: Option<i64>, now: i64) -> u32 {
    match last_reviewed_at {
        None => 0,
        Some(t) => {
            let days = whole_days(saturating_difference(now, t));
            if 0 <= days <= u32::MAX {
                days as u32
            } else {
                u32::MAX
            }
        },
    }
}

/// The whole days since the last review (see [`days_since`]).
pub fn elapsed_days(last_reviewed_at: Option<i64>, now: i64) -> (r: u32)
    ensures
        r == days_since(last_reviewed_at, now),
{
    let last = match last_reviewed_at {
        None => {
            return 0;
        },
        Some(t) => t,
    };
    let wide: i128 = now as i128 - last as i128;
    let elapsed: i64 = if wide > i64::MAX as i128 {
        i64::MAX
    } else if wide < i64::MIN as i128 {
        i64::MIN
    } else {
        wide as i64
    };
    if elapsed < 0 {
        if elapsed > -MILLISECONDS_PER_DAY {
            assert((-(elapsed as int)) / (MILLISECONDS_PER_DAY as int) == 0);
            0
        } else {
            assert((-(elapsed as int)) / (MILLISECONDS_PER_DAY as int) >= 1);
            u32::MAX
        }
    } else {
        let days = elapsed / MILLISECONDS_PER_DAY;
        if days > 4_294_967_295 {
            u32::MAX
        } else {
            days as u32
        }
    }
}

/// A card may be graded only once it is due.
pub fn ensure_card_due(card_id: &str, due_at: i64, now: i64) -> (r: LibraryResult<()>)
    ensures
        r is Ok <==> due_at <= now,
        r matches Err(e) ==> (e matches LibraryError::CardNotDue { card_id: c, due_at: d } && c@
            == card_id@ && d == due_at),
{
    if due_at > now {
        return Err(LibraryError::CardNotDue { card_id: card_id.to_owned(), due_at });
    }
    Ok(())
}

/// A grade counts as a lapse when it fails a card that was in review.
pub open spec fn is_lapse(state: SchedulingState, rating: ReviewRating) -> bool {
    state == SchedulingState::Review && rating == ReviewRating::Again
}

/// The review and lapse counters of a card after one more grade.
pub struct ReviewCounts {
    pub review_count: i64,
    pub lapse_count: i64,
}

/// The counters after one more grade: every grade is counted, and a lapse also counts as
/// one; a counter that would overflow makes the schedule invalid.
pub fn count_review(
    state: SchedulingState,
    rating: ReviewRating,
    review_count: i64,
    lapse_count: i64,
) -> (r: LibraryResult<ReviewCounts>)
    ensures
        r is Ok <==> review_count + 1 <= i64::MAX && lapse_count + (if is_lapse(state, rating) {
            1int
        } else {
            0int
        }) <= i64::MAX,
        r matches Ok(c) ==> c.review_count == review_count + 1 && c.lapse_count == lapse_count + (
        if is_lapse(state, rating) {
            1int
        } else {
            0int
        }),
        r matches Err(e) ==> e is InvalidSchedule,
{
    let review_count = match review_count.checked_add(1) {
        Some(c) => c,
        None => {
            return Err(LibraryError::InvalidSchedule);
        },
    };
    let lapse = if state == SchedulingState::Review && rating == ReviewRating::Again {
        1i64
    } else {
        0i64
    };
    let lapse_count = match lapse_count.checked_add(lapse) {
        Some(c) => c,
        None => {
            return Err(LibraryError::InvalidSchedule);
        },
    };
    Ok(ReviewCounts { review_count, lapse_count })
}

/// A maximum interval must lie between one day and a hundred years.
pub fn validate_maximum_interval(maximum_interval_days: i64) -> (r: LibraryResult<()>)
    ensures
        r is Ok <==> MINIMUM_INTERVAL_DAYS <= maximum_interval_days <= MAXIMUM_INTERVAL_DAYS,
        r matches Err(e) ==> (e matches LibraryError::InvalidMaximumInterval { minimum, maximum }
            && minimum == MINIMUM_INTERVAL_DAYS && maximum == MAXIMUM_INTERVAL_DAYS),
{
    if maximum_interval_days < MINIMUM_INTERVAL_DAYS || maximum_interval_days > MAXIMUM_INTERVAL_DAYS {
        return Err(
            LibraryError::InvalidMaximumInterval {
                minimum: MINIMUM_INTERVAL_DAYS,
                maximum: MAXIMUM_INTERVAL_DAYS,
            },
        );
    }
    Ok(())
}

/// Only the latest grade of a card can be undone: the review must be the card's last one.
pub fn ensure_latest_review(review_id: &str, last_review_id: Option<&str>) -> (r: LibraryResult<()>)
    ensures
        r is Ok <==> (last_review_id matches Some(last) && last@ == review_id@),
        r matches Err(e) ==> e is ReviewNotReversible,
{
    match last_review_id {
        Some(last) => {
            if last.to_owned() == review_id.to_owned() {
                Ok(())
            } else {
                Err(LibraryError::ReviewNotReversible)
            }
        },
        None => Err(LibraryError::ReviewNotReversible),
    }
}

/// An undo is dated no earlier than the grade it undoes.
pub fn reversal_time(now: i64, reviewed_at: i64) -> (r: i64)
    ensures
        r == if now >= reviewed_at {
            now
        } else {
            reviewed_at
        },
{
    if now >= reviewed_at {
        now
    } else {
        reviewed_at
    }
}

/// A card is never moved back to new by a grade, and a passing grade always puts it in
/// review.
pub proof fn lemma_grading_never_returns_to_new(current: SchedulingState, rating: ReviewRating)
    ensures
        scheduling_state_after(current, rating) != SchedulingState::New,
        rating != ReviewRating::Again ==> scheduling_state_after(current, rating)
            == SchedulingState::Review,
{
}

/// A due card needs the images of its concept: it uses a custom template, or it is a
/// problem or an image occlusion card.
pub open spec fn needs_media(card: StudyCard) -> bool {
    ||| card.template matches Some(t) && t.content.mode == TemplateMode::Custom
    ||| card.retrieval_kind == RetrievalFormKind::Problem
    ||| card.retrieval_kind == RetrievalFormKind::ImageOcclusion
}

/// The concepts whose images the first `n` due cards need.
pub open spec fn media_concepts(cards: Seq<StudyCard>, n: int) -> Set<Seq<char>>
    decreases n,
{
    if n <= 0 {
        Set::empty()
    } else if needs_media(cards[n - 1]) {
        media_concepts(cards, n - 1).insert(cards[n - 1].concept_id@)
    } else {
        media_concepts(cards, n - 1)
    }
}

/// The concepts whose images the due cards need, as an ascending set.
pub fn media_concept_ids(cards: &Vec<StudyCard>) -> (r: Vec<String>)
    ensures
        strictly_ascending(texts(r@)),
        texts(r@).to_set() == media_concepts(cards@, cards.len() as int),
{
    let mut set: Vec<String> = Vec::new();
    let mut i: usize = 0;
    assert(texts(set@).to_set() =~= Set::<Seq<char>>::empty());
    while i < cards.len()
        invariant
            i <= cards.len(),
            strictly_ascending(texts(set@)),
            texts(set@).to_set() == media_concepts(cards@, i as int),
        decreases cards.len() - i,
    {
        let custom = match &cards[i].template {
            Some(t) => t.content.mode == TemplateMode::Custom,
            None => false,
        };
        if custom || cards[i].retrieval_kind == RetrievalFormKind::Problem
            || cards[i].retrieval_kind == RetrievalFormKind::ImageOcclusion {
            insert_text(&mut set, cards[i].concept_id.clone());
        }
        i = i + 1;
    }
    set
}

/// A study session asks for a positive number of cards, or for all due cards: a limit of
/// zero is refused.
pub fn check_card_limit(card_limit: Option<u32>) -> (r: LibraryResult<()>)
    ensures
        r is Ok <==> card_limit != Some(0u32),
        r matches Err(e) ==> (e matches LibraryError::InvalidContent { field, message }
            && field@ == "Card limit"@ && message@ == "must be a positive whole number"@),
{
    match card_limit {
        Some(0) => Err(
            LibraryError::InvalidContent {
                field: "Card limit",
                message: "must be a positive whole number".to_owned(),
            },
        ),
        _ => Ok(()),
    }
}

} // verus!
