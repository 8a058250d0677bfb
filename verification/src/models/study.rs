//! Study queues, schedules, reviews and pretests.

use vstd::prelude::*;

use crate::error::{LibraryError, LibraryResult};
use crate::models::concepts::{ConceptContent, MediaSummary};
use crate::models::retrieval::{
    ClozeSettings, ExplainSettings, ImageOcclusionSettings, ProblemSettings, RetrievalFormKind,
    TypeAnswerSettings,
};
use crate::models::templates::TemplateContent;
use crate::text::str_equals;

verus! {

/// A template as the study screen renders it.
#[derive(Clone, Debug, PartialEq, Eq)]
pub struct StudyTemplate {
    pub id: String,
    pub name: String,
    pub content: TemplateContent,
}

/// A due card with everything needed to study it.
#[derive(Clone, Debug, PartialEq, Eq)]
pub struct StudyCard {
    pub id: String,
    pub concept_id: String,
    pub concept_last_change_id: String,
    pub concept_title: String,
    pub content: ConceptContent,
    pub retrieval_kind: RetrievalFormKind,
    pub explain: Option<ExplainSettings>,
    pub problem: Option<ProblemSettings>,
    pub cloze: Option<ClozeSettings>,
    pub image_occlusion: Option<ImageOcclusionSettings>,
    pub type_answer: Option<TypeAnswerSettings>,
    pub template: Option<StudyTemplate>,
    pub scheduling_state: SchedulingState,
    pub due_at: i64,
    pub pretest_eligible: bool,
}

/// The cards due now and when the next one falls due.
#[derive(Clone, Debug, PartialEq, Eq)]
pub struct StudyQueue {
    pub cards: Vec<StudyCard>,
    pub media: Vec<MediaSummary>,
    pub next_due_at: Option<i64>,
    pub total_cards: i64,
    pub mixed_practice_enabled: bool,
}

/// Where a card stands in the spaced-repetition cycle.
#[derive(Clone, Copy, Debug, PartialEq, Eq, Structural)]
pub enum SchedulingState {
    New,
    Learning,
    Review,
    Relearning,
}

impl SchedulingState {
    /// The stored name of each value.
    pub open spec fn stored_name(self) -> Seq<char> {
        match self {
            SchedulingState::New => "new"@,
            SchedulingState::Learning => "learning"@,
            SchedulingState::Review => "review"@,
            SchedulingState::Relearning => "relearning"@,
        }
    }

    /// The stored name of this value.
    pub fn as_str(self) -> (s: &'static str)
        ensures
            s@ == self.stored_name(),
    {
        match self {
            SchedulingState::New => "new",
            SchedulingState::Learning => "learning",
            SchedulingState::Review => "review",
            SchedulingState::Relearning => "relearning",
        }
    }
}

/// The value whose stored name is `s`, if any.
pub open spec fn scheduling_state_from_name(s: Seq<char>) -> Option<SchedulingState> {
    if s == "new"@ {
        Some(SchedulingState::New)
    } else if s == "learning"@ {
        Some(SchedulingState::Learning)
    } else if s == "review"@ {
        Some(SchedulingState::Review)
    } else if s == "relearning"@ {
        Some(SchedulingState::Relearning)
    } else {
        None
    }
}

/// Reads a stored name; any other text is an invalid stored state.
pub fn parse_scheduling_state(value: &str) -> (r: LibraryResult<SchedulingState>)
    ensures
        r matches Ok(k) ==> scheduling_state_from_name(value@) == Some(k),
        r matches Err(e) ==> (e matches LibraryError::InvalidSchedulingState(v) && v@ == value@),
        r is Err <==> scheduling_state_from_name(value@) is None,
{
    if str_equals(value, "new") {
        return Ok(SchedulingState::New);
    }
    if str_equals(value, "learning") {
        return Ok(SchedulingState::Learning);
    }
    if str_equals(value, "review") {
        return Ok(SchedulingState::Review);
    }
    if str_equals(value, "relearning") {
        return Ok(SchedulingState::Relearning);
    }
    Err(LibraryError::InvalidSchedulingState(value.to_owned()))
}

/// Every value is read back from its own stored name unchanged.
pub proof fn lemma_scheduling_state_name_round_trip(k: SchedulingState)
    ensures
        scheduling_state_from_name(k.stored_name()) == Some(k),
{
    reveal_strlit("new");
    reveal_strlit("learning");
    reveal_strlit("review");
    reveal_strlit("relearning");
    match k {
        SchedulingState::New => {
        },
        SchedulingState::Learning => {
            assert("learning"@.len() != "new"@.len());
        },
        SchedulingState::Review => {
            assert("review"@.len() != "new"@.len());
            assert("review"@.len() != "learning"@.len());
        },
        SchedulingState::Relearning => {
            assert("relearning"@.len() != "new"@.len());
            assert("relearning"@.len() != "learning"@.len());
            assert("relearning"@.len() != "review"@.len());
        },
    }
}

/// The grades a learner gives a review.
#[derive(Clone, Copy, Debug, PartialEq, Eq, Structural)]
pub enum ReviewRating {
    Again,
    Hard,
    Good,
    Easy,
}

/// The stored number of each grade.
pub open spec fn rating_value(rating: ReviewRating) -> i64 {
    match rating {
        ReviewRating::Again => 1,
        ReviewRating::Hard => 2,
        ReviewRating::Good => 3,
        ReviewRating::Easy => 4,
    }
}

impl ReviewRating {
    /// The stored number of this grade: 1 for again up to 4 for easy.
    pub fn value(self) -> (r: i64)
        ensures
            r == rating_value(self),
    {
        match self {
            ReviewRating::Again => 1,
            ReviewRating::Hard => 2,
            ReviewRating::Good => 3,
            ReviewRating::Easy => 4,
        }
    }
}

/// A request to grade a due card.
#[derive(Clone, Debug, PartialEq, Eq)]
pub struct RecordReviewInput {
    pub card_id: String,
    pub rating: ReviewRating,
}

/// What a learner did with a pretest question.
#[derive(Clone, Copy, Debug, PartialEq, Eq, Structural)]
pub enum PretestOutcome {
    Attempted,
    Skipped,
}

impl PretestOutcome {
    /// The stored name of each value.
    pub open spec fn stored_name(self) -> Seq<char> {
        match self {
            PretestOutcome::Attempted => "attempted"@,
            PretestOutcome::Skipped => "skipped"@,
        }
    }

    /// The stored name of this value.
    pub fn as_str(self) -> (s: &'static str)
        ensures
            s@ == self.stored_name(),
    {
        match self {
            PretestOutcome::Attempted => "attempted",
            PretestOutcome::Skipped => "skipped",
        }
    }
}

/// The value whose stored name is `s`, if any.
pub open spec fn pretest_outcome_from_name(s: Seq<char>) -> Option<PretestOutcome> {
    if s == "attempted"@ {
        Some(PretestOutcome::Attempted)
    } else if s == "skipped"@ {
        Some(PretestOutcome::Skipped)
    } else {
        None
    }
}

/// Reads a stored name; any other text is an invalid stored outcome.
pub fn parse_pretest_outcome(value: &str) -> (r: LibraryResult<PretestOutcome>)
    ensures
        r matches Ok(k) ==> pretest_outcome_from_name(value@) == Some(k),
        r matches Err(e) ==> (e matches LibraryError::InvalidPretestOutcome(v) && v@ == value@),
        r is Err <==> pretest_outcome_from_name(value@) is None,
{
    if str_equals(value, "attempted") {
        return Ok(PretestOutcome::Attempted);
    }
    if str_equals(value, "skipped") {
        return Ok(PretestOutcome::Skipped);
    }
    Err(LibraryError::InvalidPretestOutcome(value.to_owned()))
}

/// Every value is read back from its own stored name unchanged.
pub proof fn lemma_pretest_outcome_name_round_trip(k: PretestOutcome)
    ensures
        pretest_outcome_from_name(k.stored_name()) == Some(k),
{
    reveal_strlit("attempted");
    reveal_strlit("skipped");
    match k {
        PretestOutcome::Attempted => {
        },
        PretestOutcome::Skipped => {
            assert("skipped"@.len() != "attempted"@.len());
        },
    }
}

/// A request to record a pretest.
#[derive(Clone, Debug, PartialEq, Eq)]
pub struct RecordPretestInput {
    pub card_id: String,
    pub outcome: PretestOutcome,
}

/// The pretest recorded for a concept.
#[derive(Clone, Debug, PartialEq, Eq)]
pub struct PretestRecord {
    pub pretest_id: String,
    pub concept_id: String,
    pub card_id: String,
    pub outcome: PretestOutcome,
    pub occurred_at: i64,
}

/// A request to undo a grade.
#[derive(Clone, Debug, PartialEq, Eq)]
pub struct ReverseReviewInput {
    pub review_id: String,
}

/// The record of an undone grade.
#[derive(Clone, Debug, PartialEq, Eq)]
pub struct ReviewReversalOutcome {
    pub reversal_id: String,
    pub review_id: String,
    pub card_id: String,
    pub reversed_at: i64,
}

} // verus!
