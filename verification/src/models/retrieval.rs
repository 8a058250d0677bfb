//! Retrieval forms and their settings.

use vstd::prelude::*;

use crate::error::{LibraryError, LibraryResult};
use crate::models::concepts::NamedItem;
use crate::models::study::SchedulingState;
use crate::text::str_equals;

verus! {

/// A card of a concept with its form settings and schedule.
#[derive(Clone, Debug, PartialEq, Eq)]
pub struct CardSummary {
    pub id: String,
    pub retrieval_kind: RetrievalFormKind,
    pub explain: Option<ExplainSettings>,
    pub problem: Option<ProblemSettings>,
    pub cloze: Option<ClozeSettings>,
    pub image_occlusion: Option<ImageOcclusionSettings>,
    pub type_answer: Option<TypeAnswerSettings>,
    pub template: Option<NamedItem>,
    pub scheduling_state: SchedulingState,
    pub due_at: i64,
    pub review_count: i64,
    pub lapse_count: i64,
}

/// The ways a concept can be practised.
#[derive(Clone, Copy, Debug, PartialEq, Eq, Structural)]
pub enum RetrievalFormKind {
    Recall,
    TypeAnswer,
    Explain,
    Problem,
    Cloze,
    ImageOcclusion,
}

impl RetrievalFormKind {
    /// The stored name of each value.
    pub open spec fn stored_name(self) -> Seq<char> {
        match self {
            RetrievalFormKind::Recall => "recall"@,
            RetrievalFormKind::TypeAnswer => "type_answer"@,
            RetrievalFormKind::Explain => "explain"@,
            RetrievalFormKind::Problem => "problem"@,
            RetrievalFormKind::Cloze => "cloze"@,
            RetrievalFormKind::ImageOcclusion => "image_occlusion"@,
        }
    }

    /// The stored name of this value.
    pub fn as_str(self) -> (s: &'static str)
        ensures
            s@ == self.stored_name(),
    {
        match self {
            RetrievalFormKind::Recall => "recall",
            RetrievalFormKind::TypeAnswer => "type_answer",
            RetrievalFormKind::Explain => "explain",
            RetrievalFormKind::Problem => "problem",
            RetrievalFormKind::Cloze => "cloze",
            RetrievalFormKind::ImageOcclusion => "image_occlusion",
        }
    }
}

/// The value whose stored name is `s`, if any.
pub open spec fn retrieval_form_kind_from_name(s: Seq<char>) -> Option<RetrievalFormKind> {
    if s == "recall"@ {
        Some(RetrievalFormKind::Recall)
    } else if s == "type_answer"@ {
        Some(RetrievalFormKind::TypeAnswer)
    } else if s == "explain"@ {
        Some(RetrievalFormKind::Explain)
    } else if s == "problem"@ {
        Some(RetrievalFormKind::Problem)
    } else if s == "cloze"@ {
        Some(RetrievalFormKind::Cloze)
    } else if s == "image_occlusion"@ {
        Some(RetrievalFormKind::ImageOcclusion)
    } else {
        None
    }
}

/// Reads a stored name; any other text is an invalid stored form kind.
pub fn parse_retrieval_form_kind(value: &str) -> (r: LibraryResult<RetrievalFormKind>)
    ensures
        r matches Ok(k) ==> retrieval_form_kind_from_name(value@) == Some(k),
        r matches Err(e) ==> (e matches LibraryError::InvalidRetrievalFormKind(v) && v@ == value@),
        r is Err <==> retrieval_form_kind_from_name(value@) is None,
{
    if str_equals(value, "recall") {
        return Ok(RetrievalFormKind::Recall);
    }
    if str_equals(value, "type_answer") {
        return Ok(RetrievalFormKind::TypeAnswer);
    }
    if str_equals(value, "explain") {
        return Ok(RetrievalFormKind::Explain);
    }
    if str_equals(value, "problem") {
        return Ok(RetrievalFormKind::Problem);
    }
    if str_equals(value, "cloze") {
        return Ok(RetrievalFormKind::Cloze);
    }
    if str_equals(value, "image_occlusion") {
        return Ok(RetrievalFormKind::ImageOcclusion);
    }
    Err(LibraryError::InvalidRetrievalFormKind(value.to_owned()))
}

/// Every value is read back from its own stored name unchanged.
pub proof fn lemma_retrieval_form_kind_name_round_trip(k: RetrievalFormKind)
    ensures
        retrieval_form_kind_from_name(k.stored_name()) == Some(k),
{
    reveal_strlit("recall");
    reveal_strlit("type_answer");
    reveal_strlit("explain");
    reveal_strlit("problem");
    reveal_strlit("cloze");
    reveal_strlit("image_occlusion");
    match k {
        RetrievalFormKind::Recall => {
        },
        RetrievalFormKind::TypeAnswer => {
            assert("type_answer"@.len() != "recall"@.len());
        },
        RetrievalFormKind::Explain => {
            assert("explain"@.len() != "recall"@.len());
            assert("explain"@.len() != "type_answer"@.len());
        },
        RetrievalFormKind::Problem => {
            assert("problem"@.len() != "recall"@.len());
            assert("problem"@.len() != "type_answer"@.len());
            assert("problem"@[0] != "explain"@[0]);
        },
        RetrievalFormKind::Cloze => {
            assert("cloze"@.len() != "recall"@.len());
            assert("cloze"@.len() != "type_answer"@.len());
            assert("cloze"@.len() != "explain"@.len());
            assert("cloze"@.len() != "problem"@.len());
        },
        RetrievalFormKind::ImageOcclusion => {
            assert("image_occlusion"@.len() != "recall"@.len());
            assert("image_occlusion"@.len() != "type_answer"@.len());
            assert("image_occlusion"@.len() != "explain"@.len());
            assert("image_occlusion"@.len() != "problem"@.len());
            assert("image_occlusion"@.len() != "cloze"@.len());
        },
    }
}

/// The cloze group a card asks about.
#[derive(Clone, Debug, PartialEq, Eq)]
pub struct ClozeSettings {
    pub group_id: String,
}

/// The occlusion group a card asks about.
#[derive(Clone, Debug, PartialEq, Eq)]
pub struct ImageOcclusionSettings {
    pub group_id: String,
}

/// The answers a typed response is checked against.
#[derive(Clone, Debug, PartialEq, Eq)]
pub struct TypeAnswerSettings {
    pub accepted_answers: Vec<String>,
}

/// What an explanation should address.
#[derive(Clone, Copy, Debug, PartialEq, Eq, Structural)]
pub enum ExplainFocus {
    Why,
    How,
    CauseAndEffect,
    CompareAndContrast,
}

/// What an explanation should cover.
#[derive(Clone, Debug, PartialEq, Eq)]
pub struct ExplainSettings {
    pub focus: ExplainFocus,
    pub key_points: Vec<String>,
}

/// The checkpoints of a worked problem.
#[derive(Clone, Debug, PartialEq, Eq)]
pub struct ProblemSettings {
    pub checkpoints: Vec<String>,
}

} // verus!
