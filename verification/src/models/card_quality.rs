//! Card quality concerns and the queue that shows them.

use vstd::prelude::*;

use crate::error::{LibraryError, LibraryResult};
use crate::models::concepts::NamedItem;
use crate::models::retrieval::{ClozeSettings, ImageOcclusionSettings, RetrievalFormKind};
use crate::text::str_equals;

verus! {

/// What a learner or a review pattern says is wrong with a card.
#[derive(Clone, Copy, Debug, PartialEq, Eq, Structural)]
pub enum CardQualityKind {
    Ambiguous,
    Incorrect,
    Outdated,
    TooEasy,
    TooDifficult,
}

impl CardQualityKind {
    /// The stored name of each value.
    pub open spec fn stored_name(self) -> Seq<char> {
        match self {
            CardQualityKind::Ambiguous => "ambiguous"@,
            CardQualityKind::Incorrect => "incorrect"@,
            CardQualityKind::Outdated => "outdated"@,
            CardQualityKind::TooEasy => "too_easy"@,
            CardQualityKind::TooDifficult => "too_difficult"@,
        }
    }

    /// The stored name of this value.
    pub fn as_str(self) -> (s: &'static str)
        ensures
            s@ == self.stored_name(),
    {
        match self {
            CardQualityKind::Ambiguous => "ambiguous",
            CardQualityKind::Incorrect => "incorrect",
            CardQualityKind::Outdated => "outdated",
            CardQualityKind::TooEasy => "too_easy",
            CardQualityKind::TooDifficult => "too_difficult",
        }
    }
}

/// The value whose stored name is `s`, if any.
pub open spec fn card_quality_kind_from_name(s: Seq<char>) -> Option<CardQualityKind> {
    if s == "ambiguous"@ {
        Some(CardQualityKind::Ambiguous)
    } else if s == "incorrect"@ {
        Some(CardQualityKind::Incorrect)
    } else if s == "outdated"@ {
        Some(CardQualityKind::Outdated)
    } else if s == "too_easy"@ {
        Some(CardQualityKind::TooEasy)
    } else if s == "too_difficult"@ {
        Some(CardQualityKind::TooDifficult)
    } else {
        None
    }
}

/// Reads a stored name; any other text is an invalid stored kind.
pub fn parse_card_quality_kind(value: &str) -> (r: LibraryResult<CardQualityKind>)
    ensures
        r matches Ok(k) ==> card_quality_kind_from_name(value@) == Some(k),
        r matches Err(e) ==> (e matches LibraryError::InvalidCardQualityKind(v) && v@ == value@),
        r is Err <==> card_quality_kind_from_name(value@) is None,
{
    if str_equals(value, "ambiguous") {
        return Ok(CardQualityKind::Ambiguous);
    }
    if str_equals(value, "incorrect") {
        return Ok(CardQualityKind::Incorrect);
    }
    if str_equals(value, "outdated") {
        return Ok(CardQualityKind::Outdated);
    }
    if str_equals(value, "too_easy") {
        return Ok(CardQualityKind::TooEasy);
    }
    if str_equals(value, "too_difficult") {
        return Ok(CardQualityKind::TooDifficult);
    }
    Err(LibraryError::InvalidCardQualityKind(value.to_owned()))
}

/// Every value is read back from its own stored name unchanged.
pub proof fn lemma_card_quality_kind_name_round_trip(k: CardQualityKind)
    ensures
        card_quality_kind_from_name(k.stored_name()) == Some(k),
{
    reveal_strlit("ambiguous");
    reveal_strlit("incorrect");
    reveal_strlit("outdated");
    reveal_strlit("too_easy");
    reveal_strlit("too_difficult");
    match k {
        CardQualityKind::Ambiguous => {
        },
        CardQualityKind::Incorrect => {
            assert("incorrect"@[0] != "ambiguous"@[0]);
        },
        CardQualityKind::Outdated => {
            assert("outdated"@.len() != "ambiguous"@.len());
            assert("outdated"@.len() != "incorrect"@.len());
        },
        CardQualityKind::TooEasy => {
            assert("too_easy"@.len() != "ambiguous"@.len());
            assert("too_easy"@.len() != "incorrect"@.len());
            assert("too_easy"@[0] != "outdated"@[0]);
        },
        CardQualityKind::TooDifficult => {
            assert("too_difficult"@.len() != "ambiguous"@.len());
            assert("too_difficult"@.len() != "incorrect"@.len());
            assert("too_difficult"@.len() != "outdated"@.len());
            assert("too_difficult"@.len() != "too_easy"@.len());
        },
    }
}

/// Where a card quality concern came from.
#[derive(Clone, Copy, Debug, PartialEq, Eq, Structural)]
pub enum CardQualitySource {
    Manual,
    ReviewPattern,
}

impl CardQualitySource {
    /// The stored name of each value.
    pub open spec fn stored_name(self) -> Seq<char> {
        match self {
            CardQualitySource::Manual => "manual"@,
            CardQualitySource::ReviewPattern => "review_pattern"@,
        }
    }

}

/// The value whose stored name is `s`, if any.
pub open spec fn card_quality_source_from_name(s: Seq<char>) -> Option<CardQualitySource> {
    if s == "manual"@ {
        Some(CardQualitySource::Manual)
    } else if s == "review_pattern"@ {
        Some(CardQualitySource::ReviewPattern)
    } else {
        None
    }
}

/// Reads a stored name; any other text is an invalid stored source.
pub fn parse_card_quality_source(value: &str) -> (r: LibraryResult<CardQualitySource>)
    ensures
        r matches Ok(k) ==> card_quality_source_from_name(value@) == Some(k),
        r matches Err(e) ==> (e matches LibraryError::InvalidCardQualitySource(v) && v@ == value@),
        r is Err <==> card_quality_source_from_name(value@) is None,
{
    if str_equals(value, "manual") {
        return Ok(CardQualitySource::Manual);
    }
    if str_equals(value, "review_pattern") {
        return Ok(CardQualitySource::ReviewPattern);
    }
    Err(LibraryError::InvalidCardQualitySource(value.to_owned()))
}

/// Every value is read back from its own stored name unchanged.
pub proof fn lemma_card_quality_source_name_round_trip(k: CardQualitySource)
    ensures
        card_quality_source_from_name(k.stored_name()) == Some(k),
{
    reveal_strlit("manual");
    reveal_strlit("review_pattern");
    match k {
        CardQualitySource::Manual => {
        },
        CardQualitySource::ReviewPattern => {
            assert("review_pattern"@.len() != "manual"@.len());
        },
    }
}

/// Whether a concern still needs attention.
#[derive(Clone, Copy, Debug, PartialEq, Eq, Structural)]
pub enum CardQualityStatus {
    Open,
    Resolved,
    Dismissed,
}

impl CardQualityStatus {
    /// The stored name of each value.
    pub open spec fn stored_name(self) -> Seq<char> {
        match self {
            CardQualityStatus::Open => "open"@,
            CardQualityStatus::Resolved => "resolved"@,
            CardQualityStatus::Dismissed => "dismissed"@,
        }
    }

    /// The stored name of this value.
    pub fn as_str(self) -> (s: &'static str)
        ensures
            s@ == self.stored_name(),
    {
        match self {
            CardQualityStatus::Open => "open",
            CardQualityStatus::Resolved => "resolved",
            CardQualityStatus::Dismissed => "dismissed",
        }
    }
}

/// The value whose stored name is `s`, if any.
pub open spec fn card_quality_status_from_name(s: Seq<char>) -> Option<CardQualityStatus> {
    if s == "open"@ {
        Some(CardQualityStatus::Open)
    } else if s == "resolved"@ {
        Some(CardQualityStatus::Resolved)
    } else if s == "dismissed"@ {
        Some(CardQualityStatus::Dismissed)
    } else {
        None
    }
}

/// Reads a stored name; any other text is an invalid stored status.
pub fn parse_card_quality_status(value: &str) -> (r: LibraryResult<CardQualityStatus>)
    ensures
        r matches Ok(k) ==> card_quality_status_from_name(value@) == Some(k),
        r matches Err(e) ==> (e matches LibraryError::InvalidCardQualityStatus(v) && v@ == value@),
        r is Err <==> card_quality_status_from_name(value@) is None,
{
    if str_equals(value, "open") {
        return Ok(CardQualityStatus::Open);
    }
    if str_equals(value, "resolved") {
        return Ok(CardQualityStatus::Resolved);
    }
    if str_equals(value, "dismissed") {
        return Ok(CardQualityStatus::Dismissed);
    }
    Err(LibraryError::InvalidCardQualityStatus(value.to_owned()))
}

/// Every value is read back from its own stored name unchanged.
pub proof fn lemma_card_quality_status_name_round_trip(k: CardQualityStatus)
    ensures
        card_quality_status_from_name(k.stored_name()) == Some(k),
{
    reveal_strlit("open");
    reveal_strlit("resolved");
    reveal_strlit("dismissed");
    match k {
        CardQualityStatus::Open => {
        },
        CardQualityStatus::Resolved => {
            assert("resolved"@.len() != "open"@.len());
        },
        CardQualityStatus::Dismissed => {
            assert("dismissed"@.len() != "open"@.len());
            assert("dismissed"@.len() != "resolved"@.len());
        },
    }
}

/// How a learner closes a concern.
#[derive(Clone, Copy, Debug, PartialEq, Eq, Structural)]
pub enum CardQualityDisposition {
    Resolved,
    Dismissed,
}

/// Concerns that the library raises from review history.
#[derive(Clone, Copy, Debug, PartialEq, Eq, Structural)]
pub enum CardQualitySignal {
    RepeatedDifficulty,
}

/// A recorded concern about one card.
#[derive(Clone, Debug, PartialEq, Eq)]
pub struct CardQualityConcern {
    pub id: String,
    pub card_id: String,
    pub source: CardQualitySource,
    pub kind: CardQualityKind,
    pub status: CardQualityStatus,
    pub note: String,
    pub observed_through_review_id: Option<String>,
    pub created_at: i64,
    pub updated_at: i64,
}

/// The review history behind a raised concern.
#[derive(Clone, Debug, PartialEq, Eq)]
pub struct CardQualityEvidence {
    pub reviews_considered: i64,
    pub again_count: i64,
    pub observed_through_review_id: String,
}

/// One entry of the card quality queue.
#[derive(Clone, Debug, PartialEq, Eq)]
pub struct CardQualityQueueItem {
    pub concern_id: Option<String>,
    pub card_id: String,
    pub concept_id: String,
    pub concept_title: String,
    pub retrieval_kind: RetrievalFormKind,
    pub template: Option<NamedItem>,
    pub cloze: Option<ClozeSettings>,
    pub image_occlusion: Option<ImageOcclusionSettings>,
    pub source: CardQualitySource,
    pub kind: CardQualityKind,
    pub note: String,
    pub noticed_at: i64,
    pub evidence: Option<CardQualityEvidence>,
}

/// The concerns that need attention, newest first.
#[derive(Clone, Debug, PartialEq, Eq)]
pub struct CardQualityQueue {
    pub items: Vec<CardQualityQueueItem>,
}

/// A request to record a concern about a card.
#[derive(Clone, Debug, PartialEq, Eq)]
pub struct CreateCardQualityConcernInput {
    pub card_id: String,
    pub kind: CardQualityKind,
    pub note: String,
}

/// A request to close a concern.
#[derive(Clone, Debug, PartialEq, Eq)]
pub struct CloseCardQualityConcernInput {
    pub concern_id: String,
    pub disposition: CardQualityDisposition,
}

/// A request to dismiss a raised concern up to a review.
#[derive(Clone, Debug, PartialEq, Eq)]
pub struct DismissCardQualitySignalInput {
    pub card_id: String,
    pub signal: CardQualitySignal,
    pub observed_through_review_id: String,
}

} // verus!
