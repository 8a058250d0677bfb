//! Concerns about the quality of cards: how requests about them are read, and the
//! decisions made when a concern is raised, closed or dismissed.

use vstd::prelude::*;

use crate::error::{LibraryError, LibraryResult};
use crate::models::card_quality::{
    CardQualityDisposition, CardQualityEvidence, CardQualityKind, CardQualityQueueItem,
    CardQualitySignal, CardQualitySource, CardQualityStatus,
};
use crate::models::study::ReviewRating;
use crate::text::{concat, is_uuid, parses_as_uuid, trim, trimmed};

verus! {

/// A concern note has at most this many characters.
pub const MAXIMUM_CARD_QUALITY_NOTE_LENGTH: usize = 500;

impl CardQualityDisposition {
    /// The status a concern closed this way ends in.
    pub open spec fn closed_status(self) -> CardQualityStatus {
        match self {
            CardQualityDisposition::Resolved => CardQualityStatus::Resolved,
            CardQualityDisposition::Dismissed => CardQualityStatus::Dismissed,
        }
    }

    /// The status a concern closed this way ends in.
    pub fn status(self) -> (r: CardQualityStatus)
        ensures
            r == self.closed_status(),
    {
        match self {
            CardQualityDisposition::Resolved => CardQualityStatus::Resolved,
            CardQualityDisposition::Dismissed => CardQualityStatus::Dismissed,
        }
    }
}

impl CardQualitySignal {
    /// The kind of concern this signal raises.
    pub open spec fn signal_kind(self) -> CardQualityKind {
        match self {
            CardQualitySignal::RepeatedDifficulty => CardQualityKind::TooDifficult,
        }
    }

    /// The kind of concern this signal raises.
    pub fn kind(self) -> (r: CardQualityKind)
        ensures
            r == self.signal_kind(),
    {
        match self {
            CardQualitySignal::RepeatedDifficulty => CardQualityKind::TooDifficult,
        }
    }

    /// A queue item is raised by this signal.
    pub open spec fn raised(self, item: CardQualityQueueItem) -> bool {
        match self {
            CardQualitySignal::RepeatedDifficulty => item.source == CardQualitySource::ReviewPattern
                && item.kind == CardQualityKind::TooDifficult,
        }
    }

    /// Whether the queue item was raised by this signal.
    pub fn matches(self, item: &CardQualityQueueItem) -> (r: bool)
        ensures
            r == self.raised(*item),
    {
        match self {
            CardQualitySignal::RepeatedDifficulty => item.source == CardQualitySource::ReviewPattern
                && item.kind == CardQualityKind::TooDifficult,
        }
    }
}

/// The error for a concern request refused with `message`.
pub open spec fn concern_error(e: LibraryError, message: Seq<char>) -> bool {
    e matches LibraryError::InvalidCardQualityConcern { message: m } && m@ == message
}

/// Reads an identifier of a concern request: trimmed, it must be a UUID; otherwise the
/// request is refused with "`field` is not valid".
pub fn normalize_id(value: String, field: &'static str) -> (r: LibraryResult<String>)
    ensures
        r is Ok <==> parses_as_uuid(trim(value@)),
        r matches Ok(v) ==> v@ == trim(value@),
        r matches Err(e) ==> concern_error(e, field@ + " is not valid"@),
{
    let value = trimmed(value.as_str());
    if !is_uuid(value.as_str()) {
        return Err(LibraryError::InvalidCardQualityConcern { message: concat(field, " is not valid") });
    }
    Ok(value)
}

/// Whether the text holds the character NUL.
fn has_nul(s: &str) -> (r: bool)
    ensures
        r == s@.contains('\0'),
{
    let chars = crate::text::chars_of(s);
    let mut i: usize = 0;
    while i < chars.len()
        invariant
            chars@ == s@,
            i <= chars.len(),
            forall|j: int| 0 <= j < i ==> chars@[j] != '\0',
        decreases chars.len() - i,
    {
        if chars[i] == '\0' {
            return true;
        }
        i = i + 1;
    }
    false
}

/// Reads a concern note: trimmed, at most 500 characters and without NUL; it may be empty.
pub fn normalize_note(note: String) -> (r: LibraryResult<String>)
    ensures
        trim(note@).len() > MAXIMUM_CARD_QUALITY_NOTE_LENGTH ==> (r matches Err(e)
            && e matches LibraryError::ValueTooLong { field, maximum } && field@ == "Card issue note"@
            && maximum == MAXIMUM_CARD_QUALITY_NOTE_LENGTH),
        trim(note@).len() <= MAXIMUM_CARD_QUALITY_NOTE_LENGTH && trim(note@).contains('\0') ==> (
        r matches Err(e) && concern_error(e, "note contains an invalid character"@)),
        r is Ok <==> trim(note@).len() <= MAXIMUM_CARD_QUALITY_NOTE_LENGTH && !trim(note@).contains(
            '\0',
        ),
        r matches Ok(v) ==> v@ == trim(note@),
{
    let note = trimmed(note.as_str());
    if note.unicode_len() > MAXIMUM_CARD_QUALITY_NOTE_LENGTH {
        return Err(
            LibraryError::ValueTooLong {
                field: "Card issue note",
                maximum: MAXIMUM_CARD_QUALITY_NOTE_LENGTH,
            },
        );
    }
    if has_nul(note.as_str()) {
        return Err(
            LibraryError::InvalidCardQualityConcern {
                message: "note contains an invalid character".to_owned(),
            },
        );
    }
    Ok(note)
}

/// An open manual concern of the same kind already exists: raising it again with the
/// same note gives it back; with another note it conflicts.
pub fn reuse_open_concern(existing_note: &str, note: &str) -> (r: LibraryResult<()>)
    ensures
        r is Ok <==> existing_note@ == note@,
        r matches Err(e) ==> e is CardQualityConcernConflict,
{
    if existing_note.to_owned() != note.to_owned() {
        return Err(LibraryError::CardQualityConcernConflict);
    }
    Ok(())
}

/// What closing a concern does.
#[derive(Clone, Copy, Debug, PartialEq, Eq, Structural)]
pub enum CloseDecision {
    /// The concern already has the requested status and stays as it is.
    Unchanged,
    /// The open concern moves to this status.
    Close(CardQualityStatus),
}

/// Decides how closing the concern `concern_id` goes: only manual concerns can be closed,
/// closing again the same way changes nothing, and a concern closed the other way stays
/// closed.
pub fn close_decision(
    concern_id: &str,
    source: CardQualitySource,
    status: CardQualityStatus,
    disposition: CardQualityDisposition,
) -> (r: LibraryResult<CloseDecision>)
    ensures
        source != CardQualitySource::Manual ==> (r matches Err(e)
            && e matches LibraryError::CardQualityConcernClosed(id) && id@ == concern_id@),
        source == CardQualitySource::Manual && status == disposition.closed_status() ==> r == Ok::<
            CloseDecision,
            LibraryError,
        >(CloseDecision::Unchanged),
        source == CardQualitySource::Manual && status != disposition.closed_status() && status
            != CardQualityStatus::Open ==> (r matches Err(e)
            && e matches LibraryError::CardQualityConcernClosed(id) && id@ == concern_id@),
        source == CardQualitySource::Manual && status == CardQualityStatus::Open ==> r == Ok::<
            CloseDecision,
            LibraryError,
        >(CloseDecision::Close(disposition.closed_status())),
{
    let next_status = disposition.status();
    if source != CardQualitySource::Manual {
        return Err(LibraryError::CardQualityConcernClosed(concern_id.to_owned()));
    }
    if status == next_status {
        return Ok(CloseDecision::Unchanged);
    }
    if status != CardQualityStatus::Open {
        return Err(LibraryError::CardQualityConcernClosed(concern_id.to_owned()));
    }
    Ok(CloseDecision::Close(next_status))
}

/// The position of the first item raised by `signal`.
pub open spec fn first_raised(items: Seq<CardQualityQueueItem>, signal: CardQualitySignal, from: int) -> Option<int>
    decreases items.len() - from,
{
    if from < 0 || from >= items.len() {
        None
    } else if signal.raised(items[from]) {
        Some(from)
    } else {
        first_raised(items, signal, from + 1)
    }
}

/// Checks that a signal can be dismissed up to `observed_through_review_id`: the first item
/// of the card raised by the signal must exist, carry evidence, and have been observed
/// through exactly that review.
pub fn check_signal_dismissal(
    items: &Vec<CardQualityQueueItem>,
    signal: CardQualitySignal,
    card_id: &str,
    observed_through_review_id: &str,
) -> (r: LibraryResult<()>)
    ensures
        match first_raised(items@, signal, 0) {
            None => r matches Err(e) && e matches LibraryError::CardQualitySignalNotActive(id) && id@
                == card_id@,
            Some(i) => match items@[i].evidence {
                None => r matches Err(e) && e matches LibraryError::CardQualitySignalNotActive(id)
                    && id@ == card_id@,
                Some(evidence) => if evidence.observed_through_review_id@
                    == observed_through_review_id@ {
                    r is Ok
                } else {
                    r matches Err(e) && e is CardQualityEvidenceChanged
                },
            },
        },
{
    let mut i: usize = 0;
    while i < items.len()
        invariant
            i <= items.len(),
            first_raised(items@, signal, 0) == first_raised(items@, signal, i as int),
        decreases items.len() - i,
    {
        if signal.matches(&items[i]) {
            return match &items[i].evidence {
                None => Err(LibraryError::CardQualitySignalNotActive(card_id.to_owned())),
                Some(evidence) => {
                    if evidence.observed_through_review_id.as_str().to_owned()
                        == observed_through_review_id.to_owned() {
                        Ok(())
                    } else {
                        Err(LibraryError::CardQualityEvidenceChanged)
                    }
                },
            };
        }
        i = i + 1;
    }
    Err(LibraryError::CardQualitySignalNotActive(card_id.to_owned()))
}

/// Closing a concern never reopens it: a successful close leaves it resolved or dismissed.
pub proof fn lemma_closing_never_reopens(d: CardQualityDisposition)
    ensures
        d.closed_status() != CardQualityStatus::Open,
{
}

// ----- repeated difficulty -----

/// A card shows repeated difficulty when at least this many of its latest reviews are
/// "Again".
pub const REPEATED_DIFFICULTY_AGAIN_COUNT: usize = 3;

/// How many of a card's latest effective reviews are looked at for repeated difficulty.
pub const REPEATED_DIFFICULTY_REVIEW_WINDOW: usize = 5;

/// How many of the first `n` reviews are "Again".
pub open spec fn again_count_in(reviews: Seq<(String, ReviewRating)>, n: int) -> nat
    decreases n,
{
    if n <= 0 || n > reviews.len() {
        0
    } else {
        again_count_in(reviews, n - 1) + if reviews[n - 1].1 == ReviewRating::Again {
            1nat
        } else {
            0nat
        }
    }
}

/// The number of latest reviews looked at among `len`.
pub open spec fn review_window(len: int) -> int {
    if len < REPEATED_DIFFICULTY_REVIEW_WINDOW {
        len
    } else {
        REPEATED_DIFFICULTY_REVIEW_WINDOW as int
    }
}

/// The evidence of repeated difficulty in a card's effective reviews, newest first, of
/// which the first `newer_than_dismissal` are newer than the review a dismissal of the
/// concern was observed through (all of them when the concern was never dismissed): at
/// least three "Again" among the five latest reviews, and at least three "Again" since the
/// dismissal. The evidence counts the reviews looked at and their "Again" grades, and is
/// observed through the newest review.
pub open spec fn review_pattern(reviews: Seq<(String, ReviewRating)>, newer_than_dismissal: int) -> Option<
    CardQualityEvidence,
> {
    let window = review_window(reviews.len() as int);
    let fresh = if newer_than_dismissal < reviews.len() {
        newer_than_dismissal
    } else {
        reviews.len() as int
    };
    if reviews.len() > 0 && again_count_in(reviews, window) >= REPEATED_DIFFICULTY_AGAIN_COUNT
        && again_count_in(reviews, fresh) >= REPEATED_DIFFICULTY_AGAIN_COUNT {
        Some(
            CardQualityEvidence {
                reviews_considered: window as i64,
                again_count: again_count_in(reviews, window) as i64,
                observed_through_review_id: reviews[0].0,
            },
        )
    } else {
        None
    }
}

/// Counts the "Again" grades among the first `n` reviews.
fn count_again(reviews: &Vec<(String, ReviewRating)>, n: usize) -> (r: usize)
    requires
        n <= reviews.len(),
    ensures
        r == again_count_in(reviews@, n as int),
        r <= n,
{
    let mut count: usize = 0;
    let mut i: usize = 0;
    while i < n
        invariant
            i <= n <= reviews.len(),
            count == again_count_in(reviews@, i as int),
            count <= i,
        decreases n - i,
    {
        if reviews[i].1 == ReviewRating::Again {
            count = count + 1;
        }
        i = i + 1;
    }
    count
}

/// The evidence of repeated difficulty in a card's effective reviews, given newest first
/// with their identifiers, when the first `newer_than_dismissal` of them are newer than the
/// last dismissal of the concern (see [`review_pattern`]); `None` when there is none.
pub fn review_pattern_evidence(
    reviews_newest_first: &Vec<(String, ReviewRating)>,
    newer_than_dismissal: usize,
) -> (r: Option<CardQualityEvidence>)
    ensures
        r == review_pattern(reviews_newest_first@, newer_than_dismissal as int),
{
    let len = reviews_newest_first.len();
    if len == 0 {
        return None;
    }
    let window = if len < REPEATED_DIFFICULTY_REVIEW_WINDOW {
        len
    } else {
        REPEATED_DIFFICULTY_REVIEW_WINDOW
    };
    let fresh = if newer_than_dismissal < len {
        newer_than_dismissal
    } else {
        len
    };
    let again = count_again(reviews_newest_first, window);
    let again_since_dismissal = count_again(reviews_newest_first, fresh);
    if again < REPEATED_DIFFICULTY_AGAIN_COUNT || again_since_dismissal < REPEATED_DIFFICULTY_AGAIN_COUNT {
        return None;
    }
    Some(
        CardQualityEvidence {
            reviews_considered: window as i64,
            again_count: again as i64,
            observed_through_review_id: reviews_newest_first[0].0.clone(),
        },
    )
}

} // verus!
