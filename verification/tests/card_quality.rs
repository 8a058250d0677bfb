use twill::card_quality::{
    check_signal_dismissal, close_decision, normalize_id, normalize_note, reuse_open_concern,
    review_pattern_evidence, CloseDecision,
};
use twill::error::LibraryError;
use twill::models::card_quality::{
    parse_card_quality_kind, parse_card_quality_source, parse_card_quality_status,
    CardQualityDisposition, CardQualityEvidence, CardQualityKind, CardQualityQueueItem,
    CardQualitySignal, CardQualitySource, CardQualityStatus,
};
use twill::models::retrieval::RetrievalFormKind;
use twill::models::study::ReviewRating;
use twill::models::study::ReviewRating::{Again, Good, Hard};

const CARD_ID: &str = "018f1e2d-3c4b-7a69-8f10-123456789abc";

fn item(source: CardQualitySource, kind: CardQualityKind, evidence: Option<&str>) -> CardQualityQueueItem {
    CardQualityQueueItem {
        concern_id: None,
        card_id: CARD_ID.to_owned(),
        concept_id: "concept".to_owned(),
        concept_title: "Repeated trouble".to_owned(),
        retrieval_kind: RetrievalFormKind::Recall,
        template: None,
        cloze: None,
        image_occlusion: None,
        source,
        kind,
        note: String::new(),
        noticed_at: 0,
        evidence: evidence.map(|review| CardQualityEvidence {
            reviews_considered: 8,
            again_count: 4,
            observed_through_review_id: review.to_owned(),
        }),
    }
}

#[test]
fn concern_inputs_are_trimmed_and_bounded() {
    assert_eq!(normalize_id(format!("  {CARD_ID} "), "Card").unwrap(), CARD_ID);
    assert_eq!(
        normalize_id("not-an-id".to_owned(), "Card"),
        Err(LibraryError::InvalidCardQualityConcern { message: "Card is not valid".to_owned() })
    );
    assert_eq!(
        normalize_note("  The subject is unclear.  ".to_owned()).unwrap(),
        "The subject is unclear."
    );
    assert_eq!(normalize_note("   ".to_owned()).unwrap(), "");
    assert_eq!(normalize_note("n".repeat(500)).unwrap().len(), 500);
    assert_eq!(
        normalize_note("n".repeat(501)),
        Err(LibraryError::ValueTooLong { field: "Card issue note", maximum: 500 })
    );
    assert_eq!(
        normalize_note("invalid\0note".to_owned()),
        Err(LibraryError::InvalidCardQualityConcern {
            message: "note contains an invalid character".to_owned(),
        })
    );
}

#[test]
fn an_open_concern_is_reused_only_with_the_same_note() {
    assert_eq!(reuse_open_concern("Same", "Same"), Ok(()));
    assert_eq!(
        reuse_open_concern("Same", "A distinct later observation."),
        Err(LibraryError::CardQualityConcernConflict)
    );
}

#[test]
fn manual_concerns_close_once_and_never_reopen() {
    assert_eq!(
        close_decision("c", CardQualitySource::Manual, CardQualityStatus::Open, CardQualityDisposition::Resolved),
        Ok(CloseDecision::Close(CardQualityStatus::Resolved))
    );
    assert_eq!(
        close_decision("c", CardQualitySource::Manual, CardQualityStatus::Open, CardQualityDisposition::Dismissed),
        Ok(CloseDecision::Close(CardQualityStatus::Dismissed))
    );
    assert_eq!(
        close_decision("c", CardQualitySource::Manual, CardQualityStatus::Resolved, CardQualityDisposition::Resolved),
        Ok(CloseDecision::Unchanged)
    );
    assert_eq!(
        close_decision("c", CardQualitySource::Manual, CardQualityStatus::Dismissed, CardQualityDisposition::Resolved),
        Err(LibraryError::CardQualityConcernClosed("c".to_owned()))
    );
    assert_eq!(
        close_decision("c", CardQualitySource::ReviewPattern, CardQualityStatus::Open, CardQualityDisposition::Resolved),
        Err(LibraryError::CardQualityConcernClosed("c".to_owned()))
    );
    for disposition in [CardQualityDisposition::Resolved, CardQualityDisposition::Dismissed] {
        assert_ne!(disposition.status(), CardQualityStatus::Open);
    }
}

#[test]
fn dismissing_a_review_pattern_requires_the_observed_evidence() {
    let signal = CardQualitySignal::RepeatedDifficulty;
    assert_eq!(signal.kind(), CardQualityKind::TooDifficult);

    let manual = item(CardQualitySource::Manual, CardQualityKind::TooDifficult, Some("r1"));
    let pattern = item(CardQualitySource::ReviewPattern, CardQualityKind::TooDifficult, Some("r2"));
    assert!(!signal.matches(&manual));
    assert!(signal.matches(&pattern));

    let items = vec![manual.clone(), pattern];
    assert_eq!(check_signal_dismissal(&items, signal, CARD_ID, "r2"), Ok(()));
    assert_eq!(
        check_signal_dismissal(&items, signal, CARD_ID, "r1"),
        Err(LibraryError::CardQualityEvidenceChanged)
    );
    assert_eq!(
        check_signal_dismissal(&vec![manual], signal, CARD_ID, "r1"),
        Err(LibraryError::CardQualitySignalNotActive(CARD_ID.to_owned()))
    );
    let without_evidence = vec![item(CardQualitySource::ReviewPattern, CardQualityKind::TooDifficult, None)];
    assert_eq!(
        check_signal_dismissal(&without_evidence, signal, CARD_ID, "r1"),
        Err(LibraryError::CardQualitySignalNotActive(CARD_ID.to_owned()))
    );
}

#[test]
fn stored_concern_names_read_back() {
    for kind in [
        CardQualityKind::Ambiguous,
        CardQualityKind::Incorrect,
        CardQualityKind::Outdated,
        CardQualityKind::TooEasy,
        CardQualityKind::TooDifficult,
    ] {
        assert_eq!(parse_card_quality_kind(kind.as_str()), Ok(kind));
    }
    assert_eq!(CardQualityKind::TooDifficult.as_str(), "too_difficult");
    assert_eq!(parse_card_quality_source("manual"), Ok(CardQualitySource::Manual));
    assert_eq!(
        parse_card_quality_source("review_pattern"),
        Ok(CardQualitySource::ReviewPattern)
    );
    for status in [CardQualityStatus::Open, CardQualityStatus::Resolved, CardQualityStatus::Dismissed] {
        assert_eq!(parse_card_quality_status(status.as_str()), Ok(status));
    }
    assert_eq!(
        parse_card_quality_kind("unknown"),
        Err(LibraryError::InvalidCardQualityKind("unknown".to_owned()))
    );
    assert_eq!(
        parse_card_quality_source("robot"),
        Err(LibraryError::InvalidCardQualitySource("robot".to_owned()))
    );
    assert_eq!(
        parse_card_quality_status("pending"),
        Err(LibraryError::InvalidCardQualityStatus("pending".to_owned()))
    );
}

fn graded(ratings: &[ReviewRating]) -> Vec<(String, ReviewRating)> {
    ratings.iter().enumerate().map(|(index, rating)| (format!("review-{index}"), *rating)).collect()
}

fn evidence(reviews_considered: i64, again_count: i64) -> Option<CardQualityEvidence> {
    Some(CardQualityEvidence {
        reviews_considered,
        again_count,
        observed_through_review_id: "review-0".to_owned(),
    })
}

#[test]
fn repeated_difficulty_needs_three_again_among_the_latest_five() {
    assert_eq!(review_pattern_evidence(&Vec::new(), 0), None);
    assert_eq!(review_pattern_evidence(&graded(&[Again, Again]), 2), None);
    assert_eq!(review_pattern_evidence(&graded(&[Again, Again, Again]), 3), evidence(3, 3));
    assert_eq!(
        review_pattern_evidence(&graded(&[Again, Again, Good, Again, Hard, Again]), 6),
        evidence(5, 3)
    );
    assert_eq!(
        review_pattern_evidence(&graded(&[Good, Good, Again, Again, Again, Again]), 6),
        evidence(5, 3)
    );
    assert_eq!(review_pattern_evidence(&graded(&[Good, Good, Good, Again, Again, Again]), 6), None);
}

#[test]
fn a_dismissed_pattern_returns_only_with_fresh_again_reviews() {
    let reviews = graded(&[Again, Good, Again, Again, Again]);
    assert_eq!(review_pattern_evidence(&reviews, 0), None);
    assert_eq!(review_pattern_evidence(&reviews, 3), None);
    assert_eq!(review_pattern_evidence(&reviews, 4), evidence(5, 4));
    assert_eq!(review_pattern_evidence(&reviews, 100), evidence(5, 4));
}
