use twill::error::LibraryError;
use twill::models::study::{ReviewRating, SchedulingState};
use twill::search::{page_window, search_expression};
use twill::study::{
    check_card_limit, count_review, elapsed_days, ensure_card_due, ensure_latest_review, next_scheduling_state,
    reversal_time, validate_maximum_interval, MILLISECONDS_PER_DAY,
};

const STATES: [SchedulingState; 4] = [
    SchedulingState::New,
    SchedulingState::Learning,
    SchedulingState::Review,
    SchedulingState::Relearning,
];
const RATINGS: [ReviewRating; 4] =
    [ReviewRating::Again, ReviewRating::Hard, ReviewRating::Good, ReviewRating::Easy];

#[test]
fn failed_grades_enter_learning_or_relearning_and_others_review() {
    assert_eq!(
        next_scheduling_state(SchedulingState::New, ReviewRating::Again),
        SchedulingState::Learning
    );
    assert_eq!(
        next_scheduling_state(SchedulingState::Learning, ReviewRating::Again),
        SchedulingState::Learning
    );
    assert_eq!(
        next_scheduling_state(SchedulingState::Review, ReviewRating::Again),
        SchedulingState::Relearning
    );
    assert_eq!(
        next_scheduling_state(SchedulingState::Relearning, ReviewRating::Again),
        SchedulingState::Relearning
    );
    for state in STATES {
        for rating in RATINGS {
            let next = next_scheduling_state(state, rating);
            assert_ne!(next, SchedulingState::New);
            if rating != ReviewRating::Again {
                assert_eq!(next, SchedulingState::Review);
            }
        }
    }
}

#[test]
fn counting_reviews_adds_a_lapse_only_for_failed_review_cards() {
    let counts = count_review(SchedulingState::New, ReviewRating::Again, 0, 0).unwrap();
    assert_eq!((counts.review_count, counts.lapse_count), (1, 0));

    let counts = count_review(SchedulingState::Review, ReviewRating::Again, 4, 1).unwrap();
    assert_eq!((counts.review_count, counts.lapse_count), (5, 2));

    let counts = count_review(SchedulingState::Review, ReviewRating::Good, 4, 1).unwrap();
    assert_eq!((counts.review_count, counts.lapse_count), (5, 1));

    assert_eq!(
        count_review(SchedulingState::New, ReviewRating::Good, i64::MAX, 0).err(),
        Some(LibraryError::InvalidSchedule)
    );
    assert_eq!(
        count_review(SchedulingState::Review, ReviewRating::Again, 0, i64::MAX).err(),
        Some(LibraryError::InvalidSchedule)
    );
}

#[test]
fn elapsed_days_round_toward_zero_and_saturate() {
    assert_eq!(elapsed_days(None, 1_000), 0);
    assert_eq!(elapsed_days(Some(0), MILLISECONDS_PER_DAY - 1), 0);
    assert_eq!(elapsed_days(Some(0), MILLISECONDS_PER_DAY), 1);
    assert_eq!(elapsed_days(Some(0), 3 * MILLISECONDS_PER_DAY + 5), 3);
    assert_eq!(elapsed_days(Some(MILLISECONDS_PER_DAY - 1), 0), 0);
    assert_eq!(elapsed_days(Some(MILLISECONDS_PER_DAY), 0), u32::MAX);
    assert_eq!(elapsed_days(Some(i64::MIN), i64::MAX), u32::MAX);
    assert_eq!(elapsed_days(Some(i64::MAX), i64::MIN), u32::MAX);
}

#[test]
fn only_due_cards_can_be_graded() {
    assert_eq!(ensure_card_due("card", 100, 100), Ok(()));
    assert_eq!(ensure_card_due("card", 99, 100), Ok(()));
    assert_eq!(
        ensure_card_due("card", 101, 100),
        Err(LibraryError::CardNotDue { card_id: "card".to_owned(), due_at: 101 })
    );
}

#[test]
fn maximum_intervals_must_lie_between_one_day_and_a_century() {
    assert!(validate_maximum_interval(1).is_ok());
    assert!(validate_maximum_interval(36_500).is_ok());
    for invalid in [0, -5, 36_501] {
        assert_eq!(
            validate_maximum_interval(invalid),
            Err(LibraryError::InvalidMaximumInterval { minimum: 1, maximum: 36_500 })
        );
    }
}

#[test]
fn only_the_last_review_of_a_card_can_be_undone() {
    assert_eq!(ensure_latest_review("r2", Some("r2")), Ok(()));
    assert_eq!(ensure_latest_review("r1", Some("r2")), Err(LibraryError::ReviewNotReversible));
    assert_eq!(ensure_latest_review("r1", None), Err(LibraryError::ReviewNotReversible));
    assert_eq!(reversal_time(10, 5), 10);
    assert_eq!(reversal_time(5, 10), 10);
}

#[test]
fn search_terms_are_quoted_prefixes_joined_with_and() {
    assert_eq!(search_expression("   ").unwrap(), "");
    assert_eq!(search_expression("cafe mito").unwrap(), "\"cafe\"* AND \"mito\"*");
    assert_eq!(search_expression("\" OR *").unwrap(), "\"\"\"\"* AND \"OR\"* AND \"*\"*");
    assert_eq!(search_expression("a\0b\tc").unwrap(), "\"a\"* AND \"b\"* AND \"c\"*");
    assert!(search_expression(&"x".repeat(250)).is_ok());
    assert_eq!(
        search_expression(&format!("  {}  ", "x".repeat(251))),
        Err(LibraryError::ValueTooLong { field: "Search", maximum: 250 })
    );
}

#[test]
fn pages_are_clamped_to_the_available_range() {
    assert_eq!(page_window(0, 0), (1, 0));
    assert_eq!(page_window(0, 3), (1, 0));
    assert_eq!(page_window(50, 2), (1, 0));
    assert_eq!(page_window(51, 2), (2, 50));
    assert_eq!(page_window(120, 9), (3, 100));
    assert_eq!(page_window(120, 1), (1, 0));
}

#[test]
fn card_limits_must_be_positive_when_given() {
    assert_eq!(
        check_card_limit(Some(0)),
        Err(LibraryError::InvalidContent {
            field: "Card limit",
            message: "must be a positive whole number".to_owned(),
        })
    );
    assert_eq!(check_card_limit(Some(1)), Ok(()));
    assert_eq!(check_card_limit(Some(u32::MAX)), Ok(()));
    assert_eq!(check_card_limit(None), Ok(()));
}
