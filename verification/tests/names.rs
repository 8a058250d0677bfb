use twill::entity::{
    deletion_time, parse_change_operation, parse_entity_kind, update_time, ChangeOperation,
    EntityKind, EntityMetadata,
};
use twill::error::{DataError, LibraryError};
use twill::models::authoring::AuthoringDraftKind;
use twill::models::preferences::{
    parse_appearance_theme, parse_grading_mode, parse_motion_preference, parse_reading_font,
    parse_reading_text_size, parse_startup_destination, AppearanceTheme, GradingMode,
    MotionPreference, ReadingFont, ReadingTextSize, StartupDestination,
};
use twill::models::retrieval::{parse_retrieval_form_kind, RetrievalFormKind};
use twill::models::study::{
    parse_pretest_outcome, parse_scheduling_state, PretestOutcome, ReviewRating, SchedulingState,
};
use twill::preferences::{device_preferences_from_stored, StoredPreferences};

#[test]
fn every_syncable_entity_kind_reads_back_from_its_name() {
    let kinds = EntityKind::all();
    assert_eq!(kinds.len(), 9);
    for kind in kinds {
        assert_eq!(parse_entity_kind(kind.as_str()), Ok(kind));
    }
    assert_eq!(EntityKind::ReviewReversal.as_str(), "review_reversal");
    assert_eq!(EntityKind::CssSnippet.as_str(), "css_snippet");
    assert_eq!(
        parse_entity_kind("Concept"),
        Err(DataError::UnknownEntityKind("Concept".to_owned()))
    );
    for operation in [ChangeOperation::Create, ChangeOperation::Update, ChangeOperation::Delete] {
        assert_eq!(parse_change_operation(operation.as_str()), Ok(operation));
    }
    assert_eq!(
        parse_change_operation("upsert"),
        Err(DataError::UnknownChangeOperation("upsert".to_owned()))
    );
}

#[test]
fn study_names_read_back() {
    for state in [
        SchedulingState::New,
        SchedulingState::Learning,
        SchedulingState::Review,
        SchedulingState::Relearning,
    ] {
        assert_eq!(parse_scheduling_state(state.as_str()), Ok(state));
    }
    assert_eq!(
        parse_scheduling_state("lost"),
        Err(LibraryError::InvalidSchedulingState("lost".to_owned()))
    );
    for kind in [
        RetrievalFormKind::Recall,
        RetrievalFormKind::TypeAnswer,
        RetrievalFormKind::Explain,
        RetrievalFormKind::Problem,
        RetrievalFormKind::Cloze,
        RetrievalFormKind::ImageOcclusion,
    ] {
        assert_eq!(parse_retrieval_form_kind(kind.as_str()), Ok(kind));
    }
    assert_eq!(RetrievalFormKind::ImageOcclusion.as_str(), "image_occlusion");
    assert_eq!(
        parse_retrieval_form_kind("essay"),
        Err(LibraryError::InvalidRetrievalFormKind("essay".to_owned()))
    );
    for outcome in [PretestOutcome::Attempted, PretestOutcome::Skipped] {
        assert_eq!(parse_pretest_outcome(outcome.as_str()), Ok(outcome));
    }
    assert_eq!(
        parse_pretest_outcome("guessed"),
        Err(LibraryError::InvalidPretestOutcome("guessed".to_owned()))
    );
    let values: Vec<i64> = [ReviewRating::Again, ReviewRating::Hard, ReviewRating::Good, ReviewRating::Easy]
        .into_iter()
        .map(ReviewRating::value)
        .collect();
    assert_eq!(values, vec![1, 2, 3, 4]);
    assert_eq!(AuthoringDraftKind::Template.as_str(), "template");
}

fn stored() -> StoredPreferences {
    StoredPreferences {
        grading_mode: "simple".to_owned(),
        startup_destination: "study".to_owned(),
        theme: "aubergine".to_owned(),
        reading_font: "inter".to_owned(),
        reading_text_size: "medium".to_owned(),
        motion_preference: "system".to_owned(),
        pretesting_enabled: true,
        mixed_practice_enabled: false,
    }
}

#[test]
fn device_preferences_read_back_from_their_stored_names() {
    let preferences = device_preferences_from_stored(&stored()).unwrap();
    assert_eq!(preferences.grading_mode, GradingMode::Simple);
    assert_eq!(preferences.startup_destination, StartupDestination::Study);
    assert!(preferences.pretesting_enabled);
    assert!(!preferences.mixed_practice_enabled);
    assert_eq!(preferences.appearance.theme, AppearanceTheme::Aubergine);
    assert_eq!(preferences.appearance.reading_font, ReadingFont::Inter);
    assert_eq!(preferences.appearance.reading_text_size, ReadingTextSize::Medium);
    assert_eq!(preferences.appearance.motion_preference, MotionPreference::System);

    for theme in [AppearanceTheme::Dracula, AppearanceTheme::RosePineDawn, AppearanceTheme::GithubLight] {
        assert_eq!(parse_appearance_theme(theme.as_str()), Ok(theme));
    }
    for font in [ReadingFont::SystemUi, ReadingFont::JetBrainsMono] {
        assert_eq!(parse_reading_font(font.as_str()), Ok(font));
    }
    assert_eq!(parse_grading_mode("advanced"), Ok(GradingMode::Advanced));
    assert_eq!(parse_startup_destination("library"), Ok(StartupDestination::Library));
    assert_eq!(parse_reading_text_size("large"), Ok(ReadingTextSize::Large));
    assert_eq!(parse_motion_preference("reduced"), Ok(MotionPreference::Reduced));
}

#[test]
fn unknown_stored_preferences_name_the_first_bad_field() {
    let mut bad = stored();
    bad.grading_mode = "expert".to_owned();
    bad.theme = "neon".to_owned();
    assert_eq!(
        device_preferences_from_stored(&bad),
        Err(LibraryError::InvalidGradingMode("expert".to_owned()))
    );

    let mut bad = stored();
    bad.startup_destination = "home".to_owned();
    assert_eq!(
        device_preferences_from_stored(&bad),
        Err(LibraryError::InvalidStartupDestination("home".to_owned()))
    );

    let mut bad = stored();
    bad.theme = "neon".to_owned();
    bad.motion_preference = "wild".to_owned();
    assert_eq!(
        device_preferences_from_stored(&bad),
        Err(LibraryError::InvalidDevicePreference {
            field: "appearance theme",
            value: "neon".to_owned(),
        })
    );

    let mut bad = stored();
    bad.reading_text_size = "huge".to_owned();
    assert_eq!(
        device_preferences_from_stored(&bad),
        Err(LibraryError::InvalidDevicePreference {
            field: "reading text size",
            value: "huge".to_owned(),
        })
    );
}

fn entity(updated_at: i64, deleted_at: Option<i64>) -> EntityMetadata {
    EntityMetadata {
        id: "entity".to_owned(),
        kind: EntityKind::Concept,
        created_at: 10,
        updated_at,
        deleted_at,
        revision: 2,
        last_change_id: "change".to_owned(),
    }
}

#[test]
fn updates_and_deletions_never_move_time_backwards() {
    assert_eq!(update_time(&entity(100, None), 150), Ok(150));
    assert_eq!(update_time(&entity(100, None), 50), Ok(100));
    assert_eq!(
        update_time(&entity(100, Some(100)), 150),
        Err(DataError::EntityDeleted("entity".to_owned()))
    );
    assert_eq!(deletion_time(&entity(100, None), 150), Some(150));
    assert_eq!(deletion_time(&entity(100, None), 50), Some(100));
    assert_eq!(deletion_time(&entity(100, Some(120)), 150), None);
}
