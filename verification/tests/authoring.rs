use twill::authoring::{
    draft_target_status, normalize_base_change_id, normalize_deferred_id, normalize_identity,
    normalize_initial_media, normalize_media_ids, normalize_uuid_set, parse_target_status,
    validate_payload, MediaListProblem,
};
use twill::error::LibraryError;
use twill::models::authoring::{AuthoringDraftKind, AuthoringDraftTargetStatus, DeferredEditTargetStatus};
use twill::models::json::JsonValue;

const A: &str = "018f1e2d-3c4b-7a69-8f10-123456789abc";
const B: &str = "018f1e2d-3c4b-7a69-8f10-123456789abd";

fn draft_error(message: &str) -> LibraryError {
    LibraryError::InvalidAuthoringDraft { message: message.to_owned() }
}

fn strings(values: &[&str]) -> Vec<String> {
    values.iter().map(|value| value.to_string()).collect()
}

#[test]
fn draft_identities_use_the_target_or_new() {
    let unsaved = normalize_identity(AuthoringDraftKind::Concept, None).unwrap();
    assert_eq!(unsaved.target_id, None);
    assert_eq!(unsaved.target_key, "new");

    let saved = normalize_identity(AuthoringDraftKind::Template, Some(format!(" {A} "))).unwrap();
    assert_eq!(saved.kind, AuthoringDraftKind::Template);
    assert_eq!(saved.target_id.as_deref(), Some(A));
    assert_eq!(saved.target_key, A);

    assert_eq!(
        normalize_identity(AuthoringDraftKind::Concept, Some("not".to_owned())),
        Err(draft_error("target ID is not valid"))
    );
    assert_eq!(
        normalize_identity(AuthoringDraftKind::Concept, Some("  ".to_owned())),
        Err(draft_error("target ID is not valid"))
    );
}

#[test]
fn base_changes_belong_only_to_saved_targets() {
    assert_eq!(normalize_base_change_id(false, None), Ok(None));
    assert_eq!(
        normalize_base_change_id(false, Some(A.to_owned())),
        Err(draft_error("cannot have a base change without a saved target"))
    );
    assert_eq!(
        normalize_base_change_id(true, None),
        Err(draft_error("requires a base change for a saved target"))
    );
    assert_eq!(normalize_base_change_id(true, Some(format!("{A}\n"))), Ok(Some(A.to_owned())));
    assert_eq!(
        normalize_base_change_id(true, Some("object".to_owned())),
        Err(draft_error("base change ID is not valid"))
    );
}

#[test]
fn invalid_draft_shapes_are_rejected() {
    let object = JsonValue::Object(vec![("title".to_owned(), JsonValue::String("First draft".to_owned()))]);
    assert_eq!(validate_payload(1, &object, 30), Ok(()));
    assert_eq!(
        validate_payload(2, &object, 30),
        Err(draft_error("uses an unsupported schema version"))
    );
    assert_eq!(
        validate_payload(1, &JsonValue::String("not".to_owned()), 5),
        Err(draft_error("payload must be an object"))
    );
    assert_eq!(
        validate_payload(1, &object, 5_000_001),
        Err(draft_error("payload cannot be larger than 5 MB"))
    );
    assert_eq!(validate_payload(1, &object, 5_000_000), Ok(()));
}

#[test]
fn media_lists_are_bounded_sets_of_uuids() {
    assert_eq!(
        normalize_uuid_set(strings(&[B, A, &format!(" {B} ")]), 3),
        Ok(strings(&[A, B]))
    );
    assert_eq!(normalize_uuid_set(strings(&[A, B]), 1), Err(MediaListProblem::TooMany));
    assert_eq!(normalize_uuid_set(strings(&[A, "x"]), 5), Err(MediaListProblem::InvalidId));

    let too_many: Vec<String> = vec![A.to_owned(); 1001];
    assert_eq!(
        normalize_media_ids(too_many),
        Err(draft_error("cannot retain more than 1,000 media items"))
    );
    assert_eq!(
        normalize_media_ids(strings(&["not a UUID"])),
        Err(draft_error("contains an invalid media ID"))
    );
    assert_eq!(normalize_media_ids(vec![A.to_owned(); 1000]), Ok(strings(&[A])));

    let too_many: Vec<String> = vec![A.to_owned(); 11_001];
    assert_eq!(
        normalize_initial_media(too_many),
        Err(LibraryError::InvalidContent {
            field: "Image editing session",
            message: "cannot start with more than 11000 media items".to_owned(),
        })
    );
    assert_eq!(
        normalize_initial_media(strings(&["not a UUID"])),
        Err(LibraryError::InvalidContent {
            field: "Image editing session",
            message: "contains an invalid media ID".to_owned(),
        })
    );
}

#[test]
fn drafts_report_changed_or_missing_targets() {
    let record = |change: &str, deleted: Option<i64>| Some((change.to_owned(), deleted));
    assert_eq!(draft_target_status(false, None, None), AuthoringDraftTargetStatus::Current);
    assert_eq!(draft_target_status(true, None, Some(A)), AuthoringDraftTargetStatus::Missing);
    assert_eq!(
        draft_target_status(true, record(A, Some(5)), Some(A)),
        AuthoringDraftTargetStatus::Missing
    );
    assert_eq!(draft_target_status(true, record(A, None), Some(A)), AuthoringDraftTargetStatus::Current);
    assert_eq!(draft_target_status(true, record(B, None), Some(A)), AuthoringDraftTargetStatus::Changed);
    assert_eq!(draft_target_status(true, record(B, None), None), AuthoringDraftTargetStatus::Changed);
}

#[test]
fn queued_edit_fields_are_read_strictly() {
    assert_eq!(parse_target_status("current"), Ok(DeferredEditTargetStatus::Current));
    assert_eq!(parse_target_status("changed"), Ok(DeferredEditTargetStatus::Changed));
    assert_eq!(parse_target_status("archived"), Ok(DeferredEditTargetStatus::Archived));
    assert_eq!(parse_target_status("missing"), Ok(DeferredEditTargetStatus::Missing));
    assert_eq!(
        parse_target_status("Current"),
        Err(LibraryError::InvalidDeferredEdit { message: "target status is not valid".to_owned() })
    );
    assert_eq!(normalize_deferred_id(format!(" {A}"), "Concept ID"), Ok(A.to_owned()));
    assert_eq!(
        normalize_deferred_id("x".to_owned(), "Concept ID"),
        Err(LibraryError::InvalidDeferredEdit { message: "Concept ID is not valid".to_owned() })
    );
}
