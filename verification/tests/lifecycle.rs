use twill::lifecycle::{LifecycleState, NativeAction};

#[test]
fn repeated_actions_share_one_pending_decision() {
    let mut state = LifecycleState::default();
    let request = state.begin(NativeAction::Close).unwrap();

    assert!(state.begin(NativeAction::Quit).is_none());
    assert!(state.begin(NativeAction::Reload).is_none());
    assert_eq!(state.take(&request.id).unwrap().action, NativeAction::Close);
    assert!(state.take(&request.id).is_err());
}

#[test]
fn stale_completion_cannot_finish_a_later_request() {
    let mut state = LifecycleState::default();
    let first = state.begin(NativeAction::Quit).unwrap();

    state.take(&first.id).unwrap();

    let second = state.begin(NativeAction::Reload).unwrap();

    assert_ne!(first.id, second.id);
    assert!(state.take(&first.id).is_err());
    assert_eq!(state.take(&second.id).unwrap().action, NativeAction::Reload);
}

#[test]
fn a_refused_completion_names_the_reason_and_keeps_the_pending_action() {
    let mut state = LifecycleState::default();
    let request = state.begin(NativeAction::Reload).unwrap();

    assert_eq!(
        state.take("not the pending id").unwrap_err(),
        "This window action is no longer pending."
    );
    assert_eq!(state.pending.as_ref().unwrap().id, request.id);
    assert!(!state.ready);
    assert!(!state.approved_exit);
}

#[test]
fn request_identifiers_are_uuid_text() {
    let mut state = LifecycleState::default();
    let request = state.begin(NativeAction::Close).unwrap();

    assert_eq!(request.id.len(), 36);
    assert_eq!(request.id.matches('-').count(), 4);
}

#[test]
fn request_identifiers_are_hyphenated_uuids() {
    let mut state = LifecycleState::default();
    let request = state.begin(NativeAction::Reload).unwrap();

    assert_eq!(request.id.len(), 36);
    assert!(uuid::Uuid::parse_str(&request.id).is_ok());
    assert_eq!(request.id, request.id.to_lowercase());
    assert_eq!(uuid::Uuid::parse_str(&request.id).unwrap().get_version_num(), 7);
    assert_eq!(&request.id[14..15], "7");
    assert!(["8", "9", "a", "b"].contains(&&request.id[19..20]));
    assert_eq!(state.pending.as_ref().unwrap().id, request.id);
}

#[test]
fn the_last_issued_identifier_is_kept_after_completion() {
    let mut state = LifecycleState::default();
    assert!(state.last_request_id.is_none());
    let first = state.begin(NativeAction::Close).unwrap();
    assert_eq!(state.last_request_id.as_deref(), Some(first.id.as_str()));
    state.take(&first.id).unwrap();
    assert_eq!(state.last_request_id.as_deref(), Some(first.id.as_str()));
    let second = state.begin(NativeAction::Quit).unwrap();
    assert_ne!(second.id, first.id);
    assert_eq!(state.last_request_id.as_deref(), Some(second.id.as_str()));
}
