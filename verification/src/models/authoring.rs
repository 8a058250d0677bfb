//! Authoring drafts, queued edits and save requests.

use vstd::prelude::*;

use crate::models::concepts::CreateConceptInput;
use crate::models::json::JsonValue;
use crate::models::templates::CreateTemplateInput;

verus! {

/// The version of the stored draft payload format.
pub const AUTHORING_DRAFT_SCHEMA_VERSION: u32 = 1;

/// How a queued concept edit relates to the concept as it is now.
#[derive(Clone, Copy, Debug, PartialEq, Eq, Structural)]
pub enum DeferredEditTargetStatus {
    Current,
    Changed,
    Archived,
    Missing,
}

/// A concept edit queued for later, in queue order.
#[derive(Clone, Debug, PartialEq, Eq)]
pub struct DeferredConceptEdit {
    pub position: i64,
    pub concept_id: String,
    pub concept_title: String,
    pub base_change_id: String,
    pub queued_at: i64,
    pub target_status: DeferredEditTargetStatus,
}

/// The queued concept edits of this device.
#[derive(Clone, Debug, PartialEq, Eq)]
pub struct DeferredEditQueue {
    pub items: Vec<DeferredConceptEdit>,
}

/// A request to queue an edit of a concept at a known change.
#[derive(Clone, Debug, PartialEq, Eq)]
pub struct QueueDeferredEditInput {
    pub concept_id: String,
    pub base_change_id: String,
}

/// The kinds of item that can have an authoring draft.
#[derive(Clone, Copy, Debug, PartialEq, Eq, Structural)]
pub enum AuthoringDraftKind {
    Concept,
    Template,
}

impl AuthoringDraftKind {
    /// The stored name of each value.
    pub open spec fn stored_name(self) -> Seq<char> {
        match self {
            AuthoringDraftKind::Concept => "concept"@,
            AuthoringDraftKind::Template => "template"@,
        }
    }

    /// The stored name of this value.
    pub fn as_str(self) -> (s: &'static str)
        ensures
            s@ == self.stored_name(),
    {
        match self {
            AuthoringDraftKind::Concept => "concept",
            AuthoringDraftKind::Template => "template",
        }
    }
}

/// How a draft relates to the saved item it edits.
#[derive(Clone, Copy, Debug, PartialEq, Eq, Structural)]
pub enum AuthoringDraftTargetStatus {
    Current,
    Changed,
    Missing,
}

/// Identifies a draft: its kind and the saved item it edits, if any.
#[derive(Clone, Debug, PartialEq, Eq)]
pub struct AuthoringDraftLocator {
    pub kind: AuthoringDraftKind,
    pub target_id: Option<String>,
}

/// A request to save a draft.
#[derive(Clone, Debug, PartialEq, Eq)]
pub struct UpsertAuthoringDraftInput {
    pub kind: AuthoringDraftKind,
    pub target_id: Option<String>,
    pub schema_version: u32,
    pub base_change_id: Option<String>,
    pub payload: JsonValue,
    pub media_ids: Vec<String>,
    pub media_session_id: Option<String>,
}

/// A saved draft.
#[derive(Clone, Debug, PartialEq, Eq)]
pub struct AuthoringDraft {
    pub kind: AuthoringDraftKind,
    pub target_id: Option<String>,
    pub schema_version: u32,
    pub revision: String,
    pub base_change_id: Option<String>,
    pub payload: JsonValue,
    pub media_ids: Vec<String>,
    pub created_at: i64,
    pub updated_at: i64,
    pub target_status: AuthoringDraftTargetStatus,
}

/// What the editor knew when it asked to save.
#[derive(Clone, Debug, PartialEq, Eq)]
pub struct AuthoringSaveContext {
    pub target_id: Option<String>,
    pub expected_change_id: Option<String>,
    pub expected_draft_revision: Option<String>,
    pub save_as_copy: bool,
}

/// A request to save a concept from the editor.
#[derive(Clone, Debug, PartialEq, Eq)]
pub struct FinalizeConceptInput {
    pub context: AuthoringSaveContext,
    pub concept: CreateConceptInput,
    pub deferred_edit_position: Option<i64>,
}

/// A request to save a template from the editor.
#[derive(Clone, Debug, PartialEq, Eq)]
pub struct FinalizeTemplateInput {
    pub context: AuthoringSaveContext,
    pub template: CreateTemplateInput,
}

} // verus!
