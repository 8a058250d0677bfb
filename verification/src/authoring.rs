//! Reading authoring drafts, image editing sessions and queued edits: identities, base
//! changes, payload limits, media lists, and how a draft's target is judged.

use vstd::prelude::*;

use crate::error::{LibraryError, LibraryResult};
use crate::id_set::{insert_text, strictly_ascending};
use crate::models::authoring::{
    AuthoringDraftKind, AuthoringDraftTargetStatus, DeferredEditTargetStatus,
    AUTHORING_DRAFT_SCHEMA_VERSION,
};
use crate::models::json::JsonValue;
use crate::organizations::trimmed_texts;
use crate::text::{concat, is_uuid, parses_as_uuid, str_equals, texts, trim, trimmed};

verus! {

broadcast use vstd::seq_lib::group_seq_properties;

/// A draft keeps at most this many media items.
pub const MAXIMUM_DRAFT_MEDIA: usize = 1_000;

/// A draft payload has at most this many bytes once encoded.
pub const MAXIMUM_DRAFT_PAYLOAD_BYTES: usize = 5_000_000;

/// An image editing session starts with at most this many media items.
pub const MAXIMUM_INITIAL_MEDIA: usize = 11_000;

/// The error for a draft refused with `message`.
pub open spec fn draft_error(e: LibraryError, message: Seq<char>) -> bool {
    e matches LibraryError::InvalidAuthoringDraft { message: m } && m@ == message
}

/// Which draft a request is about: its kind and saved target, and the key it is stored
/// under (the target, or `new` for an unsaved item).
#[derive(Clone, Debug, PartialEq, Eq)]
pub struct DraftIdentity {
    pub kind: AuthoringDraftKind,
    pub target_id: Option<String>,
    pub target_key: String,
}

/// Reads the identity of a draft: a target, once trimmed, must be a UUID.
pub fn normalize_identity(kind: AuthoringDraftKind, target_id: Option<String>) -> (r: LibraryResult<DraftIdentity>)
    ensures
        match target_id {
            None => r matches Ok(d) && d.kind == kind && d.target_id is None && d.target_key@ == "new"@,
            Some(t) => if trim(t@).len() > 0 && parses_as_uuid(trim(t@)) {
                r matches Ok(d) && d.kind == kind && (d.target_id matches Some(x) && x@ == trim(t@))
                    && d.target_key@ == trim(t@)
            } else {
                r matches Err(e) && draft_error(e, "target ID is not valid"@)
            },
        },
{
    match target_id {
        None => Ok(DraftIdentity { kind, target_id: None, target_key: "new".to_owned() }),
        Some(t) => {
            let id = trimmed(t.as_str());
            if id.unicode_len() == 0 || !is_uuid(id.as_str()) {
                return Err(
                    LibraryError::InvalidAuthoringDraft { message: "target ID is not valid".to_owned() },
                );
            }
            let key = id.clone();
            Ok(DraftIdentity { kind, target_id: Some(id), target_key: key })
        },
    }
}

/// Reads the change a draft was based on: a saved target needs one, given as a UUID, and
/// an unsaved item has none.
pub fn normalize_base_change_id(has_target: bool, base_change_id: Option<String>) -> (r: LibraryResult<
    Option<String>,
>)
    ensures
        !has_target && base_change_id is None ==> r matches Ok(None),
        !has_target && base_change_id is Some ==> (r matches Err(e) && draft_error(
            e,
            "cannot have a base change without a saved target"@,
        )),
        has_target && base_change_id is None ==> (r matches Err(e) && draft_error(
            e,
            "requires a base change for a saved target"@,
        )),
        has_target && base_change_id is Some ==> if parses_as_uuid(trim(base_change_id->Some_0@)) {
            r matches Ok(Some(x)) && x@ == trim(base_change_id->Some_0@)
        } else {
            r matches Err(e) && draft_error(e, "base change ID is not valid"@)
        },
{
    match base_change_id {
        None => {
            if has_target {
                Err(
                    LibraryError::InvalidAuthoringDraft {
                        message: "requires a base change for a saved target".to_owned(),
                    },
                )
            } else {
                Ok(None)
            }
        },
        Some(b) => {
            let id = trimmed(b.as_str());
            if !has_target {
                return Err(
                    LibraryError::InvalidAuthoringDraft {
                        message: "cannot have a base change without a saved target".to_owned(),
                    },
                );
            }
            if is_uuid(id.as_str()) {
                Ok(Some(id))
            } else {
                Err(
                    LibraryError::InvalidAuthoringDraft {
                        message: "base change ID is not valid".to_owned(),
                    },
                )
            }
        },
    }
}

/// Checks a draft payload: the schema version, that it is an object, and that its
/// encoding (of `encoded_length` bytes) is at most 5 MB.
pub fn validate_payload(schema_version: u32, payload: &JsonValue, encoded_length: usize) -> (r: LibraryResult<()>)
    ensures
        schema_version != AUTHORING_DRAFT_SCHEMA_VERSION ==> (r matches Err(e) && draft_error(
            e,
            "uses an unsupported schema version"@,
        )),
        schema_version == AUTHORING_DRAFT_SCHEMA_VERSION && !(payload is Object) ==> (r matches Err(
            e,
        ) && draft_error(e, "payload must be an object"@)),
        schema_version == AUTHORING_DRAFT_SCHEMA_VERSION && payload is Object && encoded_length
            > MAXIMUM_DRAFT_PAYLOAD_BYTES ==> (r matches Err(e) && draft_error(
            e,
            "payload cannot be larger than 5 MB"@,
        )),
        r is Ok <==> schema_version == AUTHORING_DRAFT_SCHEMA_VERSION && payload is Object
            && encoded_length <= MAXIMUM_DRAFT_PAYLOAD_BYTES,
{
    if schema_version != AUTHORING_DRAFT_SCHEMA_VERSION {
        return Err(
            LibraryError::InvalidAuthoringDraft {
                message: "uses an unsupported schema version".to_owned(),
            },
        );
    }
    match payload {
        JsonValue::Object(_) => {},
        _ => {
            return Err(
                LibraryError::InvalidAuthoringDraft { message: "payload must be an object".to_owned() },
            );
        },
    }
    if encoded_length > MAXIMUM_DRAFT_PAYLOAD_BYTES {
        return Err(
            LibraryError::InvalidAuthoringDraft {
                message: "payload cannot be larger than 5 MB".to_owned(),
            },
        );
    }
    Ok(())
}

/// Why a list of media identifiers was refused.
#[derive(Clone, Copy, Debug, PartialEq, Eq, Structural)]
pub enum MediaListProblem {
    TooMany,
    InvalidId,
}

/// Some identifier is not a UUID once trimmed.
pub open spec fn has_invalid_uuid(ids: Seq<Seq<char>>) -> bool {
    exists|i: int| 0 <= i < ids.len() && !parses_as_uuid(#[trigger] trim(ids[i]))
}

/// Reads a list of media identifiers: at most `maximum` of them, each a UUID once trimmed;
/// the result is the set of trimmed identifiers.
pub fn normalize_uuid_set(ids: Vec<String>, maximum: usize) -> (r: Result<Vec<String>, MediaListProblem>)
    ensures
        ids.len() > maximum ==> r == Err::<Vec<String>, MediaListProblem>(MediaListProblem::TooMany),
        ids.len() <= maximum && has_invalid_uuid(texts(ids@)) ==> r == Err::<
            Vec<String>,
            MediaListProblem,
        >(MediaListProblem::InvalidId),
        r is Ok <==> ids.len() <= maximum && !has_invalid_uuid(texts(ids@)),
        r matches Ok(v) ==> strictly_ascending(texts(v@)) && texts(v@).to_set() == trimmed_texts(
            texts(ids@),
        ).to_set(),
{
    if ids.len() > maximum {
        return Err(MediaListProblem::TooMany);
    }
    let ghost given = texts(ids@);
    let mut set: Vec<String> = Vec::new();
    let mut i: usize = 0;
    while i < ids.len()
        invariant
            given == texts(ids@),
            ids.len() <= maximum,
            i <= ids.len(),
            strictly_ascending(texts(set@)),
            texts(set@).to_set() == trimmed_texts(given).take(i as int).to_set(),
            forall|j: int| 0 <= j < i ==> parses_as_uuid(#[trigger] trim(given[j])),
        decreases ids.len() - i,
    {
        let id = trimmed(ids[i].as_str());
        if !is_uuid(id.as_str()) {
            assert(!parses_as_uuid(trim(given[i as int])));
            return Err(MediaListProblem::InvalidId);
        }
        insert_text(&mut set, id);
        assert(trimmed_texts(given).take(i + 1) =~= trimmed_texts(given).take(i as int).push(
            trim(given[i as int]),
        ));
        i = i + 1;
    }
    assert(trimmed_texts(given).take(i as int) =~= trimmed_texts(given));
    Ok(set)
}

/// Reads the media a draft keeps: at most 1,000 UUIDs.
pub fn normalize_media_ids(media_ids: Vec<String>) -> (r: LibraryResult<Vec<String>>)
    ensures
        media_ids.len() > MAXIMUM_DRAFT_MEDIA ==> (r matches Err(e) && draft_error(
            e,
            "cannot retain more than 1,000 media items"@,
        )),
        media_ids.len() <= MAXIMUM_DRAFT_MEDIA && has_invalid_uuid(texts(media_ids@)) ==> (
        r matches Err(e) && draft_error(e, "contains an invalid media ID"@)),
        r is Ok <==> media_ids.len() <= MAXIMUM_DRAFT_MEDIA && !has_invalid_uuid(texts(media_ids@)),
        r matches Ok(v) ==> strictly_ascending(texts(v@)) && texts(v@).to_set() == trimmed_texts(
            texts(media_ids@),
        ).to_set(),
{
    match normalize_uuid_set(media_ids, MAXIMUM_DRAFT_MEDIA) {
        Ok(v) => Ok(v),
        Err(MediaListProblem::TooMany) => Err(
            LibraryError::InvalidAuthoringDraft {
                message: "cannot retain more than 1,000 media items".to_owned(),
            },
        ),
        Err(MediaListProblem::InvalidId) => Err(
            LibraryError::InvalidAuthoringDraft { message: "contains an invalid media ID".to_owned() },
        ),
    }
}

/// The error for an image editing session refused with `message`.
pub open spec fn session_error(e: LibraryError, message: Seq<char>) -> bool {
    e matches LibraryError::InvalidContent { field, message: m } && field@ == "Image editing session"@
        && m@ == message
}

/// Reads the media an image editing session starts with: at most 11,000 UUIDs.
pub fn normalize_initial_media(media_ids: Vec<String>) -> (r: LibraryResult<Vec<String>>)
    ensures
        media_ids.len() > MAXIMUM_INITIAL_MEDIA ==> (r matches Err(e) && session_error(
            e,
            "cannot start with more than 11000 media items"@,
        )),
        media_ids.len() <= MAXIMUM_INITIAL_MEDIA && has_invalid_uuid(texts(media_ids@)) ==> (
        r matches Err(e) && session_error(e, "contains an invalid media ID"@)),
        r is Ok <==> media_ids.len() <= MAXIMUM_INITIAL_MEDIA && !has_invalid_uuid(texts(media_ids@)),
        r matches Ok(v) ==> strictly_ascending(texts(v@)) && texts(v@).to_set() == trimmed_texts(
            texts(media_ids@),
        ).to_set(),
{
    match normalize_uuid_set(media_ids, MAXIMUM_INITIAL_MEDIA) {
        Ok(v) => Ok(v),
        Err(MediaListProblem::TooMany) => Err(
            LibraryError::InvalidContent {
                field: "Image editing session",
                message: "cannot start with more than 11000 media items".to_owned(),
            },
        ),
        Err(MediaListProblem::InvalidId) => Err(
            LibraryError::InvalidContent {
                field: "Image editing session",
                message: "contains an invalid media ID".to_owned(),
            },
        ),
    }
}

/// How the saved target of a draft stands: an unsaved item is always current; a saved
/// one is missing when no record of its kind exists or it was deleted, current when its
/// last change is the draft's base change, and changed otherwise.
pub fn draft_target_status(
    has_target: bool,
    record: Option<(String, Option<i64>)>,
    base_change_id: Option<&str>,
) -> (r: AuthoringDraftTargetStatus)
    ensures
        r == (if !has_target {
            AuthoringDraftTargetStatus::Current
        } else {
            match record {
                None => AuthoringDraftTargetStatus::Missing,
                Some((_, Some(_))) => AuthoringDraftTargetStatus::Missing,
                Some((change, None)) => if (base_change_id matches Some(b) && b@ == change@) {
                    AuthoringDraftTargetStatus::Current
                } else {
                    AuthoringDraftTargetStatus::Changed
                },
            }
        }),
{
    if !has_target {
        return AuthoringDraftTargetStatus::Current;
    }
    match record {
        None => AuthoringDraftTargetStatus::Missing,
        Some((_, Some(_))) => AuthoringDraftTargetStatus::Missing,
        Some((change, None)) => match base_change_id {
            Some(b) => {
                if str_equals(change.as_str(), b) {
                    AuthoringDraftTargetStatus::Current
                } else {
                    AuthoringDraftTargetStatus::Changed
                }
            },
            None => AuthoringDraftTargetStatus::Changed,
        },
    }
}

/// The stored name of each target status of a queued edit.
pub open spec fn deferred_status_from_name(s: Seq<char>) -> Option<DeferredEditTargetStatus> {
    if s == "current"@ {
        Some(DeferredEditTargetStatus::Current)
    } else if s == "changed"@ {
        Some(DeferredEditTargetStatus::Changed)
    } else if s == "archived"@ {
        Some(DeferredEditTargetStatus::Archived)
    } else if s == "missing"@ {
        Some(DeferredEditTargetStatus::Missing)
    } else {
        None
    }
}

/// Reads the stored target status of a queued edit.
pub fn parse_target_status(value: &str) -> (r: LibraryResult<DeferredEditTargetStatus>)
    ensures
        r matches Ok(s) ==> deferred_status_from_name(value@) == Some(s),
        r is Err <==> deferred_status_from_name(value@) is None,
        r matches Err(e) ==> (e matches LibraryError::InvalidDeferredEdit { message } && message@
            == "target status is not valid"@),
{
    if str_equals(value, "current") {
        return Ok(DeferredEditTargetStatus::Current);
    }
    if str_equals(value, "changed") {
        return Ok(DeferredEditTargetStatus::Changed);
    }
    if str_equals(value, "archived") {
        return Ok(DeferredEditTargetStatus::Archived);
    }
    if str_equals(value, "missing") {
        return Ok(DeferredEditTargetStatus::Missing);
    }
    Err(LibraryError::InvalidDeferredEdit { message: "target status is not valid".to_owned() })
}

/// Reads an identifier of a queued edit: trimmed, it must be a UUID; otherwise the edit is
/// refused with "`field` is not valid".
pub fn normalize_deferred_id(value: String, field: &'static str) -> (r: LibraryResult<String>)
    ensures
        r is Ok <==> parses_as_uuid(trim(value@)),
        r matches Ok(v) ==> v@ == trim(value@),
        r matches Err(e) ==> (e matches LibraryError::InvalidDeferredEdit { message } && message@
            == field@ + " is not valid"@),
{
    let value = trimmed(value.as_str());
    if !is_uuid(value.as_str()) {
        return Err(LibraryError::InvalidDeferredEdit { message: concat(field, " is not valid") });
    }
    Ok(value)
}

} // verus!
