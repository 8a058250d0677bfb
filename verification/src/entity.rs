//! Identities and change records of syncable entities.

use vstd::prelude::*;

use crate::error::{DataError, DataResult};
use crate::text::str_equals;

verus! {

/// The kinds of records that carry a durable identity and a change history.
#[derive(Clone, Copy, Debug, PartialEq, Eq, Structural)]
pub enum EntityKind {
    Concept,
    Card,
    Deck,
    Tag,
    Template,
    Review,
    ReviewReversal,
    Media,
    CssSnippet,
}

/// The kinds of change recorded in the change log.
#[derive(Clone, Copy, Debug, PartialEq, Eq, Structural)]
pub enum ChangeOperation {
    Create,
    Update,
    Delete,
}

/// The stored metadata of one entity.
#[derive(Clone, Debug)]
pub struct EntityMetadata {
    pub id: String,
    pub kind: EntityKind,
    pub created_at: i64,
    pub updated_at: i64,
    pub deleted_at: Option<i64>,
    pub revision: i64,
    pub last_change_id: String,
}

/// One entry of the append-only change log.
#[derive(Clone, Debug)]
pub struct ChangeRecord {
    pub sequence: i64,
    pub id: String,
    pub entity_id: String,
    pub entity_kind: EntityKind,
    pub operation: ChangeOperation,
    pub recorded_at: i64,
}

/// Every entity kind, in declaration order.
pub open spec fn all_entity_kinds() -> Seq<EntityKind> {
    seq![
        EntityKind::Concept,
        EntityKind::Card,
        EntityKind::Deck,
        EntityKind::Tag,
        EntityKind::Template,
        EntityKind::Review,
        EntityKind::ReviewReversal,
        EntityKind::Media,
        EntityKind::CssSnippet,
    ]
}

impl EntityKind {
    /// Every entity kind, in declaration order.
    pub fn all() -> (r: Vec<EntityKind>)
        ensures
            r@ == all_entity_kinds(),
    {
        let r = vec![
            EntityKind::Concept,
            EntityKind::Card,
            EntityKind::Deck,
            EntityKind::Tag,
            EntityKind::Template,
            EntityKind::Review,
            EntityKind::ReviewReversal,
            EntityKind::Media,
            EntityKind::CssSnippet,
        ];
        assert(r@ =~= all_entity_kinds());
        r
    }
}

impl EntityKind {
    /// The stored name of each value.
    pub open spec fn stored_name(self) -> Seq<char> {
        match self {
            EntityKind::Concept => "concept"@,
            EntityKind::Card => "card"@,
            EntityKind::Deck => "deck"@,
            EntityKind::Tag => "tag"@,
            EntityKind::Template => "template"@,
            EntityKind::Review => "review"@,
            EntityKind::ReviewReversal => "review_reversal"@,
            EntityKind::Media => "media"@,
            EntityKind::CssSnippet => "css_snippet"@,
        }
    }

    /// The stored name of this value.
    pub fn as_str(self) -> (s: &'static str)
        ensures
            s@ == self.stored_name(),
    {
        match self {
            EntityKind::Concept => "concept",
            EntityKind::Card => "card",
            EntityKind::Deck => "deck",
            EntityKind::Tag => "tag",
            EntityKind::Template => "template",
            EntityKind::Review => "review",
            EntityKind::ReviewReversal => "review_reversal",
            EntityKind::Media => "media",
            EntityKind::CssSnippet => "css_snippet",
        }
    }
}

/// The value whose stored name is `s`, if any.
pub open spec fn entity_kind_from_name(s: Seq<char>) -> Option<EntityKind> {
    if s == "concept"@ {
        Some(EntityKind::Concept)
    } else if s == "card"@ {
        Some(EntityKind::Card)
    } else if s == "deck"@ {
        Some(EntityKind::Deck)
    } else if s == "tag"@ {
        Some(EntityKind::Tag)
    } else if s == "template"@ {
        Some(EntityKind::Template)
    } else if s == "review"@ {
        Some(EntityKind::Review)
    } else if s == "review_reversal"@ {
        Some(EntityKind::ReviewReversal)
    } else if s == "media"@ {
        Some(EntityKind::Media)
    } else if s == "css_snippet"@ {
        Some(EntityKind::CssSnippet)
    } else {
        None
    }
}

/// Reads a stored name; any other text is an unknown kind.
pub fn parse_entity_kind(value: &str) -> (r: DataResult<EntityKind>)
    ensures
        r matches Ok(k) ==> entity_kind_from_name(value@) == Some(k),
        r matches Err(e) ==> (e matches DataError::UnknownEntityKind(v) && v@ == value@),
        r is Err <==> entity_kind_from_name(value@) is None,
{
    if str_equals(value, "concept") {
        return Ok(EntityKind::Concept);
    }
    if str_equals(value, "card") {
        return Ok(EntityKind::Card);
    }
    if str_equals(value, "deck") {
        return Ok(EntityKind::Deck);
    }
    if str_equals(value, "tag") {
        return Ok(EntityKind::Tag);
    }
    if str_equals(value, "template") {
        return Ok(EntityKind::Template);
    }
    if str_equals(value, "review") {
        return Ok(EntityKind::Review);
    }
    if str_equals(value, "review_reversal") {
        return Ok(EntityKind::ReviewReversal);
    }
    if str_equals(value, "media") {
        return Ok(EntityKind::Media);
    }
    if str_equals(value, "css_snippet") {
        return Ok(EntityKind::CssSnippet);
    }
    Err(DataError::UnknownEntityKind(value.to_owned()))
}

/// Every value is read back from its own stored name unchanged.
pub proof fn lemma_entity_kind_name_round_trip(k: EntityKind)
    ensures
        entity_kind_from_name(k.stored_name()) == Some(k),
{
    reveal_strlit("concept");
    reveal_strlit("card");
    reveal_strlit("deck");
    reveal_strlit("tag");
    reveal_strlit("template");
    reveal_strlit("review");
    reveal_strlit("review_reversal");
    reveal_strlit("media");
    reveal_strlit("css_snippet");
    match k {
        EntityKind::Concept => {
        },
        EntityKind::Card => {
            assert("card"@.len() != "concept"@.len());
        },
        EntityKind::Deck => {
            assert("deck"@.len() != "concept"@.len());
            assert("deck"@[0] != "card"@[0]);
        },
        EntityKind::Tag => {
            assert("tag"@.len() != "concept"@.len());
            assert("tag"@.len() != "card"@.len());
            assert("tag"@.len() != "deck"@.len());
        },
        EntityKind::Template => {
            assert("template"@.len() != "concept"@.len());
            assert("template"@.len() != "card"@.len());
            assert("template"@.len() != "deck"@.len());
            assert("template"@.len() != "tag"@.len());
        },
        EntityKind::Review => {
            assert("review"@.len() != "concept"@.len());
            assert("review"@.len() != "card"@.len());
            assert("review"@.len() != "deck"@.len());
            assert("review"@.len() != "tag"@.len());
            assert("review"@.len() != "template"@.len());
        },
        EntityKind::ReviewReversal => {
            assert("review_reversal"@.len() != "concept"@.len());
            assert("review_reversal"@.len() != "card"@.len());
            assert("review_reversal"@.len() != "deck"@.len());
            assert("review_reversal"@.len() != "tag"@.len());
            assert("review_reversal"@.len() != "template"@.len());
            assert("review_reversal"@.len() != "review"@.len());
        },
        EntityKind::Media => {
            assert("media"@.len() != "concept"@.len());
            assert("media"@.len() != "card"@.len());
            assert("media"@.len() != "deck"@.len());
            assert("media"@.len() != "tag"@.len());
            assert("media"@.len() != "template"@.len());
            assert("media"@.len() != "review"@.len());
            assert("media"@.len() != "review_reversal"@.len());
        },
        EntityKind::CssSnippet => {
            assert("css_snippet"@.len() != "concept"@.len());
            assert("css_snippet"@.len() != "card"@.len());
            assert("css_snippet"@.len() != "deck"@.len());
            assert("css_snippet"@.len() != "tag"@.len());
            assert("css_snippet"@.len() != "template"@.len());
            assert("css_snippet"@.len() != "review"@.len());
            assert("css_snippet"@.len() != "review_reversal"@.len());
            assert("css_snippet"@.len() != "media"@.len());
        },
    }
}

impl ChangeOperation {
    /// The stored name of each value.
    pub open spec fn stored_name(self) -> Seq<char> {
        match self {
            ChangeOperation::Create => "create"@,
            ChangeOperation::Update => "update"@,
            ChangeOperation::Delete => "delete"@,
        }
    }

    /// The stored name of this value.
    pub fn as_str(self) -> (s: &'static str)
        ensures
            s@ == self.stored_name(),
    {
        match self {
            ChangeOperation::Create => "create",
            ChangeOperation::Update => "update",
            ChangeOperation::Delete => "delete",
        }
    }
}

/// The value whose stored name is `s`, if any.
pub open spec fn change_operation_from_name(s: Seq<char>) -> Option<ChangeOperation> {
    if s == "create"@ {
        Some(ChangeOperation::Create)
    } else if s == "update"@ {
        Some(ChangeOperation::Update)
    } else if s == "delete"@ {
        Some(ChangeOperation::Delete)
    } else {
        None
    }
}

/// Reads a stored name; any other text is an unknown operation.
pub fn parse_change_operation(value: &str) -> (r: DataResult<ChangeOperation>)
    ensures
        r matches Ok(k) ==> change_operation_from_name(value@) == Some(k),
        r matches Err(e) ==> (e matches DataError::UnknownChangeOperation(v) && v@ == value@),
        r is Err <==> change_operation_from_name(value@) is None,
{
    if str_equals(value, "create") {
        return Ok(ChangeOperation::Create);
    }
    if str_equals(value, "update") {
        return Ok(ChangeOperation::Update);
    }
    if str_equals(value, "delete") {
        return Ok(ChangeOperation::Delete);
    }
    Err(DataError::UnknownChangeOperation(value.to_owned()))
}

/// Every value is read back from its own stored name unchanged.
pub proof fn lemma_change_operation_name_round_trip(k: ChangeOperation)
    ensures
        change_operation_from_name(k.stored_name()) == Some(k),
{
    reveal_strlit("create");
    reveal_strlit("update");
    reveal_strlit("delete");
    match k {
        ChangeOperation::Create => {
        },
        ChangeOperation::Update => {
            assert("update"@[0] != "create"@[0]);
        },
        ChangeOperation::Delete => {
            assert("delete"@[0] != "create"@[0]);
            assert("delete"@[0] != "update"@[0]);
        },
    }
}

/// A change is dated `now`, but never before the entity's last update, so that the
/// times of an entity's changes do not go backwards.
pub open spec fn change_time(now: i64, updated_at: i64) -> i64 {
    if now >= updated_at {
        now
    } else {
        updated_at
    }
}

/// When an update of the entity is recorded: an entity that was deleted cannot be
/// updated.
pub fn update_time(entity: &EntityMetadata, now: i64) -> (r: DataResult<i64>)
    ensures
        entity.deleted_at is Some ==> (r matches Err(e) && e matches DataError::EntityDeleted(id)
            && id@ == entity.id@),
        entity.deleted_at is None ==> r == Ok::<i64, DataError>(change_time(now, entity.updated_at)),
{
    if entity.deleted_at.is_some() {
        return Err(DataError::EntityDeleted(entity.id.clone()));
    }
    if now >= entity.updated_at {
        Ok(now)
    } else {
        Ok(entity.updated_at)
    }
}

/// When the deletion of the entity is recorded: `None` when it is already deleted, since
/// deleting it again changes nothing.
pub fn deletion_time(entity: &EntityMetadata, now: i64) -> (r: Option<i64>)
    ensures
        r == (match entity.deleted_at {
            Some(_) => None,
            None => Some(change_time(now, entity.updated_at)),
        }),
{
    match entity.deleted_at {
        Some(_) => None,
        None => {
            if now >= entity.updated_at {
                Some(now)
            } else {
                Some(entity.updated_at)
            }
        },
    }
}

/// A recorded change never moves an entity's update time backwards.
pub proof fn lemma_changes_keep_time_order(now: i64, updated_at: i64)
    ensures
        change_time(now, updated_at) >= updated_at,
        change_time(now, updated_at) >= now,
{
}

} // verus!
