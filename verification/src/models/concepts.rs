//! Concepts, their organization and their content.

use vstd::prelude::*;

use crate::models::json::JsonValue;
use crate::models::retrieval::{CardSummary, ExplainSettings, ProblemSettings, TypeAnswerSettings};

verus! {

/// The version of the stored rich content format.
pub const RICH_CONTENT_SCHEMA_VERSION: u32 = 1;

/// An identified, named record such as a deck, tag or template.
#[derive(Clone, Debug, PartialEq, Eq)]
pub struct NamedItem {
    pub id: String,
    pub name: String,
}

/// A deck or tag with the number of concepts it holds.
#[derive(Clone, Debug, PartialEq, Eq)]
pub struct OrganizationSummary {
    pub id: String,
    pub name: String,
    pub concept_count: i64,
    pub active_concept_count: i64,
}

/// A concept as the library list shows it.
#[derive(Clone, Debug, PartialEq, Eq)]
pub struct ConceptSummary {
    pub id: String,
    pub title: String,
    pub created_at: i64,
    pub updated_at: i64,
    pub archived: bool,
    pub decks: Vec<NamedItem>,
    pub tags: Vec<NamedItem>,
    pub card_count: i64,
}

/// An imported image.
#[derive(Clone, Debug, PartialEq, Eq)]
pub struct MediaSummary {
    pub id: String,
    pub mime_type: String,
    pub byte_size: i64,
    pub width: i64,
    pub height: i64,
}

/// Rich-text feedback shown after an answer.
#[derive(Clone, Debug, PartialEq, Eq)]
pub struct AnswerFeedback {
    pub explanation: JsonValue,
    pub common_mistakes: JsonValue,
}

/// The rich content of a concept.
#[derive(Clone, Debug, PartialEq, Eq)]
pub struct ConceptContent {
    pub schema_version: u32,
    pub prompt: JsonValue,
    pub answer: JsonValue,
    pub feedback: AnswerFeedback,
}

/// The rich-text document that a new field starts with: one empty paragraph.
pub open spec fn is_empty_document(value: JsonValue) -> bool {
    match value {
        JsonValue::Object(members) => {
            &&& members@.len() == 2
            &&& members@[0].0@ == "content"@
            &&& members@[1].0@ == "type"@
            &&& is_text_value(members@[1].1, "doc"@)
            &&& match members@[0].1 {
                JsonValue::Array(children) => children@.len() == 1 && match children@[0] {
                    JsonValue::Object(paragraph) => paragraph@.len() == 1 && paragraph@[0].0@
                        == "type"@ && is_text_value(paragraph@[0].1, "paragraph"@),
                    _ => false,
                },
                _ => false,
            }
        },
        _ => false,
    }
}

/// Whether a JSON value is the string `text`.
pub open spec fn is_text_value(value: JsonValue, text: Seq<char>) -> bool {
    match value {
        JsonValue::String(s) => s@ == text,
        _ => false,
    }
}

/// Builds the document of one empty paragraph.
pub fn empty_rich_text_document() -> (r: JsonValue)
    ensures
        is_empty_document(r),
{
    let paragraph = JsonValue::Object(
        vec![(String::from_str("type"), JsonValue::String(String::from_str("paragraph")))],
    );
    let r = JsonValue::Object(
        vec![
            (String::from_str("content"), JsonValue::Array(vec![paragraph])),
            (String::from_str("type"), JsonValue::String(String::from_str("doc"))),
        ],
    );
    proof {
        reveal_strlit("type");
        reveal_strlit("paragraph");
        reveal_strlit("content");
        reveal_strlit("doc");
    }
    r
}

impl Default for AnswerFeedback {
    /// Feedback with nothing written yet: both documents are empty.
    fn default() -> (r: Self)
        ensures
            is_empty_document(r.explanation),
            is_empty_document(r.common_mistakes),
    {
        AnswerFeedback {
            explanation: empty_rich_text_document(),
            common_mistakes: empty_rich_text_document(),
        }
    }
}

impl Default for ConceptContent {
    /// The content of a new concept: the current schema version and empty documents.
    fn default() -> (r: Self)
        ensures
            r.schema_version == RICH_CONTENT_SCHEMA_VERSION,
            is_empty_document(r.prompt),
            is_empty_document(r.answer),
            is_empty_document(r.feedback.explanation),
            is_empty_document(r.feedback.common_mistakes),
    {
        ConceptContent {
            schema_version: RICH_CONTENT_SCHEMA_VERSION,
            prompt: empty_rich_text_document(),
            answer: empty_rich_text_document(),
            feedback: AnswerFeedback::default(),
        }
    }
}

/// A concept with everything the editor shows.
#[derive(Clone, Debug, PartialEq, Eq)]
pub struct ConceptDetail {
    pub id: String,
    pub title: String,
    pub created_at: i64,
    pub updated_at: i64,
    pub last_change_id: String,
    pub archived: bool,
    pub decks: Vec<NamedItem>,
    pub tags: Vec<NamedItem>,
    pub cards: Vec<CardSummary>,
    pub content: ConceptContent,
    pub media: Vec<MediaSummary>,
}

/// One page of the library list.
#[derive(Clone, Debug, PartialEq, Eq)]
pub struct LibraryPage {
    pub concepts: Vec<ConceptSummary>,
    pub archived_count: i64,
    pub concept_count: i64,
    pub total_count: i64,
    pub page: i64,
    pub page_size: i64,
}

/// What the library list is filtered by.
#[derive(Clone, Debug, PartialEq, Eq)]
pub struct LibraryQuery {
    pub query: String,
    pub include_archived: bool,
    pub deck_id: Option<String>,
    pub tag_id: Option<String>,
    pub page: u32,
}

/// All decks and tags.
#[derive(Clone, Debug, PartialEq, Eq)]
pub struct LibraryOrganizations {
    pub decks: Vec<OrganizationSummary>,
    pub tags: Vec<OrganizationSummary>,
}

/// A request to create a concept.
#[derive(Clone, Debug, PartialEq, Eq)]
pub struct CreateConceptInput {
    pub title: String,
    pub deck_ids: Vec<String>,
    pub tag_ids: Vec<String>,
    pub content: ConceptContent,
    pub include_standard_recall: bool,
    pub template_ids: Vec<String>,
    pub explain: Option<ExplainSettings>,
    pub problem: Option<ProblemSettings>,
    pub type_answer: Option<TypeAnswerSettings>,
}

/// A request to change a concept.
#[derive(Clone, Debug, PartialEq, Eq)]
pub struct UpdateConceptInput {
    pub id: String,
    pub title: String,
    pub deck_ids: Vec<String>,
    pub tag_ids: Vec<String>,
    pub content: ConceptContent,
    pub include_standard_recall: bool,
    pub template_ids: Vec<String>,
    pub explain: Option<ExplainSettings>,
    pub problem: Option<ProblemSettings>,
    pub type_answer: Option<TypeAnswerSettings>,
}

/// A request to archive or restore a concept.
#[derive(Clone, Debug, PartialEq, Eq)]
pub struct SetConceptArchivedInput {
    pub id: String,
    pub archived: bool,
}

/// A request to create a deck or tag.
#[derive(Clone, Debug, PartialEq, Eq)]
pub struct CreateNamedItemInput {
    pub name: String,
}

/// A request to rename a deck or tag.
#[derive(Clone, Debug, PartialEq, Eq)]
pub struct RenameNamedItemInput {
    pub id: String,
    pub name: String,
}

/// Whether a new concept gets a standard recall card when the request does not say.
pub fn default_include_standard_recall() -> (r: bool)
    ensures
        r,
{
    true
}

} // verus!
