//! Errors of the local data layer and of the study library.

use vstd::prelude::*;

verus! {

/// Failures of the local data layer that do not come from the database engine itself.
#[derive(Clone, Debug, PartialEq, Eq)]
pub enum DataError {
    ConnectionUnavailable,
    InvalidSystemTime,
    EntityNotFound(String),
    EntityDeleted(String),
    UnknownEntityKind(String),
    UnknownChangeOperation(String),
}

/// Failures of the study library: invalid input, missing records and broken stored data.
#[derive(Clone, Debug, PartialEq, Eq)]
pub enum LibraryError {
    EmptyValue { field: &'static str },
    ValueTooLong { field: &'static str, maximum: usize },
    DuplicateName { kind: &'static str, name: String },
    ConceptNotFound(String),
    OrganizationNotFound { kind: &'static str, id: String },
    TemplateNotFound(String),
    CssSnippetNotFound(String),
    InvalidSelection { kind: &'static str, id: String },
    InvalidContent { field: &'static str, message: String },
    InvalidTemplate { field: &'static str, message: String },
    InvalidCss { message: String },
    InvalidAuthoringDraft { message: String },
    AuthoringDraftChanged,
    AuthoringTargetChanged,
    AuthoringTargetMissing,
    DeferredEditChanged,
    AuthoringMediaSessionClosed,
    InvalidDeferredEdit { message: String },
    InvalidCardQualityConcern { message: String },
    CardQualityConcernNotFound(String),
    CardQualityConcernClosed(String),
    CardQualityConcernConflict,
    CardQualityEvidenceChanged,
    CardQualitySignalNotActive(String),
    InvalidCardQualityKind(String),
    InvalidCardQualitySource(String),
    InvalidCardQualityStatus(String),
    ImageTooLarge { maximum_megabytes: usize },
    UnsupportedImage,
    ImageDimensionsTooLarge,
    MediaNotFound(String),
    CardNotFound(String),
    CardNotDue { card_id: String, due_at: i64 },
    ReviewNotFound(String),
    ReviewNotReversible,
    PretestNotEligible(String),
    InvalidPretestOutcome(String),
    UnsupportedSchedulerConfiguration(String),
    InvalidSchedulingState(String),
    InvalidRetrievalFormKind(String),
    InvalidRetrievalForm,
    MissingRetrievalForm,
    MissingAcceptedAnswer,
    TooManyAcceptedAnswers { maximum: usize },
    DuplicateAcceptedAnswer,
    MissingExplainKeyPoint,
    TooManyExplainKeyPoints { maximum: usize },
    DuplicateExplainKeyPoint,
    MissingProblemCheckpoint,
    MissingProblemPrompt,
    TooManyProblemCheckpoints { maximum: usize },
    DuplicateProblemCheckpoint,
    TemplateInUse { retrieval_form_count: i64 },
    InvalidGradingMode(String),
    InvalidStartupDestination(String),
    InvalidDevicePreference { field: &'static str, value: String },
    InvalidDesiredRetention { minimum: i64, maximum: i64 },
    InvalidMaximumInterval { minimum: i64, maximum: i64 },
    InvalidSchedule,
    MediaIntegrity { expected_digest: String },
    Data(DataError),
}

/// Shorthand for results of the study library.
pub type LibraryResult<T> = Result<T, LibraryError>;

/// Shorthand for results of the local data layer.
pub type DataResult<T> = Result<T, DataError>;

} // verus!
