//! The data shapes exchanged with the application and stored by it.

pub mod authoring;
pub mod card_quality;
pub mod concepts;
pub mod css_snippets;
pub mod json;
pub mod preferences;
pub mod retrieval;
pub mod study;
pub mod templates;

use vstd::prelude::*;

verus! {

/// A request that names one record by its identifier.
#[derive(Clone, Debug, PartialEq, Eq)]
pub struct EntityIdInput {
    pub id: String,
}

} // verus!
