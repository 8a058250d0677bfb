//! User CSS snippets.

use vstd::prelude::*;


verus! {

/// The version of the stored CSS snippet format.
pub const CSS_SNIPPET_SCHEMA_VERSION: u32 = 1;

/// The stylesheet of a snippet.
#[derive(Clone, Debug, PartialEq, Eq)]
pub struct CssSnippetContent {
    pub schema_version: u32,
    pub source: String,
}

/// A user stylesheet and whether this device applies it.
#[derive(Clone, Debug, PartialEq, Eq)]
pub struct CssSnippet {
    pub id: String,
    pub name: String,
    pub created_at: i64,
    pub updated_at: i64,
    pub content: CssSnippetContent,
    pub enabled: bool,
}

/// All snippets, ordered by name.
#[derive(Clone, Debug, PartialEq, Eq)]
pub struct CssSnippetCatalog {
    pub snippets: Vec<CssSnippet>,
}

/// A request to create a snippet.
#[derive(Clone, Debug, PartialEq, Eq)]
pub struct CreateCssSnippetInput {
    pub name: String,
    pub content: CssSnippetContent,
}

/// A request to change a snippet.
#[derive(Clone, Debug, PartialEq, Eq)]
pub struct UpdateCssSnippetInput {
    pub id: String,
    pub name: String,
    pub content: CssSnippetContent,
}

/// A request to apply or stop applying a snippet on this device.
#[derive(Clone, Debug, PartialEq, Eq)]
pub struct SetCssSnippetEnabledInput {
    pub id: String,
    pub enabled: bool,
}

} // verus!
