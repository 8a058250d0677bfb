//! Verified core of the Twill study library.

pub mod authoring;
pub mod card_quality;
pub mod card_application;
pub mod cards;
pub mod concepts;
pub mod content;
pub mod css;
pub mod entity;
pub mod error;
pub mod id_set;
pub mod json_access;
pub mod lifecycle;
pub mod media;
pub mod mixed_practice;
pub mod organizations;
pub mod preferences;
pub mod retrieval_forms;
pub mod runtime;
pub mod search;
pub mod search_index;
pub mod study;
pub mod templates;
pub mod models;
pub mod text;
