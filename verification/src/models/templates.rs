//! Card templates.

use vstd::prelude::*;


verus! {

/// The version of the stored template format.
pub const TEMPLATE_SCHEMA_VERSION: u32 = 1;

/// The concept fields a template can show.
#[derive(Clone, Copy, Debug, PartialEq, Eq, Structural)]
pub enum TemplateField {
    Title,
    Prompt,
    Answer,
}

/// How a visual template aligns its blocks.
#[derive(Clone, Copy, Debug, PartialEq, Eq, Structural)]
pub enum TemplateAlignment {
    Left,
    Center,
}

/// One block of a visual template side.
#[derive(Clone, Debug, PartialEq, Eq)]
pub enum TemplateBlock {
    Field { field: TemplateField },
    Text { text: String },
}

/// The blocks of one side of a visual template.
#[derive(Clone, Debug, PartialEq, Eq)]
pub struct VisualTemplateSide {
    pub blocks: Vec<TemplateBlock>,
}

/// How a visual template is laid out.
#[derive(Clone, Debug, PartialEq, Eq)]
pub struct VisualTemplateAppearance {
    pub alignment: TemplateAlignment,
    pub show_field_labels: bool,
}

/// A template built from blocks.
#[derive(Clone, Debug, PartialEq, Eq)]
pub struct VisualTemplate {
    pub front: VisualTemplateSide,
    pub answer: VisualTemplateSide,
    pub appearance: VisualTemplateAppearance,
}

/// A template written as HTML and CSS.
#[derive(Clone, Debug, PartialEq, Eq)]
pub struct CustomTemplate {
    pub front_html: String,
    pub answer_html: String,
    pub css: String,
}

/// Which form of a template is used.
#[derive(Clone, Copy, Debug, PartialEq, Eq, Structural)]
pub enum TemplateMode {
    Visual,
    Custom,
}

/// Both forms of a template and which one is used.
#[derive(Clone, Debug, PartialEq, Eq)]
pub struct TemplateContent {
    pub schema_version: u32,
    pub mode: TemplateMode,
    pub visual: VisualTemplate,
    pub custom: CustomTemplate,
}

/// The custom front HTML of a new template.
pub open spec fn default_front_html() -> Seq<char> {
    "<main class=\"card\">\n  {{ prompt }}\n</main>"@
}

/// The custom answer HTML of a new template.
pub open spec fn default_answer_html() -> Seq<char> {
    "<main class=\"card\">\n  <section class=\"prompt\">{{ prompt }}</section>\n  <hr>\n  <section class=\"answer\">{{ answer }}</section>\n</main>"@
}

/// The custom CSS of a new template.
pub open spec fn default_css() -> Seq<char> {
    ".card {\n  max-width: 42rem;\n  margin: 0 auto;\n  color: var(--twill-text-highlighted);\n  font-family: var(--twill-reading-font);\n  line-height: 1.6;\n}\n\nhr {\n  margin: 2rem 0;\n  border: 0;\n  border-top: 1px solid var(--twill-border);\n}"@
}

impl Default for TemplateContent {
    /// A new template: visual, showing the prompt on the front and the prompt and answer
    /// on the answer side, left aligned with field labels; its custom form shows the same
    /// fields in a card.
    fn default() -> (r: Self)
        ensures
            r.schema_version == TEMPLATE_SCHEMA_VERSION,
            r.mode == TemplateMode::Visual,
            r.visual.front.blocks@ == seq![TemplateBlock::Field { field: TemplateField::Prompt }],
            r.visual.answer.blocks@ == seq![
                TemplateBlock::Field { field: TemplateField::Prompt },
                TemplateBlock::Field { field: TemplateField::Answer },
            ],
            r.visual.appearance == (VisualTemplateAppearance {
                alignment: TemplateAlignment::Left,
                show_field_labels: true,
            }),
            r.custom.front_html@ == default_front_html(),
            r.custom.answer_html@ == default_answer_html(),
            r.custom.css@ == default_css(),
    {
        TemplateContent {
            schema_version: TEMPLATE_SCHEMA_VERSION,
            mode: TemplateMode::Visual,
            visual: VisualTemplate {
                front: VisualTemplateSide {
                    blocks: vec![TemplateBlock::Field { field: TemplateField::Prompt }],
                },
                answer: VisualTemplateSide {
                    blocks: vec![
                        TemplateBlock::Field { field: TemplateField::Prompt },
                        TemplateBlock::Field { field: TemplateField::Answer },
                    ],
                },
                appearance: VisualTemplateAppearance {
                    alignment: TemplateAlignment::Left,
                    show_field_labels: true,
                },
            },
            custom: CustomTemplate {
                front_html: "<main class=\"card\">\n  {{ prompt }}\n</main>".to_owned(),
                answer_html: "<main class=\"card\">\n  <section class=\"prompt\">{{ prompt }}</section>\n  <hr>\n  <section class=\"answer\">{{ answer }}</section>\n</main>".to_owned(),
                css: ".card {\n  max-width: 42rem;\n  margin: 0 auto;\n  color: var(--twill-text-highlighted);\n  font-family: var(--twill-reading-font);\n  line-height: 1.6;\n}\n\nhr {\n  margin: 2rem 0;\n  border: 0;\n  border-top: 1px solid var(--twill-border);\n}".to_owned(),
            },
        }
    }
}

/// A template as the catalog lists it.
#[derive(Clone, Debug, PartialEq, Eq)]
pub struct TemplateSummary {
    pub id: String,
    pub name: String,
    pub updated_at: i64,
    pub mode: TemplateMode,
    pub retrieval_form_count: i64,
}

/// A template with its content.
#[derive(Clone, Debug, PartialEq, Eq)]
pub struct TemplateDetail {
    pub id: String,
    pub name: String,
    pub created_at: i64,
    pub updated_at: i64,
    pub last_change_id: String,
    pub content: TemplateContent,
}

/// All templates, ordered by name.
#[derive(Clone, Debug, PartialEq, Eq)]
pub struct TemplateCatalog {
    pub templates: Vec<TemplateSummary>,
}

/// A request to create a template.
#[derive(Clone, Debug, PartialEq, Eq)]
pub struct CreateTemplateInput {
    pub name: String,
    pub content: TemplateContent,
}

/// A request to change a template.
#[derive(Clone, Debug, PartialEq, Eq)]
pub struct UpdateTemplateInput {
    pub id: String,
    pub name: String,
    pub content: TemplateContent,
}

} // verus!
