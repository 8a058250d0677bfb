use twill::error::LibraryError;
use twill::models::concepts::NamedItem;
use twill::models::templates::{TemplateBlock, TemplateContent, TemplateField, TemplateMode};
use twill::organizations::ensure_unique_name;
use twill::templates::{
    ensure_template_unused, normalize_template_name, sanitize_template_html,
    validate_field_tokens, validate_template_content, validate_template_css,
    validate_visual_side,
};

fn custom_content(front_html: &str) -> TemplateContent {
    let mut content = TemplateContent::default();

    content.mode = TemplateMode::Custom;
    content.custom.front_html = front_html.to_owned();
    content.custom.answer_html = "<div class=answer>{{ answer }}</div>".to_owned();
    content.custom.css = ".answer { color: green; }".to_owned();

    content
}

fn invalid_template(field: &'static str, message: &str) -> LibraryError {
    LibraryError::InvalidTemplate { field, message: message.to_owned() }
}

#[test]
fn template_names_and_visual_fields_are_validated() {
    let existing = vec![NamedItem { id: "first".to_owned(), name: "Recall".to_owned() }];
    let name = normalize_template_name(" recall ".to_owned()).unwrap();

    assert_eq!(name, "recall");
    assert!(matches!(
        ensure_unique_name("template", &existing, &name, None),
        Err(LibraryError::DuplicateName { .. })
    ));
    assert_eq!(ensure_unique_name("template", &existing, &name, Some("first")), Ok(()));

    let mut invalid_content = TemplateContent::default();
    invalid_content.visual.front.blocks.clear();

    assert!(matches!(
        validate_template_content(invalid_content),
        Err(LibraryError::InvalidTemplate { .. })
    ));
}

#[test]
fn custom_html_is_sanitized_and_field_syntax_is_restricted() {
    let created = validate_template_content(custom_content(
        "<section class=front onclick=alert(1)>{{ prompt }}<script>alert(1)</script></section>",
    ))
    .unwrap();

    assert_eq!(
        created.custom.front_html,
        "<section class=\"front\">{{ prompt }}</section>"
    );
    assert_eq!(created.custom.answer_html, "<div class=\"answer\">{{ answer }}</div>");
    assert_eq!(created.custom.css, ".answer { color: green; }");

    for invalid_html in [
        "<div>{{missing}}</div>",
        "<div class=\"{{title}}\">Front</div>",
        "<div>{{prompt}</div>",
        "<div>No fields</div>",
    ] {
        assert!(matches!(
            validate_template_content(custom_content(invalid_html)),
            Err(LibraryError::InvalidTemplate { .. })
        ));
    }
}

#[test]
fn template_names_are_trimmed_and_bounded() {
    assert_eq!(normalize_template_name("  Basic recall  ".to_owned()).unwrap(), "Basic recall");
    assert_eq!(
        normalize_template_name("   ".to_owned()),
        Err(LibraryError::EmptyValue { field: "Template name" })
    );
    assert_eq!(
        normalize_template_name("n".repeat(81)),
        Err(LibraryError::ValueTooLong { field: "Template name", maximum: 80 })
    );
    assert!(normalize_template_name("n".repeat(80)).is_ok());
}

#[test]
fn visual_sides_report_each_problem() {
    let field = |field: TemplateField| TemplateBlock::Field { field };
    let text = |text: &str| TemplateBlock::Text { text: text.to_owned() };

    assert_eq!(
        validate_visual_side(&Vec::new(), "Visual front"),
        Err(invalid_template("Visual front", "must contain at least one block"))
    );
    assert_eq!(
        validate_visual_side(&vec![field(TemplateField::Prompt), field(TemplateField::Prompt)], "Visual answer"),
        Err(invalid_template("Visual answer", "cannot contain a field more than once"))
    );
    assert_eq!(
        validate_visual_side(&vec![text("  "), field(TemplateField::Prompt)], "Visual front"),
        Err(invalid_template("Visual front", "contains an empty text block"))
    );
    assert_eq!(
        validate_visual_side(&vec![text(&"t".repeat(1001)), field(TemplateField::Title)], "Visual front"),
        Err(invalid_template("Visual front", "contains a text block that is too long"))
    );
    assert_eq!(
        validate_visual_side(&vec![text("Front")], "Visual front"),
        Err(invalid_template("Visual front", "must contain at least one field"))
    );
    let too_many: Vec<TemplateBlock> = (0..51).map(|_| text("x")).collect();
    assert_eq!(
        validate_visual_side(&too_many, "Visual front"),
        Err(invalid_template("Visual front", "contains too many blocks"))
    );
    assert_eq!(
        validate_visual_side(&vec![text("Question"), field(TemplateField::Prompt)], "Visual front"),
        Ok(())
    );
}

#[test]
fn field_tokens_report_each_problem() {
    let field = "Custom front HTML";
    assert_eq!(validate_field_tokens("<p>{{ title }} {{answer}}</p>", field), Ok(()));
    assert_eq!(
        validate_field_tokens("<p>{{ prompt </p>", field),
        Err(invalid_template(field, "contains malformed field syntax"))
    );
    assert_eq!(
        validate_field_tokens("<p>prompt }}</p>", field),
        Err(invalid_template(field, "contains malformed field syntax"))
    );
    assert_eq!(
        validate_field_tokens("<p title=\"{{prompt}}\">x</p>", field),
        Err(invalid_template(field, "can only place fields in document content"))
    );
    assert_eq!(
        validate_field_tokens("<p>{{ notes }}</p>", field),
        Err(invalid_template(field, "contains an unknown field"))
    );
    assert_eq!(
        validate_field_tokens("<p>plain</p>", field),
        Err(invalid_template(field, "must contain at least one concept field"))
    );
}

#[test]
fn custom_html_and_css_refuse_unsafe_or_oversized_input() {
    let field = "Custom answer HTML";
    assert_eq!(
        sanitize_template_html(&"a".repeat(200_001), field),
        Err(invalid_template(field, "is too large"))
    );
    assert_eq!(
        sanitize_template_html("<p>{{prompt}}\0</p>", field),
        Err(invalid_template(field, "contains an invalid character"))
    );
    assert_eq!(
        sanitize_template_html("  <p>{{prompt}}</p>  ", field).unwrap(),
        "<p>{{prompt}}</p>"
    );

    assert_eq!(validate_template_css("  .a { color: red; }  ").unwrap(), ".a { color: red; }");
    assert_eq!(
        validate_template_css(".a { background: URL(x.png); }"),
        Err(invalid_template("CSS", "cannot load external resources"))
    );
    assert_eq!(
        validate_template_css("@IMPORT 'x.css';"),
        Err(invalid_template("CSS", "cannot load external resources"))
    );
    assert_eq!(
        validate_template_css("</STYLE><script>"),
        Err(invalid_template("CSS", "contains an invalid style tag"))
    );
    assert_eq!(
        validate_template_css("a\0"),
        Err(invalid_template("CSS", "contains an invalid character"))
    );
    assert_eq!(
        validate_template_css(&"a".repeat(100_001)),
        Err(invalid_template("CSS", "is too large"))
    );
}

#[test]
fn unsupported_template_versions_are_refused() {
    let mut content = TemplateContent::default();
    content.schema_version = 2;

    assert_eq!(
        validate_template_content(content),
        Err(invalid_template("Template", "uses an unsupported schema version"))
    );
}

#[test]
fn templates_in_use_cannot_be_deleted() {
    assert_eq!(ensure_template_unused(0), Ok(()));
    assert_eq!(
        ensure_template_unused(3),
        Err(LibraryError::TemplateInUse { retrieval_form_count: 3 })
    );
}

#[test]
fn new_templates_are_valid_visual_templates() {
    let content = TemplateContent::default();
    assert_eq!(content.mode, TemplateMode::Visual);
    assert_eq!(validate_template_content(content.clone()).unwrap().visual, content.visual);
}
