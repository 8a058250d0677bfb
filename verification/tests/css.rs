use twill::css::{
    at_rule_allows_no_block, check_component_values, check_rule_count, check_snippet_content,
    css_escape_end,
    has_balanced_css_delimiters, is_executable_property, is_restricted_at_rule,
    matches_ignore_ascii_case, normalize_snippet_name, CssComponent, CssValueProblem,
};
use twill::error::LibraryError;
use twill::models::css_snippets::CssSnippetContent;

fn content(source: &str) -> CssSnippetContent {
    CssSnippetContent { schema_version: 1, source: source.to_owned() }
}

fn invalid_css(message: &str) -> LibraryError {
    LibraryError::InvalidCss { message: message.to_owned() }
}

#[test]
fn snippet_sources_are_checked_before_parsing() {
    let accepted = check_snippet_content(content(
        "  @layer twill-personal {\n  [data-twill-study-card] { border-width: 2px; }\n}\n\n@keyframes settle { from { opacity: 0; } to { opacity: 1; } }  ",
    ))
    .unwrap();
    assert_eq!(accepted.schema_version, 1);
    assert!(accepted.source.starts_with("@layer"));
    assert!(accepted.source.ends_with('}'));

    let mut unsupported = content("[data-twill-app] { color: inherit; }");
    unsupported.schema_version = 2;
    assert_eq!(
        check_snippet_content(unsupported),
        Err(invalid_css("uses an unsupported schema version"))
    );
    assert_eq!(check_snippet_content(content("")), Err(invalid_css("cannot be empty")));
    assert_eq!(check_snippet_content(content(" \n\t ")), Err(invalid_css("cannot be empty")));
    assert_eq!(
        check_snippet_content(content(&"a".repeat(100_001))),
        Err(invalid_css("cannot be larger than 100 KB"))
    );
    assert_eq!(
        check_snippet_content(content(".card { color: red; }\0")),
        Err(invalid_css("contains an invalid character"))
    );
    for unbalanced in [
        ".card { color: red;",
        ".card { content: 'unterminated; }",
        ".card { color: red; } /* unterminated",
        ".card { color: red; ]",
        ".card { content: 'line\nbreak'; }",
    ] {
        assert_eq!(
            check_snippet_content(content(unbalanced)),
            Err(invalid_css("contains unclosed or unmatched syntax")),
            "{unbalanced}"
        );
    }
}

#[test]
fn balanced_delimiters_skip_strings_comments_and_escapes() {
    assert!(has_balanced_css_delimiters(".a { content: '}'; } /* { */"));
    assert!(has_balanced_css_delimiters(".a\\{ { color: red; }"));
    assert!(has_balanced_css_delimiters("[data-x=\"a)b\"] { margin: calc((1px + 2px)); }"));
    assert!(!has_balanced_css_delimiters(".a { (] }"));
    assert!(!has_balanced_css_delimiters(")"));
    assert!(has_balanced_css_delimiters(""));
}

#[test]
fn escapes_end_after_hex_digits_and_one_space() {
    assert_eq!(css_escape_end(b"\\6d port", 0), 4);
    assert_eq!(css_escape_end(b"\\000041x", 0), 7);
    assert_eq!(css_escape_end(b"\\0000411", 0), 7);
    assert_eq!(css_escape_end(b"\\6d\r\nx", 0), 5);
    assert_eq!(css_escape_end(b"\\{", 0), 2);
    assert_eq!(css_escape_end(b"\\", 0), 1);
}

#[test]
fn names_are_compared_without_ascii_case() {
    assert!(matches_ignore_ascii_case("Font-Face", &["import", "font-face"]));
    assert!(!matches_ignore_ascii_case("font-fac", &["import", "font-face"]));
    assert!(!matches_ignore_ascii_case("anything", &[]));
}

#[test]
fn snippet_names_are_trimmed_and_bounded() {
    assert_eq!(normalize_snippet_name("  Focused study  ".to_owned()).unwrap(), "Focused study");
    assert_eq!(
        normalize_snippet_name(String::new()),
        Err(LibraryError::EmptyValue { field: "CSS snippet name" })
    );
    assert_eq!(
        normalize_snippet_name("n".repeat(81)),
        Err(LibraryError::ValueTooLong { field: "CSS snippet name", maximum: 80 })
    );
}

fn function(name: &str, arguments: Vec<CssComponent>) -> CssComponent {
    CssComponent::Function { name: name.to_owned(), arguments }
}

fn block(contents: Vec<CssComponent>) -> CssComponent {
    CssComponent::Block { contents }
}

#[test]
fn component_values_that_load_resources_are_refused() {
    assert_eq!(
        check_component_values(&vec![CssComponent::Other, CssComponent::UnquotedUrl], 0),
        Err(CssValueProblem::LoadsResources)
    );
    for name in ["url", "SRC", "image", "Image-Set", "-webkit-image-set"] {
        assert_eq!(
            check_component_values(&vec![function(name, vec![CssComponent::Other])], 0),
            Err(CssValueProblem::LoadsResources),
            "{name}"
        );
    }
    assert_eq!(
        check_component_values(&vec![block(vec![function("calc", vec![CssComponent::UnquotedUrl])])], 0),
        Err(CssValueProblem::LoadsResources)
    );
}

#[test]
fn legacy_expressions_and_invalid_tokens_are_refused() {
    assert_eq!(
        check_component_values(&vec![function("EXPRESSION", vec![])], 0),
        Err(CssValueProblem::ExecutableLegacyFunction)
    );
    for component in [CssComponent::BadUrl, CssComponent::BadString, CssComponent::CloseBracket] {
        assert_eq!(
            check_component_values(&vec![CssComponent::Other, component], 0),
            Err(CssValueProblem::InvalidSyntax)
        );
    }
    assert_eq!(
        check_component_values(&vec![CssComponent::BadString, CssComponent::UnquotedUrl], 0),
        Err(CssValueProblem::InvalidSyntax)
    );
}

#[test]
fn ordinary_component_values_are_accepted() {
    assert_eq!(check_component_values(&vec![], 0), Ok(false));
    assert_eq!(check_component_values(&vec![CssComponent::Other], 0), Ok(true));
    assert_eq!(
        check_component_values(
            &vec![
                function("calc", vec![CssComponent::Other, block(vec![CssComponent::Other])]),
                function("var", vec![]),
                block(vec![]),
            ],
            0
        ),
        Ok(true)
    );
    assert_eq!(check_component_values(&vec![function("urls", vec![])], 0), Ok(true));
}

#[test]
fn component_values_nest_at_most_thirty_two_deep() {
    assert_eq!(check_component_values(&vec![], 32), Err(CssValueProblem::NestedTooDeeply));
    assert_eq!(check_component_values(&vec![block(vec![])], 31), Err(CssValueProblem::NestedTooDeeply));
    assert_eq!(check_component_values(&vec![block(vec![])], 30), Ok(true));

    let mut nested = vec![CssComponent::Other];
    for _ in 0..31 {
        nested = vec![block(nested)];
    }
    assert_eq!(check_component_values(&nested, 0), Ok(true));
    assert_eq!(check_component_values(&vec![block(nested)], 0), Err(CssValueProblem::NestedTooDeeply));
}

#[test]
fn problem_messages_name_the_refusal() {
    assert_eq!(CssValueProblem::NestedTooDeeply.message(), "is nested too deeply");
    assert_eq!(CssValueProblem::LoadsResources.message(), "cannot load external resources");
    assert_eq!(
        CssValueProblem::ExecutableLegacyFunction.message(),
        "contains an executable legacy function"
    );
    assert_eq!(CssValueProblem::InvalidSyntax.message(), "contains invalid syntax");
}

#[test]
fn restricted_rules_and_properties_are_recognized_without_case() {
    for name in ["import", "Font-Face", "CHARSET", "namespace"] {
        assert!(is_restricted_at_rule(name), "{name}");
    }
    assert!(!is_restricted_at_rule("media"));
    assert!(!is_restricted_at_rule("imports"));
    for name in ["behavior", "-MS-behavior", "-moz-Binding"] {
        assert!(is_executable_property(name), "{name}");
    }
    assert!(!is_executable_property("color"));
    assert!(at_rule_allows_no_block("LAYER"));
    assert!(!at_rule_allows_no_block("media"));
}

#[test]
fn escapes_past_the_end_end_just_after_their_position() {
    assert_eq!(css_escape_end(b"ab", 1), 2);
    assert_eq!(css_escape_end(b"ab", 5), 6);
}

#[test]
fn a_stylesheet_needs_at_least_one_rule() {
    assert_eq!(check_rule_count(0), Err(invalid_css("must contain at least one rule")));
    assert_eq!(check_rule_count(1), Ok(()));
}
