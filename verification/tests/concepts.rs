use twill::concepts::{
    normalize_template_ids, normalize_value, prepare_retrieval_forms, same_content, same_text_sets,
};
use twill::error::LibraryError;
use twill::models::concepts::{ConceptContent, NamedItem};
use twill::models::json::JsonValue;
use twill::models::retrieval::{ExplainFocus, ExplainSettings, ProblemSettings, TypeAnswerSettings};
use twill::organizations::{ensure_unique_name, item_ids, normalize_ids, OrganizationKind};

fn strings(values: &[&str]) -> Vec<String> {
    values.iter().map(|value| value.to_string()).collect()
}

#[test]
fn titles_are_trimmed_and_bounded() {
    assert_eq!(normalize_value("  Cell  ".to_owned(), "Title", 200).unwrap(), "Cell");
    assert_eq!(
        normalize_value(" \t ".to_owned(), "Title", 200),
        Err(LibraryError::EmptyValue { field: "Title" })
    );
    assert_eq!(
        normalize_value("é".repeat(201), "Title", 200),
        Err(LibraryError::ValueTooLong { field: "Title", maximum: 200 })
    );
    assert!(normalize_value("é".repeat(200), "Title", 200).is_ok());
}

#[test]
fn selected_identifiers_become_a_sorted_set() {
    assert_eq!(
        normalize_ids(strings(&[" b ", "a", "b"]), "deck").unwrap(),
        strings(&["a", "b"])
    );
    assert_eq!(
        normalize_ids(strings(&["a", "  "]), "tag"),
        Err(LibraryError::InvalidSelection { kind: "tag", id: String::new() })
    );
    assert_eq!(normalize_template_ids(Vec::new()).unwrap(), Vec::<String>::new());
    assert_eq!(
        normalize_template_ids(strings(&[""])),
        Err(LibraryError::InvalidSelection { kind: "template", id: String::new() })
    );
}

#[test]
fn organization_names_are_unique_without_case() {
    let items = vec![
        NamedItem { id: "1".to_owned(), name: "Biology".to_owned() },
        NamedItem { id: "2".to_owned(), name: "Chemistry".to_owned() },
    ];
    assert_eq!(
        ensure_unique_name("deck", &items, "BIOLOGY", None),
        Err(LibraryError::DuplicateName { kind: "deck", name: "BIOLOGY".to_owned() })
    );
    assert_eq!(ensure_unique_name("deck", &items, "BIOLOGY", Some("1")), Ok(()));
    assert_eq!(ensure_unique_name("deck", &items, "Physics", None), Ok(()));
    assert_eq!(item_ids(&items), strings(&["1", "2"]));
}

#[test]
fn organization_kinds_name_their_storage() {
    assert_eq!(OrganizationKind::Deck.display_name(), "Deck name");
    assert_eq!(OrganizationKind::Tag.display_name(), "Tag name");
    assert_eq!(OrganizationKind::Deck.noun(), "deck");
    assert_eq!(OrganizationKind::Tag.table(), "tags");
    assert_eq!(OrganizationKind::Deck.membership_table(), "concept_decks");
    assert_eq!(OrganizationKind::Tag.membership_column(), "tag_id");
    assert_eq!(OrganizationKind::Deck.entity_kind().as_str(), "deck");
}

#[test]
fn retrieval_forms_are_checked_in_order() {
    let blank_template = prepare_retrieval_forms(
        true,
        strings(&[" "]),
        Some(ExplainSettings { focus: ExplainFocus::Why, key_points: Vec::new() }),
        None,
        None,
        Vec::new(),
        Vec::new(),
        true,
    );
    assert!(matches!(blank_template, Err(LibraryError::InvalidSelection { kind: "template", .. })));

    let empty_explain = prepare_retrieval_forms(
        true,
        Vec::new(),
        Some(ExplainSettings { focus: ExplainFocus::Why, key_points: Vec::new() }),
        Some(ProblemSettings { checkpoints: Vec::new() }),
        None,
        Vec::new(),
        Vec::new(),
        true,
    );
    assert_eq!(empty_explain.unwrap_err(), LibraryError::MissingExplainKeyPoint);

    let problem_without_prompt = prepare_retrieval_forms(
        false,
        Vec::new(),
        None,
        Some(ProblemSettings { checkpoints: strings(&["Step"]) }),
        None,
        Vec::new(),
        Vec::new(),
        false,
    );
    assert_eq!(problem_without_prompt.unwrap_err(), LibraryError::MissingProblemPrompt);

    let nothing = prepare_retrieval_forms(
        false,
        Vec::new(),
        None,
        None,
        None,
        Vec::new(),
        Vec::new(),
        true,
    );
    assert_eq!(nothing.unwrap_err(), LibraryError::MissingRetrievalForm);

    let selection = prepare_retrieval_forms(
        false,
        strings(&["t2", " t1 "]),
        None,
        None,
        Some(TypeAnswerSettings { accepted_answers: strings(&["  Paris  "]) }),
        strings(&["g"]),
        Vec::new(),
        false,
    )
    .unwrap();
    assert_eq!(selection.template_ids, strings(&["t1", "t2"]));
    assert_eq!(selection.type_answer.unwrap().accepted_answers, strings(&["Paris"]));
    assert_eq!(selection.cloze_group_ids, strings(&["g"]));
}

#[test]
fn contents_and_sets_compare_by_value() {
    let a = ConceptContent::default();
    let mut b = ConceptContent::default();
    assert!(same_content(&a, &b));
    b.answer = JsonValue::Null;
    assert!(!same_content(&a, &b));

    assert!(same_text_sets(&strings(&["a", "b", "a"]), &strings(&["b", "a"])));
    assert!(!same_text_sets(&strings(&["a"]), &strings(&["a", "c"])));
}

#[test]
fn reading_a_selection_again_gives_the_same_list() {
    let first = normalize_ids(strings(&["  z ", "a", "m", "a "]), "deck").unwrap();
    let second = normalize_ids(first.clone(), "deck").unwrap();

    assert_eq!(first, strings(&["a", "m", "z"]));
    assert_eq!(second, first);
}
