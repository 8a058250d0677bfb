use twill::cards::{
    initial_cards, retrieval_form_changes, retrieval_forms_unchanged, same_texts,
    validate_retrieval_form_selection, CardChange, RetrievalFormSelection,
};
use twill::error::LibraryError;
use twill::models::concepts::NamedItem;
use twill::models::retrieval::{
    CardSummary, ClozeSettings, ExplainFocus, ExplainSettings, ImageOcclusionSettings,
    ProblemSettings, RetrievalFormKind, TypeAnswerSettings,
};
use twill::models::study::SchedulingState;
use twill::retrieval_forms::RetrievalFormConfiguration;

fn strings(values: &[&str]) -> Vec<String> {
    values.iter().map(|value| value.to_string()).collect()
}

fn empty_selection() -> RetrievalFormSelection {
    RetrievalFormSelection {
        include_standard_recall: false,
        template_ids: Vec::new(),
        explain: None,
        problem: None,
        type_answer: None,
        cloze_group_ids: Vec::new(),
        image_occlusion_group_ids: Vec::new(),
    }
}

fn card(id: &str, kind: RetrievalFormKind) -> CardSummary {
    CardSummary {
        id: id.to_owned(),
        retrieval_kind: kind,
        explain: None,
        problem: None,
        cloze: None,
        image_occlusion: None,
        type_answer: None,
        template: None,
        scheduling_state: SchedulingState::Review,
        due_at: 0,
        review_count: 3,
        lapse_count: 0,
    }
}

fn explain(points: &[&str]) -> ExplainSettings {
    ExplainSettings { focus: ExplainFocus::Why, key_points: strings(points) }
}

#[test]
fn a_concept_needs_at_least_one_retrieval_form() {
    let no_templates = Vec::new();
    assert_eq!(
        validate_retrieval_form_selection(false, &no_templates, false, false, false, false, false),
        Err(LibraryError::MissingRetrievalForm)
    );
    assert!(validate_retrieval_form_selection(true, &no_templates, false, false, false, false, false).is_ok());
    assert!(validate_retrieval_form_selection(false, &strings(&["t"]), false, false, false, false, false).is_ok());
    assert!(validate_retrieval_form_selection(false, &no_templates, false, false, false, false, true).is_ok());
}

#[test]
fn new_concepts_start_with_one_card_per_selected_form() {
    let mut selection = empty_selection();
    selection.include_standard_recall = true;
    selection.template_ids = strings(&["template"]);
    selection.explain = Some(explain(&["Point"]));
    selection.type_answer = Some(TypeAnswerSettings { accepted_answers: strings(&["Paris"]) });
    selection.cloze_group_ids = strings(&["g1", "g2"]);
    selection.image_occlusion_group_ids = strings(&["o1"]);

    let changes = initial_cards(selection);

    assert_eq!(
        changes,
        vec![
            CardChange::Create { template_id: None, form: RetrievalFormConfiguration::Recall },
            CardChange::Create {
                template_id: None,
                form: RetrievalFormConfiguration::TypeAnswer(TypeAnswerSettings {
                    accepted_answers: strings(&["Paris"]),
                }),
            },
            CardChange::Create {
                template_id: None,
                form: RetrievalFormConfiguration::Explain(explain(&["Point"])),
            },
            CardChange::Create {
                template_id: None,
                form: RetrievalFormConfiguration::Cloze(ClozeSettings { group_id: "g1".to_owned() }),
            },
            CardChange::Create {
                template_id: None,
                form: RetrievalFormConfiguration::Cloze(ClozeSettings { group_id: "g2".to_owned() }),
            },
            CardChange::Create {
                template_id: None,
                form: RetrievalFormConfiguration::ImageOcclusion(ImageOcclusionSettings {
                    group_id: "o1".to_owned(),
                }),
            },
            CardChange::Create {
                template_id: Some("template".to_owned()),
                form: RetrievalFormConfiguration::Recall,
            },
        ]
    );
}

#[test]
fn changing_retrieval_forms_retains_selected_schedules() {
    let mut recall = card("recall", RetrievalFormKind::Recall);
    recall.template = None;
    let mut templated = card("templated", RetrievalFormKind::Recall);
    templated.template = Some(NamedItem { id: "temporary".to_owned(), name: "Temporary".to_owned() });
    let mut explained = card("explained", RetrievalFormKind::Explain);
    explained.explain = Some(explain(&["Old point"]));
    let mut cloze = card("cloze", RetrievalFormKind::Cloze);
    cloze.cloze = Some(ClozeSettings { group_id: "kept".to_owned() });
    let cards = vec![recall, templated, explained, cloze];

    let mut selection = empty_selection();
    selection.include_standard_recall = true;
    selection.template_ids = strings(&["retained"]);
    selection.explain = Some(explain(&["New point"]));
    selection.problem = Some(ProblemSettings { checkpoints: strings(&["Step"]) });
    selection.cloze_group_ids = strings(&["kept", "added"]);

    let changes = retrieval_form_changes(&cards, selection.clone());

    assert_eq!(
        changes,
        vec![
            CardChange::Delete { card_id: "templated".to_owned() },
            CardChange::Update {
                card_id: "explained".to_owned(),
                form: RetrievalFormConfiguration::Explain(explain(&["New point"])),
            },
            CardChange::Create {
                template_id: None,
                form: RetrievalFormConfiguration::Problem(ProblemSettings {
                    checkpoints: strings(&["Step"]),
                }),
            },
            CardChange::Create {
                template_id: None,
                form: RetrievalFormConfiguration::Cloze(ClozeSettings { group_id: "added".to_owned() }),
            },
            CardChange::Create {
                template_id: Some("retained".to_owned()),
                form: RetrievalFormConfiguration::Recall,
            },
        ]
    );
    assert!(!retrieval_forms_unchanged(&cards, &selection));
}

#[test]
fn unchanged_forms_plan_no_card_changes() {
    let mut recall = card("recall", RetrievalFormKind::Recall);
    recall.template = None;
    let mut answer = card("answer", RetrievalFormKind::TypeAnswer);
    answer.type_answer = Some(TypeAnswerSettings { accepted_answers: strings(&["Paris"]) });
    let mut occlusion = card("occlusion", RetrievalFormKind::ImageOcclusion);
    occlusion.image_occlusion = Some(ImageOcclusionSettings { group_id: "o1".to_owned() });
    let cards = vec![recall, answer, occlusion];

    let mut selection = empty_selection();
    selection.include_standard_recall = true;
    selection.type_answer = Some(TypeAnswerSettings { accepted_answers: strings(&["Paris"]) });
    selection.image_occlusion_group_ids = strings(&["o1"]);

    assert!(retrieval_forms_unchanged(&cards, &selection));
    assert!(retrieval_form_changes(&cards, selection).is_empty());
}

#[test]
fn removing_every_form_deletes_every_card() {
    let cards = vec![card("a", RetrievalFormKind::Problem), card("b", RetrievalFormKind::Recall)];

    assert_eq!(
        retrieval_form_changes(&cards, empty_selection()),
        vec![
            CardChange::Delete { card_id: "a".to_owned() },
            CardChange::Delete { card_id: "b".to_owned() },
        ]
    );
}

#[test]
fn text_lists_compare_in_order() {
    assert!(same_texts(&strings(&["a", "b"]), &strings(&["a", "b"])));
    assert!(!same_texts(&strings(&["a", "b"]), &strings(&["b", "a"])));
    assert!(!same_texts(&strings(&["a"]), &strings(&["a", "a"])));
}

fn with_form(mut card: CardSummary, form: &RetrievalFormConfiguration) -> CardSummary {
    card.explain = None;
    card.problem = None;
    card.type_answer = None;
    card.cloze = None;
    card.image_occlusion = None;
    match form {
        RetrievalFormConfiguration::Recall => {}
        RetrievalFormConfiguration::Explain(settings) => card.explain = Some(settings.clone()),
        RetrievalFormConfiguration::Problem(settings) => card.problem = Some(settings.clone()),
        RetrievalFormConfiguration::TypeAnswer(settings) => card.type_answer = Some(settings.clone()),
        RetrievalFormConfiguration::Cloze(settings) => card.cloze = Some(settings.clone()),
        RetrievalFormConfiguration::ImageOcclusion(settings) => {
            card.image_occlusion = Some(settings.clone())
        }
    }
    card
}

fn apply(mut cards: Vec<CardSummary>, changes: &[CardChange]) -> Vec<CardSummary> {
    for (index, change) in changes.iter().enumerate() {
        match change {
            CardChange::Delete { card_id } => cards.retain(|card| &card.id != card_id),
            CardChange::Update { card_id, form } => {
                for card in cards.iter_mut().filter(|card| &card.id == card_id) {
                    *card = with_form(card.clone(), form);
                }
            }
            CardChange::Create { template_id, form } => {
                let mut created = with_form(card(&format!("new-{index}"), form.kind()), form);
                created.template = template_id
                    .as_ref()
                    .map(|id| NamedItem { id: id.clone(), name: format!("Template {id}") });
                cards.push(created);
            }
        }
    }
    cards
}

#[test]
fn applying_planned_changes_gives_the_selected_forms() {
    let mut explain_card = card("explain", RetrievalFormKind::Explain);
    explain_card.explain = Some(explain(&["Old point"]));
    let mut cloze_card = card("cloze", RetrievalFormKind::Cloze);
    cloze_card.cloze = Some(ClozeSettings { group_id: "g1".to_owned() });
    let mut occlusion_card = card("occlusion", RetrievalFormKind::ImageOcclusion);
    occlusion_card.image_occlusion = Some(ImageOcclusionSettings { group_id: "o1".to_owned() });
    let mut template_card = card("templated", RetrievalFormKind::Recall);
    template_card.template = Some(NamedItem { id: "t1".to_owned(), name: "One".to_owned() });
    let cards = vec![
        card("recall", RetrievalFormKind::Recall),
        explain_card,
        cloze_card,
        occlusion_card,
        template_card,
    ];

    let mut selection = empty_selection();
    selection.explain = Some(explain(&["New point"]));
    selection.problem = Some(ProblemSettings { checkpoints: strings(&["Step"]) });
    selection.cloze_group_ids = strings(&["g1", "g2"]);
    selection.template_ids = strings(&["t1", "t2"]);

    assert!(!retrieval_forms_unchanged(&cards, &selection));
    let changes = retrieval_form_changes(&cards, selection.clone());
    let applied = apply(cards, &changes);
    assert!(retrieval_forms_unchanged(&applied, &selection));
    assert!(retrieval_form_changes(&applied, selection).is_empty());
    let kept: Vec<&str> = applied.iter().map(|card| card.id.as_str()).collect();
    assert!(kept.contains(&"explain"));
    assert!(kept.contains(&"cloze"));
    assert!(kept.contains(&"templated"));
    assert!(!kept.contains(&"recall"));
    assert!(!kept.contains(&"occlusion"));
}
