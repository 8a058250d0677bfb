use twill::mixed_practice::{mix_due_cards, shared_tag_count, ConceptTags, PRIORITY_GROUP_SIZE};
use twill::study::media_concept_ids;
use twill::models::concepts::{AnswerFeedback, ConceptContent};
use twill::models::json::JsonValue;
use twill::models::retrieval::RetrievalFormKind;
use twill::models::study::{SchedulingState, StudyCard};

fn card(
    id: &str,
    concept_id: &str,
    retrieval_kind: RetrievalFormKind,
    scheduling_state: SchedulingState,
) -> StudyCard {
    StudyCard {
        id: id.to_owned(),
        concept_id: concept_id.to_owned(),
        concept_last_change_id: format!("change-{concept_id}"),
        concept_title: concept_id.to_owned(),
        content: ConceptContent {
            schema_version: 1,
            prompt: JsonValue::Null,
            answer: JsonValue::Null,
            feedback: AnswerFeedback {
                explanation: JsonValue::Null,
                common_mistakes: JsonValue::Null,
            },
        },
        retrieval_kind,
        explain: None,
        problem: None,
        cloze: None,
        image_occlusion: None,
        type_answer: None,
        template: None,
        scheduling_state,
        due_at: 0,
        pretest_eligible: false,
    }
}

fn tags(concept_id: &str, tag_ids: &[&str]) -> ConceptTags {
    ConceptTags {
        concept_id: concept_id.to_owned(),
        tag_ids: tag_ids.iter().map(|tag| tag.to_string()).collect(),
    }
}

fn ids(cards: Vec<StudyCard>) -> Vec<String> {
    cards.into_iter().map(|card| card.id).collect()
}

#[test]
fn mixed_groups_separate_concepts_and_prefer_authored_contrast() {
    let cards = vec![
        card("a-recall", "a", RetrievalFormKind::Recall, SchedulingState::New),
        card("a-explain", "a", RetrievalFormKind::Explain, SchedulingState::New),
        card("unrelated", "b", RetrievalFormKind::Recall, SchedulingState::New),
        card("contrast", "c", RetrievalFormKind::Problem, SchedulingState::Review),
    ];
    let concept_tags = vec![tags("a", &["shared"]), tags("c", &["shared"])];

    let ids = ids(mix_due_cards(cards, &concept_tags));

    assert_eq!(ids, vec!["a-recall", "contrast", "a-explain", "unrelated"]);
}

#[test]
fn mixed_groups_keep_stable_due_priority_when_no_signal_applies() {
    let cards = vec![
        card("first", "a", RetrievalFormKind::Recall, SchedulingState::Review),
        card("second", "b", RetrievalFormKind::Recall, SchedulingState::Review),
        card("third", "c", RetrievalFormKind::Recall, SchedulingState::Review),
    ];

    let ids = ids(mix_due_cards(cards, &Vec::new()));

    assert_eq!(ids, vec!["first", "second", "third"]);
}

#[test]
fn mixing_does_not_move_cards_between_due_priority_groups() {
    let mut cards = (0..PRIORITY_GROUP_SIZE)
        .map(|index| {
            card(
                &format!("priority-{index}"),
                &format!("priority-{index}"),
                RetrievalFormKind::Recall,
                SchedulingState::Review,
            )
        })
        .collect::<Vec<_>>();
    cards.push(card(
        "later-contrast",
        "later",
        RetrievalFormKind::Problem,
        SchedulingState::New,
    ));
    let concept_tags = vec![tags("priority-0", &["shared"]), tags("later", &["shared"])];

    let ids = ids(mix_due_cards(cards, &concept_tags));

    assert_eq!(ids.last().map(String::as_str), Some("later-contrast"));
}

#[test]
fn mixing_keeps_every_card_and_the_first_one_in_place() {
    let cards = vec![
        card("x1", "x", RetrievalFormKind::Recall, SchedulingState::New),
        card("x2", "x", RetrievalFormKind::Recall, SchedulingState::New),
        card("x3", "x", RetrievalFormKind::Cloze, SchedulingState::Learning),
        card("y1", "y", RetrievalFormKind::Recall, SchedulingState::New),
    ];

    let mixed = ids(mix_due_cards(cards, &Vec::new()));

    assert_eq!(mixed[0], "x1");
    assert_eq!(mixed, vec!["x1", "y1", "x3", "x2"]);
    let mut sorted = mixed.clone();
    sorted.sort();
    assert_eq!(sorted, vec!["x1", "x2", "x3", "y1"]);
}

#[test]
fn mixing_an_empty_queue_gives_an_empty_queue() {
    assert!(mix_due_cards(Vec::new(), &Vec::new()).is_empty());
}

#[test]
fn shared_tag_counts_do_not_depend_on_order() {
    let concept_tags = vec![
        tags("a", &["t1", "t2", "t3"]),
        tags("b", &["t3", "t1", "t4"]),
        tags("c", &[]),
    ];
    let a = "a".to_owned();
    let b = "b".to_owned();
    let c = "c".to_owned();
    let missing = "d".to_owned();

    assert_eq!(shared_tag_count(&concept_tags, &a, &b), 2);
    assert_eq!(shared_tag_count(&concept_tags, &b, &a), 2);
    assert_eq!(shared_tag_count(&concept_tags, &a, &c), 0);
    assert_eq!(shared_tag_count(&concept_tags, &c, &a), 0);
    assert_eq!(shared_tag_count(&concept_tags, &a, &missing), 0);
    assert_eq!(shared_tag_count(&concept_tags, &missing, &a), 0);
}

#[test]
fn media_is_loaded_for_problem_and_occlusion_cards() {
    let cards = vec![
        card("1", "zeta", RetrievalFormKind::Problem, SchedulingState::New),
        card("2", "alpha", RetrievalFormKind::Recall, SchedulingState::New),
        card("3", "beta", RetrievalFormKind::ImageOcclusion, SchedulingState::Review),
        card("4", "zeta", RetrievalFormKind::ImageOcclusion, SchedulingState::Learning),
        card("5", "gamma", RetrievalFormKind::Cloze, SchedulingState::New),
    ];

    assert_eq!(media_concept_ids(&cards), vec!["beta".to_owned(), "zeta".to_owned()]);
    assert!(media_concept_ids(&Vec::new()).is_empty());
}
