use twill::models::concepts::{ConceptContent, ConceptDetail};
use twill::models::json::{JsonNumber, JsonValue};
use twill::models::retrieval::{
    CardSummary, ExplainFocus, ExplainSettings, ProblemSettings, RetrievalFormKind,
    TypeAnswerSettings,
};
use twill::models::study::SchedulingState;
use twill::search_index::{append_document_text, concept_search_text};

fn convert(value: &serde_json::Value) -> JsonValue {
    match value {
        serde_json::Value::Null => JsonValue::Null,
        serde_json::Value::Bool(b) => JsonValue::Bool(*b),
        serde_json::Value::Number(n) => JsonValue::Number(JsonNumber::PosInt(n.as_u64().unwrap_or(0))),
        serde_json::Value::String(s) => JsonValue::String(s.clone()),
        serde_json::Value::Array(items) => JsonValue::Array(items.iter().map(convert).collect()),
        serde_json::Value::Object(members) => JsonValue::Object(
            members.iter().map(|(key, value)| (key.clone(), convert(value))).collect(),
        ),
    }
}

fn document(text: &str) -> JsonValue {
    convert(&serde_json::from_str(text).unwrap())
}

#[test]
fn rich_text_projection_keeps_inline_words_and_excludes_metadata() {
    let mut text = String::new();
    append_document_text(
        &document(
            r#"{ "type": "doc", "content": [
                { "type": "paragraph", "content": [{ "type": "text", "text": "alpha" }] },
                { "type": "codeBlock", "content": [{ "type": "text", "text": "beta()" }] },
                { "type": "inlineMath", "attrs": { "latex": "gamma = 3" } },
                { "type": "mediaImage", "attrs": { "mediaId": "secret-id", "alt": "delta diagram", "title": "epsilon" } }
            ] }"#,
        ),
        &mut text,
    );
    assert_eq!(
        text.split_whitespace().collect::<Vec<_>>(),
        vec!["alpha", "beta()", "gamma", "=", "3", "delta", "diagram", "epsilon"]
    );
}

#[test]
fn document_text_keeps_line_structure() {
    let mut text = String::from(">");
    append_document_text(
        &document(
            r#"{ "type": "doc", "content": [
                { "type": "paragraph", "content": [
                    { "type": "text", "text": "E" },
                    { "type": "inlineMath", "attrs": { "latex": "=mc^2" } }
                ] },
                { "type": "blockMath", "attrs": { "latex": "x" } },
                { "type": "mediaImage", "attrs": { "title": null } }
            ] }"#,
        ),
        &mut text,
    );
    assert_eq!(text, ">E =mc^2 \n x \n\n\n\n\n");
}

fn card(kind: RetrievalFormKind) -> CardSummary {
    CardSummary {
        id: "card".to_owned(),
        retrieval_kind: kind,
        explain: None,
        problem: None,
        cloze: None,
        image_occlusion: None,
        type_answer: None,
        template: None,
        scheduling_state: SchedulingState::New,
        due_at: 0,
        review_count: 0,
        lapse_count: 0,
    }
}

#[test]
fn concepts_are_found_by_their_documents_and_card_settings() {
    let mut typed = card(RetrievalFormKind::TypeAnswer);
    typed.type_answer = Some(TypeAnswerSettings { accepted_answers: vec!["Paris".to_owned()] });
    let mut explained = card(RetrievalFormKind::Explain);
    explained.explain = Some(ExplainSettings {
        focus: ExplainFocus::Why,
        key_points: vec!["Tilt".to_owned(), "Light".to_owned()],
    });
    let mut solved = card(RetrievalFormKind::Problem);
    solved.problem = Some(ProblemSettings { checkpoints: vec!["Units".to_owned()] });
    let mut content = ConceptContent::default();
    content.prompt = document(
        r#"{ "type": "doc", "content": [{ "type": "paragraph", "content": [{ "type": "text", "text": "Capital" }] }] }"#,
    );
    let concept = ConceptDetail {
        id: "concept".to_owned(),
        title: "Geography".to_owned(),
        created_at: 0,
        updated_at: 0,
        last_change_id: "change".to_owned(),
        archived: false,
        decks: Vec::new(),
        tags: Vec::new(),
        cards: vec![card(RetrievalFormKind::Recall), typed, explained, solved],
        content,
        media: Vec::new(),
    };

    assert_eq!(
        concept_search_text(&concept),
        "Capital\n\n\n\n\n\n\n\n\n\n\n\nParis\nTilt\nLight\nUnits\n"
    );
}
