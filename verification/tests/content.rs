use twill::content::{rich_document_has_content, validate_content, ValidatedContent};
use twill::error::LibraryError;
use twill::models::concepts::{AnswerFeedback, ConceptContent};
use twill::models::json::{JsonNumber, JsonValue};

const EMPTY_DOCUMENT: &str = r#"{"type":"doc","content":[{"type":"paragraph"}]}"#;

fn number(value: &serde_json::Number) -> JsonNumber {
    if let Some(n) = value.as_u64() {
        return JsonNumber::PosInt(n);
    }
    if let Some(n) = value.as_i64() {
        return JsonNumber::NegInt(n);
    }
    let float = value.as_f64().unwrap();
    let bits = float.to_bits();
    let negative = bits >> 63 == 1;
    let biased = ((bits >> 52) & 0x7ff) as i32;
    let fraction = bits & 0xf_ffff_ffff_ffff;
    let (mantissa, exponent) = if biased == 0 {
        (fraction, -1074)
    } else {
        (fraction | (1 << 52), biased - 1075)
    };
    JsonNumber::Float { negative, mantissa, exponent }
}

fn convert(value: &serde_json::Value) -> JsonValue {
    match value {
        serde_json::Value::Null => JsonValue::Null,
        serde_json::Value::Bool(b) => JsonValue::Bool(*b),
        serde_json::Value::Number(n) => JsonValue::Number(number(n)),
        serde_json::Value::String(s) => JsonValue::String(s.clone()),
        serde_json::Value::Array(items) => JsonValue::Array(items.iter().map(convert).collect()),
        serde_json::Value::Object(members) => JsonValue::Object(
            members.iter().map(|(key, value)| (key.clone(), convert(value))).collect(),
        ),
    }
}

fn inside_image(region: &serde_json::Value) -> bool {
    let value = |key: &str| region.get(key).and_then(serde_json::Value::as_f64);
    match (value("x"), value("y"), value("width"), value("height")) {
        (Some(x), Some(y), Some(width), Some(height)) => {
            !(x < 0.0
                || y < 0.0
                || width <= 0.0
                || height <= 0.0
                || x + width > 1.0 + 1e-9
                || y + height > 1.0 + 1e-9)
        }
        _ => true,
    }
}

fn collect_geometry(node: &serde_json::Value, verdicts: &mut Vec<bool>) {
    if node.get("type").and_then(serde_json::Value::as_str) == Some("mediaImage") {
        if let Some(regions) = node
            .get("attrs")
            .and_then(|attributes| attributes.get("occlusionRegions"))
            .and_then(serde_json::Value::as_array)
        {
            verdicts.extend(regions.iter().map(inside_image));
        }
    }
    if let Some(children) = node.get("content").and_then(serde_json::Value::as_array) {
        for child in children {
            collect_geometry(child, verdicts);
        }
    }
}

fn parse(text: &str) -> serde_json::Value {
    serde_json::from_str(text).unwrap()
}

fn validate(prompt: &str, answer: &str) -> Result<ValidatedContent, LibraryError> {
    let prompt = parse(prompt);
    let answer = parse(answer);
    let empty = parse(EMPTY_DOCUMENT);
    let mut encoded = serde_json::Map::new();
    encoded.insert("schemaVersion".to_owned(), serde_json::Value::from(1));
    encoded.insert("prompt".to_owned(), prompt.clone());
    encoded.insert("answer".to_owned(), answer.clone());
    let mut feedback = serde_json::Map::new();
    feedback.insert("explanation".to_owned(), empty.clone());
    feedback.insert("commonMistakes".to_owned(), empty);
    encoded.insert("feedback".to_owned(), serde_json::Value::Object(feedback));
    let encoded_length = serde_json::to_string(&serde_json::Value::Object(encoded))
        .unwrap()
        .len();
    let mut geometry = Vec::new();
    collect_geometry(&prompt, &mut geometry);
    collect_geometry(&answer, &mut geometry);
    let content = ConceptContent {
        schema_version: 1,
        prompt: convert(&prompt),
        answer: convert(&answer),
        feedback: AnswerFeedback::default(),
    };
    validate_content(
        &content,
        encoded_length,
        serde_json::to_vec(&prompt).unwrap().len(),
        serde_json::to_vec(&answer).unwrap().len(),
        &geometry,
    )
}

#[test]
fn meaningful_content_distinguishes_empty_structure_from_problem_material() {
    let empty = ConceptContent::default().prompt;
    let whitespace = parse(
        r#"{"type":"doc","content":[{"type":"paragraph","content":[{"type":"text","text":" \n "}]}]}"#,
    );
    let equation = parse(
        r#"{"type":"doc","content":[{"type":"paragraph","content":[{"type":"inlineMath","attrs":{"latex":"F = ma"}}]}]}"#,
    );
    let image = parse(
        r#"{"type":"doc","content":[{"type":"mediaImage","attrs":{"mediaId":"018f1e2d-3c4b-7a69-8f10-123456789abc"}}]}"#,
    );

    assert!(!rich_document_has_content(&empty));
    assert!(!rich_document_has_content(&convert(&whitespace)));
    assert!(rich_document_has_content(&convert(&equation)));
    assert!(rich_document_has_content(&convert(&image)));
}

#[test]
fn allowlisted_documents_collect_media_references() {
    let media_id = "018f1e2d-3c4b-7a69-8f10-123456789abc";
    let cloze_group_id = "018f1e2d-3c4b-7a69-8f10-123456789abd";
    let occlusion_group_id = "018f1e2d-3c4b-7a69-8f10-123456789abe";
    let occlusion_region_id = "018f1e2d-3c4b-7a69-8f10-123456789abf";
    let prompt = format!(
        r#"{{"type":"doc","content":[
            {{"type":"heading","attrs":{{"level":2}},"content":[{{
                "type":"text","text":"Cell membrane","marks":[
                    {{"type":"link","attrs":{{"href":"https://example.com/cells","target":"_blank",
                      "rel":"noopener noreferrer nofollow","class":null,"title":null}}}},
                    {{"type":"cloze","attrs":{{"groupId":"{cloze_group_id}"}}}}]}}]}},
            {{"type":"mediaImage","attrs":{{"mediaId":"{media_id}","alt":"Cell membrane diagram",
              "title":null,"occlusionRegions":[{{"id":"{occlusion_region_id}",
              "groupId":"{occlusion_group_id}","x":0.1,"y":0.2,"width":0.3,"height":0.25}}]}}}}]}}"#
    );
    let answer = r#"{"type":"doc","content":[{"type":"paragraph","content":[
        {"type":"inlineMath","attrs":{"latex":"E = mc^2"}}]}]}"#;

    let validated = validate(&prompt, answer).unwrap();

    assert_eq!(validated.cloze_group_ids, vec![cloze_group_id]);
    assert_eq!(validated.image_occlusion_group_ids, vec![occlusion_group_id]);
    assert_eq!(validated.media_ids, vec![media_id.to_owned()]);
    assert!(validated.prompt_has_content);
    assert_eq!(validated.checked_regions.len(), 1);
}

fn marked_text(text: &str, id: &str) -> String {
    format!(
        r#"{{"type":"text","text":"{text}","marks":[{{"type":"cloze","attrs":{{"groupId":"{id}"}}}}]}}"#
    )
}

fn paragraph_document(node: &str) -> String {
    format!(r#"{{"type":"doc","content":[{{"type":"paragraph","content":[{node}]}}]}}"#)
}

#[test]
fn cloze_marks_require_valid_prompt_groups() {
    let group_id = "018f1e2d-3c4b-7a69-8f10-123456789abc";
    let answer_mark = (
        EMPTY_DOCUMENT.to_owned(),
        paragraph_document(&marked_text("Answer", group_id)),
    );
    let invalid_group = (
        paragraph_document(&marked_text("Prompt", "not-a-uuid")),
        EMPTY_DOCUMENT.to_owned(),
    );
    let empty_omission = (
        paragraph_document(&marked_text("   ", group_id)),
        EMPTY_DOCUMENT.to_owned(),
    );

    for (prompt, answer) in [answer_mark, invalid_group, empty_omission] {
        assert!(matches!(
            validate(&prompt, &answer),
            Err(LibraryError::InvalidContent { .. })
        ));
    }
}

#[test]
fn image_occlusion_regions_require_valid_prompt_geometry() {
    let first_media = "018f1e2d-3c4b-7a69-8f10-123456789ab1";
    let second_media = "018f1e2d-3c4b-7a69-8f10-123456789ab2";
    let first_region = "018f1e2d-3c4b-7a69-8f10-123456789ab3";
    let second_region = "018f1e2d-3c4b-7a69-8f10-123456789ab4";
    let group_id = "018f1e2d-3c4b-7a69-8f10-123456789ab5";
    let document = |nodes: Vec<String>| format!(r#"{{"type":"doc","content":[{}]}}"#, nodes.join(","));
    let image = |media_id: &str, regions: Vec<String>| {
        format!(
            r#"{{"type":"mediaImage","attrs":{{"mediaId":"{media_id}","alt":null,"title":null,"occlusionRegions":[{}]}}}}"#,
            regions.join(",")
        )
    };
    let region = |id: &str, group: &str, x: f64, width: f64| {
        format!(
            r#"{{"id":"{id}","groupId":"{group}","x":{x:?},"y":0.2,"width":{width:?},"height":0.25}}"#
        )
    };
    let empty = EMPTY_DOCUMENT.to_owned();
    let invalid_contents = [
        (
            empty.clone(),
            document(vec![image(first_media, vec![region(first_region, group_id, 0.1, 0.3)])]),
        ),
        (
            document(vec![image(first_media, vec![region(first_region, "not-a-uuid", 0.1, 0.3)])]),
            empty.clone(),
        ),
        (
            document(vec![image(first_media, vec![region(first_region, group_id, 0.1, 0.0)])]),
            empty.clone(),
        ),
        (
            document(vec![image(first_media, vec![region(first_region, group_id, 0.8, 0.3)])]),
            empty.clone(),
        ),
        (
            document(vec![image(
                first_media,
                vec![
                    region(first_region, group_id, 0.1, 0.3),
                    region(first_region, group_id, 0.5, 0.3),
                ],
            )]),
            empty.clone(),
        ),
        (
            document(vec![
                image(first_media, vec![region(first_region, group_id, 0.1, 0.3)]),
                image(second_media, vec![region(second_region, group_id, 0.2, 0.3)]),
            ]),
            empty.clone(),
        ),
    ];

    for (prompt, answer) in invalid_contents {
        assert!(matches!(
            validate(&prompt, &answer),
            Err(LibraryError::InvalidContent { .. })
        ));
    }

    let valid = document(vec![image(
        first_media,
        vec![
            region(first_region, group_id, 0.1, 0.3),
            region(second_region, group_id, 0.5, 0.3),
        ],
    )]);
    let validated = validate(&valid, &empty).unwrap();
    assert_eq!(validated.image_occlusion_group_ids, vec![group_id]);
    assert_eq!(validated.checked_regions.len(), 2);
}

#[test]
fn executable_or_unrecognized_content_is_rejected() {
    let prompt = r#"{"type":"doc","content":[{"type":"paragraph","content":[{"type":"text",
        "text":"Unsafe","marks":[{"type":"link","attrs":{"href":"javascript:alert(1)",
        "target":null,"rel":null,"class":null,"title":null}}]}]}]}"#;

    assert!(matches!(
        validate(prompt, EMPTY_DOCUMENT),
        Err(LibraryError::InvalidContent { .. })
    ));
}

#[test]
fn content_errors_name_the_part_and_the_reason() {
    let outside = r#"{"type":"doc","content":[{"type":"mediaImage","attrs":{
        "mediaId":"018f1e2d-3c4b-7a69-8f10-123456789ab1","occlusionRegions":[{
        "id":"018f1e2d-3c4b-7a69-8f10-123456789ab3","groupId":"018f1e2d-3c4b-7a69-8f10-123456789ab5",
        "x":0.8,"y":0.2,"width":0.3,"height":0.25}]}}]}"#;
    assert_eq!(
        validate(outside, EMPTY_DOCUMENT).unwrap_err(),
        LibraryError::InvalidContent {
            field: "Prompt",
            message: "contains an image occlusion region outside its image".to_owned(),
        }
    );

    let unknown = r#"{"type":"doc","content":[{"type":"script"}]}"#;
    assert!(matches!(
        validate(EMPTY_DOCUMENT, unknown),
        Err(LibraryError::InvalidContent { field: "Answer", .. })
    ));

    let mut content = ConceptContent::default();
    content.schema_version = 2;
    assert_eq!(
        validate_content(&content, 10, 10, 10, &Vec::new()).unwrap_err(),
        LibraryError::InvalidContent {
            field: "Content",
            message: "uses an unsupported schema version".to_owned(),
        }
    );
    assert_eq!(
        validate_content(&ConceptContent::default(), 2_000_001, 10, 10, &Vec::new()).unwrap_err(),
        LibraryError::InvalidContent { field: "Content", message: "is too large".to_owned() }
    );
}

#[test]
fn new_content_is_empty_and_valid() {
    let validated = validate_content(&ConceptContent::default(), 120, 45, 45, &Vec::new()).unwrap();
    assert!(validated.cloze_group_ids.is_empty());
    assert!(validated.media_ids.is_empty());
    assert!(!validated.prompt_has_content);
}
