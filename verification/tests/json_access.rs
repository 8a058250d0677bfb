use twill::json_access::{
    as_i64, ensure_keys, find_member, invalid_value, optional_attributes, optional_integer,
    required_attributes, required_integer, required_number, required_string,
    validate_optional_short_string,
};
use twill::models::json::{JsonNumber, JsonValue};

fn members() -> Vec<(String, JsonValue)> {
    vec![
        ("type".to_owned(), JsonValue::String("heading".to_owned())),
        ("level".to_owned(), JsonValue::Number(JsonNumber::PosInt(2))),
        ("offset".to_owned(), JsonValue::Number(JsonNumber::NegInt(-3))),
        (
            "ratio".to_owned(),
            JsonValue::Number(JsonNumber::Float { negative: false, mantissa: 1, exponent: -1 }),
        ),
        ("title".to_owned(), JsonValue::Null),
        ("attrs".to_owned(), JsonValue::Object(Vec::new())),
        ("type".to_owned(), JsonValue::String("duplicate".to_owned())),
    ]
}

#[test]
fn members_are_found_by_their_first_key() {
    let members = members();
    assert_eq!(find_member(&members, "type"), Some(0));
    assert_eq!(find_member(&members, "attrs"), Some(5));
    assert_eq!(find_member(&members, "missing"), None);
    assert_eq!(required_string(&members, "type").unwrap(), "heading");
    assert_eq!(
        required_string(&members, "level").unwrap_err(),
        "contains an invalid level value"
    );
    assert_eq!(invalid_value("href"), "contains an invalid href value");
}

#[test]
fn integers_and_numbers_are_read_by_kind() {
    let members = members();
    assert_eq!(required_integer(&members, "level"), Ok(2));
    assert_eq!(required_integer(&members, "offset"), Ok(-3));
    assert_eq!(
        required_integer(&members, "ratio"),
        Err("contains an invalid ratio value".to_owned())
    );
    assert_eq!(optional_integer(&members, "title"), Ok(None));
    assert_eq!(optional_integer(&members, "missing"), Ok(None));
    assert_eq!(optional_integer(&members, "level"), Ok(Some(2)));
    assert!(optional_integer(&members, "type").is_err());
    assert_eq!(
        required_number(&members, "ratio"),
        Ok(JsonNumber::Float { negative: false, mantissa: 1, exponent: -1 })
    );
    assert!(required_number(&members, "title").is_err());
    assert_eq!(as_i64(JsonNumber::PosInt(u64::MAX)), None);
    assert_eq!(as_i64(JsonNumber::PosInt(7)), Some(7));
}

#[test]
fn attributes_and_short_strings_follow_their_rules() {
    let members = members();
    assert!(required_attributes(&members).unwrap().is_empty());
    assert!(optional_attributes(&members).unwrap().is_some());
    let no_attributes = vec![("type".to_owned(), JsonValue::String("text".to_owned()))];
    assert_eq!(
        required_attributes(&no_attributes).unwrap_err(),
        "contains invalid node attributes"
    );
    assert!(optional_attributes(&no_attributes).unwrap().is_none());
    let bad_attributes = vec![("attrs".to_owned(), JsonValue::Bool(true))];
    assert!(optional_attributes(&bad_attributes).is_err());

    assert_eq!(validate_optional_short_string(&members, "title", 3), Ok(()));
    assert_eq!(validate_optional_short_string(&members, "missing", 3), Ok(()));
    assert_eq!(validate_optional_short_string(&members, "type", 7), Ok(()));
    assert_eq!(
        validate_optional_short_string(&members, "type", 6),
        Err("contains an invalid type value".to_owned())
    );
    assert!(validate_optional_short_string(&members, "level", 6).is_err());
}

#[test]
fn only_allowed_keys_may_occur() {
    let members = members();
    assert_eq!(
        ensure_keys(&members, &vec!["type", "level", "offset", "ratio", "title", "attrs"]),
        Ok(())
    );
    assert_eq!(
        ensure_keys(&members, &vec!["type", "level", "title", "attrs"]),
        Err("contains an unsupported offset property".to_owned())
    );
}
