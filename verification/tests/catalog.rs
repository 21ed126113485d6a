use openrouter_stt::catalog::{models_from_response, order_by_keys, parse_models};
use openrouter_stt::json::{JsonMember, JsonValue};

fn to_json(value: serde_json::Value) -> JsonValue {
    match value {
        serde_json::Value::Null => JsonValue::Null,
        serde_json::Value::Bool(b) => JsonValue::Bool(b),
        serde_json::Value::Number(n) => JsonValue::Number(n.to_string()),
        serde_json::Value::String(s) => JsonValue::Str(s),
        serde_json::Value::Array(items) => JsonValue::Array(items.into_iter().map(to_json).collect()),
        serde_json::Value::Object(map) => JsonValue::Object(
            map.into_iter()
                .map(|(key, value)| JsonMember { key, value: to_json(value) })
                .collect(),
        ),
    }
}

fn parse(text: &str) -> JsonValue {
    to_json(serde_json::from_str(text).unwrap())
}

fn stt_entry(id: &str) -> String {
    format!(
        r#"{{"id":"{id}","architecture":{{"input_modalities":["audio"],"output_modalities":["transcription"]}}}}"#
    )
}

fn catalog(entries: &[String]) -> JsonValue {
    parse(&format!(r#"{{"data":[{}]}}"#, entries.join(",")))
}

#[test]
fn openrouter_stt_catalog_keeps_only_transcription_models() {
    let parsed = catalog(&[
        stt_entry("openai/whisper-large-v3"),
        // Chat model that accepts audio but answers with text: not STT.
        r#"{"id":"some/audio-chat","architecture":{"input_modalities":["audio","text"],"output_modalities":["text"]}}"#.to_string(),
        // Transcription-capable list endpoint without audio input.
        r#"{"id":"some/text-to-text","architecture":{"input_modalities":["text"],"output_modalities":["transcription"]}}"#.to_string(),
        // No architecture block at all.
        r#"{"id":"some/unknown"}"#.to_string(),
        r#"{"id":"   "}"#.to_string(),
        r#"{"name":"missing id"}"#.to_string(),
        stt_entry("nvidia/parakeet-tdt-0.6b-v3"),
    ]);

    let ids = parse_models(&parsed).unwrap();
    assert_eq!(
        ids,
        vec![
            "nvidia/parakeet-tdt-0.6b-v3".to_string(),
            "openai/whisper-large-v3".to_string()
        ]
    );
}

#[test]
fn openrouter_stt_catalog_deduplicates_and_requires_data_array() {
    let duplicated = catalog(&[
        stt_entry("b/second"),
        stt_entry("a/first"),
        stt_entry("b/second"),
    ]);
    assert_eq!(
        parse_models(&duplicated).unwrap(),
        vec!["a/first".to_string(), "b/second".to_string()]
    );

    assert!(parse_models(&parse(r#"{ "error": "nope" }"#)).is_err());
    assert!(parse_models(&parse(&format!("[{}]", stt_entry("a/first")))).is_err());
}

#[test]
fn catalog_without_data_array_names_the_problem() {
    let error = parse_models(&parse(r#"{"data": {"id": "x"}}"#)).unwrap_err();
    assert_eq!(error, "OpenRouter model list response has no data array");
}

#[test]
fn empty_catalog_is_a_valid_answer() {
    assert_eq!(parse_models(&parse(r#"{"data": []}"#)).unwrap(), Vec::<String>::new());
}

#[test]
fn catalog_ids_are_trimmed_and_blank_ids_dropped() {
    let parsed = catalog(&[stt_entry("  acme/model\\t"), stt_entry("\u{00a0} \u{3000}")]);
    assert_eq!(parse_models(&parsed).unwrap(), vec!["acme/model".to_string()]);
}

#[test]
fn catalog_ids_sort_case_insensitively_with_exact_tie_break() {
    let parsed = catalog(&[
        stt_entry("b/Model"),
        stt_entry("B/model"),
        stt_entry("a/zeta"),
        stt_entry("A/Alpha"),
        stt_entry("b/model"),
    ]);
    assert_eq!(
        parse_models(&parsed).unwrap(),
        vec![
            "A/Alpha".to_string(),
            "a/zeta".to_string(),
            "B/model".to_string(),
            "b/Model".to_string(),
            "b/model".to_string(),
        ]
    );
}

#[test]
fn catalog_listing_is_independent_of_catalog_order() {
    let one = catalog(&[stt_entry("x/one"), stt_entry("y/two"), stt_entry("X/three")]);
    let two = catalog(&[stt_entry("X/three"), stt_entry("x/one"), stt_entry("y/two"), stt_entry("x/one")]);
    assert_eq!(parse_models(&one).unwrap(), parse_models(&two).unwrap());
}

#[test]
fn modality_lists_must_hold_strings() {
    let parsed = parse(
        r#"{"data":[{"id":"n/numbers","architecture":{"input_modalities":[1, "audio"],"output_modalities":"transcription"}}]}"#,
    );
    assert_eq!(parse_models(&parsed).unwrap(), Vec::<String>::new());
}

#[test]
fn model_list_parses_public_catalog_body() {
    let body = r#"{"data":[
        {"id":"openai/whisper-large-v3","architecture":{"input_modalities":["audio"],"output_modalities":["transcription"]}},
        {"id":"acme/chat","architecture":{"input_modalities":["audio","text"],"output_modalities":["text"]}}
    ]}"#;
    let parsed = parse(body);
    assert_eq!(
        models_from_response(Some(&parsed)).unwrap(),
        vec!["openai/whisper-large-v3".to_string()]
    );
}

#[test]
fn unparsable_model_list_is_reported_as_malformed() {
    assert_eq!(
        models_from_response(None).unwrap_err(),
        "OpenRouter returned a malformed model list"
    );
}

#[test]
fn ids_are_listed_by_key_then_by_id() {
    let entry = |id: &str, key: &str| (id.to_string(), key.to_string());
    let listed = order_by_keys(vec![
        entry("b/Model", "b/model"),
        entry("A/Alpha", "a/alpha"),
        entry("B/model", "b/model"),
        entry("A/Alpha", "a/alpha"),
        entry("z/last", "0"),
    ]);
    assert_eq!(
        listed,
        vec![
            entry("z/last", "0"),
            entry("A/Alpha", "a/alpha"),
            entry("B/model", "b/model"),
            entry("b/Model", "b/model"),
        ]
    );
}
