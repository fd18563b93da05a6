use typofix::models::{filter_model_entries, keep_model, model_display_name, parse_models_response, ModelEntry};
use typofix::response::FixError;

fn listing_body() -> String {
    let mut body = String::from("{\"models\":[");
    body.push_str(
        "{\"name\":\"models/gemini-2.5-flash\",\"supportedGenerationMethods\":[\"generateContent\",\"countTokens\"]},",
    );
    body.push_str(
        "{\"name\":\"models/gemini-embedding-001\",\"supportedGenerationMethods\":[\"embedContent\"]},",
    );
    body.push_str(
        "{\"name\":\"models/other-model\",\"supportedGenerationMethods\":[\"generateContent\"]},",
    );
    body.push_str(
        "{\"name\":\"models/gemini-pro\",\"supportedGenerationMethods\":[\"generateContent\"]}",
    );
    body.push_str("]}");
    body
}

#[test]
fn listing_keeps_generating_gemini_models_only() {
    let names = parse_models_response(&listing_body()).unwrap();
    assert_eq!(names, vec!["gemini-2.5-flash".to_string(), "gemini-pro".to_string()]);
}

#[test]
fn listing_error_field_is_surfaced() {
    match parse_models_response("{\"error\":\"quota exceeded\"}") {
        Err(FixError::VendorError(m)) => assert!(m.starts_with("API Error: ")),
        other => panic!("expected a vendor error, got {:?}", other),
    }
}

#[test]
fn unparseable_listing_is_malformed() {
    assert_eq!(
        parse_models_response("***"),
        Err(FixError::MalformedResponse)
    );
}

#[test]
fn missing_models_array_reads_as_empty_catalogue() {
    assert_eq!(parse_models_response("{}"), Ok(vec![]));
    assert_eq!(parse_models_response("{\"models\":7}"), Ok(vec![]));
}

#[test]
fn entries_without_capability_or_marker_are_excluded() {
    let generate = vec!["generateContent".to_string()];
    let embed = vec!["embedContent".to_string()];
    assert!(keep_model("models/gemini-x", &generate));
    assert!(!keep_model("models/gemini-x", &embed));
    assert!(!keep_model("models/gemini-x", &vec![]));
    assert!(!keep_model("models/plain-x", &generate));
}

#[test]
fn display_name_drops_catalogue_prefix() {
    assert_eq!(model_display_name("models/gemini-pro"), "gemini-pro");
    assert_eq!(model_display_name("gemini-pro"), "gemini-pro");
}

#[test]
fn filter_keeps_catalogue_order() {
    let entries = vec![
        ModelEntry {
            name: "models/gemini-b".to_string(),
            methods: vec!["generateContent".to_string()],
        },
        ModelEntry {
            name: "models/skipped".to_string(),
            methods: vec!["generateContent".to_string()],
        },
        ModelEntry {
            name: "models/gemini-a".to_string(),
            methods: vec!["generateContent".to_string()],
        },
    ];
    assert_eq!(
        filter_model_entries(&entries),
        vec!["gemini-b".to_string(), "gemini-a".to_string()]
    );
}

#[test]
fn malformed_entries_read_as_empty_fields() {
    let body = "{\"models\":[{\"name\":7,\"supportedGenerationMethods\":[\"generateContent\",5]},{\"supportedGenerationMethods\":[\"generateContent\"]}]}";
    assert_eq!(parse_models_response(body), Ok(vec![]));
}
