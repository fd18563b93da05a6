use typofix::client::{
    build_prompt, build_request_body, clipboard_text_or_empty, generate_content_url,
    models_list_url,
};
use typofix::greet;
use typofix::keysim::{
    copy_key_actions, paste_key_actions, KeyAction, KeyMotion, SimKey, ALT_RELEASE_SETTLE_MS,
    CLIPBOARD_SETTLE_MS,
};
use typofix::overlay::{min_display_ms, outro_wait_ms, overlay_position, remaining_display_wait};
use typofix::response::{
    classify_response, clipboard_write, extract_fixed_field, normalize_escapes,
    process_vendor_response, resolve_output, vendor_error_message, FixError, VendorReply,
};
use typofix::settings::{resolve_settings, should_show_main_window};

fn candidate_body(candidate_text: &str) -> String {
    format!(
        "{{\"candidates\":[{{\"content\":{{\"parts\":[{{\"text\":{}}}]}}}}]}}",
        serde_json::to_string(candidate_text).unwrap()
    )
}

#[test]
fn greet_formats_greeting() {
    assert_eq!(greet("Bob"), "Hello, Bob! You've been greeted from Rust!");
}

#[test]
fn prompt_wraps_clipboard_text() {
    let p = build_prompt("Fix typos:", "helo wrld");
    assert_eq!(
        p,
        "Fix typos: \n\n INSTRUCTIONS:\n1. Fix typos and grammar.\n2. STRICTLY PRESERVE all original newlines, paragraph breaks, and indentation.\n3. Do NOT merge lines.\n\nINPUT TEXT:\n```\nhelo wrld\n```"
    );
}

#[test]
fn request_body_embeds_quoted_prompt() {
    let body = build_request_body("hi");
    assert_eq!(
        body,
        "{\"contents\":[{\"parts\":[{\"text\":\"hi\"}]}],\"generationConfig\":{\"responseMimeType\":\"application/json\",\"responseSchema\":{\"type\":\"object\",\"properties\":{\"fixed_text\":{\"type\":\"string\"}}}}}"
    );
}

#[test]
fn request_body_escapes_prompt() {
    let prompt = "a\"b\nc\\d";
    let body = build_request_body(prompt);
    let parsed: serde_json::Value = serde_json::from_str(&body).unwrap();
    assert_eq!(
        parsed["contents"][0]["parts"][0]["text"].as_str().unwrap(),
        prompt
    );
    assert_eq!(
        parsed["generationConfig"]["responseMimeType"].as_str().unwrap(),
        "application/json"
    );
}

#[test]
fn urls_carry_model_and_key() {
    assert_eq!(
        generate_content_url("gemini-2.5-flash", "k123"),
        "https://generativelanguage.googleapis.com/v1beta/models/gemini-2.5-flash:generateContent?key=k123"
    );
    assert_eq!(
        models_list_url("k123"),
        "https://generativelanguage.googleapis.com/v1beta/models?key=k123"
    );
}

#[test]
fn clipboard_read_failure_reads_as_empty() {
    assert_eq!(clipboard_text_or_empty(None), "");
    assert_eq!(clipboard_text_or_empty(Some("txt".to_string())), "txt");
}

#[test]
fn normalize_turns_escaped_newlines_into_line_breaks() {
    assert_eq!(normalize_escapes("line1\\nline2"), "line1\nline2");
    assert_eq!(normalize_escapes("a\\r\\nb"), "a\nb");
    assert_eq!(normalize_escapes("a\\rb"), "ab");
}

#[test]
fn normalize_runs_its_two_passes_in_order() {
    // The newline pass runs first, the carriage-return pass second: removing
    // an escaped carriage return can bare a backslash before an `n`.
    assert_eq!(normalize_escapes("\\\\rn"), "\\n");
    // Only whole two-character sequences are touched.
    assert_eq!(normalize_escapes("\\"), "\\");
    assert_eq!(normalize_escapes("n\\"), "n\\");
}

#[test]
fn normalize_handles_text_beyond_ascii() {
    assert_eq!(normalize_escapes("héllo\\nwörld"), "héllo\nwörld");
    assert_eq!(normalize_escapes("日本\\r語"), "日本語");
}

#[test]
fn normalize_leaves_plain_text_alone() {
    assert_eq!(normalize_escapes("hello\nworld"), "hello\nworld");
    assert_eq!(normalize_escapes(""), "");
    assert_eq!(normalize_escapes("no escapes here"), "no escapes here");
}

#[test]
fn pipeline_normalizes_escaped_newlines_in_structured_answer() {
    let inner = "{\"fixed_text\":\"line1\\\\nline2\"}";
    let body = candidate_body(inner);
    let plan = process_vendor_response(&body, false, true);
    assert_eq!(plan.outcome, Ok("line1\nline2".to_string()));
    assert!(plan.notify);
    assert!(plan.paste_keys.is_empty());
}

#[test]
fn pipeline_falls_back_to_raw_candidate_text() {
    let body = candidate_body("just plain text, not JSON");
    let plan = process_vendor_response(&body, false, false);
    assert_eq!(plan.outcome, Ok("just plain text, not JSON".to_string()));
    assert!(!plan.notify);
}

#[test]
fn fallback_still_normalizes_escapes() {
    let body = candidate_body("raw\\ntext");
    let plan = process_vendor_response(&body, false, false);
    assert_eq!(plan.outcome, Ok("raw\ntext".to_string()));
}

#[test]
fn structured_answer_without_fixed_text_falls_back() {
    let body = candidate_body("{\"other_field\":\"x\"}");
    let plan = process_vendor_response(&body, false, false);
    assert_eq!(plan.outcome, Ok("{\"other_field\":\"x\"}".to_string()));
}

#[test]
fn extract_fixed_field_reads_structured_answers_only() {
    assert_eq!(
        extract_fixed_field("{\"fixed_text\":\"ok\"}"),
        Some("ok".to_string())
    );
    assert_eq!(extract_fixed_field("not json"), None);
    assert_eq!(extract_fixed_field("{\"fixed_text\":7}"), None);
    assert_eq!(extract_fixed_field("{\"a\":1}"), None);
}

#[test]
fn vendor_error_aborts_and_writes_nothing() {
    let body = "{\"error\":{\"code\":400,\"message\":\"bad key\"}}";
    let plan = process_vendor_response(body, true, true);
    match &plan.outcome {
        Err(FixError::VendorError(m)) => assert!(m.starts_with("API Error: ")),
        other => panic!("expected a vendor error, got {:?}", other),
    }
    assert_eq!(clipboard_write(&plan.outcome), None);
    assert!(plan.paste_keys.is_empty());
    assert!(!plan.notify);
}

#[test]
fn unparseable_body_is_a_malformed_response() {
    let plan = process_vendor_response("definitely not json", false, true);
    assert_eq!(plan.outcome, Err(FixError::MalformedResponse));
    assert_eq!(
        plan.outcome.unwrap_err().message(),
        "malformed API response"
    );
}

#[test]
fn error_kinds_carry_their_messages() {
    assert_eq!(FixError::StoreError("s".to_string()).message(), "s");
    assert_eq!(FixError::ClipboardError("c".to_string()).message(), "c");
    assert_eq!(FixError::InputError("i".to_string()).message(), "i");
    assert_eq!(FixError::NetworkError("n".to_string()).message(), "n");
    assert_eq!(FixError::VendorError("v".to_string()).message(), "v");
    assert_eq!(FixError::MalformedResponse.message(), "malformed API response");
}

#[test]
fn classify_recognizes_each_reply_shape() {
    assert_eq!(classify_response("nope"), VendorReply::Unparseable);
    match classify_response("{\"error\":\"quota\"}") {
        VendorReply::Error(m) => assert!(m.starts_with("API Error: ")),
        other => panic!("expected an error reply, got {:?}", other),
    }
    assert_eq!(
        classify_response(&candidate_body("abc")),
        VendorReply::Candidate("abc".to_string())
    );
}

#[test]
fn missing_candidates_read_as_empty_text() {
    let plan = process_vendor_response("{\"candidates\":[]}", false, false);
    assert_eq!(plan.outcome, Ok(String::new()));
    let plan2 = process_vendor_response("{}", false, false);
    assert_eq!(plan2.outcome, Ok(String::new()));
}

#[test]
fn resolve_output_prefers_inner_fixed_text() {
    assert_eq!(resolve_output("raw", Some("fixed".to_string())), "fixed");
    assert_eq!(resolve_output("raw", None), "raw");
}

#[test]
fn vendor_error_message_prefixes_detail() {
    assert_eq!(vendor_error_message("boom"), "API Error: boom");
}

#[test]
fn no_turbo_means_no_key_events() {
    assert!(copy_key_actions(false).is_empty());
    assert!(paste_key_actions(false).is_empty());
    let body = candidate_body("x");
    let plan = process_vendor_response(&body, false, true);
    assert!(plan.paste_keys.is_empty());
}

#[test]
fn turbo_copy_and_paste_plans() {
    let copy = copy_key_actions(true);
    assert_eq!(
        copy,
        vec![
            KeyAction { key: SimKey::Alt, motion: KeyMotion::Release },
            KeyAction { key: SimKey::Control, motion: KeyMotion::Press },
            KeyAction { key: SimKey::Unicode('c'), motion: KeyMotion::Click },
            KeyAction { key: SimKey::Control, motion: KeyMotion::Release },
        ]
    );
    let paste = paste_key_actions(true);
    assert_eq!(
        paste,
        vec![
            KeyAction { key: SimKey::Control, motion: KeyMotion::Press },
            KeyAction { key: SimKey::Unicode('v'), motion: KeyMotion::Click },
            KeyAction { key: SimKey::Control, motion: KeyMotion::Release },
        ]
    );
    assert_eq!(ALT_RELEASE_SETTLE_MS, 50);
    assert_eq!(CLIPBOARD_SETTLE_MS, 200);
}

#[test]
fn turbo_pastes_only_on_success() {
    let ok_plan = process_vendor_response(&candidate_body("x"), true, false);
    assert_eq!(ok_plan.paste_keys.len(), 3);
    let err_plan = process_vendor_response("{\"error\":1}", true, false);
    assert!(err_plan.paste_keys.is_empty());
}

#[test]
fn overlay_minimum_display_is_honored() {
    assert_eq!(min_display_ms(), 150 * (5 + 2 * 2));
    assert_eq!(remaining_display_wait(0), 1350);
    assert_eq!(remaining_display_wait(200), 1150);
    assert_eq!(remaining_display_wait(1350), 0);
    assert_eq!(remaining_display_wait(90_000), 0);
    for elapsed in [0u64, 1, 137, 1349, 1350, 2000] {
        assert!(elapsed + remaining_display_wait(elapsed) >= 1350);
    }
    assert_eq!(outro_wait_ms(), 150 * 4 + 100);
}

#[test]
fn overlay_sits_above_the_bottom_right_corner() {
    assert_eq!(overlay_position(1920, 1080), (1800, 930));
    assert_eq!(overlay_position(100, 100), (-20, -50));
}

#[test]
fn settings_defaults_apply_per_field() {
    let s = resolve_settings(None, None, None, None, None, None);
    assert_eq!(s.api_key, "");
    assert_eq!(s.preprompt, "Fix typos:");
    assert_eq!(s.model, "gemini-2.5-flash");
    assert!(!s.turbo_mode);
    assert!(s.show_duck);
    assert!(s.show_notification);

    let s2 = resolve_settings(
        Some("key".to_string()),
        Some("Rewrite:".to_string()),
        Some("gemini-pro".to_string()),
        Some(true),
        Some(false),
        Some(false),
    );
    assert_eq!(s2.api_key, "key");
    assert_eq!(s2.preprompt, "Rewrite:");
    assert_eq!(s2.model, "gemini-pro");
    assert!(s2.turbo_mode);
    assert!(!s2.show_duck);
    assert!(!s2.show_notification);
}

#[test]
fn main_window_shows_until_a_key_is_stored() {
    assert!(should_show_main_window(&None));
    assert!(should_show_main_window(&Some(String::new())));
    assert!(!should_show_main_window(&Some("k".to_string())));
}
