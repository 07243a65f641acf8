use gpt_chat_backend::completion::{build_request_body, completion_endpoint, OpenAI, UpstreamError};
use gpt_chat_backend::context::initial_context_string;
use gpt_chat_backend::handlers::{chat_finish, index};
use gpt_chat_backend::text::{extract_reply, json_escape, last_line_of, strip_ai_label};

#[test]
fn index_returns_greeting() {
    let reply = index();
    assert_eq!(reply.status, 200);
    assert_eq!(reply.body, "Hello World!");
}

#[test]
fn initial_context_has_expected_text() {
    let s = initial_context_string();
    assert!(s.starts_with("The following is a conversation with an AI assistant."));
    assert!(s.ends_with("How can I help you today?\nHuman: "));
}

#[test]
fn endpoint_is_engine_scoped_completions_url() {
    assert_eq!(
        completion_endpoint(),
        "https://api.openai.com/v1/engines/davinci/completions"
    );
}

#[test]
fn request_body_has_fixed_parameters_and_prompt() {
    let body = build_request_body("say hi");
    assert_eq!(
        body,
        "{\"prompt\":\"say hi\",\"max_tokens\":150,\"top_p\":1.0,\"temperature\":0.8,\"n\":1,\"stream\":false,\"echo\":true,\"stop\":\"\\n\",\"frequency_penalty\":0.3}"
    );
}

#[test]
fn request_body_escapes_prompt_as_the_upstream_parser_expects() {
    let prompt = "a \"quoted\" back\\slash\nnewline\ttab\u{1}ctl";
    let body = build_request_body(prompt);
    // The body must be valid JSON whose prompt field round-trips exactly.
    let parsed: serde_json::Value = serde_json::from_str(&body).unwrap();
    assert_eq!(parsed["prompt"].as_str().unwrap(), prompt);
    assert_eq!(parsed["max_tokens"].as_i64().unwrap(), 150);
    assert_eq!(parsed["n"].as_i64().unwrap(), 1);
    assert_eq!(parsed["stream"].as_bool().unwrap(), false);
    assert_eq!(parsed["echo"].as_bool().unwrap(), true);
    assert_eq!(parsed["stop"].as_str().unwrap(), "\n");
}

#[test]
fn json_escape_writes_exact_escapes() {
    assert_eq!(json_escape("plain"), "plain");
    assert_eq!(json_escape("a\"b"), "a\\\"b");
    assert_eq!(json_escape("a\\b"), "a\\\\b");
    assert_eq!(json_escape("a\nb\tc\rd"), "a\\nb\\tc\\rd");
    assert_eq!(json_escape("\u{8}\u{c}"), "\\b\\f");
    assert_eq!(json_escape("\u{1}\u{1f}"), "\\u0001\\u001f");
}

#[test]
fn last_line_takes_text_after_final_newline() {
    assert_eq!(last_line_of("one\ntwo\nthree"), "three");
    assert_eq!(last_line_of("no newline"), "no newline");
    assert_eq!(last_line_of("trailing\n"), "");
    assert_eq!(last_line_of(""), "");
}

#[test]
fn strip_ai_label_removes_every_occurrence() {
    assert_eq!(strip_ai_label("AI: hello"), "hello");
    assert_eq!(strip_ai_label("no label"), "no label");
    assert_eq!(strip_ai_label("AI: a AI: b"), "a b");
    assert_eq!(strip_ai_label("AI:no-space"), "AI:no-space");
}

#[test]
fn extract_reply_combines_last_line_and_label_strip() {
    assert_eq!(extract_reply("Hello\nAI: there"), "there");
    assert_eq!(extract_reply("single"), "single");
    assert_eq!(extract_reply("a\nb\nAI: c"), "c");
}

#[test]
fn transport_failure_degrades_to_sentinel() {
    let mut open_ai = OpenAI::new("key".to_string());
    open_ai.create_context("tok".to_string());
    let reply = open_ai.apply_response("tok".to_string(), None).unwrap();
    assert_eq!(reply, "Request building error!");
    assert_eq!(
        open_ai.context_manager.get_context("tok".to_string()).unwrap(),
        initial_context_string()
    );
}

#[test]
fn missing_or_odd_choices_degrade_to_sentinel() {
    let mut open_ai = OpenAI::new("key".to_string());
    open_ai.create_context("tok".to_string());
    for body in ["{}", "{\"choices\": \"words\"}", "{\"choices\": 7}"] {
        let reply = open_ai.apply_response("tok".to_string(), Some(body)).unwrap();
        assert_eq!(reply, "The AI returned no response.");
    }
    assert_eq!(
        open_ai.context_manager.get_context("tok".to_string()).unwrap(),
        initial_context_string()
    );
}

#[test]
fn unparseable_or_malformed_response_is_explicit_error() {
    let mut open_ai = OpenAI::new("key".to_string());
    open_ai.create_context("tok".to_string());
    for body in [
        "not json at all",
        "[1,2]",
        "5",
        "\"just a string\"",
        "{\"choices\": []}",
        "{\"choices\": [5]}",
        "{\"choices\": [{\"text\": 5}]}",
        "{\"choices\": [{\"no_text\": \"x\"}]}",
    ] {
        let r = open_ai.apply_response("tok".to_string(), Some(body));
        assert_eq!(r, Err(UpstreamError::MalformedResponse));
    }
    assert_eq!(
        open_ai.context_manager.get_context("tok".to_string()).unwrap(),
        initial_context_string()
    );
}

#[test]
fn chat_finish_maps_outcomes_to_statuses() {
    let mut open_ai = OpenAI::new("key".to_string());
    open_ai.create_context("tok".to_string());
    let ok = chat_finish(
        &mut open_ai,
        "tok".to_string(),
        Some("{\"choices\":[{\"text\":\"AI: fine\"}]}"),
    );
    assert_eq!(ok.status, 200);
    assert_eq!(ok.body, "fine");
    let transport = chat_finish(&mut open_ai, "tok".to_string(), None);
    assert_eq!(transport.status, 200);
    assert_eq!(transport.body, "Request building error!");
    let bad = chat_finish(&mut open_ai, "tok".to_string(), Some("no json"));
    assert_eq!(bad.status, 500);
}
