use gpt_chat_backend::auth::{generate_token, invalidate_token, is_token_valid, TokenCache, TOKEN_TTL_SECS};
use gpt_chat_backend::completion::OpenAI;
use gpt_chat_backend::context::{ContextError, ContextManager};
use gpt_chat_backend::handlers::{chat, login, ChatStep, Prompt};

const INITIAL_CONTEXT: &str = "The following is a conversation with an AI assistant. The assistant is helpful, creative, clever, and very friendly.\n\nHuman: Hello, who are you?\nAI: I am an AI created by OpenAI. How can I help you today?\nHuman: ";

#[test]
fn token_format_matches_five_groups_of_four() {
    for _ in 0..50 {
        let token = generate_token();
        let chars: Vec<char> = token.chars().collect();
        assert_eq!(chars.len(), 24);
        for (i, c) in chars.iter().enumerate() {
            if i % 5 == 4 {
                assert_eq!(*c, '-');
            } else {
                assert!(c.is_ascii_alphanumeric());
            }
        }
    }
}

#[test]
fn login_with_correct_password_yields_token_accepted_by_chat() {
    let mut cache = TokenCache::new(50);
    let mut open_ai = OpenAI::new("key".to_string());
    let reply = login(&mut cache, &mut open_ai, "GPT3MegaMind".to_string());
    assert_eq!(reply.status, 200);
    let token = reply.body;
    assert!(is_token_valid(token.clone(), &cache));
    let step = chat(
        &cache,
        &mut open_ai,
        token,
        Prompt { prompt: "hi".to_string() },
    );
    assert!(matches!(step, ChatStep::CallUpstream(_)));
}

#[test]
fn login_with_wrong_password_yields_400_and_no_token() {
    let mut cache = TokenCache::new(50);
    let mut open_ai = OpenAI::new("key".to_string());
    let reply = login(&mut cache, &mut open_ai, "not-the-password".to_string());
    assert_eq!(reply.status, 400);
    assert_eq!(reply.body, "Wrong password");
    assert!(!is_token_valid("not-the-password".to_string(), &cache));
}

#[test]
fn chat_with_unknown_token_yields_401_regardless_of_payload() {
    let cache = TokenCache::new(50);
    let mut open_ai = OpenAI::new("key".to_string());
    for payload in ["hi", "", "{\"anything\": true}"] {
        let step = chat(
            &cache,
            &mut open_ai,
            "AAAA-BBBB-CCCC-DDDD-EEEE".to_string(),
            Prompt { prompt: payload.to_string() },
        );
        match step {
            ChatStep::Done(reply) => {
                assert_eq!(reply.status, 401);
                assert_eq!(reply.body, "Bad token.");
            }
            ChatStep::CallUpstream(_) => panic!("unknown token must not reach upstream"),
        }
    }
}

#[test]
fn context_accumulation_keeps_seed_then_text_order() {
    let mut manager = ContextManager::new();
    manager.crate_new_context("tok".to_string());
    manager
        .add_to_context("tok".to_string(), "hi".to_string())
        .unwrap();
    let stored = manager.get_context("tok".to_string()).unwrap();
    assert_eq!(stored, format!("{}hi", INITIAL_CONTEXT));
    let seed_at = stored.find(INITIAL_CONTEXT).unwrap();
    let hi_at = stored.find("hi").unwrap();
    assert!(seed_at < hi_at);
    assert!(stored.contains(INITIAL_CONTEXT));
    assert!(stored.ends_with("hi"));
}

#[test]
fn add_to_context_without_context_is_explicit_error() {
    let mut manager = ContextManager::new();
    let r = manager.add_to_context("tok".to_string(), "hi".to_string());
    assert_eq!(r, Err(ContextError::NotFound));
    assert_eq!(manager.get_context("tok".to_string()), None);
}

#[test]
fn delete_context_removes_and_tolerates_absent() {
    let mut manager = ContextManager::new();
    manager.crate_new_context("tok".to_string());
    manager.delete_context("tok".to_string());
    assert_eq!(manager.get_context("tok".to_string()), None);
    manager.delete_context("tok".to_string());
    assert_eq!(manager.get_context("tok".to_string()), None);
}

#[test]
fn completion_extracts_last_line_and_updates_context() {
    let mut open_ai = OpenAI::new("key".to_string());
    open_ai.create_context("tok".to_string());
    let reply = open_ai
        .apply_response(
            "tok".to_string(),
            Some("{\"choices\":[{\"text\":\"Hello\\nAI: there\"}]}"),
        )
        .unwrap();
    assert_eq!(reply, "there");
    let stored = open_ai
        .context_manager
        .get_context("tok".to_string())
        .unwrap();
    assert_eq!(stored, "Hello\nAI: there\nHuman: ");
    assert!(stored.ends_with("there\nHuman: "));
}

#[test]
fn completion_with_null_choices_returns_sentinel_and_keeps_context() {
    let mut open_ai = OpenAI::new("key".to_string());
    open_ai.create_context("tok".to_string());
    open_ai
        .prepare_completion("tok".to_string(), "hi".to_string())
        .unwrap();
    let reply = open_ai
        .apply_response("tok".to_string(), Some("{\"choices\": null}"))
        .unwrap();
    assert_eq!(reply, "The AI returned no response.");
    let stored = open_ai
        .context_manager
        .get_context("tok".to_string())
        .unwrap();
    assert_eq!(stored, format!("{}hi", INITIAL_CONTEXT));
}

#[test]
fn repeated_invalidation_reports_not_found() {
    let mut cache = TokenCache::new(10);
    cache.insert("tok".to_string(), TOKEN_TTL_SECS);
    assert_eq!(invalidate_token("tok".to_string(), &mut cache), Ok(()));
    assert_eq!(invalidate_token("tok".to_string(), &mut cache), Err(()));
    assert_eq!(
        invalidate_token("never-there".to_string(), &mut cache),
        Err(())
    );
}

#[test]
fn invalidated_token_is_rejected_by_chat() {
    let mut cache = TokenCache::new(50);
    let mut open_ai = OpenAI::new("key".to_string());
    let reply = login(&mut cache, &mut open_ai, "GPT3MegaMind".to_string());
    let token = reply.body;
    assert_eq!(invalidate_token(token.clone(), &mut cache), Ok(()));
    assert!(!is_token_valid(token.clone(), &cache));
    let step = chat(
        &cache,
        &mut open_ai,
        token,
        Prompt { prompt: "hi".to_string() },
    );
    match step {
        ChatStep::Done(reply) => assert_eq!(reply.status, 401),
        ChatStep::CallUpstream(_) => panic!("invalidated token must not reach upstream"),
    }
}
