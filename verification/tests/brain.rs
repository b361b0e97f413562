use anima_flow::brain::client::{
    AnthropicClient, ApiResponse, CompletionCall, ContentBlock, CueExtraction,
    InboxClassification, Usage,
};
use anima_flow::brain::prompt::{
    BRIEFING, CHAT_SYSTEM, CUE_EXTRACTION, DAILY_REVIEW, INBOX_CLASSIFY, TASK_BREAKDOWN,
};
use anima_flow::config::Config;
use anima_flow::error::Error;

fn only_user_message(c: &CompletionCall) -> &str {
    assert_eq!(c.messages.len(), 1);
    assert_eq!(c.messages[0].role, "user");
    c.messages[0].content.as_str()
}

fn config() -> Config {
    Config {
        database_url: "db".into(),
        anthropic_api_key: "sk-test".into(),
        anthropic_model: "some-model".into(),
        embedding_dimensions: 1536,
        google_calendar_api_key: None,
        google_calendar_id: None,
        google_credentials_json: None,
        slack_bot_token: None,
        linear_api_key: None,
        todoist_api_key: None,
        chatwork_api_token: None,
        chatwork_room_id: None,
    }
}

#[test]
fn client_takes_key_and_model() {
    let c = AnthropicClient::new(&config());
    assert_eq!(c.api_key, "sk-test");
    assert_eq!(c.model, "some-model");
    let r = c.api_request(AnthropicClient::chat_call("hi", "ctx"));
    assert_eq!(r.model, "some-model");
    assert_eq!(r.max_tokens, 4096);
    assert_eq!(r.messages.len(), 1);
}

#[test]
fn reply_text_joins_text_blocks() {
    let response = ApiResponse {
        content: vec![
            ContentBlock { block_type: "text".into(), text: Some("Hello, ".into()) },
            ContentBlock { block_type: "tool_use".into(), text: None },
            ContentBlock { block_type: "text".into(), text: Some("world".into()) },
        ],
        usage: Usage { input_tokens: 10, output_tokens: 3 },
    };
    assert_eq!(AnthropicClient::extract_text(&response), "Hello, world");
    let empty = ApiResponse { content: vec![], usage: Usage { input_tokens: 0, output_tokens: 0 } };
    assert_eq!(AnthropicClient::extract_text(&empty), "");
}

#[test]
fn completion_calls() {
    let c = AnthropicClient::extract_cues_call("Call Bob tomorrow");
    assert_eq!(c.system, CUE_EXTRACTION);
    assert_eq!(c.max_tokens, 512);
    assert_eq!(only_user_message(&c), "Call Bob tomorrow");

    let c = AnthropicClient::classify_inbox_call("[]", "ctx");
    assert_eq!(c.system, INBOX_CLASSIFY);
    assert_eq!(c.max_tokens, 2048);
    assert_eq!(only_user_message(&c), "## Context\nctx\n\n## Inbox items\n[]");

    let c = AnthropicClient::breakdown_task_call("Move house", "none");
    assert_eq!(c.system, TASK_BREAKDOWN);
    assert_eq!(only_user_message(&c), "## Task\nMove house\n\n## Context\nnone");

    let c = AnthropicClient::synthesize_briefing_call("inbox", "ctx");
    assert_eq!(c.system, BRIEFING);
    assert_eq!(only_user_message(&c), "## Inbox\ninbox\n\n## Context (recalled from Cortex)\nctx");

    let c = AnthropicClient::synthesize_review_call("acts", "ctx");
    assert_eq!(c.system, DAILY_REVIEW);
    assert_eq!(only_user_message(&c), "## Today's activities\nacts\n\n## Context (recalled from Cortex)\nctx");

    let c = AnthropicClient::chat_call("hello", "[space] X: y");
    assert_eq!(c.system, format!("{CHAT_SYSTEM}\n\n## Recalled context from Cortex\n[space] X: y"));
    assert_eq!(c.max_tokens, 4096);
    assert_eq!(only_user_message(&c), "hello");
}

#[test]
fn replies_that_do_not_decode() {
    let cues = AnthropicClient::cues_from_reply(None);
    assert!(cues.entities.is_empty() && cues.topics.is_empty() && cues.time_refs.is_empty());
    assert_eq!(cues.intent, "");
    let decoded = CueExtraction {
        entities: vec!["Bob".into()],
        intent: "contact".into(),
        time_refs: vec![],
        topics: vec![],
    };
    assert_eq!(AnthropicClient::cues_from_reply(Some(decoded)).intent, "contact");
    assert!(AnthropicClient::classifications_from_reply(None).is_empty());
    let one = vec![InboxClassification { external_id: "1".into(), classification: "task".into(), reason: "r".into() }];
    assert_eq!(AnthropicClient::classifications_from_reply(Some(one)).len(), 1);
    match AnthropicClient::structured_reply::<u32>(Err("expected value at line 1".into())) {
        Err(Error::Anthropic(m)) => assert_eq!(m, "parse error: expected value at line 1"),
        _ => panic!("expected a parse error"),
    }
    assert_eq!(AnthropicClient::structured_reply::<u32>(Ok(7)).unwrap(), 7);
    match AnthropicClient::status_error("429 Too Many Requests", "slow down") {
        Error::Anthropic(m) => assert_eq!(m, "429 Too Many Requests: slow down"),
        _ => panic!("expected an API error"),
    }
}
