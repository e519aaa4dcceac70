use atomus_ai_agent::llm::{
    author_context, build_messages, first_reply, reply_request, MAX_REPLY_TOKENS, SYSTEM_PROMPT,
};

#[test]
fn context_lines_come_before_the_post() {
    let context = vec!["first line".to_string(), "second line".to_string()];
    let messages = build_messages("what about yields?", &context);
    assert_eq!(messages.len(), 3);
    assert_eq!(messages[0].role, "assistant");
    assert_eq!(messages[0].content, "first line");
    assert_eq!(messages[1].role, "assistant");
    assert_eq!(messages[1].content, "second line");
    assert_eq!(messages[2].role, "user");
    assert_eq!(messages[2].content, "what about yields?");
}

#[test]
fn post_without_context_is_the_only_turn() {
    let messages = build_messages("gm", &Vec::new());
    assert_eq!(messages.len(), 1);
    assert_eq!(messages[0].role, "user");
    assert_eq!(messages[0].content, "gm");
}

#[test]
fn request_names_model_instruction_and_limit() {
    let context = vec![author_context("42")];
    let request = reply_request("some-model", "hello", &context);
    assert_eq!(request.model, "some-model");
    assert_eq!(request.system, SYSTEM_PROMPT);
    assert_eq!(request.max_tokens, 280);
    assert_eq!(MAX_REPLY_TOKENS, 280);
    assert_eq!(request.messages.len(), 2);
    assert_eq!(request.messages[0].role, "assistant");
    assert_eq!(request.messages[0].content, "User: 42");
    assert_eq!(request.messages[1].role, "user");
    assert_eq!(request.messages[1].content, "hello");
}

#[test]
fn standing_instruction_is_one_line() {
    assert!(SYSTEM_PROMPT.starts_with("You are a helpful AI assistant managing a Twitter account. "));
    assert!(SYSTEM_PROMPT.ends_with("while maintaining a professional tone."));
    assert!(!SYSTEM_PROMPT.contains('\n'));
    assert!(!SYSTEM_PROMPT.contains("  "));
}

#[test]
fn author_line_names_the_user() {
    assert_eq!(author_context("alice"), "User: alice");
    assert_eq!(author_context(""), "User: ");
}

#[test]
fn first_text_is_the_reply() {
    assert_eq!(
        first_reply(vec!["one".to_string(), "two".to_string()]),
        Some("one".to_string())
    );
    assert_eq!(first_reply(vec!["only".to_string()]), Some("only".to_string()));
    assert_eq!(first_reply(Vec::new()), None);
}
