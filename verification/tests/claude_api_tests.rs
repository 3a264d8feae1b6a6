use task_orchestrator::claude_api::{
    classify_status, decode_failure, extract_json, json_payload, response_text, ClaudeApiError,
    ClaudeResponse, ContentBlock, Message, RetryDecision, RetryPolicy, Usage,
};

#[test]
fn test_extract_json_plain() {
    let input = r#"{"key": "value"}"#;
    assert_eq!(extract_json(input), r#"{"key": "value"}"#);
}

#[test]
fn test_extract_json_code_block() {
    let input = r#"Here's the JSON:
```json
{"key": "value"}
```"#;
    assert_eq!(extract_json(input), r#"{"key": "value"}"#);
}

#[test]
fn test_extract_json_generic_code_block() {
    let input = r#"```
{"key": "value"}
```"#;
    assert_eq!(extract_json(input), r#"{"key": "value"}"#);
}

#[test]
fn extract_json_reads_carriage_returns_as_whitespace() {
    let input = "Here's the JSON:\r\n```json\r\n{\"key\": \"value\"}\r\n```";
    assert_eq!(extract_json(input), "{\"key\": \"value\"}");
    let generic = "```\r\n{\"key\": \"value\"}\r\n```";
    assert_eq!(extract_json(generic), "{\"key\": \"value\"}");
}

#[test]
fn extract_json_trims_plain_text() {
    assert_eq!(extract_json("  \n {\"a\": 1}\t\n"), "{\"a\": 1}");
    assert_eq!(extract_json(""), "");
    assert_eq!(extract_json("   "), "");
}

#[test]
fn extract_json_skips_the_language_tag_of_a_generic_block() {
    assert_eq!(extract_json("```yaml\nkey: 1\n```"), "key: 1");
    assert_eq!(extract_json("text ```js\n[1, 2]\n``` more"), "[1, 2]");
}

#[test]
fn extract_json_prefers_the_block_marked_as_json() {
    let input = "```\nfirst\n```\n```json\n{\"second\": true}\n```";
    assert_eq!(extract_json(input), "{\"second\": true}");
}

#[test]
fn extract_json_without_a_closing_fence() {
    // The block marked as JSON is never closed, so the generic rule reads
    // from the line after the first fence to the next fence: there is none.
    assert_eq!(extract_json("```json\n{\"a\": 1}"), "```json\n{\"a\": 1}");
    // A single line with one fence only.
    assert_eq!(extract_json("``` {\"a\": 1}"), "``` {\"a\": 1}");
}

#[test]
fn extract_json_on_a_single_line_block() {
    // No line break after the opening fence: the content starts right
    // after it.
    assert_eq!(extract_json("```{\"a\": 1}```"), "{\"a\": 1}");
}

#[test]
fn extract_json_keeps_characters_outside_ascii() {
    assert_eq!(extract_json("\u{3000}```json\n{\"k\": \"Ünïcödé ✓\"}\n```\u{a0}"), "{\"k\": \"Ünïcödé ✓\"}");
}

#[test]
fn should_retry_is_true_of_transient_failures_only() {
    assert!(ClaudeApiError::Transport("reset".to_string()).should_retry());
    assert!(ClaudeApiError::Timeout.should_retry());
    assert!(ClaudeApiError::RateLimited.should_retry());
    assert!(ClaudeApiError::Http { status: 500, body: String::new() }.should_retry());
    assert!(ClaudeApiError::Http { status: 503, body: String::new() }.should_retry());
    assert!(ClaudeApiError::Http { status: 599, body: String::new() }.should_retry());
    assert!(!ClaudeApiError::Http { status: 499, body: String::new() }.should_retry());
    assert!(!ClaudeApiError::Http { status: 600, body: String::new() }.should_retry());
    assert!(!ClaudeApiError::Http { status: 404, body: String::new() }.should_retry());
    assert!(!ClaudeApiError::InvalidApiKey.should_retry());
    assert!(!ClaudeApiError::Serde("bad".to_string()).should_retry());
    assert!(!ClaudeApiError::MissingApiKey.should_retry());
}

#[test]
fn error_messages() {
    assert_eq!(ClaudeApiError::Transport("reset".to_string()).message(), "network error: reset");
    assert_eq!(ClaudeApiError::Timeout.message(), "timeout");
    assert_eq!(
        ClaudeApiError::Http { status: 502, body: "bad gateway".to_string() }.message(),
        "http 502: bad gateway"
    );
    assert_eq!(ClaudeApiError::Http { status: 0, body: String::new() }.message(), "http 0: ");
    assert_eq!(ClaudeApiError::RateLimited.message(), "rate limited");
    assert_eq!(ClaudeApiError::InvalidApiKey.message(), "invalid api key");
    assert_eq!(ClaudeApiError::Serde("eof".to_string()).message(), "json error: eof");
    assert_eq!(
        ClaudeApiError::MissingApiKey.message(),
        "missing api key: ANTHROPIC_API_KEY environment variable not set"
    );
}

#[test]
fn transport_failures_are_told_apart() {
    assert_eq!(ClaudeApiError::from_transport(true, "late".to_string()), ClaudeApiError::Timeout);
    assert_eq!(
        ClaudeApiError::from_transport(false, "refused".to_string()),
        ClaudeApiError::Transport("refused".to_string())
    );
}

#[test]
fn statuses_are_classified() {
    assert_eq!(classify_status(200, "ok".to_string()), Ok("ok".to_string()));
    assert_eq!(classify_status(299, "ok".to_string()), Ok("ok".to_string()));
    assert_eq!(classify_status(401, "no".to_string()), Err(ClaudeApiError::InvalidApiKey));
    assert_eq!(classify_status(429, "slow".to_string()), Err(ClaudeApiError::RateLimited));
    assert_eq!(
        classify_status(300, "moved".to_string()),
        Err(ClaudeApiError::Http { status: 300, body: "moved".to_string() })
    );
    assert_eq!(
        classify_status(199, "".to_string()),
        Err(ClaudeApiError::Http { status: 199, body: "".to_string() })
    );
    assert_eq!(
        classify_status(500, "down".to_string()),
        Err(ClaudeApiError::Http { status: 500, body: "down".to_string() })
    );
}

#[test]
fn messages_carry_their_role() {
    let user = Message::user("hello");
    assert_eq!(user.role, "user");
    assert_eq!(user.content, "hello");
    let assistant = Message::assistant("hi");
    assert_eq!(assistant.role, "assistant");
    assert_eq!(assistant.content, "hi");
}

fn response(blocks: Vec<ContentBlock>) -> ClaudeResponse {
    ClaudeResponse {
        id: "msg_1".to_string(),
        content: blocks,
        model: "m".to_string(),
        stop_reason: None,
        usage: Usage { input_tokens: 1, output_tokens: 2 },
    }
}

#[test]
fn text_is_that_of_the_first_block() {
    let r = response(vec![
        ContentBlock::Text { text: "first".to_string() },
        ContentBlock::Text { text: "second".to_string() },
    ]);
    assert_eq!(r.text(), Some("first"));
    assert_eq!(response_text(&r), Ok("first".to_string()));
    let empty = response(vec![]);
    assert_eq!(empty.text(), None);
    assert_eq!(
        response_text(&empty),
        Err(ClaudeApiError::Serde("No text content in response".to_string()))
    );
}

#[test]
fn payload_of_an_answer() {
    assert_eq!(json_payload("```json\n{\"a\": 1}\n```"), Ok("{\"a\": 1}"));
    assert_eq!(json_payload(" [1] "), Ok("[1]"));
    assert_eq!(
        json_payload("  \n "),
        Err(ClaudeApiError::Serde("Empty response from the advisor".to_string()))
    );
    assert_eq!(
        json_payload("```json\n   \n```"),
        Err(ClaudeApiError::Serde(
            "Could not extract JSON from response: ```json\n   \n```".to_string()
        ))
    );
}

#[test]
fn decode_failure_quotes_at_most_five_hundred_characters() {
    assert_eq!(
        decode_failure("expected value", "{oops}"),
        ClaudeApiError::Serde("expected value (response preview: {oops})".to_string())
    );
    let long: String = std::iter::repeat('\u{e9}').take(600).collect();
    let shown: String = std::iter::repeat('\u{e9}').take(500).collect();
    assert_eq!(
        decode_failure("eof", &long),
        ClaudeApiError::Serde(format!("eof (response preview: {})", shown))
    );
    let exact: String = std::iter::repeat('x').take(500).collect();
    assert_eq!(
        decode_failure("eof", &exact),
        ClaudeApiError::Serde(format!("eof (response preview: {})", exact))
    );
}

#[test]
fn the_advisor_policy() {
    let policy = RetryPolicy::advisor();
    assert_eq!(policy, RetryPolicy { min_delay_ms: 1000, max_delay_ms: 30000, max_times: 3 });
}

#[test]
fn a_schedule_has_one_delay_for_each_repeat() {
    let delays = RetryPolicy::advisor().schedule();
    assert_eq!(delays.len(), 3);
    // Exponential growth from one second, each delay with up to as much
    // jitter again.
    assert!(1000 <= delays[0] && delays[0] < 2000);
    assert!(2000 <= delays[1] && delays[1] < 4000);
    assert!(4000 <= delays[2] && delays[2] < 8000);
    let none = RetryPolicy { min_delay_ms: 10, max_delay_ms: 20, max_times: 0 }.schedule();
    assert!(none.is_empty());
    let capped = RetryPolicy { min_delay_ms: 500, max_delay_ms: 600, max_times: 4 }.schedule();
    assert_eq!(capped.len(), 4);
    assert!(capped.iter().all(|d| *d >= 500 && *d <= 1200));
}

#[test]
fn retries_follow_the_schedule() {
    let delays = vec![1000u64, 2500, 4100];
    let transient = ClaudeApiError::Timeout;
    assert_eq!(
        RetryPolicy::next_attempt(&transient, 0, &delays),
        RetryDecision::RetryAfter { delay_ms: 1000 }
    );
    assert_eq!(
        RetryPolicy::next_attempt(&transient, 2, &delays),
        RetryDecision::RetryAfter { delay_ms: 4100 }
    );
    assert_eq!(RetryPolicy::next_attempt(&transient, 3, &delays), RetryDecision::GiveUp);
    let fatal = ClaudeApiError::InvalidApiKey;
    assert_eq!(RetryPolicy::next_attempt(&fatal, 0, &delays), RetryDecision::GiveUp);
    let server = ClaudeApiError::Http { status: 500, body: String::new() };
    assert_eq!(
        RetryPolicy::next_attempt(&server, 1, &delays),
        RetryDecision::RetryAfter { delay_ms: 2500 }
    );
    let client = ClaudeApiError::Http { status: 400, body: String::new() };
    assert_eq!(RetryPolicy::next_attempt(&client, 1, &delays), RetryDecision::GiveUp);
}
