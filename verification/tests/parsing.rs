//! LLM response parsing — structured, fenced, and keyword fallback — the
//! client configuration, and the retry/backoff bookkeeping.

use loopautoma::domain::LLMPromptResponse;
use loopautoma::llm::{
    build_risk_guidance, create_llm_client, LLMClient, MockLLMClient, OpenAIClient, RetrySession,
    RetryStep,
};

fn client() -> OpenAIClient {
    OpenAIClient::new(Some("test-key".to_string()), None, None).unwrap()
}

#[test]
fn client_requires_a_key() {
    let r = OpenAIClient::new(None, None, None);
    assert_eq!(r.err().unwrap(), "OpenAI API key not provided");
    let c = client();
    assert_eq!(c.endpoint().as_str(), "https://api.openai.com/v1/chat/completions");
    assert_eq!(c.model_name().as_str(), "gpt-4o");
    let custom = OpenAIClient::new(
        Some("test-key".to_string()),
        Some("https://example.test/v1".to_string()),
        Some("gpt-4o-mini".to_string()),
    )
    .unwrap();
    assert_eq!(custom.endpoint().as_str(), "https://example.test/v1");
    assert_eq!(custom.model_name().as_str(), "gpt-4o-mini");
}

#[test]
fn structured_continuation_parses() {
    let c = client();
    let payload = "{\"continuation_prompt\": \"click Run button\", \"continuation_prompt_risk\": 0.2, \"task_complete\": false, \"task_complete_reason\": null}";
    match c.parse_response(payload).unwrap() {
        LLMPromptResponse::Continuation { prompt, risk } => {
            assert_eq!(prompt, "click Run button");
            assert_eq!(risk, 20);
        },
        other => panic!("expected a continuation, got {:?}", other),
    }
}

#[test]
fn structured_completion_parses() {
    let c = client();
    let payload = "{\"continuation_prompt\": null, \"continuation_prompt_risk\": 0.0, \"task_complete\": true, \"task_complete_reason\": \"All tests passed\"}";
    match c.parse_response(payload).unwrap() {
        LLMPromptResponse::Completed { reason } => assert_eq!(reason, "All tests passed"),
        other => panic!("expected completion, got {:?}", other),
    }
}

#[test]
fn fenced_payload_is_stripped() {
    let c = client();
    let payload = "```json\n{\"continuation_prompt\": \"scroll down\", \"continuation_prompt_risk\": 0.1, \"task_complete\": false, \"task_complete_reason\": null}\n```";
    match c.parse_response(payload).unwrap() {
        LLMPromptResponse::Continuation { prompt, risk } => {
            assert_eq!(prompt, "scroll down");
            assert_eq!(risk, 10);
        },
        other => panic!("expected a continuation, got {:?}", other),
    }
}

#[test]
fn risk_rounds_up_never_down() {
    // A risk estimate between two hundredths must not be understated by the
    // gate, so the parser rounds it up.
    let c = client();
    let payload = "{\"continuation_prompt\": \"x\", \"continuation_prompt_risk\": 0.505, \"task_complete\": false, \"task_complete_reason\": null}";
    match c.parse_response(payload).unwrap() {
        LLMPromptResponse::Continuation { risk, .. } => assert_eq!(risk, 51),
        other => panic!("expected a continuation, got {:?}", other),
    }
}

#[test]
fn malformed_text_falls_back_to_keywords() {
    let c = client();
    match c.parse_response("the task is DONE, SUCCESS").unwrap() {
        LLMPromptResponse::Completed { reason } => {
            assert_eq!(reason, "Task completed successfully");
        },
        other => panic!("expected completion, got {:?}", other),
    }
}

#[test]
fn fallback_classifies_failures_and_continuations() {
    let c = client();
    match c.parse_response("everything FINISHED with an ERROR").unwrap() {
        LLMPromptResponse::Completed { reason } => {
            assert_eq!(reason, "Task completed with errors");
        },
        other => panic!("expected completion, got {:?}", other),
    }
    match c.parse_response("please continue with the next step\nand more").unwrap() {
        LLMPromptResponse::Continuation { prompt, risk } => {
            assert_eq!(prompt, "continue with the next step");
            assert_eq!(risk, 30);
        },
        other => panic!("expected a continuation, got {:?}", other),
    }
    // A continuation keyword with no literal lowercase "continue".
    match c.parse_response("NEXT").unwrap() {
        LLMPromptResponse::Continuation { prompt, risk } => {
            assert_eq!(prompt, "continue");
            assert_eq!(risk, 30);
        },
        other => panic!("expected a continuation, got {:?}", other),
    }
}

#[test]
fn accepted_json_of_the_wrong_shape_falls_back() {
    let c = client();
    // Well-formed JSON without the schema's members: classified by keywords
    // over the raw payload.
    match c.parse_response("{\"note\": \"DONE and SUCCESS\"}").unwrap() {
        LLMPromptResponse::Completed { reason } => {
            assert_eq!(reason, "Task completed successfully");
        },
        other => panic!("expected completion, got {:?}", other),
    }
    // A mistyped member is a schema violation: the keyword fallback takes
    // over, and the raw text's own key names count as keywords.
    let payload = "{\"continuation_prompt\": \"x\", \"continuation_prompt_risk\": 0.1, \"task_complete\": \"later\", \"task_complete_reason\": null}";
    match c.parse_response(payload).unwrap() {
        LLMPromptResponse::Completed { reason } => {
            assert_eq!(reason, "Task completed");
        },
        other => panic!("expected completion, got {:?}", other),
    }
}

#[test]
fn fallback_defaults_to_first_line() {
    let c = client();
    match c.parse_response("scroll to the bottom\nthen wait").unwrap() {
        LLMPromptResponse::Continuation { prompt, risk } => {
            assert_eq!(prompt, "scroll to the bottom");
            assert_eq!(risk, 30);
        },
        other => panic!("expected a continuation, got {:?}", other),
    }
    match c.parse_response("").unwrap() {
        LLMPromptResponse::Continuation { prompt, risk } => {
            assert_eq!(prompt, "continue");
            assert_eq!(risk, 30);
        },
        other => panic!("expected a continuation, got {:?}", other),
    }
}

#[test]
fn system_message_composes_base_guidance_and_format() {
    let c = client();
    let guidance = build_risk_guidance();
    assert!(guidance.starts_with("Risk Assessment Guidelines:"));
    let msg = c.build_system_message(None, guidance.as_str());
    assert!(msg.starts_with("You are an AI assistant helping with desktop automation."));
    assert!(msg.contains("Risk Assessment Guidelines:"));
    assert!(msg.contains("Return ONLY a JSON object"));
    let custom = c.build_system_message(Some("Watch the build output."), guidance.as_str());
    assert!(custom.starts_with("Watch the build output.\n\nRisk Assessment Guidelines:"));
}

#[test]
fn mock_client_returns_its_decision() {
    let mock = MockLLMClient::with_response("press Enter".to_string(), 15);
    let r = mock.generate_prompt(&[], Vec::new(), None, "guidance").unwrap();
    match r {
        LLMPromptResponse::Continuation { prompt, risk } => {
            assert_eq!(prompt, "press Enter");
            assert_eq!(risk, 15);
        },
        other => panic!("expected a continuation, got {:?}", other),
    }
    let done = MockLLMClient::with_completion("done".to_string());
    match done.generate_prompt(&[], Vec::new(), None, "g").unwrap() {
        LLMPromptResponse::Completed { reason } => assert_eq!(reason, "done"),
        other => panic!("expected completion, got {:?}", other),
    }
}

#[test]
fn factory_returns_the_deterministic_client() {
    let c = create_llm_client(None, None).unwrap();
    match c.mock_response {
        LLMPromptResponse::Continuation { ref prompt, risk } => {
            assert_eq!(prompt, "continue");
            assert_eq!(risk, 10);
        },
        ref other => panic!("expected a continuation, got {:?}", other),
    }
}

#[test]
fn three_transport_failures_aggregate_and_stop() {
    let mut s = RetrySession::new(3);
    assert!(s.may_attempt());
    match s.record_transport_failure("HTTP request failed: refused".to_string()) {
        RetryStep::Wait { delay_ms } => assert_eq!(delay_ms, 500),
        other => panic!("expected a wait, got {:?}", other_name(&other)),
    }
    match s.record_transport_failure("HTTP request failed: refused".to_string()) {
        RetryStep::Wait { delay_ms } => assert_eq!(delay_ms, 1000),
        other => panic!("expected a wait, got {:?}", other_name(&other)),
    }
    match s.record_transport_failure("HTTP request failed: refused".to_string()) {
        RetryStep::GiveUp { message } => {
            assert_eq!(
                message,
                "Failed after 3 attempts. Last error: HTTP request failed: refused"
            );
        },
        other => panic!("expected giving up, got {:?}", other_name(&other)),
    }
    // No fourth attempt is available.
    assert!(!s.may_attempt());
    assert_eq!(s.attempts_made(), 3);
}

#[test]
fn parse_failure_retries_with_a_correction() {
    let mut s = RetrySession::new(3);
    match s.record_parse_failure("no structured payload".to_string()) {
        RetryStep::RetryNow { correction } => {
            assert_eq!(
                correction,
                "Previous response was invalid JSON. Error: no structured payload. Please return ONLY valid JSON with the exact structure specified."
            );
        },
        other => panic!("expected an immediate retry, got {:?}", other_name(&other)),
    }
    assert_eq!(s.attempts_made(), 1);
}

fn other_name(step: &RetryStep) -> &'static str {
    match step {
        RetryStep::RetryNow { .. } => "RetryNow",
        RetryStep::Wait { .. } => "Wait",
        RetryStep::GiveUp { .. } => "GiveUp",
    }
}
