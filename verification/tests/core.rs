//! Context expansion, the risk gate, and the simple actions.

use loopautoma::action::{
    gate_and_bind, ActionError, ActionOutcome, Click, Key, MoveCursor, TypeText,
};
use loopautoma::audio::MockAudioNotifier;
use loopautoma::context::ActionContext;
use loopautoma::domain::{LLMPromptResponse, MouseButton};
use loopautoma::mocks::{MockAutomation, RecordedEvent};

#[test]
fn expand_substitutes_bound_variable() {
    let mut ctx = ActionContext::new();
    ctx.set("x", "hello".to_string());
    assert_eq!(ctx.expand("type $x"), "type hello");
}

#[test]
fn expand_keeps_unbound_token() {
    let ctx = ActionContext::new();
    assert_eq!(ctx.expand("type $y"), "type $y");
}

#[test]
fn expand_handles_adjacent_and_embedded_tokens() {
    let mut ctx = ActionContext::new();
    ctx.set("x", "ab".to_string());
    assert_eq!(ctx.expand("$x$x"), "abab");
    assert_eq!(ctx.expand("pre $x post"), "pre ab post");
    // `_` continues a token name, so `$x_b` is the unbound name `x_b`.
    assert_eq!(ctx.expand("$x_b"), "$x_b");
    // A bare dollar sign passes through.
    assert_eq!(ctx.expand("cost: $ 5"), "cost: $ 5");
    assert_eq!(ctx.expand(""), "");
}

#[test]
fn context_set_get_shadows() {
    let mut ctx = ActionContext::new();
    assert!(ctx.get("k").is_none());
    ctx.set("k", "v1".to_string());
    assert_eq!(ctx.get("k").unwrap().as_str(), "v1");
    ctx.set("k", "v2".to_string());
    assert_eq!(ctx.get("k").unwrap().as_str(), "v2");
}

#[test]
fn gate_binds_valid_prompt() {
    let mut ctx = ActionContext::new();
    let mut audio = MockAudioNotifier::new();
    let resp = LLMPromptResponse::continuation("click Run button".to_string(), 20);
    let r = gate_and_bind(resp, 50, "prompt", &mut ctx, &mut audio);
    assert!(matches!(r, Ok(ActionOutcome::Done)));
    assert_eq!(ctx.get("prompt").unwrap().as_str(), "click Run button");
    assert_eq!(audio.intervention_call_count(), 0);
}

#[test]
fn gate_risk_breach_fails_with_alarm() {
    let mut ctx = ActionContext::new();
    let mut audio = MockAudioNotifier::new();
    let resp = LLMPromptResponse::continuation("rm -rf /".to_string(), 80);
    let r = gate_and_bind(resp, 50, "prompt", &mut ctx, &mut audio);
    match r {
        Err(ActionError::RiskBreach { risk, threshold, prompt }) => {
            assert_eq!(risk, 80);
            assert_eq!(threshold, 50);
            assert_eq!(prompt, "rm -rf /");
        },
        other => panic!("expected a risk breach, got {:?}", other),
    }
    // The alarm fired exactly once, and nothing was bound.
    assert_eq!(audio.intervention_call_count(), 1);
    assert!(ctx.get("prompt").is_none());
}

#[test]
fn gate_risk_breach_message_is_auditable() {
    let err = ActionError::RiskBreach {
        risk: 80,
        threshold: 50,
        prompt: "touch x".to_string(),
    };
    let msg = err.message();
    assert_eq!(
        msg,
        "Risk threshold exceeded: 80/100 > 50/100 (generated prompt: 'touch x')"
    );
}

#[test]
fn gate_rejects_empty_prompt_whatever_the_risk() {
    let mut ctx = ActionContext::new();
    let mut audio = MockAudioNotifier::new();
    let r = gate_and_bind(
        LLMPromptResponse::continuation(String::new(), 0),
        50,
        "prompt",
        &mut ctx,
        &mut audio,
    );
    assert!(matches!(r, Err(ActionError::EmptyPrompt)));
    assert!(ctx.get("prompt").is_none());
    assert_eq!(audio.intervention_call_count(), 0);
}

#[test]
fn gate_rejects_over_length_prompt() {
    let mut ctx = ActionContext::new();
    let mut audio = MockAudioNotifier::new();
    let long: String = std::iter::repeat('a').take(201).collect();
    let r = gate_and_bind(
        LLMPromptResponse::continuation(long, 0),
        50,
        "prompt",
        &mut ctx,
        &mut audio,
    );
    match r {
        Err(ActionError::PromptTooLong { length }) => assert_eq!(length, 201),
        other => panic!("expected an over-length failure, got {:?}", other),
    }
    let edge: String = std::iter::repeat('a').take(200).collect();
    let r2 = gate_and_bind(
        LLMPromptResponse::continuation(edge.clone(), 0),
        50,
        "prompt",
        &mut ctx,
        &mut audio,
    );
    assert!(matches!(r2, Ok(ActionOutcome::Done)));
    assert_eq!(ctx.get("prompt").unwrap(), &edge);
}

#[test]
fn gate_propagates_completion_without_binding() {
    let mut ctx = ActionContext::new();
    let mut audio = MockAudioNotifier::new();
    let r = gate_and_bind(
        LLMPromptResponse::completed("All tests passed".to_string()),
        50,
        "prompt",
        &mut ctx,
        &mut audio,
    );
    match r {
        Ok(ActionOutcome::Completed { reason }) => assert_eq!(reason, "All tests passed"),
        other => panic!("expected completion, got {:?}", other),
    }
    assert!(ctx.get("prompt").is_none());
}

#[test]
fn simple_actions_drive_the_port() {
    let mut auto = MockAutomation::new();
    let mut ctx = ActionContext::new();
    ctx.set("prompt", "hi there".to_string());

    assert_eq!(MoveCursor { x: 100, y: 50 }.name(), "MoveCursor");
    assert!(MoveCursor { x: 100, y: 50 }.execute(&mut auto, &mut ctx).is_ok());
    assert_eq!(Click { button: MouseButton::Left }.name(), "Click");
    assert!(Click { button: MouseButton::Left }.execute(&mut auto, &mut ctx).is_ok());
    assert_eq!(TypeText { text: "say $prompt".to_string() }.name(), "Type");
    assert!(TypeText { text: "say $prompt".to_string() }.execute(&mut auto, &mut ctx).is_ok());
    assert_eq!(Key { key: "Enter".to_string() }.name(), "Key");
    assert!(Key { key: "Enter".to_string() }.execute(&mut auto, &mut ctx).is_ok());

    let log = auto.recorded();
    assert_eq!(log.len(), 4);
    assert!(matches!(log[0], RecordedEvent::MoveTo(100, 50)));
    assert!(matches!(log[1], RecordedEvent::ClickAt(MouseButton::Left)));
    match &log[2] {
        RecordedEvent::TypedText(t) => assert_eq!(t, "say hi there"),
        other => panic!("expected typed text, got {:?}", other),
    }
    match &log[3] {
        RecordedEvent::KeyTap(k) => assert_eq!(k, "Enter"),
        other => panic!("expected a key tap, got {:?}", other),
    }
}
