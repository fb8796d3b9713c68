//! End-to-end runs of the perception-decision-action loop against the
//! in-library ports.

use loopautoma::action::{ActionError, ActionOutcome, LLMPromptGenerationAction, TypeText};
use loopautoma::audio::MockAudioNotifier;
use loopautoma::domain::{Rect, Region};
use loopautoma::llm::MockLLMClient;
use loopautoma::mocks::{MockAutomation, MockCapture, RecordedEvent};
use loopautoma::run::{AutomationRun, RunState};

fn r1() -> Region {
    Region { id: "r1".to_string(), rect: Rect { x: 0, y: 0, width: 2, height: 2 } }
}

fn buffer(seed: u8) -> Vec<u8> {
    (0..16u8).map(|i| i.wrapping_mul(13).wrapping_add(seed)).collect()
}

fn prompt_action() -> LLMPromptGenerationAction {
    LLMPromptGenerationAction {
        region_ids: vec!["r1".to_string()],
        risk_threshold: 50,
        system_prompt: None,
        variable_name: "prompt".to_string(),
        all_regions: vec![r1()],
    }
}

#[test]
fn unchanged_region_never_reaches_a_decision() {
    let mut capture = MockCapture::new();
    capture.set_buffer("r1".to_string(), buffer(1));
    let mut run = AutomationRun::new(vec![r1()], 1);
    run.start(&mut capture);
    // Two polls over identical pixels: no change, no decision state, and so
    // no path on which the oracle could be consulted.
    assert!(!run.poll_tick(&mut capture));
    assert!(matches!(run.state(), RunState::Watching));
    assert!(!run.poll_tick(&mut capture));
    assert!(matches!(run.state(), RunState::Watching));
}

#[test]
fn changed_region_decides_binds_and_acts() {
    let mut capture = MockCapture::new();
    capture.set_buffer("r1".to_string(), buffer(1));
    let mut run = AutomationRun::new(vec![r1()], 1);
    run.start(&mut capture);
    assert!(!run.poll_tick(&mut capture));

    capture.set_buffer("r1".to_string(), buffer(2));
    assert!(run.poll_tick(&mut capture));
    assert!(matches!(run.state(), RunState::Deciding));

    let llm = MockLLMClient::with_response("click Run button".to_string(), 20);
    let mut audio = MockAudioNotifier::new();
    let outcome = run.decide(&prompt_action(), &capture, &llm, &mut audio);
    assert!(matches!(outcome, Ok(ActionOutcome::Done)));
    assert!(matches!(run.state(), RunState::Acting));
    assert_eq!(run.vars().get("prompt").unwrap().as_str(), "click Run button");
    assert_eq!(audio.intervention_call_count(), 0);

    let mut automation = MockAutomation::new();
    let type_action = TypeText { text: "$prompt".to_string() };
    assert!(run.act_type_text(&type_action, &mut automation).is_ok());
    assert!(matches!(run.state(), RunState::Watching));
    match &automation.recorded()[0] {
        RecordedEvent::TypedText(t) => assert_eq!(t, "click Run button"),
        other => panic!("expected typed text, got {:?}", other),
    }
}

#[test]
fn risk_breach_terminates_the_run_after_the_alarm() {
    let mut capture = MockCapture::new();
    capture.set_buffer("r1".to_string(), buffer(1));
    let mut run = AutomationRun::new(vec![r1()], 1);
    run.start(&mut capture);
    capture.set_buffer("r1".to_string(), buffer(9));
    assert!(run.poll_tick(&mut capture));

    let llm = MockLLMClient::with_response("click Run button".to_string(), 80);
    let mut audio = MockAudioNotifier::new();
    let outcome = run.decide(&prompt_action(), &capture, &llm, &mut audio);
    assert!(matches!(outcome, Err(ActionError::RiskBreach { .. })));
    match run.state() {
        RunState::Failed { error: ActionError::RiskBreach { risk, threshold, prompt } } => {
            assert_eq!(*risk, 80);
            assert_eq!(*threshold, 50);
            assert_eq!(prompt, "click Run button");
        },
        other => panic!("expected a risk-breach failure, got {:?}", other),
    }
    assert_eq!(audio.intervention_call_count(), 1);
    assert!(run.vars().get("prompt").is_none());
}

#[test]
fn completion_ends_the_run_cleanly() {
    let mut capture = MockCapture::new();
    capture.set_buffer("r1".to_string(), buffer(1));
    let mut run = AutomationRun::new(vec![r1()], 1);
    run.start(&mut capture);
    capture.set_buffer("r1".to_string(), buffer(3));
    assert!(run.poll_tick(&mut capture));

    let llm = MockLLMClient::with_completion("All tests passed".to_string());
    let mut audio = MockAudioNotifier::new();
    let outcome = run.decide(&prompt_action(), &capture, &llm, &mut audio);
    assert!(matches!(outcome, Ok(ActionOutcome::Completed { .. })));
    match run.state() {
        RunState::Completed { reason } => assert_eq!(reason, "All tests passed"),
        other => panic!("expected completion, got {:?}", other),
    }
}

#[test]
fn unresolved_region_id_is_a_hard_error() {
    let mut capture = MockCapture::new();
    capture.set_buffer("r1".to_string(), buffer(1));
    let mut run = AutomationRun::new(vec![r1()], 1);
    run.start(&mut capture);
    capture.set_buffer("r1".to_string(), buffer(4));
    assert!(run.poll_tick(&mut capture));

    let llm = MockLLMClient::new();
    let mut audio = MockAudioNotifier::new();
    let mut action = prompt_action();
    action.region_ids = vec!["ghost-region".to_string()];
    let outcome = run.decide(&action, &capture, &llm, &mut audio);
    assert!(matches!(outcome, Err(ActionError::RegionNotFound { .. })));
    match run.state() {
        RunState::Failed { error: ActionError::RegionNotFound { id } } => {
            assert_eq!(id, "ghost-region");
        },
        other => panic!("expected an unresolved-region failure, got {:?}", other),
    }
    // The error message keeps the id for audit.
    let msg = ActionError::RegionNotFound { id: "ghost-region".to_string() }.message();
    assert_eq!(msg, "Region 'ghost-region' not found");
}

#[test]
fn cancellation_takes_effect_at_a_boundary() {
    let mut capture = MockCapture::new();
    capture.set_buffer("r1".to_string(), buffer(1));
    let mut run = AutomationRun::new(vec![r1()], 1);
    run.start(&mut capture);
    assert!(!run.poll_tick(&mut capture));
    run.cancel();
    assert!(matches!(run.state(), RunState::Cancelled));
}
