use genloop::config::{ConfigError, GenerationConfig};
use genloop::engine::{Action, Generation, InputChunk, StepOutcome, StopReason};
use genloop::run::{run_scripted, RunError, ScriptStep};

fn bytes(s: &str) -> Vec<u8> {
    s.as_bytes().to_vec()
}

fn config(max_tokens: usize) -> GenerationConfig {
    GenerationConfig {
        max_tokens,
        seed: 299792458,
        penalty_enabled: true,
        repeat_last_n: 128,
        eos: bytes("</s>"),
    }
}

fn step(token: u32, text: &str) -> ScriptStep {
    ScriptStep { token, decoded: Some(bytes(text)) }
}

#[test]
fn empty_prompt_is_rejected() {
    let r = Generation::new(vec![], config(4));
    assert!(matches!(r, Err(ConfigError::EmptyPrompt)));
}

#[test]
fn zero_budget_emits_nothing_and_stops_on_max_tokens() {
    let r = run_scripted(vec![5, 9], config(0), vec![step(7, "a")]).unwrap();
    assert_eq!(r.fragments.len(), 0);
    assert_eq!(r.reason, StopReason::MaxTokens);
    assert_eq!(r.steps, 0);
    assert_eq!(r.cursor, 0);
    assert_eq!(r.history, vec![5, 9]);
}

#[test]
fn zero_budget_finishes_immediately() {
    let g = Generation::new(vec![5, 9], config(0)).unwrap();
    assert!(matches!(g.next_action(), Action::Finished(StopReason::MaxTokens)));
    assert_eq!(g.stop_reason(), Some(StopReason::MaxTokens));
}

#[test]
fn same_inputs_give_byte_identical_runs() {
    let script = || vec![step(7, "alpha"), step(8, " beta"), step(9, " gamma")];
    let a = run_scripted(vec![3, 1, 4], config(3), script()).unwrap();
    let b = run_scripted(vec![3, 1, 4], config(3), script()).unwrap();
    assert_eq!(a.fragments, b.fragments);
    assert_eq!(a.reason, b.reason);
    assert_eq!(a.cursor, b.cursor);
    assert_eq!(a.steps, b.steps);
    assert_eq!(a.history, b.history);
}

#[test]
fn example_run_two_fragments_then_eos() {
    // Prompt [5, 9], budget 3; the pipeline yields 7, 7, then the
    // token whose text is the marker.
    let script = vec![step(7, "a"), step(7, "b"), step(2, "</s>")];
    let r = run_scripted(vec![5, 9], config(3), script).unwrap();
    assert_eq!(r.fragments, vec![bytes("a"), bytes("b")]);
    assert_eq!(r.reason, StopReason::Eos);
    assert_eq!(r.steps, 3);
    assert_eq!(r.cursor, 4);
    assert_eq!(r.history, vec![5, 9, 7, 7]);
}

#[test]
fn example_run_cursor_progression() {
    let mut g = Generation::new(vec![5, 9], config(3)).unwrap();
    match g.next_action() {
        Action::Forward { chunk: InputChunk::Prefill(p), cursor } => {
            assert_eq!(p, vec![5, 9]);
            assert_eq!(cursor, 0);
        },
        _ => panic!("expected a prefill forward"),
    }
    assert_eq!(g.on_token(7, Some(bytes("a"))), StepOutcome::Emitted);
    assert_eq!(g.cursor, 2);
    match g.next_action() {
        Action::Forward { chunk: InputChunk::Token(t), cursor } => {
            assert_eq!(t, 7);
            assert_eq!(cursor, 2);
        },
        _ => panic!("expected a single-token forward"),
    }
    assert_eq!(g.on_token(7, Some(bytes("b"))), StepOutcome::Emitted);
    assert_eq!(g.cursor, 3);
    assert_eq!(g.on_token(2, Some(bytes("</s>"))), StepOutcome::Eos);
    assert_eq!(g.cursor, 4);
    assert_eq!(g.stop_reason(), Some(StopReason::Eos));
    assert!(matches!(g.next_action(), Action::Finished(StopReason::Eos)));
}

#[test]
fn eos_text_is_never_emitted() {
    let script = vec![step(7, "a"), step(2, "</s>"), step(7, "b")];
    let r = run_scripted(vec![5], config(5), script).unwrap();
    assert_eq!(r.reason, StopReason::Eos);
    assert_eq!(r.fragments, vec![bytes("a")]);
    assert!(r.fragments.len() < 5);
    assert_eq!(r.history, vec![5, 7]);
}

#[test]
fn text_containing_the_marker_stops_too() {
    let script = vec![step(7, "xx</s>yy")];
    let r = run_scripted(vec![5], config(5), script).unwrap();
    assert_eq!(r.reason, StopReason::Eos);
    assert_eq!(r.fragments.len(), 0);
}

#[test]
fn eos_on_the_last_budgeted_step_reads_eos_not_max_tokens() {
    let script = vec![step(7, "a"), step(7, "b"), step(2, "</s>")];
    let r = run_scripted(vec![5, 9], config(3), script).unwrap();
    assert_eq!(r.steps, 3);
    assert_eq!(r.reason, StopReason::Eos);
}

#[test]
fn budget_stop_after_n_steps_has_cursor_prompt_len_plus_n_minus_one() {
    let script = vec![step(7, "a"), step(8, "b"), step(9, "c"), step(10, "d")];
    let r = run_scripted(vec![1, 2, 3], config(4), script).unwrap();
    assert_eq!(r.reason, StopReason::MaxTokens);
    assert_eq!(r.steps, 4);
    assert_eq!(r.cursor, 3 + 4 - 1);
    assert_eq!(r.history, vec![1, 2, 3, 7, 8, 9, 10]);
}

#[test]
fn undecodable_token_advances_without_emitting() {
    let mut g = Generation::new(vec![5, 9], config(3)).unwrap();
    assert_eq!(g.on_token(7, None), StepOutcome::Skipped);
    assert_eq!(g.cursor, 2);
    assert_eq!(g.fragments.len(), 0);
    match g.next_action() {
        Action::Forward { chunk: InputChunk::Token(t), cursor } => {
            assert_eq!(t, 7);
            assert_eq!(cursor, 2);
        },
        _ => panic!("expected a single-token forward"),
    }
    assert_eq!(g.history(), vec![5, 9, 7]);
}

#[test]
fn short_script_fails_with_script_ended() {
    let r = run_scripted(vec![5], config(4), vec![step(7, "a")]);
    assert!(matches!(r, Err(RunError::ScriptEnded)));
}

#[test]
fn huge_budget_is_accepted() {
    let prompt = vec![5u32, 9];
    let max_tokens = usize::MAX - prompt.len();
    let r = run_scripted(prompt, config(max_tokens), vec![step(7, "a")]);
    assert!(matches!(r, Err(RunError::ScriptEnded)));
}

#[test]
fn empty_prompt_run_is_rejected() {
    let r = run_scripted(vec![], config(4), vec![step(7, "a")]);
    assert!(matches!(r, Err(RunError::Config(ConfigError::EmptyPrompt))));
}
