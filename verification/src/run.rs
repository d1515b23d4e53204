//! Running the whole loop against a scripted step source.
//!
//! A live driver produces each step's result with a forward pass, a
//! penalty adjustment, a sampler and a detokeniser; `run_scripted` takes
//! those per-step results as data instead. It is the loop itself —
//! construct, ask for the next action, hand the step result back, repeat —
//! and its result is pinned, step by step, to the recursive specification
//! `spec_run`. A deterministic stub pipeline is one call of it.

use crate::bytes::copy_vec;
use crate::config::{ConfigError, GenerationConfig};
use crate::engine::{hits_eos, Generation, StopReason};
use vstd::prelude::*;

verus! {

/// One scripted step result: the sampled token, and its decoded text
/// when it has one.
pub struct ScriptStep {
    pub token: u32,
    pub decoded: Option<Vec<u8>>,
}

/// The summary of a finished run.
pub struct RunResult {
    /// The emitted text fragments, in order.
    pub fragments: Vec<Vec<u8>>,
    /// Why the run stopped.
    pub reason: StopReason,
    /// Tokens fed to the model over the whole run.
    pub cursor: usize,
    /// Sampling steps taken over the whole run.
    pub steps: usize,
    /// Prompt plus every token that was fed back to the model.
    pub history: Vec<u32>,
}

/// Why a scripted run failed.
#[derive(Clone, Copy, Debug, PartialEq, Eq, Structural)]
pub enum RunError {
    /// The configuration was rejected before the loop started.
    Config(ConfigError),
    /// The script ran out before a stop condition was reached.
    ScriptEnded,
}

/// The changing part of a run, as mathematical values.
pub ghost struct LoopState {
    pub steps: nat,
    pub cursor: nat,
    pub generated: Seq<u32>,
    pub fragments: Seq<Seq<u8>>,
}

/// The state every run starts from.
pub open spec fn start_state() -> LoopState {
    LoopState { steps: 0, cursor: 0, generated: Seq::empty(), fragments: Seq::empty() }
}

/// The mathematical image of a machine state.
pub open spec fn state_of(g: Generation) -> LoopState {
    LoopState {
        steps: g.steps as nat,
        cursor: g.cursor as nat,
        generated: g.generated@,
        fragments: g.frags(),
    }
}

/// What a finished run looks like in the specification.
pub ghost struct RunSummary {
    pub fragments: Seq<Seq<u8>>,
    pub reason: StopReason,
    pub cursor: nat,
    pub steps: nat,
    pub generated: Seq<u32>,
}

/// A run either finishes with a stop reason, or the script runs out.
pub ghost enum RunOutcome {
    Done(RunSummary),
    Exhausted,
}

/// The loop, as a recursion over the remaining script: stop when the
/// budget is used up; fail when the script runs out; stop without
/// emitting when a step hits the end-of-sequence marker; otherwise
/// record the token and its text and continue. The cursor advances by
/// the whole prompt length on the first step and by one afterwards, on
/// the stopping step too.
pub open spec fn spec_run_from(
    prompt: Seq<u32>,
    eos: Seq<u8>,
    max_tokens: nat,
    script: Seq<ScriptStep>,
    st: LoopState,
) -> RunOutcome
    decreases max_tokens - st.steps,
{
    if st.steps >= max_tokens {
        RunOutcome::Done(
            RunSummary {
                fragments: st.fragments,
                reason: StopReason::MaxTokens,
                cursor: st.cursor,
                steps: st.steps,
                generated: st.generated,
            },
        )
    } else if script.len() == 0 {
        RunOutcome::Exhausted
    } else {
        let s = script[0];
        let fed: nat = if st.steps == 0 {
            prompt.len()
        } else {
            1nat
        };
        if hits_eos(eos, s.decoded) {
            RunOutcome::Done(
                RunSummary {
                    fragments: st.fragments,
                    reason: StopReason::Eos,
                    cursor: st.cursor + fed,
                    steps: st.steps + 1,
                    generated: st.generated,
                },
            )
        } else {
            spec_run_from(
                prompt,
                eos,
                max_tokens,
                script.drop_first(),
                LoopState {
                    steps: st.steps + 1,
                    cursor: st.cursor + fed,
                    generated: st.generated.push(s.token),
                    fragments: match s.decoded {
                        Some(d) => st.fragments.push(d@),
                        None => st.fragments,
                    },
                },
            )
        }
    }
}

/// A whole run from the start state.
pub open spec fn spec_run(
    prompt: Seq<u32>,
    eos: Seq<u8>,
    max_tokens: nat,
    script: Seq<ScriptStep>,
) -> RunOutcome {
    spec_run_from(prompt, eos, max_tokens, script, start_state())
}

/// Drive a whole generation over scripted step results.
///
/// The run is exactly `spec_run` of the inputs: same fragments, stop
/// reason, cursor, step count and token history. A script shorter than
/// the run needs fails with `ScriptEnded`; an empty prompt is rejected
/// before the loop starts.
pub fn run_scripted(prompt: Vec<u32>, config: GenerationConfig, script: Vec<ScriptStep>) -> (r:
    Result<RunResult, RunError>)
    requires
        prompt@.len() + config.max_tokens <= usize::MAX,
    ensures
        prompt@.len() == 0 <==> r == Err::<RunResult, RunError>(
            RunError::Config(ConfigError::EmptyPrompt),
        ),
        prompt@.len() >= 1 ==> match r {
            Ok(res) => {
                &&& spec_run(prompt@, config.eos@, config.max_tokens as nat, script@)
                    matches RunOutcome::Done(d)
                &&& res.fragments.deep_view() == d.fragments
                &&& res.reason == d.reason
                &&& res.cursor == d.cursor
                &&& res.steps == d.steps
                &&& res.history@ == prompt@ + d.generated
            },
            Err(e) => e == RunError::ScriptEnded && spec_run(
                prompt@,
                config.eos@,
                config.max_tokens as nat,
                script@,
            ) is Exhausted,
        },
{
    let ghost whole: RunOutcome = spec_run(prompt@, config.eos@, config.max_tokens as nat, script@);
    let own_config = GenerationConfig {
        max_tokens: config.max_tokens,
        seed: config.seed,
        penalty_enabled: config.penalty_enabled,
        repeat_last_n: config.repeat_last_n,
        eos: copy_vec(&config.eos),
    };
    let mut g = match Generation::new(copy_vec(&prompt), own_config) {
        Ok(g) => g,
        Err(e) => {
            return Err(RunError::Config(e));
        },
    };
    let mut j: usize = 0;
    proof {
        assert(g.generated@ =~= Seq::<u32>::empty());
        assert(g.frags() =~= Seq::<Seq<u8>>::empty());
        assert(state_of(g) == start_state());
        assert(script@.skip(0) =~= script@);
    }
    loop
        invariant
            g.wf(),
            !g.eos_seen,
            j <= script@.len(),
            g.prompt@ == prompt@,
            g.config.eos@ == config.eos@,
            g.config.max_tokens == config.max_tokens,
            whole == spec_run(prompt@, config.eos@, config.max_tokens as nat, script@),
            spec_run_from(
                prompt@,
                config.eos@,
                config.max_tokens as nat,
                script@.skip(j as int),
                state_of(g),
            ) == whole,
        decreases script@.len() - j,
    {
        if g.steps >= g.config.max_tokens {
            let history = g.history();
            return Ok(
                RunResult {
                    fragments: g.fragments,
                    reason: StopReason::MaxTokens,
                    cursor: g.cursor,
                    steps: g.steps,
                    history,
                },
            );
        }
        if j >= script.len() {
            proof {
                assert(script@.skip(j as int).len() == 0);
            }
            return Err(RunError::ScriptEnded);
        }
        let tok = script[j].token;
        let dec: Option<Vec<u8>> = match &script[j].decoded {
            Some(d) => Some(copy_vec(d)),
            None => None,
        };
        proof {
            assert(script@.skip(j as int)[0] == script@[j as int]);
            assert(hits_eos(config.eos@, dec) == hits_eos(config.eos@, script@[j as int].decoded));
        }
        let ghost pre = state_of(g);
        let out = g.on_token(tok, dec);
        proof {
            let rest = script@.skip(j as int);
            if hits_eos(config.eos@, script@[j as int].decoded) {
                assert(whole == RunOutcome::Done(
                    RunSummary {
                        fragments: pre.fragments,
                        reason: StopReason::Eos,
                        cursor: pre.cursor + (if pre.steps == 0 {
                            prompt@.len()
                        } else {
                            1nat
                        }),
                        steps: pre.steps + 1,
                        generated: pre.generated,
                    },
                ));
            } else {
                assert(rest.drop_first() =~= script@.skip(j as int + 1));
                assert(spec_run_from(
                    prompt@,
                    config.eos@,
                    config.max_tokens as nat,
                    script@.skip(j as int + 1),
                    state_of(g),
                ) == whole);
            }
        }
        if out == crate::engine::StepOutcome::Eos {
            let history = g.history();
            return Ok(
                RunResult {
                    fragments: g.fragments,
                    reason: StopReason::Eos,
                    cursor: g.cursor,
                    steps: g.steps,
                    history,
                },
            );
        }
        j += 1;
    }
}

} // verus!
