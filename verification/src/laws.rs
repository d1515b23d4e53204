//! Laws of the generation loop, proved once and for all over the
//! specification `spec_run` and the penalty-window specification.

use crate::bytes::contains_sub;
use crate::engine::{hits_eos, spec_penalty_window, window_start, Generation, StopReason};
use crate::run::{spec_run, spec_run_from, LoopState, RunOutcome, ScriptStep, start_state};
use vstd::prelude::*;

verus! {

/// Facts carried through every run: the step count never passes the
/// budget, at most one fragment is emitted per step and none on the
/// stopping step, the cursor always equals the prompt length plus the
/// steps taken minus one, a budget stop uses the whole budget, and no
/// emitted fragment ever holds the end-of-sequence marker.
proof fn lemma_run_from_invariants(
    prompt: Seq<u32>,
    eos: Seq<u8>,
    max_tokens: nat,
    script: Seq<ScriptStep>,
    st: LoopState,
)
    requires
        st.steps <= max_tokens,
        st.fragments.len() <= st.steps,
        st.steps == 0 ==> st.cursor == 0,
        st.steps >= 1 ==> st.cursor == prompt.len() + st.steps - 1,
        forall|i: int|
            0 <= i < st.fragments.len() ==> !contains_sub(#[trigger] st.fragments[i], eos),
    ensures
        spec_run_from(prompt, eos, max_tokens, script, st) matches RunOutcome::Done(d) ==> {
            &&& st.steps <= d.steps <= max_tokens
            &&& (d.reason == StopReason::Eos ==> d.steps >= st.steps + 1)
            &&& d.fragments.len() <= st.fragments.len() + (d.steps - st.steps) - (
            if d.reason == StopReason::Eos {
                1int
            } else {
                0int
            })
            &&& (d.steps == 0 ==> d.cursor == 0)
            &&& (d.steps >= 1 ==> d.cursor == prompt.len() + d.steps - 1)
            &&& (d.reason == StopReason::MaxTokens ==> d.steps == max_tokens)
            &&& forall|i: int|
                0 <= i < d.fragments.len() ==> !contains_sub(#[trigger] d.fragments[i], eos)
        },
    decreases max_tokens - st.steps,
{
    if st.steps >= max_tokens {
        // budget stop: the state is returned as it stands
    } else if script.len() == 0 {
        // exhausted: nothing to show
    } else {
        let s = script[0];
        let fed: nat = if st.steps == 0 {
            prompt.len()
        } else {
            1nat
        };
        if hits_eos(eos, s.decoded) {
            // end-of-sequence stop: one more step, nothing emitted
        } else {
            let st2 = LoopState {
                steps: st.steps + 1,
                cursor: st.cursor + fed,
                generated: st.generated.push(s.token),
                fragments: match s.decoded {
                    Some(d) => st.fragments.push(d@),
                    None => st.fragments,
                },
            };
            match s.decoded {
                Some(d) => {
                    assert(!contains_sub(d@, eos));
                    assert(forall|i: int|
                        0 <= i < st2.fragments.len() ==> !contains_sub(
                            #[trigger] st2.fragments[i],
                            eos,
                        ));
                },
                None => {},
            }
            lemma_run_from_invariants(prompt, eos, max_tokens, script.drop_first(), st2);
        }
    }
}

/// A zero token budget finishes at once: no step runs, no fragment is
/// emitted, the cursor never moves, and the stop reason is the budget.
pub proof fn lemma_zero_budget(prompt: Seq<u32>, eos: Seq<u8>, script: Seq<ScriptStep>)
    ensures
        spec_run(prompt, eos, 0, script) matches RunOutcome::Done(d) && d.fragments.len() == 0
            && d.reason == StopReason::MaxTokens && d.steps == 0 && d.cursor == 0,
{
}

/// The run is a function of the prompt, the marker, the budget and the
/// scripted step results alone: equal inputs give equal runs, whatever
/// else differs between the two.
pub proof fn lemma_deterministic(
    prompt1: Seq<u32>,
    eos1: Seq<u8>,
    max_tokens1: nat,
    script1: Seq<ScriptStep>,
    prompt2: Seq<u32>,
    eos2: Seq<u8>,
    max_tokens2: nat,
    script2: Seq<ScriptStep>,
)
    requires
        prompt1 == prompt2,
        eos1 == eos2,
        max_tokens1 == max_tokens2,
        script1 == script2,
    ensures
        spec_run(prompt1, eos1, max_tokens1, script1) == spec_run(
            prompt2,
            eos2,
            max_tokens2,
            script2,
        ),
{
}

/// A stop on the end-of-sequence marker emits strictly fewer fragments
/// than the budget allows, and the marker's text itself is never among
/// the emitted fragments — whichever reason stopped the run.
pub proof fn lemma_eos_stops_early(
    prompt: Seq<u32>,
    eos: Seq<u8>,
    max_tokens: nat,
    script: Seq<ScriptStep>,
)
    ensures
        spec_run(prompt, eos, max_tokens, script) matches RunOutcome::Done(d) ==> {
            &&& (d.reason == StopReason::Eos ==> d.fragments.len() < max_tokens)
            &&& forall|i: int|
                0 <= i < d.fragments.len() ==> !contains_sub(#[trigger] d.fragments[i], eos)
        },
{
    lemma_run_from_invariants(prompt, eos, max_tokens, script, start_state());
}

/// After N completed steps the cursor stands at the prompt length plus
/// N minus one: the whole prompt was fed once, then one token per step.
pub proof fn lemma_cursor_position(
    prompt: Seq<u32>,
    eos: Seq<u8>,
    max_tokens: nat,
    script: Seq<ScriptStep>,
)
    ensures
        spec_run(prompt, eos, max_tokens, script) matches RunOutcome::Done(d) ==> {
            &&& (d.steps >= 1 ==> d.cursor == prompt.len() + d.steps - 1)
            &&& (d.steps == 0 ==> d.cursor == 0)
        },
{
    lemma_run_from_invariants(prompt, eos, max_tokens, script, start_state());
}

/// A budget stop takes exactly the whole budget.
pub proof fn lemma_budget_exhausted(
    prompt: Seq<u32>,
    eos: Seq<u8>,
    max_tokens: nat,
    script: Seq<ScriptStep>,
)
    ensures
        spec_run(prompt, eos, max_tokens, script) matches RunOutcome::Done(d) ==> (d.reason
            == StopReason::MaxTokens ==> d.steps == max_tokens),
{
    lemma_run_from_invariants(prompt, eos, max_tokens, script, start_state());
}

/// The penalty window is a suffix of the prompt of at most `last_n`
/// tokens: the whole prompt when it is shorter than the window length.
pub proof fn lemma_penalty_window_is_prompt_tail(prompt: Seq<u32>, last_n: nat)
    ensures
        spec_penalty_window(prompt, last_n).len() <= last_n,
        spec_penalty_window(prompt, last_n).len() == if last_n <= prompt.len() {
            last_n
        } else {
            prompt.len()
        },
        spec_penalty_window(prompt, last_n) == prompt.skip(window_start(prompt.len(), last_n)),
{
    assert(spec_penalty_window(prompt, last_n) =~= prompt.skip(
        window_start(prompt.len(), last_n),
    ));
}

/// The penalty window depends on the prompt and the window length
/// alone: two states that share them have the same window, however many
/// steps have run and whatever has been generated.
pub proof fn lemma_penalty_window_fixed(g1: Generation, g2: Generation)
    requires
        g1.prompt@ == g2.prompt@,
        g1.config.repeat_last_n == g2.config.repeat_last_n,
    ensures
        spec_penalty_window(g1.prompt@, g1.config.repeat_last_n as nat) == spec_penalty_window(
            g2.prompt@,
            g2.config.repeat_last_n as nat,
        ),
{
}

} // verus!
