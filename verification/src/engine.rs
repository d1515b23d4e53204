//! The generation loop's state machine.
//!
//! A `Generation` owns the sequence-position cursor and the token history
//! for one run of autoregressive decoding. The driver alternates between
//! `next_action`, which says what to feed the model next (the whole prompt
//! on the first step, one token afterwards), and `on_token`, which records
//! the sampled token and its decoded text and decides whether generation
//! stops. The model forward pass, the logit penalty, the sampler and the
//! detokeniser all live outside; every decision about sequencing, the
//! penalty context window and the stop conditions is made here.

use crate::bytes::{contains_bytes, contains_sub, copy_vec};
use crate::config::{ConfigError, GenerationConfig};
use vstd::prelude::*;

verus! {

/// Why a finished generation stopped.
#[derive(Clone, Copy, Debug, PartialEq, Eq, Structural)]
pub enum StopReason {
    /// The budget of `max_tokens` steps was used up.
    MaxTokens,
    /// A sampled token decoded to text holding the end-of-sequence marker.
    Eos,
}

/// The tokens to feed to the model on the next forward pass.
#[derive(Clone, Debug)]
pub enum InputChunk {
    /// The whole prompt, fed once on the first step.
    Prefill(Vec<u32>),
    /// The single most recently sampled token, fed on every later step.
    Token(u32),
}

/// What the driver must do next.
#[derive(Clone, Debug)]
pub enum Action {
    /// Run the model on `chunk` with the incremental state at position
    /// `cursor`, then penalise, sample and decode, and hand the result
    /// back through `on_token`.
    Forward { chunk: InputChunk, cursor: usize },
    /// Generation is over for the given reason.
    Finished(StopReason),
}

/// What one completed step did.
#[derive(Clone, Copy, Debug, PartialEq, Eq, Structural)]
pub enum StepOutcome {
    /// The decoded text was recorded as an emitted fragment.
    Emitted,
    /// The token had no decoded text; the step advanced without emitting.
    Skipped,
    /// The decoded text hit the end-of-sequence marker; nothing was
    /// emitted and generation stopped.
    Eos,
}

/// Decoded text ends the run when it holds the marker as a substring;
/// text that is exactly the marker is the special case of that.
/// A token with no decoded text never ends the run.
pub open spec fn hits_eos(eos: Seq<u8>, decoded: Option<Vec<u8>>) -> bool {
    decoded matches Some(d) && contains_sub(d@, eos)
}

/// Start of the repeat-penalty window inside the prompt: the last
/// `last_n` prompt positions, or the whole prompt when it is shorter.
pub open spec fn window_start(prompt_len: nat, last_n: nat) -> int {
    if last_n <= prompt_len {
        prompt_len - last_n
    } else {
        0
    }
}

/// The repeat-penalty context window: a trailing slice of the prompt
/// alone. Generated tokens never enter it, on any step.
pub open spec fn spec_penalty_window(prompt: Seq<u32>, last_n: nat) -> Seq<u32> {
    prompt.subrange(window_start(prompt.len(), last_n), prompt.len() as int)
}

/// State of one generation run.
///
/// `cursor` counts the tokens already incorporated into the model's
/// incremental state; `steps` counts the sampling steps taken, the one
/// that hit the end-of-sequence marker included.
pub struct Generation {
    /// The prompt tokens, fixed for the whole run.
    pub prompt: Vec<u32>,
    /// The loop parameters, fixed for the whole run.
    pub config: GenerationConfig,
    /// Every sampled token that was fed back to the model, in order.
    pub generated: Vec<u32>,
    /// The decoded text fragments emitted so far, in order.
    pub fragments: Vec<Vec<u8>>,
    /// Tokens already fed to the model across all forward passes.
    pub cursor: usize,
    /// Sampling steps taken so far.
    pub steps: usize,
    /// Whether the end-of-sequence marker has been produced.
    pub eos_seen: bool,
}

impl Generation {
    /// The emitted fragments as mathematical sequences.
    pub open spec fn frags(self) -> Seq<Seq<u8>> {
        self.fragments.deep_view()
    }

    /// Prompt plus everything generated so far.
    pub open spec fn spec_history(self) -> Seq<u32> {
        self.prompt@ + self.generated@
    }

    /// Well-formedness: the cursor always equals the prompt length plus
    /// the number of steps minus one (one whole-prompt feed, then one
    /// token per step), the token history grows by one per step that did
    /// not stop, and the budget is never exceeded.
    pub open spec fn wf(self) -> bool {
        &&& self.prompt@.len() >= 1
        &&& self.prompt@.len() + self.config.max_tokens <= usize::MAX
        &&& self.steps <= self.config.max_tokens
        &&& (self.eos_seen ==> self.steps >= 1 && self.generated@.len() == self.steps - 1)
        &&& (!self.eos_seen ==> self.generated@.len() == self.steps)
        &&& (self.steps == 0 ==> self.cursor == 0)
        &&& (self.steps >= 1 ==> self.cursor == self.prompt@.len() + self.steps - 1)
        &&& self.frags().len() <= self.generated@.len()
    }

    /// Another step may run: no end-of-sequence yet and budget left.
    pub open spec fn can_step(self) -> bool {
        !self.eos_seen && self.steps < self.config.max_tokens
    }

    /// How many tokens the next forward pass would feed.
    pub open spec fn chunk_len(self) -> nat {
        if self.steps == 0 {
            self.prompt@.len()
        } else {
            1nat
        }
    }

    /// The stop reason, once one holds. End-of-sequence wins over the
    /// budget when both hold on the same step.
    pub open spec fn spec_stop_reason(self) -> Option<StopReason> {
        if self.eos_seen {
            Some(StopReason::Eos)
        } else if self.steps >= self.config.max_tokens {
            Some(StopReason::MaxTokens)
        } else {
            None
        }
    }

    /// Start a run. The prompt must be non-empty; a zero `max_tokens`
    /// budget is accepted and finishes immediately.
    pub fn new(prompt: Vec<u32>, config: GenerationConfig) -> (r: Result<Generation, ConfigError>)
        requires
            prompt@.len() + config.max_tokens <= usize::MAX,
        ensures
            prompt@.len() == 0 <==> r is Err,
            r is Err ==> r == Err::<Generation, ConfigError>(ConfigError::EmptyPrompt),
            r matches Ok(g) ==> {
                &&& g.wf()
                &&& g.prompt@ == prompt@
                &&& g.config == config
                &&& g.steps == 0
                &&& g.cursor == 0
                &&& g.generated@.len() == 0
                &&& g.frags().len() == 0
                &&& !g.eos_seen
            },
    {
        if prompt.len() == 0 {
            return Err(ConfigError::EmptyPrompt);
        }
        let g = Generation {
            prompt,
            config,
            generated: Vec::new(),
            fragments: Vec::new(),
            cursor: 0,
            steps: 0,
            eos_seen: false,
        };
        proof {
            assert(g.frags() =~= Seq::<Seq<u8>>::empty());
        }
        Ok(g)
    }

    /// What the driver must do next: feed the prompt on the first step,
    /// the last sampled token on every later one, or finish.
    pub fn next_action(&self) -> (r: Action)
        requires
            self.wf(),
        ensures
            self.eos_seen ==> r == Action::Finished(StopReason::Eos),
            !self.eos_seen && self.steps >= self.config.max_tokens ==> r == Action::Finished(
                StopReason::MaxTokens,
            ),
            self.can_step() ==> {
                &&& r matches Action::Forward { chunk, cursor: at }
                &&& at == self.cursor
                &&& (self.steps == 0 ==> (chunk matches InputChunk::Prefill(p) && p@
                    == self.prompt@))
                &&& (self.steps >= 1 ==> chunk == InputChunk::Token(self.generated@.last()))
            },
    {
        if self.eos_seen {
            Action::Finished(StopReason::Eos)
        } else if self.steps >= self.config.max_tokens {
            Action::Finished(StopReason::MaxTokens)
        } else if self.steps == 0 {
            Action::Forward { chunk: InputChunk::Prefill(copy_vec(&self.prompt)), cursor: self.cursor }
        } else {
            Action::Forward {
                chunk: InputChunk::Token(self.generated[self.generated.len() - 1]),
                cursor: self.cursor,
            }
        }
    }

    /// Record the outcome of one step: the sampled token and its decoded
    /// text, if it had one.
    ///
    /// The cursor always advances by the length of the chunk just fed.
    /// If the text holds the end-of-sequence marker, the run stops and
    /// the text is not emitted. Otherwise the token joins the history and
    /// will be the next chunk, and the text, when present, is emitted.
    pub fn on_token(&mut self, token: u32, decoded: Option<Vec<u8>>) -> (r: StepOutcome)
        requires
            old(self).wf(),
            old(self).can_step(),
        ensures
            final(self).wf(),
            final(self).prompt@ == old(self).prompt@,
            final(self).config == old(self).config,
            final(self).steps == old(self).steps + 1,
            final(self).cursor == old(self).cursor + old(self).chunk_len(),
            hits_eos(old(self).config.eos@, decoded) ==> {
                &&& final(self).eos_seen
                &&& final(self).generated@ == old(self).generated@
                &&& final(self).frags() == old(self).frags()
                &&& r == StepOutcome::Eos
            },
            !hits_eos(old(self).config.eos@, decoded) ==> {
                &&& !final(self).eos_seen
                &&& final(self).generated@ == old(self).generated@.push(token)
                &&& (decoded matches Some(d) ==> final(self).frags() == old(self).frags().push(d@)
                    && r == StepOutcome::Emitted)
                &&& (decoded is None ==> final(self).frags() == old(self).frags() && r
                    == StepOutcome::Skipped)
            },
    {
        let fed: usize = if self.steps == 0 {
            self.prompt.len()
        } else {
            1
        };
        self.cursor = self.cursor + fed;
        self.steps = self.steps + 1;
        match decoded {
            Some(d) => {
                if contains_bytes(&d, &self.config.eos) {
                    self.eos_seen = true;
                    StepOutcome::Eos
                } else {
                    self.generated.push(token);
                    let ghost before = self.fragments.deep_view();
                    let ghost dv = d@;
                    self.fragments.push(d);
                    proof {
                        assert(self.fragments.deep_view() =~~= before.push(dv));
                    }
                    StepOutcome::Emitted
                }
            },
            None => {
                self.generated.push(token);
                StepOutcome::Skipped
            },
        }
    }

    /// The stop reason, once one holds.
    pub fn stop_reason(&self) -> (r: Option<StopReason>)
        ensures
            r == self.spec_stop_reason(),
    {
        if self.eos_seen {
            Some(StopReason::Eos)
        } else if self.steps >= self.config.max_tokens {
            Some(StopReason::MaxTokens)
        } else {
            None
        }
    }

    /// The repeat-penalty context to hand to the penalty function, or
    /// nothing when the penalty is disabled. The window is a trailing
    /// slice of the prompt of at most `repeat_last_n` tokens; it is the
    /// same on every step and never includes generated tokens.
    pub fn penalty_window(&self) -> (r: Option<Vec<u32>>)
        ensures
            r is Some <==> self.config.penalty_enabled,
            r matches Some(w) ==> w@ == spec_penalty_window(
                self.prompt@,
                self.config.repeat_last_n as nat,
            ),
    {
        if !self.config.penalty_enabled {
            return None;
        }
        let start: usize = if self.config.repeat_last_n <= self.prompt.len() {
            self.prompt.len() - self.config.repeat_last_n
        } else {
            0
        };
        let mut w: Vec<u32> = Vec::new();
        let mut i: usize = start;
        while i < self.prompt.len()
            invariant
                start == window_start(self.prompt@.len(), self.config.repeat_last_n as nat),
                start <= i <= self.prompt@.len(),
                w@ == self.prompt@.subrange(start as int, i as int),
            decreases self.prompt@.len() - i,
        {
            w.push(self.prompt[i]);
            proof {
                assert(w@ =~= self.prompt@.subrange(start as int, i + 1));
            }
            i += 1;
        }
        Some(w)
    }

    /// Prompt plus everything generated so far, as one vector.
    pub fn history(&self) -> (r: Vec<u32>)
        ensures
            r@ == self.spec_history(),
    {
        let mut r = copy_vec(&self.prompt);
        let mut i: usize = 0;
        while i < self.generated.len()
            invariant
                i <= self.generated@.len(),
                r@ == self.prompt@ + self.generated@.subrange(0, i as int),
            decreases self.generated@.len() - i,
        {
            r.push(self.generated[i]);
            proof {
                assert(r@ =~= self.prompt@ + self.generated@.subrange(0, i + 1));
            }
            i += 1;
        }
        proof {
            assert(self.generated@.subrange(0, self.generated@.len() as int) =~= self.generated@);
        }
        r
    }
}

} // verus!
