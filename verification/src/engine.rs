//! The autoregressive generation state machine: prefill/decode cursor
//! management, repeat-penalty windowing and termination detection.
//!
//! The numeric work of a session — tensor forwards, logit rescoring and
//! sampling — happens outside this crate, in floating point. This module
//! owns every decision around it: which token window to forward at which
//! offset, whether and where a repeat penalty applies, when the run is
//! over, and which tokens form the returned continuation.

use vstd::prelude::*;

verus! {

/// Where a generation session stands.
#[derive(Clone, Copy, Debug, PartialEq, Eq, Structural)]
pub enum Phase {
    /// The whole prompt still has to be forwarded once, at offset zero.
    Prefill,
    /// Only the newest token is forwarded each step.
    Decode,
    /// The end-of-statement token was produced; nothing more is forwarded.
    Terminated,
}

/// The part of a session during which something can fail.
#[derive(Clone, Copy, Debug, PartialEq, Eq, Structural)]
pub enum SessionStage {
    Encode,
    Prefill,
    Decode,
    DecodeOutput,
}

/// A fatal session failure; none is retried.
#[derive(Clone, Copy, Debug, PartialEq, Eq, Structural)]
pub enum EngineError {
    /// No end-of-statement token could be resolved; no session can start.
    ConfigurationFault,
    /// The tokenizer could not encode the prompt.
    EncodeError,
    /// A forward pass of the model failed at the given stage.
    ModelForwardError(SessionStage),
    /// The tokenizer could not decode the generated tokens.
    DecodeError,
}

/// The mathematical state of a generation session.
pub struct SessionModel {
    /// The live token sequence: the prompt, then one token per decode step.
    pub tokens: Seq<u32>,
    /// How many of `tokens` belong to the original prompt.
    pub prompt_len: nat,
    /// The sentinel token whose generation ends the run.
    pub eos: u32,
    /// The size of the trailing repeat-penalty window.
    pub repeat_window: nat,
    /// Whether repeat-penalty rescoring is requested at all.
    pub penalty_enabled: bool,
    pub phase: Phase,
}

impl SessionModel {
    /// The state invariant: the prompt is a prefix of the token sequence,
    /// prefill happens exactly while nothing has been generated, and a
    /// terminated session ends in its end-of-statement token.
    pub open spec fn wf(self) -> bool {
        &&& self.prompt_len <= self.tokens.len()
        &&& (self.phase is Prefill <==> self.tokens.len() == self.prompt_len)
        &&& (self.phase is Terminated ==> self.tokens.len() > self.prompt_len
            && self.tokens.last() == self.eos)
    }
}

/// The state a fresh session starts in.
pub open spec fn init_model(
    prompt: Seq<u32>,
    eos: u32,
    repeat_window: nat,
    penalty_enabled: bool,
) -> SessionModel {
    SessionModel {
        tokens: prompt,
        prompt_len: prompt.len(),
        eos,
        repeat_window,
        penalty_enabled,
        phase: Phase::Prefill,
    }
}

/// One accepted sampled token: it is appended, and the session terminates
/// exactly when it is the end-of-statement token.
pub open spec fn step_spec(m: SessionModel, t: u32) -> SessionModel {
    SessionModel {
        tokens: m.tokens.push(t),
        phase: if t == m.eos {
            Phase::Terminated
        } else {
            Phase::Decode
        },
        ..m
    }
}

/// The session state after accepting `events` in order, stopping early
/// if the session terminates.
pub open spec fn run_steps(m: SessionModel, events: Seq<u32>) -> SessionModel
    decreases events.len(),
{
    if events.len() == 0 || m.phase is Terminated {
        m
    } else {
        run_steps(step_spec(m, events[0]), events.drop_first())
    }
}

/// The prefix of `events` a session accepts: everything up to and
/// including the first end-of-statement token, or all of them.
pub open spec fn taken_until_eos(events: Seq<u32>, eos: u32) -> Seq<u32>
    decreases events.len(),
{
    if events.len() == 0 {
        Seq::empty()
    } else if events[0] == eos {
        seq![eos]
    } else {
        seq![events[0]] + taken_until_eos(events.drop_first(), eos)
    }
}

/// Where the trailing repeat-penalty window starts: the last
/// `repeat_window` positions of the sequence, or all of it when shorter.
pub open spec fn spec_penalty_start(m: SessionModel) -> nat {
    if m.tokens.len() <= m.repeat_window {
        0
    } else {
        (m.tokens.len() - m.repeat_window) as nat
    }
}

/// Law: a step never returns to prefill, and lengthens the sequence by
/// exactly one, so decode offsets, one less than the length, strictly
/// increase: the model sees one full-prompt call at offset zero, then
/// single-token calls at ever higher offsets.
pub proof fn lemma_prefill_happens_once(m: SessionModel, t: u32)
    requires
        m.wf(),
        !(m.phase is Terminated),
    ensures
        !(step_spec(m, t).phase is Prefill),
        step_spec(m, t).tokens.len() == m.tokens.len() + 1,
        step_spec(m, t).wf(),
{
}

/// Law: generation is deterministic. Two sessions in equal states fed
/// equal event sequences end in equal states; the sampled events are the
/// only outside input a session depends on.
pub proof fn lemma_generation_deterministic(m1: SessionModel, m2: SessionModel, events: Seq<u32>)
    requires
        m1 == m2,
    ensures
        run_steps(m1, events) == run_steps(m2, events),
{
}

/// Law: a run accepts events exactly up to and including the first
/// end-of-statement token, appends just those to the sequence, and
/// terminates precisely when one occurred.
pub proof fn lemma_run_generates_until_eos(m: SessionModel, events: Seq<u32>)
    requires
        m.wf(),
        !(m.phase is Terminated),
    ensures
        run_steps(m, events).tokens == m.tokens + taken_until_eos(events, m.eos),
        run_steps(m, events).phase is Terminated <==> events.contains(m.eos),
        run_steps(m, events).prompt_len == m.prompt_len,
        run_steps(m, events).eos == m.eos,
        run_steps(m, events).wf(),
    decreases events.len(),
{
    if events.len() == 0 {
        assert(m.tokens + taken_until_eos(events, m.eos) =~= m.tokens);
    } else {
        let m1 = step_spec(m, events[0]);
        if events[0] == m.eos {
            assert(events.contains(m.eos));
            assert(run_steps(m, events) == run_steps(m1, events.drop_first()));
            assert(run_steps(m1, events.drop_first()) == m1);
            assert(m.tokens + taken_until_eos(events, m.eos) =~= m.tokens.push(m.eos));
        } else {
            lemma_run_generates_until_eos(m1, events.drop_first());
            assert(m.tokens + taken_until_eos(events, m.eos) =~= m.tokens.push(events[0])
                + taken_until_eos(events.drop_first(), m.eos));
            assert(events.contains(m.eos) <==> events.drop_first().contains(m.eos)) by {
                if events.drop_first().contains(m.eos) {
                    let i = choose|i: int|
                        0 <= i < events.drop_first().len() && events.drop_first()[i] == m.eos;
                    assert(events[i + 1] == m.eos);
                }
                if events.contains(m.eos) {
                    let i = choose|i: int| 0 <= i < events.len() && events[i] == m.eos;
                    assert(events.drop_first()[i - 1] == m.eos);
                }
            }
        }
    }
}

/// One forward call to make against the model: the token window to hand
/// over and the position offset it starts at.
pub struct ForwardPlan {
    pub window: Vec<u32>,
    pub offset: usize,
}

fn copy_range(v: &Vec<u32>, start: usize, end: usize) -> (r: Vec<u32>)
    requires
        start <= end <= v@.len(),
    ensures
        r@ == v@.subrange(start as int, end as int),
{
    let mut r: Vec<u32> = Vec::new();
    proof {
        assert(v@.subrange(start as int, start as int) =~= Seq::<u32>::empty());
    }
    let mut i = start;
    while i < end
        invariant
            start <= i <= end <= v@.len(),
            r@ == v@.subrange(start as int, i as int),
        decreases end - i,
    {
        let x = v[i];
        r.push(x);
        proof {
            assert(v@.subrange(start as int, i + 1) =~= v@.subrange(start as int, i as int).push(
                v@[i as int],
            ));
        }
        i = i + 1;
    }
    r
}

/// The live state of one generation session. It owns the growing token
/// sequence exclusively; the model, sampler and tokenizer stay outside.
pub struct GenerationSession {
    tokens: Vec<u32>,
    prompt_len: usize,
    eos_token_id: u32,
    repeat_last_n: usize,
    penalty_enabled: bool,
    phase: Phase,
}

impl View for GenerationSession {
    type V = SessionModel;

    closed spec fn view(&self) -> SessionModel {
        SessionModel {
            tokens: self.tokens@,
            prompt_len: self.prompt_len as nat,
            eos: self.eos_token_id,
            repeat_window: self.repeat_last_n as nat,
            penalty_enabled: self.penalty_enabled,
            phase: self.phase,
        }
    }
}

impl GenerationSession {
    /// Starts a session over an already-tokenized prompt.
    pub fn new(
        prompt_tokens: Vec<u32>,
        eos_token_id: u32,
        repeat_last_n: usize,
        penalty_enabled: bool,
    ) -> (s: GenerationSession)
        ensures
            s@ == init_model(prompt_tokens@, eos_token_id, repeat_last_n as nat, penalty_enabled),
            s@.wf(),
    {
        let prompt_len = prompt_tokens.len();
        GenerationSession {
            tokens: prompt_tokens,
            prompt_len,
            eos_token_id,
            repeat_last_n,
            penalty_enabled,
            phase: Phase::Prefill,
        }
    }

    /// The next forward call to make: in prefill the entire sequence at
    /// offset zero, in decode only the newest token at the last position.
    pub fn next_request(&self) -> (p: ForwardPlan)
        requires
            self@.wf(),
            !(self@.phase is Terminated),
        ensures
            self@.phase is Prefill ==> p.window@ == self@.tokens && p.offset == 0,
            self@.phase is Decode ==> p.window@ == self@.tokens.subrange(
                self@.tokens.len() - 1,
                self@.tokens.len() as int,
            ) && p.offset + 1 == self@.tokens.len(),
            p.offset + p.window@.len() == self@.tokens.len(),
    {
        match self.phase {
            Phase::Prefill => ForwardPlan {
                window: copy_range(&self.tokens, 0, self.tokens.len()),
                offset: 0,
            },
            Phase::Decode => {
                let off = self.tokens.len() - 1;
                ForwardPlan { window: copy_range(&self.tokens, off, self.tokens.len()), offset: off }
            },
            Phase::Terminated => unreached(),
        }
    }

    /// The trailing token window to penalize, or nothing when rescoring
    /// is disabled: that a disabled penalty requests no rescoring at all
    /// is the observable no-op distinction.
    pub fn penalty_context(&self) -> (w: Option<Vec<u32>>)
        requires
            self@.wf(),
        ensures
            w is Some <==> self@.penalty_enabled,
            w matches Some(v) ==> v@ == self@.tokens.subrange(
                spec_penalty_start(self@) as int,
                self@.tokens.len() as int,
            ),
    {
        if self.penalty_enabled {
            let len = self.tokens.len();
            let start = if len <= self.repeat_last_n {
                0
            } else {
                len - self.repeat_last_n
            };
            Some(copy_range(&self.tokens, start, len))
        } else {
            None
        }
    }

    /// Accepts one sampled token: appends it, leaves prefill behind, and
    /// terminates exactly when it is the end-of-statement token.
    pub fn accept_token(&mut self, t: u32) -> (done: bool)
        requires
            old(self)@.wf(),
            !(old(self)@.phase is Terminated),
        ensures
            final(self)@ == step_spec(old(self)@, t),
            final(self)@.wf(),
            done <==> t == old(self)@.eos,
            done <==> final(self)@.phase is Terminated,
    {
        self.tokens.push(t);
        let done = t == self.eos_token_id;
        self.phase = if done {
            Phase::Terminated
        } else {
            Phase::Decode
        };
        done
    }

    /// Whether the end-of-statement token has been produced.
    pub fn is_terminated(&self) -> (r: bool)
        ensures
            r <==> self@.phase is Terminated,
    {
        match self.phase {
            Phase::Terminated => true,
            _ => false,
        }
    }

    /// How many tokens the session has generated beyond the prompt.
    pub fn generated_count(&self) -> (n: usize)
        requires
            self@.wf(),
        ensures
            n == self@.tokens.len() - self@.prompt_len,
    {
        self.tokens.len() - self.prompt_len
    }

    /// The whole live token sequence, prompt included.
    pub fn all_tokens(&self) -> (t: &Vec<u32>)
        ensures
            t@ == self@.tokens,
    {
        &self.tokens
    }

    /// The generated continuation in token space: everything after the
    /// prompt, without the terminating end-of-statement token. The
    /// prompt/continuation boundary is a token index, never a slice of
    /// decoded text.
    pub fn continuation_tokens(&self) -> (v: Vec<u32>)
        requires
            self@.wf(),
        ensures
            self@.phase is Terminated ==> v@ == self@.tokens.subrange(
                self@.prompt_len as int,
                self@.tokens.len() - 1,
            ),
            !(self@.phase is Terminated) ==> v@ == self@.tokens.subrange(
                self@.prompt_len as int,
                self@.tokens.len() as int,
            ),
    {
        let end = match self.phase {
            Phase::Terminated => self.tokens.len() - 1,
            _ => self.tokens.len(),
        };
        copy_range(&self.tokens, self.prompt_len, end)
    }
}

/// Resolves the end-of-statement token for a session: model metadata
/// wins, a caller-supplied fallback comes next, and with neither the
/// session cannot be configured.
pub fn resolve_eos(metadata_eos: Option<u32>, argument_eos: Option<u32>) -> (r: Result<
    u32,
    EngineError,
>)
    ensures
        metadata_eos matches Some(m) ==> r == Ok::<u32, EngineError>(m),
        metadata_eos is None ==> (argument_eos matches Some(a) ==> r == Ok::<u32, EngineError>(a)),
        metadata_eos is None && argument_eos is None ==> r == Err::<u32, EngineError>(
            EngineError::ConfigurationFault,
        ),
{
    match metadata_eos {
        Some(m) => Ok(m),
        None => match argument_eos {
            Some(a) => Ok(a),
            None => Err(EngineError::ConfigurationFault),
        },
    }
}

} // verus!
