use llmchat::engine::{resolve_eos, EngineError, GenerationSession};

/// A stand-in for the sampler: hands out a fixed script of token ids.
struct ScriptedSampler {
    script: Vec<u32>,
    at: usize,
}

impl ScriptedSampler {
    fn new(script: Vec<u32>) -> ScriptedSampler {
        ScriptedSampler { script, at: 0 }
    }

    fn next(&mut self) -> u32 {
        let t = self.script[self.at];
        self.at += 1;
        t
    }
}

fn drive(prompt: Vec<u32>, eos: u32, sampler: &mut ScriptedSampler) -> GenerationSession {
    let mut session = GenerationSession::new(prompt, eos, 64, false);
    loop {
        let _plan = session.next_request();
        let token = sampler.next();
        if session.accept_token(token) {
            break;
        }
    }
    session
}

#[test]
fn resolve_eos_prefers_model_metadata() {
    assert_eq!(resolve_eos(Some(2), Some(7)), Ok(2));
    assert_eq!(resolve_eos(Some(2), None), Ok(2));
}

#[test]
fn resolve_eos_falls_back_to_argument() {
    assert_eq!(resolve_eos(None, Some(7)), Ok(7));
}

#[test]
fn resolve_eos_without_any_source_is_a_configuration_fault() {
    assert_eq!(resolve_eos(None, None), Err(EngineError::ConfigurationFault));
}

#[test]
fn terminates_on_fifth_decode_step() {
    let eos = 42u32;
    let mut sampler = ScriptedSampler::new(vec![10, 11, 12, 13, eos]);
    let session = drive(vec![1, 2, 3], eos, &mut sampler);
    assert!(session.is_terminated());
    // Five tokens were generated: four ordinary ones and the terminating
    // end-of-statement token, which the continuation excludes.
    assert_eq!(session.generated_count(), 5);
    assert_eq!(session.continuation_tokens(), vec![10, 11, 12, 13]);
    assert_eq!(session.all_tokens().clone(), vec![1, 2, 3, 10, 11, 12, 13, eos]);
}

#[test]
fn prefill_once_then_single_tokens_at_increasing_offsets() {
    let eos = 9u32;
    let prompt = vec![5u32, 6, 7];
    let mut sampler = ScriptedSampler::new(vec![20, 21, 22, eos]);
    let mut session = GenerationSession::new(prompt.clone(), eos, 64, false);
    let mut calls: Vec<(Vec<u32>, usize)> = Vec::new();
    loop {
        let plan = session.next_request();
        calls.push((plan.window, plan.offset));
        let token = sampler.next();
        if session.accept_token(token) {
            break;
        }
    }
    // Exactly one call carries the full prompt window at offset zero.
    assert_eq!(calls[0], (prompt, 0));
    // Every later call forwards a single token at strictly increasing offsets.
    for i in 1..calls.len() {
        assert_eq!(calls[i].0.len(), 1);
        assert_eq!(calls[i].1, 2 + i);
        assert!(calls[i].1 > calls[i - 1].1);
    }
    assert_eq!(calls.len(), 4);
}

#[test]
fn identical_inputs_generate_identical_sequences() {
    let eos = 3u32;
    let script = vec![8u32, 7, 8, 5, 3];
    let mut s1 = ScriptedSampler::new(script.clone());
    let mut s2 = ScriptedSampler::new(script);
    let a = drive(vec![1, 2], eos, &mut s1);
    let b = drive(vec![1, 2], eos, &mut s2);
    assert_eq!(a.continuation_tokens(), b.continuation_tokens());
    assert_eq!(a.all_tokens(), b.all_tokens());
    assert_eq!(a.generated_count(), b.generated_count());
}

#[test]
fn disabled_penalty_requests_no_rescoring() {
    let mut session = GenerationSession::new(vec![1, 2, 3], 9, 2, false);
    assert_eq!(session.penalty_context(), None);
    session.accept_token(4);
    assert_eq!(session.penalty_context(), None);
}

#[test]
fn enabled_penalty_windows_the_trailing_tokens() {
    let mut session = GenerationSession::new(vec![1, 2, 3], 9, 2, true);
    // Window of two: only the last two tokens are penalized.
    assert_eq!(session.penalty_context(), Some(vec![2, 3]));
    session.accept_token(4);
    assert_eq!(session.penalty_context(), Some(vec![3, 4]));
    // A window larger than the sequence covers the whole sequence.
    let short = GenerationSession::new(vec![1, 2], 9, 64, true);
    assert_eq!(short.penalty_context(), Some(vec![1, 2]));
}

#[test]
fn unterminated_continuation_has_no_tail_cut() {
    let mut session = GenerationSession::new(vec![1, 2], 9, 64, false);
    session.accept_token(5);
    session.accept_token(6);
    assert!(!session.is_terminated());
    assert_eq!(session.continuation_tokens(), vec![5, 6]);
}
