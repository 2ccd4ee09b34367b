//! Plain configuration values handed in by whatever shell drives a
//! session; parsing and validation stay outside the library.

use vstd::prelude::*;

verus! {

/// The model families a session can be asked to drive.
#[derive(Clone, Copy, Debug, PartialEq, Eq, Structural)]
pub enum SupportedBaseModels {
    Mistral,
    Llama,
    Rwkv,
}

/// The single user prompt of a one-shot invocation.
#[derive(Clone, Debug)]
pub struct PromptArg {
    pub prompt: String,
}

/// What the caller asks for: an interactive loop, or exactly one prompt.
#[derive(Clone, Debug)]
pub enum Commands {
    /// Read a user prompt per iteration and print each inference output.
    Ripl,
    /// Execute exactly one prompt; chat history stays disabled.
    Single(PromptArg),
}

} // verus!
