//! An interactive-session driver core for a locally hosted causal language
//! model: role-tagged chat templating, a token-budgeted history of past
//! turns, prompt assembly, and the autoregressive generation state machine.

pub mod args;
pub mod chat;
pub mod engine;
