//! Message-exchange abstraction over LLM inference backends.
//!
//! Providers sit outside the enforcement core: they produce the proposed
//! invocations that the engine evaluates, and are specified only at this
//! interface boundary.

use vstd::prelude::*;
use crate::error::CherubError;

verus! {

/// Messages exchanged between the runtime and LLM providers.
pub enum Message {
    User { content: String },
    Assistant { content: String },
}

/// Extension point for LLM inference backends.
pub trait Provider: Send + Sync {
    fn name(&self) -> &str;

    fn complete(&self, messages: &[Message]) -> Result<Message, CherubError>;
}

/// Anthropic API provider; actual API communication is not wired up yet, so
/// completion reports a provider error.
pub struct AnthropicProvider;

impl Provider for AnthropicProvider {
    fn name(&self) -> (r: &str)
        ensures
            r@ == "anthropic"@,
    {
        "anthropic"
    }

    fn complete(&self, messages: &[Message]) -> (r: Result<Message, CherubError>)
        ensures
            r matches Err(e) && (e matches CherubError::Provider(s) && s@ == "not implemented"@),
    {
        let _ = messages;
        Err(CherubError::Provider("not implemented".to_owned()))
    }
}

} // verus!
