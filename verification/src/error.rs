//! Error taxonomy of the enforcement layer.
//!
//! Policy-source problems split into load errors (an unusable document) and
//! validation errors (a well-formed document with invalid content). Both fail
//! closed: no engine runs with an unparseable or invalid policy.
//! Decision-time denials are not errors at all — they are `Reject` decisions.

use vstd::prelude::*;
use vstd::string::*;

verus! {

#[derive(Debug)]
pub enum CherubError {
    /// An action was attempted without the required clearance.
    NotPermitted,
    /// A tool ran and failed; reported after the verdict, never affecting it.
    ToolExecution(String),
    /// An LLM backend failed to produce a message.
    Provider(String),
    /// A proposed invocation was structurally unusable.
    InvalidInvocation(String),
    /// The policy source is unusable: malformed document, unknown field,
    /// invalid tier string, oversized or unreadable file.
    PolicyLoad(String),
    /// The policy document is well-formed but semantically invalid: an empty
    /// pattern list, a malformed pattern, or a pattern-set resource limit.
    PolicyValidation(String),
}

impl CherubError {
    /// The human-readable description of this error.
    pub open spec fn spec_message(self) -> Seq<char> {
        match self {
            CherubError::NotPermitted => "action not permitted"@,
            CherubError::ToolExecution(s) => "tool execution failed: "@ + s@,
            CherubError::Provider(s) => "provider error: "@ + s@,
            CherubError::InvalidInvocation(s) => "invalid tool invocation: "@ + s@,
            CherubError::PolicyLoad(s) => "policy error: "@ + s@,
            CherubError::PolicyValidation(s) => "invalid policy: "@ + s@,
        }
    }

    /// Render the error as text for the operator.
    pub fn message(&self) -> (r: String)
        ensures
            r@ == self.spec_message(),
    {
        match self {
            CherubError::NotPermitted => "action not permitted".to_owned(),
            CherubError::ToolExecution(s) => prefixed("tool execution failed: ", s.as_str()),
            CherubError::Provider(s) => prefixed("provider error: ", s.as_str()),
            CherubError::InvalidInvocation(s) => prefixed("invalid tool invocation: ", s.as_str()),
            CherubError::PolicyLoad(s) => prefixed("policy error: ", s.as_str()),
            CherubError::PolicyValidation(s) => prefixed("invalid policy: ", s.as_str()),
        }
    }
}

/// Concatenate a fixed prefix with detail text.
fn prefixed(prefix: &str, detail: &str) -> (r: String)
    ensures
        r@ == prefix@ + detail@,
{
    let mut s = prefix.to_owned();
    s.append(detail);
    s
}

} // verus!
