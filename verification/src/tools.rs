//! Tool invocations and the typestate execution gate.
//!
//! A `ToolInvocation<Proposed>` is inert: no execution entry point exists for
//! it. Only the enforcement algorithm can transition it to
//! `ToolInvocation<Evaluated>`, and execution additionally consumes a
//! `CapabilityToken`, so an unevaluated or unapproved invocation cannot run.

use core::marker::PhantomData;
use vstd::prelude::*;
use crate::capability::CapabilityToken;
use crate::error::CherubError;

verus! {

#[verifier::external_type_specification]
#[verifier::external_body]
pub struct ExJsonValue(serde_json::Value);

/// Typestate: tool invocation parsed from model output, not yet evaluated.
pub struct Proposed;

/// Typestate: the enforcement layer has evaluated this invocation.
pub struct Evaluated;

/// A tool invocation progressing through the enforcement pipeline.
///
/// `ToolInvocation<Proposed>` → enforcement evaluates → `ToolInvocation<Evaluated>`
///
/// `execute()` only exists on `Evaluated` — the compiler rejects calls on
/// `Proposed` — and the transition is crate-private, so no caller can reach
/// execution without passing through enforcement.
#[verifier::reject_recursive_types(State)]
pub struct ToolInvocation<State> {
    pub(crate) tool: String,
    pub(crate) action: String,
    pub(crate) params: serde_json::Value,
    _state: PhantomData<State>,
}

/// What an invocation carries: tool name, action name, and the parameter bag.
pub ghost struct InvocationView {
    pub tool: Seq<char>,
    pub action: Seq<char>,
    pub params: serde_json::Value,
}

impl<State> View for ToolInvocation<State> {
    type V = InvocationView;

    closed spec fn view(&self) -> InvocationView {
        InvocationView { tool: self.tool@, action: self.action@, params: self.params }
    }
}

impl<State> ToolInvocation<State> {
    /// The tool name this invocation addresses.
    pub fn tool_ref(&self) -> (r: &str)
        ensures
            r@ == self@.tool,
    {
        self.tool.as_str()
    }

    /// The parameter bag this invocation carries.
    pub fn params_ref(&self) -> (r: &serde_json::Value)
        ensures
            *r == self@.params,
    {
        &self.params
    }
}

impl ToolInvocation<Proposed> {
    /// Build a freshly proposed invocation from producer output.
    pub fn new(tool: &str, action: &str, params: serde_json::Value) -> (r: Self)
        ensures
            r@ == (InvocationView { tool: tool@, action: action@, params }),
    {
        ToolInvocation {
            tool: tool.to_owned(),
            action: action.to_owned(),
            params,
            _state: PhantomData,
        }
    }

    /// Transition to the Evaluated state. Only callable within the crate, by
    /// the enforcement algorithm.
    pub(crate) fn transition(self) -> (r: ToolInvocation<Evaluated>)
        ensures
            r@ == self@,
    {
        ToolInvocation {
            tool: self.tool,
            action: self.action,
            params: self.params,
            _state: PhantomData,
        }
    }
}

impl ToolInvocation<Evaluated> {
    /// Execute the invocation. Requires a `CapabilityToken`, which is moved
    /// in and thereby consumed: a second execution with what was the same
    /// token cannot compile. Tool dispatch is not wired up, so the clause
    /// below records the placeholder's behavior — empty output, no error —
    /// and will change when dispatch lands.
    pub fn execute(self, token: CapabilityToken) -> (r: Result<ToolResult, CherubError>)
        ensures
            r matches Ok(out) && out.output@ == Seq::<char>::empty(),
    {
        let _consumed = token;
        Ok(ToolResult { output: String::new() })
    }
}

/// Output of a completed tool execution.
pub struct ToolResult {
    pub output: String,
}

/// Extension point for tool implementations.
pub trait Tool: Send + Sync {
    fn name(&self) -> &str;

    fn execute(
        &self,
        action: &str,
        params: &serde_json::Value,
        token: CapabilityToken,
    ) -> Result<ToolResult, CherubError>;
}

/// Bash command execution tool; process spawning is not wired up, so its
/// `execute` contract records the placeholder's behavior (empty output, no
/// error) and will change when spawning lands.
pub struct BashTool;

impl Tool for BashTool {
    fn name(&self) -> (r: &str)
        ensures
            r@ == "bash"@,
    {
        "bash"
    }

    fn execute(
        &self,
        action: &str,
        params: &serde_json::Value,
        token: CapabilityToken,
    ) -> (r: Result<ToolResult, CherubError>)
        ensures
            r matches Ok(out) && out.output@ == Seq::<char>::empty(),
    {
        let _ = action;
        let _ = params;
        let _consumed = token;
        Ok(ToolResult { output: String::new() })
    }
}

} // verus!
