//! The enforcement decision algorithm.
//!
//! A pure function from a proposed invocation and a policy to an evaluated
//! invocation and a decision. Every branch is a terminal classification:
//! evaluation never raises an error, and identical inputs always produce
//! identical decisions.

use vstd::prelude::*;
use crate::capability::{CapabilityToken, Seal};
use crate::policy::{Policy, ToolView, spec_find_tool, spec_match_tier};
use crate::tier::Tier;
use crate::tools::{Evaluated, Proposed, ToolInvocation};

verus! {

/// The string value of field `key` of a JSON object, when the object holds
/// that key and its value is a string.
pub uninterp spec fn json_str_field(v: serde_json::Value, key: Seq<char>) -> Option<Seq<char>>;

/// Relies on serde_json::Value::get followed by Value::as_str: looks up
/// `key` on a JSON value and returns its value only when the lookup lands on
/// a string; the result is a function of the JSON value and the key alone.
#[verifier::external_body]
fn json_get_str(v: &serde_json::Value, key: &str) -> (r: Option<String>)
    ensures
        r.deep_view() == json_str_field(*v, key@),
{
    v.get(key).and_then(|x| x.as_str()).map(|s| s.to_owned())
}

/// The command a parameter bag carries: its `command` field, when that field
/// is present, a string, and non-empty. Tools without an extractable command
/// concept are unsupported and always rejected — a deliberate closed-world
/// default.
pub open spec fn spec_command(params: serde_json::Value) -> Option<Seq<char>> {
    match json_str_field(params, "command"@) {
        Some(s) => if s.len() > 0 {
            Some(s)
        } else {
            None
        },
        None => None,
    }
}

/// Extract `params["command"]` as a non-empty string.
fn extract_command(params: &serde_json::Value) -> (r: Option<String>)
    ensures
        r.deep_view() == spec_command(*params),
{
    match json_get_str(params, "command") {
        None => None,
        Some(s) => {
            if s.as_str().is_empty() {
                None
            } else {
                Some(s)
            }
        },
    }
}

/// Result of enforcement evaluation. An allowance carries the freshly issued
/// capability token; the token moves with the decision and is consumed by
/// execution.
pub enum Decision {
    Allow(CapabilityToken),
    Reject,
    Escalate,
}

/// The mathematical content of a decision: an allowance names only the tier
/// its token was issued at.
pub enum DecisionView {
    Allow(Tier),
    Reject,
    Escalate,
}

impl View for Decision {
    type V = DecisionView;

    open spec fn view(&self) -> DecisionView {
        match *self {
            Decision::Allow(token) => DecisionView::Allow(token.spec_tier()),
            Decision::Reject => DecisionView::Reject,
            Decision::Escalate => DecisionView::Escalate,
        }
    }
}

/// The decision the algorithm owes for a tool name and an extracted command
/// under a policy: Reject when the command is missing, the tool unknown or
/// disabled, or nothing matches; Escalate when the match is at the most
/// privileged tier (never auto-allowed); Allow at the matched tier below it.
pub open spec fn spec_decision(
    tools: Seq<ToolView>,
    tool_name: Seq<char>,
    command: Option<Seq<char>>,
) -> DecisionView {
    match command {
        None => DecisionView::Reject,
        Some(c) => match spec_find_tool(tools, tool_name) {
            None => DecisionView::Reject,
            Some(t) => if !t.enabled {
                DecisionView::Reject
            } else {
                match spec_match_tier(t.tiers, c) {
                    None => DecisionView::Reject,
                    Some(tier) => if tier == Tier::Commit {
                        DecisionView::Escalate
                    } else {
                        DecisionView::Allow(tier)
                    },
                }
            },
        },
    }
}

/// Evaluate a proposed tool invocation against the policy.
///
/// Returns the transitioned invocation (now `Evaluated`) and the decision.
/// The invocation is transitioned regardless of the verdict — evaluation is
/// a fact about the invocation's history. The decision is a function of the
/// invocation's view and the policy's view alone, so re-evaluating the same
/// pair yields the same decision.
pub fn evaluate(proposal: ToolInvocation<Proposed>, policy: &Policy) -> (r: (
    ToolInvocation<Evaluated>,
    Decision,
))
    ensures
        r.0@ == proposal@,
        r.1@ == spec_decision(policy@, proposal@.tool, spec_command(proposal@.params)),
{
    let decision = match extract_command(proposal.params_ref()) {
        None => Decision::Reject,
        Some(command) => match policy.find_tool(proposal.tool_ref()) {
            None => Decision::Reject,
            Some(tool) => {
                if !tool.enabled() {
                    Decision::Reject
                } else {
                    match tool.match_tier(command.as_str()) {
                        None => Decision::Reject,
                        Some(tier) => {
                            if matches!(tier, Tier::Commit) {
                                Decision::Escalate
                            } else {
                                Decision::Allow(CapabilityToken::new(tier, Seal::grant()))
                            }
                        },
                    }
                }
            },
        },
    };
    (proposal.transition(), decision)
}

// ------------------------------------------------------------------
// Laws of the decision algorithm
// ------------------------------------------------------------------

/// Tier fidelity: an allowance carries exactly the tier the command matched
/// at. A command whose only match is at some tier is never allowed at a
/// lower (or any other) tier, and the most privileged tier is never allowed
/// at all.
pub proof fn lemma_tier_fidelity(
    tools: Seq<ToolView>,
    tool_name: Seq<char>,
    command: Option<Seq<char>>,
    t: Tier,
)
    ensures
        spec_decision(tools, tool_name, command) == DecisionView::Allow(t) ==> command is Some
            && (spec_find_tool(tools, tool_name) matches Some(tool) && spec_match_tier(
            tool.tiers,
            command->Some_0,
        ) == Some(t)) && t != Tier::Commit,
{
}

/// A match at the most privileged tier always yields Escalate, never an
/// allowance — whatever the policy's content, no decision ever carries a
/// Commit-tier token.
pub proof fn lemma_commit_never_allowed(
    tools: Seq<ToolView>,
    tool_name: Seq<char>,
    command: Option<Seq<char>>,
)
    ensures
        spec_decision(tools, tool_name, command) != DecisionView::Allow(Tier::Commit),
        (command is Some && (spec_find_tool(tools, tool_name) matches Some(tool) && tool.enabled
            && spec_match_tier(tool.tiers, command->Some_0) == Some(Tier::Commit)))
            ==> spec_decision(tools, tool_name, command) == DecisionView::Escalate,
{
}

/// A disabled tool yields Reject for every command, including commands that
/// would otherwise match one of its tiers.
pub proof fn lemma_disabled_tool_rejects(
    tools: Seq<ToolView>,
    tool_name: Seq<char>,
    command: Option<Seq<char>>,
)
    ensures
        (spec_find_tool(tools, tool_name) matches Some(tool) && !tool.enabled) ==> spec_decision(
            tools,
            tool_name,
            command,
        ) == DecisionView::Reject,
{
}

/// An unknown tool name yields Reject for every command.
pub proof fn lemma_unknown_tool_rejects(
    tools: Seq<ToolView>,
    tool_name: Seq<char>,
    command: Option<Seq<char>>,
)
    ensures
        spec_find_tool(tools, tool_name) is None ==> spec_decision(tools, tool_name, command)
            == DecisionView::Reject,
{
}

/// A missing, non-string, or empty command yields Reject for every policy
/// and tool, before any pattern is consulted: the decision here does not
/// depend on the policy's content at all.
pub proof fn lemma_missing_command_rejects(
    tools: Seq<ToolView>,
    tool_name: Seq<char>,
    params: serde_json::Value,
)
    ensures
        spec_command(params) is None ==> spec_decision(tools, tool_name, spec_command(params))
            == DecisionView::Reject,
        spec_decision(tools, tool_name, None) == DecisionView::Reject,
{
}

/// Purity: the decision is a function of the policy's view, the tool name,
/// and the extracted command alone, so evaluating the same (invocation,
/// policy) pair twice yields identical decisions.
pub proof fn lemma_decision_deterministic(
    tools: Seq<ToolView>,
    tool_name: Seq<char>,
    command: Option<Seq<char>>,
    first: DecisionView,
    second: DecisionView,
)
    ensures
        (first == spec_decision(tools, tool_name, command) && second == spec_decision(
            tools,
            tool_name,
            command,
        )) ==> first == second,
{
}

/// A policy that declares no tool rejects every invocation.
pub proof fn lemma_empty_policy_rejects(tool_name: Seq<char>, command: Option<Seq<char>>)
    ensures
        spec_decision(Seq::empty(), tool_name, command) == DecisionView::Reject,
{
    assert(spec_find_tool(Seq::empty(), tool_name) is None);
}

} // verus!
