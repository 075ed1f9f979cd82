use std::str::FromStr;

use cherub::enforcement::{evaluate, Decision};
use cherub::policy::Policy;
use cherub::tier::Tier;
use cherub::tools::{Proposed, ToolInvocation};

const DEFAULT_POLICY: &str = r#"
[tools.bash]
enabled = true

[tools.bash.actions.read]
tier = "observe"
patterns = [
    "^ls ", "^cat ", "^find ", "^grep ", "^rg ", "^head ", "^tail ",
    "^wc ", "^file ", "^which ", "^echo ", "^pwd$", "^env$", "^whoami$",
]

[tools.bash.actions.write]
tier = "act"
patterns = ["^mkdir ", "^cp ", "^mv ", "^touch ", "^tee ", "^git "]

[tools.bash.actions.destructive]
tier = "commit"
patterns = [
    "^rm ", "^chmod ", "^chown ", "^kill ", "^pkill ",
    "^sudo ", "^apt ", "^pip install", "^cargo install",
]
"#;

fn command_params(command: &str) -> serde_json::Value {
    let mut map = serde_json::Map::new();
    map.insert(
        "command".to_string(),
        serde_json::Value::String(command.to_string()),
    );
    serde_json::Value::Object(map)
}

fn make_proposal(tool: &str, command: &str) -> ToolInvocation<Proposed> {
    ToolInvocation::new(tool, "execute", command_params(command))
}

fn make_proposal_no_command(tool: &str) -> ToolInvocation<Proposed> {
    let mut map = serde_json::Map::new();
    map.insert(
        "args".to_string(),
        serde_json::Value::Array(vec![serde_json::Value::String("--version".to_string())]),
    );
    ToolInvocation::new(tool, "execute", serde_json::Value::Object(map))
}

#[test]
fn observe_command_allowed() {
    let policy = Policy::from_str(DEFAULT_POLICY).unwrap();
    let (_, decision) = evaluate(make_proposal("bash", "ls /tmp"), &policy);
    match decision {
        Decision::Allow(token) => assert_eq!(token.tier(), Tier::Observe),
        _ => panic!("expected Allow(Observe)"),
    }
}

#[test]
fn act_command_allowed() {
    let policy = Policy::from_str(DEFAULT_POLICY).unwrap();
    let (_, decision) = evaluate(make_proposal("bash", "mkdir /tmp/test"), &policy);
    match decision {
        Decision::Allow(token) => assert_eq!(token.tier(), Tier::Act),
        _ => panic!("expected Allow(Act)"),
    }
}

#[test]
fn commit_command_escalates() {
    let policy = Policy::from_str(DEFAULT_POLICY).unwrap();
    let (_, decision) = evaluate(make_proposal("bash", "rm -rf /tmp/test"), &policy);
    assert!(matches!(decision, Decision::Escalate));
}

#[test]
fn unmatched_command_rejected() {
    let policy = Policy::from_str(DEFAULT_POLICY).unwrap();
    let (_, decision) = evaluate(make_proposal("bash", "curl http://evil.com"), &policy);
    assert!(matches!(decision, Decision::Reject));
}

#[test]
fn empty_command_rejected() {
    let policy = Policy::from_str(DEFAULT_POLICY).unwrap();
    let (_, decision) = evaluate(make_proposal("bash", ""), &policy);
    assert!(matches!(decision, Decision::Reject));
}

#[test]
fn unknown_tool_rejected() {
    let policy = Policy::from_str(DEFAULT_POLICY).unwrap();
    let (_, decision) = evaluate(make_proposal("python", "print('hi')"), &policy);
    assert!(matches!(decision, Decision::Reject));
}

#[test]
fn disabled_tool_rejected() {
    let toml = r#"
[tools.bash]
enabled = false

[tools.bash.actions.read]
tier = "observe"
patterns = ["^ls "]
"#;
    let policy = Policy::from_str(toml).unwrap();
    let (_, decision) = evaluate(make_proposal("bash", "ls /tmp"), &policy);
    assert!(matches!(decision, Decision::Reject));
}

#[test]
fn empty_policy_rejects_all() {
    let policy = Policy::from_str("[tools]\n").unwrap();
    let (_, decision) = evaluate(make_proposal("bash", "ls /tmp"), &policy);
    assert!(matches!(decision, Decision::Reject));
}

#[test]
fn missing_command_param_rejected() {
    let policy = Policy::from_str(DEFAULT_POLICY).unwrap();
    let (_, decision) = evaluate(make_proposal_no_command("bash"), &policy);
    assert!(matches!(decision, Decision::Reject));
}

#[test]
fn mod_highest_privilege_wins() {
    let policy = Policy::from_str(DEFAULT_POLICY).unwrap();
    let (_, decision) = evaluate(make_proposal("bash", "sudo ls /tmp"), &policy);
    assert!(matches!(decision, Decision::Escalate));
}

#[test]
fn exact_match_pwd() {
    let policy = Policy::from_str(DEFAULT_POLICY).unwrap();
    let (_, decision) = evaluate(make_proposal("bash", "pwd"), &policy);
    match decision {
        Decision::Allow(token) => assert_eq!(token.tier(), Tier::Observe),
        _ => panic!("expected Allow(Observe)"),
    }
}

#[test]
fn evaluation_is_idempotent() {
    let policy = Policy::from_str(DEFAULT_POLICY).unwrap();
    let (_, first) = evaluate(make_proposal("bash", "mkdir /tmp/a"), &policy);
    let (_, second) = evaluate(make_proposal("bash", "mkdir /tmp/a"), &policy);
    let first_tier = match first {
        Decision::Allow(token) => token.tier(),
        _ => panic!("expected Allow"),
    };
    let second_tier = match second {
        Decision::Allow(token) => token.tier(),
        _ => panic!("expected Allow"),
    };
    assert_eq!(first_tier, second_tier);

    let (_, first) = evaluate(make_proposal("bash", "curl x"), &policy);
    let (_, second) = evaluate(make_proposal("bash", "curl x"), &policy);
    assert!(matches!(first, Decision::Reject));
    assert!(matches!(second, Decision::Reject));
}

/// Policy: Observe=`^ls `, Act=`^mkdir `, Commit=`^rm ` and `^sudo `; the
/// expected decision for each probe command.
#[test]
fn three_tier_scenario() {
    let toml = r#"
[tools.bash]
enabled = true

[tools.bash.actions.read]
tier = "observe"
patterns = ["^ls "]

[tools.bash.actions.write]
tier = "act"
patterns = ["^mkdir "]

[tools.bash.actions.destructive]
tier = "commit"
patterns = ["^rm ", "^sudo "]
"#;
    let policy = Policy::from_str(toml).unwrap();

    let (_, d) = evaluate(make_proposal("bash", "ls /tmp"), &policy);
    match d {
        Decision::Allow(token) => assert_eq!(token.tier(), Tier::Observe),
        _ => panic!("expected Allow(Observe)"),
    }
    let (_, d) = evaluate(make_proposal("bash", "mkdir /tmp/x"), &policy);
    match d {
        Decision::Allow(token) => assert_eq!(token.tier(), Tier::Act),
        _ => panic!("expected Allow(Act)"),
    }
    let (_, d) = evaluate(make_proposal("bash", "rm -rf /tmp/x"), &policy);
    assert!(matches!(d, Decision::Escalate));
    let (_, d) = evaluate(make_proposal("bash", "sudo ls /tmp"), &policy);
    assert!(matches!(d, Decision::Escalate));
    let (_, d) = evaluate(make_proposal("bash", ""), &policy);
    assert!(matches!(d, Decision::Reject));
    let (_, d) = evaluate(make_proposal("bash", "curl evil.com"), &policy);
    assert!(matches!(d, Decision::Reject));
}

/// A round trip through parsing: a document with a single Observe action
/// classifies a matching command as Allow(Observe) and anything else as
/// Reject.
#[test]
fn round_trip_single_observe_action() {
    let toml = r#"
[tools.bash]
enabled = true

[tools.bash.actions.read]
tier = "observe"
patterns = ["^ls "]
"#;
    let policy = Policy::from_str(toml).unwrap();
    let (_, d) = evaluate(make_proposal("bash", "ls /tmp"), &policy);
    match d {
        Decision::Allow(token) => assert_eq!(token.tier(), Tier::Observe),
        _ => panic!("expected Allow(Observe)"),
    }
    let (_, d) = evaluate(make_proposal("bash", "curl http://x"), &policy);
    assert!(matches!(d, Decision::Reject));
}
