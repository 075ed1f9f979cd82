use std::str::FromStr;

use cherub::enforcement::{evaluate, Decision};
use cherub::policy::Policy;
use cherub::tier::Tier;
use cherub::tools::{Proposed, ToolInvocation};

const TOKEN_POLICY: &str = r#"
[tools.bash]
enabled = true

[tools.bash.actions.read]
tier = "observe"
patterns = ["^ls "]

[tools.bash.actions.write]
tier = "act"
patterns = ["^mkdir "]
"#;

fn command_params(command: &str) -> serde_json::Value {
    let mut map = serde_json::Map::new();
    map.insert(
        "command".to_string(),
        serde_json::Value::String(command.to_string()),
    );
    serde_json::Value::Object(map)
}

fn proposal(tool: &str, command: &str) -> ToolInvocation<Proposed> {
    ToolInvocation::new(tool, "execute", command_params(command))
}

/// Tokens can only be issued by the enforcement engine, so they are obtained
/// here through `evaluate`; a Commit-tier match escalates instead of issuing
/// a token, so no Commit-tier token can ever be observed.
#[test]
fn capability_token_carries_tier() {
    let policy = Policy::from_str(TOKEN_POLICY).unwrap();

    let (_, decision) = evaluate(proposal("bash", "ls /tmp"), &policy);
    match decision {
        Decision::Allow(token) => assert_eq!(token.tier(), Tier::Observe),
        _ => panic!("expected Allow(Observe)"),
    }

    let (_, decision) = evaluate(proposal("bash", "mkdir /tmp/x"), &policy);
    match decision {
        Decision::Allow(token) => assert_eq!(token.tier(), Tier::Act),
        _ => panic!("expected Allow(Act)"),
    }
}

#[test]
fn capability_token_is_consumed() {
    let policy = Policy::from_str(TOKEN_POLICY).unwrap();
    let (_, decision) = evaluate(proposal("bash", "ls /tmp"), &policy);
    let token = match decision {
        Decision::Allow(token) => token,
        _ => panic!("expected Allow"),
    };
    // Move the token into a function — if CapabilityToken were Copy/Clone,
    // this test would still compile after using `token` again below.
    let _moved = consume(token);
    // Uncommenting the next line would fail to compile — token has been moved.
    // let _ = token.tier();
}

fn consume(token: cherub::capability::CapabilityToken) -> Tier {
    token.tier()
}

#[test]
fn evaluated_invocation_consumes_token_on_execute() {
    let policy = Policy::from_str(TOKEN_POLICY).unwrap();
    let (evaluated, decision) = evaluate(proposal("bash", "ls /tmp"), &policy);
    let token = match decision {
        Decision::Allow(token) => token,
        _ => panic!("expected Allow"),
    };
    let result = evaluated.execute(token);
    assert!(result.is_ok());
    assert_eq!(result.unwrap().output, "");
}
