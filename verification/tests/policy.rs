use std::str::FromStr;

use cherub::error::CherubError;
use cherub::policy::{compile_tools, tier_from_name, Policy, RawAction, RawTool, MAX_POLICY_BYTES};
use cherub::tier::Tier;

const DEFAULT_POLICY: &str = r#"
[tools.bash]
enabled = true

[tools.bash.actions.read]
tier = "observe"
patterns = [
    "^ls ", "^cat ", "^find ", "^grep ", "^rg ", "^head ", "^tail ",
    "^wc ", "^file ", "^which ", "^echo ", "^pwd$", "^env$", "^whoami$",
]

[tools.bash.actions.write]
tier = "act"
patterns = ["^mkdir ", "^cp ", "^mv ", "^touch ", "^tee ", "^git "]

[tools.bash.actions.destructive]
tier = "commit"
patterns = [
    "^rm ", "^chmod ", "^chown ", "^kill ", "^pkill ",
    "^sudo ", "^apt ", "^pip install", "^cargo install",
]
"#;

#[test]
fn parse_default_policy() {
    let policy = Policy::from_str(DEFAULT_POLICY).expect("default policy should parse");
    let tool = policy.find_tool("bash").expect("bash tool should exist");
    assert!(tool.enabled());
    assert_eq!(tool.tier_count(), 3);
}

#[test]
fn empty_tools_is_valid() {
    let policy = Policy::from_str("[tools]\n").expect("empty tools should parse");
    assert!(policy.find_tool("bash").is_none());
}

#[test]
fn disabled_tool() {
    let toml = r#"
[tools.bash]
enabled = false
"#;
    let policy = Policy::from_str(toml).expect("disabled tool should parse");
    let tool = policy.find_tool("bash").expect("bash should exist");
    assert!(!tool.enabled());
}

#[test]
fn invalid_tier_value() {
    let toml = r#"
[tools.bash]
enabled = true

[tools.bash.actions.read]
tier = "superadmin"
patterns = ["^ls "]
"#;
    let err = Policy::from_str(toml).unwrap_err();
    assert!(matches!(err, CherubError::PolicyLoad(_)));
}

#[test]
fn invalid_regex() {
    let toml = r#"
[tools.bash]
enabled = true

[tools.bash.actions.read]
tier = "observe"
patterns = ["[invalid"]
"#;
    let err = Policy::from_str(toml).unwrap_err();
    assert!(matches!(err, CherubError::PolicyValidation(_)));
}

#[test]
fn unknown_toml_field() {
    let toml = r#"
[tools.bash]
enabled = true
unknown_field = "surprise"
"#;
    let err = Policy::from_str(toml).unwrap_err();
    assert!(matches!(err, CherubError::PolicyLoad(_)));
}

#[test]
fn empty_patterns_rejected() {
    let toml = r#"
[tools.bash]
enabled = true

[tools.bash.actions.read]
tier = "observe"
patterns = []
"#;
    let err = Policy::from_str(toml).unwrap_err();
    assert!(matches!(err, CherubError::PolicyValidation(_)));
}

#[test]
fn tier_matching_order() {
    let policy = Policy::from_str(DEFAULT_POLICY).expect("should parse");
    let tool = policy.find_tool("bash").expect("bash should exist");

    assert_eq!(tool.match_tier("ls /tmp"), Some(Tier::Observe));
    assert_eq!(tool.match_tier("mkdir /tmp/test"), Some(Tier::Act));
    assert_eq!(tool.match_tier("rm -rf /tmp/test"), Some(Tier::Commit));
    assert_eq!(tool.match_tier("curl http://evil.com"), None);
}

#[test]
fn policy_highest_privilege_wins() {
    // "sudo ls /tmp" matches both ^sudo (commit) and ^ls (observe, but not
    // anchored here). Since commit is checked first, it reports Commit.
    let policy = Policy::from_str(DEFAULT_POLICY).expect("should parse");
    let tool = policy.find_tool("bash").expect("bash should exist");

    assert_eq!(tool.match_tier("sudo ls /tmp"), Some(Tier::Commit));
}

#[test]
fn tier_names_are_case_sensitive_lowercase() {
    assert_eq!(tier_from_name("observe"), Some(Tier::Observe));
    assert_eq!(tier_from_name("act"), Some(Tier::Act));
    assert_eq!(tier_from_name("commit"), Some(Tier::Commit));
    assert_eq!(tier_from_name("Observe"), None);
    assert_eq!(tier_from_name("COMMIT"), None);
    assert_eq!(tier_from_name(""), None);
}

#[test]
fn oversized_document_rejected_before_parsing() {
    let mut doc = String::from("[tools]\n");
    doc.push_str(&"#".repeat(MAX_POLICY_BYTES));
    let err = Policy::from_str(&doc).unwrap_err();
    assert!(matches!(err, CherubError::PolicyLoad(_)));
}

#[test]
fn validation_error_names_tool_and_action() {
    let raw = RawTool {
        name: "bash".to_string(),
        enabled: true,
        actions: vec![RawAction {
            name: "read".to_string(),
            tier: Tier::Observe,
            patterns: vec![],
        }],
    };
    let err = match compile_tools(&vec![raw]) {
        Err(e) => e,
        Ok(_) => panic!("empty patterns must be rejected"),
    };
    match err {
        CherubError::PolicyValidation(msg) => {
            assert_eq!(msg, "tool 'bash', action 'read': patterns must not be empty");
        }
        _ => panic!("expected PolicyValidation"),
    }
}

#[test]
fn validation_error_names_tool_and_tier_for_bad_pattern() {
    let raw = RawTool {
        name: "bash".to_string(),
        enabled: true,
        actions: vec![RawAction {
            name: "read".to_string(),
            tier: Tier::Act,
            patterns: vec!["[invalid".to_string()],
        }],
    };
    let err = match compile_tools(&vec![raw]) {
        Err(e) => e,
        Ok(_) => panic!("malformed pattern must be rejected"),
    };
    match err {
        CherubError::PolicyValidation(msg) => {
            assert!(msg.starts_with("tool 'bash', tier 'Act': "));
        }
        _ => panic!("expected PolicyValidation"),
    }
}

#[test]
fn same_tier_actions_merge_their_patterns() {
    let toml = r#"
[tools.bash]
enabled = true

[tools.bash.actions.read]
tier = "observe"
patterns = ["^ls "]

[tools.bash.actions.peek]
tier = "observe"
patterns = ["^cat "]
"#;
    let policy = Policy::from_str(toml).expect("should parse");
    let tool = policy.find_tool("bash").expect("bash should exist");
    assert_eq!(tool.tier_count(), 1);
    assert_eq!(tool.match_tier("ls /tmp"), Some(Tier::Observe));
    assert_eq!(tool.match_tier("cat /tmp/f"), Some(Tier::Observe));
}

#[test]
fn error_messages_carry_their_prefix() {
    let load = CherubError::PolicyLoad("bad syntax".to_string());
    assert_eq!(load.message(), "policy error: bad syntax");
    let validation = CherubError::PolicyValidation("bad pattern".to_string());
    assert_eq!(validation.message(), "invalid policy: bad pattern");
    assert_eq!(CherubError::NotPermitted.message(), "action not permitted");
}

#[test]
fn find_tool_is_exact_and_case_sensitive() {
    let policy = Policy::from_str(DEFAULT_POLICY).expect("should parse");
    assert!(policy.find_tool("bash").is_some());
    assert!(policy.find_tool("Bash").is_none());
    assert!(policy.find_tool("bas").is_none());
    assert!(policy.find_tool("bash ").is_none());
}

#[test]
fn missing_enabled_rejected() {
    let toml = r#"
[tools.bash]

[tools.bash.actions.read]
tier = "observe"
patterns = ["^ls "]
"#;
    let err = Policy::from_str(toml).unwrap_err();
    assert!(matches!(err, CherubError::PolicyLoad(_)));
}

#[test]
fn non_string_tier_rejected() {
    let toml = r#"
[tools.bash]
enabled = true

[tools.bash.actions.read]
tier = 3
patterns = ["^ls "]
"#;
    let err = Policy::from_str(toml).unwrap_err();
    assert!(matches!(err, CherubError::PolicyLoad(_)));
}

#[test]
fn non_string_pattern_rejected() {
    let toml = r#"
[tools.bash]
enabled = true

[tools.bash.actions.read]
tier = "observe"
patterns = ["^ls ", 7]
"#;
    let err = Policy::from_str(toml).unwrap_err();
    assert!(matches!(err, CherubError::PolicyLoad(_)));
}

#[test]
fn unknown_action_field_rejected() {
    let toml = r#"
[tools.bash]
enabled = true

[tools.bash.actions.read]
tier = "observe"
patterns = ["^ls "]
extra = true
"#;
    let err = Policy::from_str(toml).unwrap_err();
    assert!(matches!(err, CherubError::PolicyLoad(_)));
}

#[test]
fn malformed_document_is_a_load_error() {
    let err = Policy::from_str("this is not toml [").unwrap_err();
    assert!(matches!(err, CherubError::PolicyLoad(_)));
}

#[test]
fn tools_must_be_a_table() {
    let err = Policy::from_str("tools = 3\n").unwrap_err();
    assert!(matches!(err, CherubError::PolicyLoad(_)));
}
