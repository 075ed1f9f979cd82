use cherub::error::CherubError;
use cherub::providers::{AnthropicProvider, Message, Provider};
use cherub::tools::{BashTool, Tool};

#[test]
fn anthropic_provider_is_not_wired_up() {
    let provider = AnthropicProvider;
    assert_eq!(provider.name(), "anthropic");
    let messages = vec![Message::User {
        content: "hello".to_string(),
    }];
    let err = match provider.complete(&messages) {
        Err(e) => e,
        Ok(_) => panic!("provider must report an error"),
    };
    assert!(matches!(err, CherubError::Provider(_)));
}

#[test]
fn bash_tool_reports_its_name() {
    let tool = BashTool;
    assert_eq!(tool.name(), "bash");
}
