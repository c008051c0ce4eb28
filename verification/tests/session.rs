use voicepipe::chat::{ChatResponse, Choice, Content, InputMessage, Message, OpenAIClient,
    PromptTokensDetails, Usage};
use voicepipe::cli::{validate_config, ConfigError};
use voicepipe::session::{classify_input, directive_command, repl_step, ReplStep, TextDirective};
use voicepipe::words::Command;

#[test]
fn repl_skips_blank_and_quits_on_exit() {
    assert!(matches!(repl_step(" \n"), ReplStep::Prompt));
    assert!(matches!(repl_step("exit\n"), ReplStep::Quit));
    match repl_step("  show current \n") {
        ReplStep::Dispatch(t) => assert_eq!(t, "show current"),
        _ => panic!("expected Dispatch"),
    }
}

#[test]
fn text_directives_follow_the_dispatch_order() {
    assert!(matches!(
        classify_input("none of that".to_string()),
        TextDirective::Malformed
    ));
    assert!(matches!(
        classify_input("show current".to_string()),
        TextDirective::Show
    ));
    assert!(matches!(
        classify_input("read".to_string()),
        TextDirective::ReadFile
    ));
    match classify_input("execute scripts/test.sh".to_string()) {
        TextDirective::RunScript(p) => assert_eq!(p, "scripts/test.sh"),
        _ => panic!("expected RunScript"),
    }
    assert!(matches!(
        classify_input("execute".to_string()),
        TextDirective::Malformed
    ));
    match classify_input("what is a qubit".to_string()) {
        TextDirective::Send(t) => assert_eq!(t, "what is a qubit"),
        _ => panic!("expected Send"),
    }
}

#[test]
fn directives_map_to_commands() {
    assert!(directive_command(TextDirective::Malformed).is_none());
    assert!(directive_command(TextDirective::Show).is_none());
    assert!(matches!(
        directive_command(TextDirective::ReadFile),
        Some(Command::Read(_))
    ));
    assert!(matches!(
        directive_command(TextDirective::RunScript("x".to_string())),
        Some(Command::Execute)
    ));
    match directive_command(TextDirective::Send("hi".to_string())) {
        Some(Command::Send(t)) => assert_eq!(t, "hi"),
        _ => panic!("expected Send"),
    }
}

#[test]
fn config_validation_requires_url_and_model() {
    assert!(validate_config("https://api", "m1").is_ok());
    assert!(matches!(
        validate_config("", "m1"),
        Err(ConfigError::EmptyApiUrl)
    ));
    assert!(matches!(
        validate_config("https://api", ""),
        Err(ConfigError::EmptyModel)
    ));
    assert_eq!(
        ConfigError::EmptyApiUrl.describe(),
        "api_url cannot be empty"
    );
}

#[test]
fn message_constructors_set_roles() {
    let m = InputMessage::system("be brief".to_string());
    assert_eq!(m.role, "system");
    assert_eq!(m.content, "be brief");
    assert_eq!(InputMessage::user("q".to_string()).role, "user");
    assert_eq!(InputMessage::assistant("a".to_string()).role, "assistant");
    let c = Content::text("body".to_string());
    assert_eq!(c.content_type, "text/plain");
    assert_eq!(c.body, "body");
}

#[test]
fn client_keeps_key_and_url() {
    let c = OpenAIClient::new("k".to_string(), "https://api".to_string());
    assert_eq!(c.api_key(), "k");
    assert_eq!(c.base_url(), "https://api");
}

#[test]
fn first_content_takes_the_first_choice() {
    let resp = ChatResponse {
        id: "i".to_string(),
        choices: vec![Choice {
            finish_reason: "stop".to_string(),
            index: 0,
            message: Message {
                content: "answer".to_string(),
                role: "assistant".to_string(),
            },
        }],
        created: 0,
        model: "m".to_string(),
        system_fingerprint: "f".to_string(),
        object: "o".to_string(),
        usage: Usage {
            prompt_tokens: 0,
            completion_tokens: 0,
            total_tokens: 0,
            prompt_tokens_details: PromptTokensDetails { cached_tokens: 0 },
        },
    };
    assert_eq!(resp.first_content().unwrap(), "answer");
    let empty = ChatResponse { choices: vec![], ..resp };
    assert!(empty.first_content().is_none());
}
