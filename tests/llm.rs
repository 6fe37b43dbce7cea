use agent_hub_server::llm::{get_adapter, LlmError, ProviderAdapter, ProviderKind};

#[test]
fn gemini_command_line() {
    let a = get_adapter(&ProviderKind::Gemini);
    assert_eq!(a.get_command(), "gemini");
    assert_eq!(a.get_args("INSTRUCTION.md", "gemini-2.5"), vec!["-p", "INSTRUCTION.md", "--yolo", "-m", "gemini-2.5"]);
}

#[test]
fn codex_command_line() {
    let a = get_adapter(&ProviderKind::Codex);
    assert_eq!(a.get_command(), "codex");
    assert_eq!(
        a.get_args("P.md", "m"),
        vec!["exec", "--dangerously-bypass-approvals-and-sandbox", "Please read P.md and follow the instructions."]
    );
}

#[test]
fn dummy_falls_back_to_gemini() {
    assert_eq!(get_adapter(&ProviderKind::Dummy).get_command(), "gemini");
}

#[test]
fn provider_names_ignore_case() {
    assert_eq!(ProviderKind::parse("Codex").unwrap(), ProviderKind::Codex);
    assert_eq!(ProviderKind::parse("GEMINI").unwrap(), ProviderKind::Gemini);
    assert_eq!(ProviderKind::parse("dummy").unwrap(), ProviderKind::Dummy);
    match ProviderKind::parse("OpenAI-X") {
        Err(LlmError::UnknownProvider(n)) => assert_eq!(n, "openai-x"),
        other => panic!("unexpected {:?}", other),
    }
    assert!(ProviderKind::from_lowercase_name("Codex").is_err());
    assert_eq!(ProviderKind::from_lowercase_name("codex").unwrap(), ProviderKind::Codex);
}

use agent_hub_server::llm::{last_user_message, DummyClient, LlmMessage, LlmRegistry, MessageRole};

fn msg(role: MessageRole, content: &str) -> LlmMessage {
    LlmMessage { role, content: content.to_string() }
}

#[test]
fn last_user_message_is_most_recent() {
    let ms = vec![msg(MessageRole::User, "one"), msg(MessageRole::User, "two"), msg(MessageRole::Assistant, "x")];
    assert_eq!(last_user_message(&ms).unwrap().content, "two");
    assert!(last_user_message(&vec![msg(MessageRole::System, "s")]).is_none());
}

#[test]
fn echo_client_streams_words() {
    let c = DummyClient::new();
    let ms = vec![msg(MessageRole::User, "hello   big\tworld")];
    assert_eq!(c.stream(&ms), vec!["Echo: ", "hello ", "big ", "world "]);
    assert_eq!(c.stream(&vec![]), vec!["Agent ", "Hub ", "dummy ", "client ", "ready. "]);
}

#[test]
fn only_echo_provider_is_configured() {
    let r = LlmRegistry::new();
    assert!(r.stream(ProviderKind::Dummy, &vec![]).is_ok());
    assert!(matches!(r.stream(ProviderKind::Gemini, &vec![]), Err(LlmError::ProviderNotConfigured)));
}
