use blockless_drivers::provider::{
    copy_log, decimal_string, spawn_error, Message, ProviderConfig, ProviderError, Role, SpawnFailure,
    CHAT_MODEL_ID,
};

#[test]
fn config_defaults_and_endpoints() {
    let c = ProviderConfig::default();
    assert_eq!(c.host, "127.0.0.1");
    assert_eq!(c.port, 8080);
    assert_eq!(c.timeout_secs, 30);
    assert_eq!(c.chat_completions_url(), "http://127.0.0.1:8080/v1/chat/completions");
    assert_eq!(c.server_args(), vec!["--server", "--nobrowser", "--host", "127.0.0.1", "--port", "8080"]);
    assert_eq!(CHAT_MODEL_ID, "LLaMA_CPP");
}

#[test]
fn decimal_text() {
    assert_eq!(decimal_string(0), "0");
    assert_eq!(decimal_string(10), "10");
    assert_eq!(decimal_string(u64::MAX), "18446744073709551615");
}

#[test]
fn roles_and_messages() {
    assert_eq!(Role::Tool.as_str(), "tool");
    assert_eq!(Role::from_name("assistant"), Some(Role::Assistant));
    assert_eq!(Role::from_name("System"), None);
    let log = vec![Message::new(Role::User, "hi".to_string())];
    let copy = copy_log(&log);
    assert_eq!(copy[0].content, "hi");
    assert_eq!(copy[0].role, Role::User);
}

#[test]
fn provider_errors() {
    assert_eq!(ProviderError::InvalidResponse("x".to_string()).message(), "Invalid response: x");
    assert_eq!(
        spawn_error(SpawnFailure::NotFound).message(),
        "Llamafile server error: LlamaFile not found"
    );
    match spawn_error(SpawnFailure::PermissionDenied) {
        ProviderError::LLamaFileServerError(m) => assert_eq!(m, "Permission denied; please re-download the model"),
        other => panic!("unexpected {:?}", other),
    }
    assert!(matches!(spawn_error(SpawnFailure::Other("busy".to_string())), ProviderError::LLamaFileServerError(m) if m == "busy"));
}
