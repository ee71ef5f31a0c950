use blockless_drivers::mcp::{
    construct_system_prompt_with_tools, merge_endpoint_tools, DiscoveredTool, ProcessFunctionResult,
    ToolsMap,
};
use blockless_drivers::models::{ModelUrl, Models};
use blockless_drivers::provider::{Message, ProviderError, Role};
use blockless_drivers::session::{
    resolve_model, LlmContext, LlmDriver, LlmErrorKind, LlmOptions, ReadAction, ReadStage,
};

fn validate_model_url_permission<F>(model: &str, url_permission_checker: F) -> Result<(), LlmErrorKind>
where
    F: Fn(&ModelUrl) -> bool,
{
    resolve_model(model, url_permission_checker).map(|_| ())
}

#[test]
fn test_llm_url_permission_check() {
    let allow_all_checker = |_: &ModelUrl| true;
    let result = validate_model_url_permission(
        "https://huggingface.co/Mozilla/Llama-3.2-1B-Instruct-llamafile/resolve/main/Llama-3.2-1B-Instruct.Q6_K.llamafile",
        allow_all_checker,
    );
    assert!(result.is_ok());

    let deny_all_checker = |_: &ModelUrl| false;
    let result = validate_model_url_permission(
        "https://huggingface.co/Mozilla/Llama-3.2-1B-Instruct-llamafile/resolve/main/Llama-3.2-1B-Instruct.Q6_K.llamafile",
        deny_all_checker,
    );
    assert!(matches!(result, Err(LlmErrorKind::PermissionDeny)));

    let deny_all_checker = |_: &ModelUrl| false;
    let result = validate_model_url_permission("Llama-3.2-1B-Instruct", deny_all_checker);
    assert!(result.is_ok());

    let allow_all_checker = |_: &ModelUrl| true;
    let result = validate_model_url_permission("InvalidModel", allow_all_checker);
    assert!(matches!(result, Err(LlmErrorKind::ModelNotSupported)));

    let allow_all_checker = |_: &ModelUrl| true;
    let result = validate_model_url_permission("https://malicious.com/bad-model.llamafile", allow_all_checker);
    assert!(matches!(result, Err(LlmErrorKind::ModelNotSupported)));

    let result = validate_model_url_permission("http://huggingface.co/model.llamafile", allow_all_checker);
    assert!(matches!(result, Err(LlmErrorKind::ModelNotSupported)));

    let selective_checker = |url: &ModelUrl| url.path().contains("Llama");

    let result = validate_model_url_permission(
        "https://huggingface.co/Mozilla/Llama-3.2-1B-Instruct-llamafile/resolve/main/Llama-3.2-1B-Instruct.Q6_K.llamafile",
        selective_checker,
    );
    assert!(result.is_ok());

    let result = validate_model_url_permission(
        "https://huggingface.co/Mozilla/Mistral-7B-Instruct-llamafile/resolve/main/Mistral-7B-Instruct.Q6_K.llamafile",
        selective_checker,
    );
    assert!(matches!(result, Err(LlmErrorKind::PermissionDeny)));
}

fn reply(text: &str) -> Result<Message, ProviderError> {
    Ok(Message::new(Role::Assistant, text.to_string()))
}

fn open_session(d: &mut LlmDriver<()>) -> u32 {
    d.register(LlmContext::new("Llama-3.2-1B-Instruct".to_string(), ())).unwrap()
}

#[test]
fn session_model_and_options() {
    let mut d: LlmDriver<()> = LlmDriver::new();
    let h = open_session(&mut d);
    assert_eq!(h, 1);
    assert_eq!(d.get_model(h).unwrap(), "Llama-3.2-1B-Instruct");
    assert!(d.contains(h));
    assert!(d.provider(h).is_some());
    let opts = LlmOptions {
        system_message: Some("You are a helpful assistant.".to_string()),
        tools_sse_urls: None,
        temperature_bits: Some(0.7f32.to_bits()),
        top_p_bits: Some(0.9f32.to_bits()),
    };
    let (prompt, tools) = construct_system_prompt_with_tools(&opts, None);
    d.set_options(h, opts.duplicate(), prompt, tools).unwrap();
    let got = d.get_options(h).unwrap();
    assert_eq!(got.system_message, opts.system_message);
    assert_eq!(got.temperature_bits, Some(0.7f32.to_bits()));
    assert_eq!(f32::from_bits(got.top_p_bits.unwrap()), 0.9f32);
    assert!(matches!(d.get_model(99), Err(LlmErrorKind::ModelNotSet)));
    assert!(matches!(d.get_options(99), Err(LlmErrorKind::ModelNotSet)));
    assert!(matches!(d.prompt(99, "x"), Err(LlmErrorKind::ModelNotSet)));
    assert!(matches!(d.begin_read(99), Err(LlmErrorKind::ModelNotSet)));
}

#[test]
fn set_options_resets_log_to_one_system_message() {
    let mut d: LlmDriver<()> = LlmDriver::new();
    let h = open_session(&mut d);
    d.prompt(h, "earlier").unwrap();
    d.prompt(h, "turns").unwrap();
    let opts = LlmOptions {
        system_message: Some("You are now a mathematics tutor.".to_string()),
        ..LlmOptions::default()
    };
    let (prompt, tools) = construct_system_prompt_with_tools(&opts, None);
    assert!(tools.is_none());
    d.set_options(h, opts, prompt.clone(), tools).unwrap();
    let log = d.messages(h).unwrap();
    assert_eq!(log.len(), 1);
    assert_eq!(log[0].role, Role::System);
    assert!(log[0].content.contains("You are now a mathematics tutor."));
    assert!(log[0].content.starts_with("Today Date: "));
    assert_eq!(log[0].content, prompt);
}

#[test]
fn plain_turn_adds_user_then_assistant() {
    let mut d: LlmDriver<()> = LlmDriver::new();
    let h = open_session(&mut d);
    let before = d.messages(h).unwrap().len();
    d.prompt(h, "What is your name?").unwrap();
    let (mut rd, snapshot) = d.begin_read(h).unwrap();
    assert_eq!(snapshot.len(), before + 1);
    assert_eq!(rd.current_stage(), ReadStage::AwaitingReply);
    match d.on_reply(&mut rd, reply("I am Lucy.")) {
        ReadAction::Finish(Ok(t)) => assert_eq!(t, "I am Lucy."),
        other => panic!("unexpected {:?}", other),
    }
    let log = d.messages(h).unwrap();
    assert_eq!(log.len(), before + 2);
    assert_eq!(log[before].role, Role::User);
    assert_eq!(log[before].content, "What is your name?");
    assert_eq!(log[before + 1].role, Role::Assistant);
    assert_eq!(log[before + 1].content, "I am Lucy.");
    assert_eq!(rd.current_stage(), ReadStage::Finished);
}

fn session_with_add_tool(d: &mut LlmDriver<()>) -> u32 {
    let h = open_session(d);
    let tools = merge_endpoint_tools(
        ToolsMap::new(),
        "http://localhost:3001/sse",
        vec![DiscoveredTool { name: "add".to_string(), tool: serde_json::Value::Null }],
    );
    let opts = LlmOptions {
        tools_sse_urls: Some(vec!["http://localhost:3001/sse".to_string()]),
        ..LlmOptions::default()
    };
    let (prompt, tools) = construct_system_prompt_with_tools(&opts, Some(tools));
    assert!(prompt.contains("<function>"));
    d.set_options(h, opts, prompt, tools).unwrap();
    h
}

#[test]
fn tool_call_round_adds_three_messages_after_the_prompt() {
    let mut d: LlmDriver<()> = LlmDriver::new();
    let h = session_with_add_tool(&mut d);
    d.prompt(h, "Add 1 and 2").unwrap();
    let after_prompt = d.messages(h).unwrap().len();
    assert_eq!(after_prompt, 2);
    let (mut rd, _) = d.begin_read(h).unwrap();
    let output = "<function>{\"name\":\"add\",\"arguments\":{\"a\":1,\"b\":2}}</function>";
    let call = match d.on_reply(&mut rd, reply(output)) {
        ReadAction::CallTool(c) => c,
        other => panic!("unexpected {:?}", other),
    };
    assert_eq!(call.name, "add");
    assert_eq!(call.url, "http://localhost:3001/sse");
    assert_eq!(call.arguments.get("b").and_then(|b| b.as_i64()), Some(2));
    assert_eq!(rd.current_stage(), ReadStage::AwaitingToolResult);
    let snapshot = match d.on_tool_result(&mut rd, ProcessFunctionResult::FunctionExecuted("3".to_string())) {
        ReadAction::Chat(m) => m,
        other => panic!("unexpected {:?}", other),
    };
    assert_eq!(snapshot.len(), after_prompt + 2);
    assert_eq!(snapshot[after_prompt + 1].role, Role::Tool);
    match d.on_reply(&mut rd, reply("1 + 2 = 3")) {
        ReadAction::Finish(Ok(t)) => assert_eq!(t, "1 + 2 = 3"),
        other => panic!("unexpected {:?}", other),
    }
    let log = d.messages(h).unwrap();
    assert_eq!(log.len(), after_prompt + 3);
    assert_eq!(log[2].role, Role::Assistant);
    assert_eq!(log[2].content, output);
    assert_eq!(log[3].role, Role::Tool);
    assert_eq!(log[3].content, "3");
    assert_eq!(log[4].role, Role::Assistant);
    assert_eq!(log[4].content, "1 + 2 = 3");
}

#[test]
fn failed_tool_call_keeps_the_assistant_message() {
    let mut d: LlmDriver<()> = LlmDriver::new();
    let h = session_with_add_tool(&mut d);
    d.prompt(h, "Add").unwrap();
    let (mut rd, _) = d.begin_read(h).unwrap();
    assert!(matches!(d.on_reply(&mut rd, reply("{\"name\":\"add\",\"arguments\":{}}")), ReadAction::CallTool(_)));
    let r = d.on_tool_result(&mut rd, ProcessFunctionResult::Error("down".to_string()));
    assert!(matches!(r, ReadAction::Finish(Err(LlmErrorKind::MCPFunctionCallError))));
    assert_eq!(d.messages(h).unwrap().len(), 3);
}

#[test]
fn unknown_tool_and_prose_outputs() {
    let mut d: LlmDriver<()> = LlmDriver::new();
    let h = session_with_add_tool(&mut d);
    let (mut rd, _) = d.begin_read(h).unwrap();
    let r = d.on_reply(&mut rd, reply("{\"name\":\"divide\",\"arguments\":{\"a\":1}}"));
    assert!(matches!(r, ReadAction::Finish(Err(LlmErrorKind::MCPFunctionCallError))));
    let (mut rd, _) = d.begin_read(h).unwrap();
    let r = d.on_reply(&mut rd, reply("{ unterminated"));
    assert!(matches!(r, ReadAction::Finish(Ok(t)) if t == "{ unterminated"));
}

#[test]
fn failed_completion_and_misuse() {
    let mut d: LlmDriver<()> = LlmDriver::new();
    let h = open_session(&mut d);
    let (mut rd, _) = d.begin_read(h).unwrap();
    let r = d.on_reply(&mut rd, Err(ProviderError::CommunicationError("down".to_string())));
    assert!(matches!(r, ReadAction::Finish(Err(LlmErrorKind::ModelCompletionFailed))));
    assert_eq!(d.messages(h).unwrap().len(), 0);
    let r = d.on_reply(&mut rd, reply("late"));
    assert!(matches!(r, ReadAction::Finish(Err(LlmErrorKind::RuntimeError))));
    let r = d.on_tool_result(&mut rd, ProcessFunctionResult::NoFunctionCall);
    assert!(matches!(r, ReadAction::Finish(Err(LlmErrorKind::RuntimeError))));
}

#[test]
fn close_removes_the_session() {
    let mut d: LlmDriver<()> = LlmDriver::new();
    let h = open_session(&mut d);
    let (mut rd, _) = d.begin_read(h).unwrap();
    assert!(d.close(h).is_some());
    assert!(d.close(h).is_none());
    assert!(!d.contains(h));
    let r = d.on_reply(&mut rd, reply("after close"));
    assert!(matches!(r, ReadAction::Finish(Err(LlmErrorKind::ModelNotSet))));
    let h2 = open_session(&mut d);
    assert_ne!(h2, h);
}

#[test]
fn resolve_model_kinds() {
    assert!(matches!(resolve_model("gemma-2-2b-it", |_: &ModelUrl| false), Ok(Models::Gemma22BInstruct(None))));
    assert!(matches!(resolve_model("", |_: &ModelUrl| true), Err(LlmErrorKind::ModelNotSupported)));
}
