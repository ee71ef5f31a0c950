use blockless_drivers::mcp::{
    assemble_system_prompt, construct_system_prompt_with_tools, detect_function_call, merge_endpoint_tools,
    tool_call_result, tool_endpoints, tool_output, unknown_tool_result, DiscoveredTool, FunctionCall,
    ProcessFunctionResult, ToolsMap,
};
use blockless_drivers::session::LlmOptions;

fn tool(name: &str) -> DiscoveredTool {
    DiscoveredTool { name: name.to_string(), tool: serde_json::Value::String(format!("def of {}", name)) }
}

#[test]
fn test_process_function_call_returns_no_function_call() {
    let content = r#"To add the numbers 1215 and 2213, I can use the following calculation:
    1215 + 2213 = 3438
    Sources: Basic arithmetic operations.<|eot_id|>
"#;
    let result = detect_function_call(content, &ToolsMap::new());
    assert!(matches!(result, FunctionCall::NoFunctionCall));

    let content = r#"{To add the numbers 1215 and 2213, I can use the following calculation:
    1215 + 2213 = 3438
    Sources: Basic arithmetic operations.<|eot_id|>
"#;
    let result = detect_function_call(content, &ToolsMap::new());
    assert!(matches!(result, FunctionCall::NoFunctionCall));

    let content = r#"{To add the numbers 1215 and 2213, I can use the following calculation:
        1215 + 2213 = 3438
        Sources: Basic arithmetic operations.<|eot_id|>
}"#;
    let result = detect_function_call(content, &ToolsMap::new());
    assert!(matches!(result, FunctionCall::NoFunctionCall));
}

#[test]
fn test_process_function_call_returns_error() {
    // valid json; but no such tool
    let content = r#"{ "name": "divide", "arguments": { "a": 1, "b": 2 } }"#;
    let result = detect_function_call(content, &ToolsMap::new());
    assert!(matches!(result, FunctionCall::UnknownTool(ref n) if n == "divide"));
    assert!(matches!(unknown_tool_result("divide"), ProcessFunctionResult::Error(_)));
}

#[test]
fn enclosed_function_call_is_found() {
    let tools = merge_endpoint_tools(ToolsMap::new(), "http://localhost:3001/sse", vec![tool("add")]);
    let content = r#"<function>{ "name": "add", "arguments": { "a": 1, "b": 2 } }</function>"#;
    match detect_function_call(content, &tools) {
        FunctionCall::Call(c) => {
            assert_eq!(c.name, "add");
            assert_eq!(c.url, "http://localhost:3001/sse");
            assert_eq!(c.arguments.get("a").and_then(|a| a.as_i64()), Some(1));
        },
        other => panic!("unexpected {:?}", other),
    }
}

#[test]
fn call_without_fields_is_not_a_call() {
    let tools = merge_endpoint_tools(ToolsMap::new(), "http://e/sse", vec![tool("add")]);
    assert!(matches!(detect_function_call(r#"{"name":"add"}"#, &tools), FunctionCall::NoFunctionCall));
    assert!(matches!(detect_function_call(r#"{"arguments":{}}"#, &tools), FunctionCall::NoFunctionCall));
    assert!(matches!(detect_function_call(r#"{"name":5,"arguments":{}}"#, &tools), FunctionCall::NoFunctionCall));
    assert!(matches!(detect_function_call("} then {", &tools), FunctionCall::NoFunctionCall));
    assert!(matches!(detect_function_call("", &tools), FunctionCall::NoFunctionCall));
    // the candidate runs from the first '{' to the last '}'
    assert!(matches!(
        detect_function_call(r#"say {"name":"add","arguments":{"x":{}}} ok"#, &tools),
        FunctionCall::Call(_)
    ));
}

#[test]
fn later_tools_replace_earlier_ones() {
    let m = merge_endpoint_tools(ToolsMap::new(), "http://one/sse", vec![tool("add"), tool("sub")]);
    let m = merge_endpoint_tools(
        m,
        "http://two/sse",
        vec![DiscoveredTool { name: "add".to_string(), tool: serde_json::Value::String("second".to_string()) }],
    );
    assert_eq!(m.get("add").unwrap().tool, serde_json::Value::String("second".to_string()));
    assert_eq!(m.get("sub").unwrap().tool, serde_json::Value::String("def of sub".to_string()));
    assert_eq!(m.len(), 2);
    assert_eq!(m.get("add").unwrap().url, "http://two/sse");
    assert_eq!(m.get("sub").unwrap().url, "http://one/sse");
    assert!(m.get("mul").is_none());
    assert!(m.has_accessible_tool());
    assert!(!ToolsMap::new().has_accessible_tool());
    assert_eq!(m.tools()[0].name, "add");
}

#[test]
fn only_parseable_endpoints_are_kept() {
    let urls = vec!["http://localhost:3001/sse".to_string(), "not a url".to_string(), "HTTP://Example.COM".to_string()];
    assert_eq!(tool_endpoints(&urls), vec!["http://localhost:3001/sse".to_string(), "http://example.com/".to_string()]);
}

#[test]
fn tool_output_joins_text_items() {
    let items = vec![Some("a".to_string()), None, Some("b c".to_string()), Some(String::new())];
    assert_eq!(tool_output("add", false, &items).unwrap(), "a b c ");
    assert_eq!(tool_output("add", false, &vec![]).unwrap(), "");
    assert_eq!(tool_output("add", true, &items).unwrap_err(), "Tool add returned an error");
    match tool_call_result("add", Err("boom".to_string())) {
        ProcessFunctionResult::Error(e) => assert_eq!(e, "Error calling function 'add': boom"),
        other => panic!("unexpected {:?}", other),
    }
    assert!(matches!(tool_call_result("add", Ok("3".to_string())), ProcessFunctionResult::FunctionExecuted(t) if t == "3"));
    match unknown_tool_result("x") {
        ProcessFunctionResult::Error(e) => assert_eq!(e, "Error calling function 'x': Tool x not found"),
        other => panic!("unexpected {:?}", other),
    }
}

#[test]
fn system_prompts() {
    let plain = assemble_system_prompt("May 01, 2025", &None, None);
    assert_eq!(plain, "Today Date: May 01, 2025\n# Assistant Instructions\nYou are a helpful AI assistant.");
    let own = assemble_system_prompt("May 01, 2025", &Some("Be brief.".to_string()), None);
    assert_eq!(own, "Today Date: May 01, 2025\n# Assistant Instructions\nBe brief.");
    let with_tools = assemble_system_prompt("May 01, 2025", &Some("Be brief.".to_string()), Some("[]"));
    assert!(with_tools.starts_with("Today Date: May 01, 2025\n\n# Assistant Instructions\n"));
    assert!(with_tools.contains("Be brief.\n\n# Tool Instructions"));
    assert!(with_tools.contains("Available functions:\n[]\n\nFunction calling protocol:"));

    let tools = merge_endpoint_tools(ToolsMap::new(), "http://e/sse", vec![tool("add")]);
    let opts = LlmOptions { system_message: Some("Be brief.".to_string()), ..LlmOptions::default() };
    let (p, kept) = construct_system_prompt_with_tools(&opts, Some(tools));
    assert!(kept.is_some());
    assert!(p.starts_with("Today Date: "));
    assert!(p.contains("\"def of add\""));
    let (p, kept) = construct_system_prompt_with_tools(&opts, Some(ToolsMap::new()));
    assert!(kept.is_some());
    assert!(p.ends_with("# Assistant Instructions\nBe brief."));
}
