use dinoe_core::traits::{ChatMessage, ChatResponse, ToolCall, ToolResult};

#[test]
fn system_message_has_role_and_content() {
    let m = ChatMessage::system("be brief");
    assert_eq!(m.role, "system");
    assert_eq!(m.content, "be brief");
    assert!(m.tool_calls.is_none());
    assert!(m.tool_call_id.is_none());
}

#[test]
fn tool_result_message_carries_the_call_id() {
    let m = ChatMessage::tool_result("call_1".to_string(), "{}");
    assert_eq!(m.role, "tool");
    assert_eq!(m.tool_call_id.as_deref(), Some("call_1"));
}

#[test]
fn response_reports_tool_calls() {
    let none = ChatResponse { text: None, tool_calls: vec![] };
    assert!(!none.has_tool_calls());
    assert_eq!(none.text_or_empty(), "");
    let some = ChatResponse {
        text: Some("hi".to_string()),
        tool_calls: vec![ToolCall {
            id: "1".to_string(),
            name: "shell".to_string(),
            arguments: "{}".to_string(),
        }],
    };
    assert!(some.has_tool_calls());
    assert_eq!(some.text_or_empty(), "hi");
}

#[test]
fn tool_result_serialises_in_field_order() {
    assert_eq!(
        ToolResult::success("a \"b\"\n").to_json(),
        "{\"success\":true,\"output\":\"a \\\"b\\\"\\n\",\"error\":null}"
    );
    assert_eq!(
        ToolResult::error("no").to_json(),
        "{\"success\":false,\"output\":\"\",\"error\":\"no\"}"
    );
}
