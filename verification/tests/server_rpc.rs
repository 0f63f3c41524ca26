use gws_mcp::json::JsonValue;
use gws_mcp::rpc::{
    error_response, initialize_result, is_blank_line, parse_error_response, route_request,
    success_response, tool_call_result, tools_list_result, RpcStep,
};
use gws_mcp::server::{McpServer, Tool};
use gws_mcp::tools::{
    ManageAccountsTool, ManageCalendarTool, ManageDocsTool, ManageDriveTool, ManageEmailTool,
    ManageFormsTool, ManageMeetTool, ManageNotebookLmTool, ManagePhotosTool, ManageSheetsTool,
    ManageSlidesTool, ManageTasksTool,
};

fn s(t: &str) -> String {
    t.to_string()
}

fn js(t: &str) -> JsonValue {
    JsonValue::String(s(t))
}

fn obj(members: Vec<(&str, JsonValue)>) -> JsonValue {
    JsonValue::Object(members.into_iter().map(|(k, v)| (s(k), v)).collect())
}

#[test]
fn registered_tool_is_found_by_name() {
    let mut server = McpServer::new();
    server.register_tool(Tool::Email(ManageEmailTool::new()));
    server.register_tool(Tool::Docs(ManageDocsTool::new()));
    assert!(matches!(server.call_tool("manage_email"), Ok(Tool::Email(_))));
    assert!(matches!(server.call_tool("manage_docs"), Ok(Tool::Docs(_))));
    let listed = server.list_tools();
    assert_eq!(listed.len(), 2);
    assert_eq!(listed[0].name, "manage_email");
    assert_eq!(listed[1].name, "manage_docs");
    assert_eq!(listed[1].description, "Read and write Google Docs documents.");
}

#[test]
fn registering_a_name_again_replaces_the_tool() {
    let mut server = McpServer::new();
    server.register_tool(Tool::Accounts(ManageAccountsTool::new()));
    server.register_tool(Tool::Email(ManageEmailTool::new()));
    server.register_tool(Tool::Accounts(ManageAccountsTool::new()));
    assert_eq!(server.list_tools().len(), 2);
    assert_eq!(server.list_tools()[0].name, "manage_accounts");
}

#[test]
fn unknown_tool_is_an_error() {
    let server = McpServer::new();
    match server.call_tool("nope") {
        Err(e) => {
            assert_eq!(e.name, "nope");
            assert_eq!(e.message(), "Tool not found: nope");
        },
        Ok(_) => panic!("no tool is registered"),
    }
}

#[test]
fn blank_lines() {
    assert!(is_blank_line(""));
    assert!(is_blank_line("  \t \r"));
    assert!(!is_blank_line(" {} "));
}

#[test]
fn envelopes() {
    assert_eq!(
        success_response(JsonValue::Number(s("1")), JsonValue::Null),
        obj(vec![("jsonrpc", js("2.0")), ("id", JsonValue::Number(s("1"))), ("result", JsonValue::Null)])
    );
    assert_eq!(
        error_response(js("a"), "-32601", "m"),
        obj(vec![
            ("jsonrpc", js("2.0")),
            ("id", js("a")),
            ("error", obj(vec![("code", JsonValue::Number(s("-32601"))), ("message", js("m"))])),
        ])
    );
    assert_eq!(
        parse_error_response("EOF while parsing"),
        obj(vec![
            ("jsonrpc", js("2.0")),
            ("id", JsonValue::Null),
            ("error", obj(vec![("code", JsonValue::Number(s("-32700"))), ("message", js("Parse error: EOF while parsing"))])),
        ])
    );
}

#[test]
fn initialize_is_answered_with_the_server_description() {
    let req = obj(vec![("jsonrpc", js("2.0")), ("id", JsonValue::Number(s("0"))), ("method", js("initialize"))]);
    match route_request(&req) {
        RpcStep::Respond(v) => {
            assert_eq!(v, success_response(JsonValue::Number(s("0")), initialize_result()));
            let result = v.get_key("result").unwrap();
            assert_eq!(result.get_key("protocolVersion"), Some(&js("2024-11-05")));
            let info = result.get_key("serverInfo").unwrap();
            assert_eq!(info.get_key("name"), Some(&js("google-workspace-mcp")));
            assert_eq!(info.get_key("version"), Some(&js("3.0.0")));
            assert_eq!(result.get_key("capabilities"), Some(&obj(vec![("tools", obj(vec![]))])));
        },
        _ => panic!("initialize is answered at once"),
    }
}

#[test]
fn notification_gets_no_answer() {
    let req = obj(vec![("method", js("notifications/initialized"))]);
    assert!(matches!(route_request(&req), RpcStep::Ignore));
}

#[test]
fn tools_list_and_call_are_routed() {
    let req = obj(vec![("id", js("x")), ("method", js("tools/list"))]);
    match route_request(&req) {
        RpcStep::ListTools { id } => assert_eq!(id, js("x")),
        _ => panic!("expected a listing"),
    }
    let call = obj(vec![
        ("id", JsonValue::Number(s("7"))),
        ("method", js("tools/call")),
        ("params", obj(vec![("name", js("manage_docs")), ("arguments", obj(vec![("operation", js("get"))]))])),
    ]);
    match route_request(&call) {
        RpcStep::CallTool { id, name, arguments } => {
            assert_eq!(id, JsonValue::Number(s("7")));
            assert_eq!(name, "manage_docs");
            assert_eq!(arguments, obj(vec![("operation", js("get"))]));
        },
        _ => panic!("expected a call"),
    }
    let bare = obj(vec![("method", js("tools/call"))]);
    match route_request(&bare) {
        RpcStep::CallTool { id, name, arguments } => {
            assert_eq!(id, JsonValue::Null);
            assert_eq!(name, "");
            assert_eq!(arguments, obj(vec![]));
        },
        _ => panic!("expected a call"),
    }
}

#[test]
fn unknown_method_is_method_not_found() {
    let req = obj(vec![("id", JsonValue::Number(s("3"))), ("method", js("resources/list"))]);
    match route_request(&req) {
        RpcStep::Respond(v) => assert_eq!(v, error_response(JsonValue::Number(s("3")), "-32601", "Method not found: resources/list")),
        _ => panic!("expected an error answer"),
    }
    match route_request(&JsonValue::Null) {
        RpcStep::Respond(v) => assert_eq!(v, error_response(JsonValue::Null, "-32601", "Method not found: ")),
        _ => panic!("expected an error answer"),
    }
}

#[test]
fn tool_results() {
    let text_item = |t: &str| JsonValue::Array(vec![obj(vec![("type", js("text")), ("text", js(t))])]);
    assert_eq!(tool_call_result(Ok(s("{\"a\":1}"))), obj(vec![("content", text_item("{\"a\":1}"))]));
    assert_eq!(
        tool_call_result(Err(s("message_id required"))),
        obj(vec![("content", text_item("Error: message_id required")), ("isError", JsonValue::Bool(true))])
    );
    assert_eq!(tools_list_result(vec![js("t")]), obj(vec![("tools", JsonValue::Array(vec![js("t")]))]));
}

#[test]
fn all_twelve_tools_register_under_distinct_names() {
    let mut server = McpServer::new();
    server.register_tool(Tool::Accounts(ManageAccountsTool::new()));
    server.register_tool(Tool::Email(ManageEmailTool::new()));
    server.register_tool(Tool::Calendar(ManageCalendarTool::new()));
    server.register_tool(Tool::Drive(ManageDriveTool::new()));
    server.register_tool(Tool::Docs(ManageDocsTool::new()));
    server.register_tool(Tool::Sheets(ManageSheetsTool::new()));
    server.register_tool(Tool::Slides(ManageSlidesTool::new()));
    server.register_tool(Tool::Forms(ManageFormsTool::new()));
    server.register_tool(Tool::Tasks(ManageTasksTool::new()));
    server.register_tool(Tool::Meet(ManageMeetTool::new()));
    server.register_tool(Tool::Photos(ManagePhotosTool::new()));
    server.register_tool(Tool::NotebookLm(ManageNotebookLmTool::new()));
    let names: Vec<String> = server.list_tools().into_iter().map(|t| t.name).collect();
    assert_eq!(
        names,
        vec![
            s("manage_accounts"), s("manage_email"), s("manage_calendar"), s("manage_drive"),
            s("manage_docs"), s("manage_sheets"), s("manage_slides"), s("manage_forms"),
            s("manage_tasks"), s("manage_meet"), s("manage_photos"), s("manage_notebooklm"),
        ]
    );
    for n in &names {
        match server.call_tool(n) {
            Ok(t) => assert_eq!(t.name(), n.as_str()),
            Err(_) => panic!("registered tool not found"),
        }
    }
}
