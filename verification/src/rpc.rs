//! The JSON-RPC 2.0 side of the server: which request gets which answer.
//! Reading lines and running tool calls is the caller's work; this module
//! decides, for each request, what to answer or what to run.
use vstd::prelude::*;
use crate::text::{chars_of, owned, trim_chars, trim_spec};
use crate::json::{Json, JsonValue, jfield, jobject, jstring, member_models, push_member, opt_model};

verus! {

pub const PROTOCOL_VERSION: &'static str = "2024-11-05";

pub const SERVER_NAME: &'static str = "google-workspace-mcp";

pub const SERVER_VERSION: &'static str = "3.0.0";

/// The error code of a line that is not JSON.
pub const PARSE_ERROR_CODE: &'static str = "-32700";

/// The error code of an unknown method.
pub const METHOD_NOT_FOUND_CODE: &'static str = "-32601";

/// A line with nothing but white space carries no request.
pub fn is_blank_line(line: &str) -> (r: bool)
    ensures
        r == (trim_spec(line@).len() == 0),
{
    let t = trim_chars(&chars_of(line));
    t.len() == 0
}

/// `{"jsonrpc": "2.0", "id": id, "result": result}`
pub open spec fn success_model(id: Json, result: Json) -> Json {
    Json::Object(seq![("jsonrpc"@, Json::Str("2.0"@)), ("id"@, id), ("result"@, result)])
}

/// `{"jsonrpc": "2.0", "id": id, "error": {"code": code, "message": message}}`
pub open spec fn error_model(id: Json, code: Seq<char>, message: Seq<char>) -> Json {
    Json::Object(seq![
        ("jsonrpc"@, Json::Str("2.0"@)),
        ("id"@, id),
        ("error"@, Json::Object(seq![("code"@, Json::Number(code)), ("message"@, Json::Str(message))])),
    ])
}

pub fn success_response(id: JsonValue, result: JsonValue) -> (r: JsonValue)
    ensures
        r.model() == success_model(id.model(), result.model()),
{
    let mut m: Vec<(String, JsonValue)> = Vec::new();
    push_member(&mut m, "jsonrpc", jstring("2.0"));
    push_member(&mut m, "id", id);
    push_member(&mut m, "result", result);
    assert(member_models(m@) =~= seq![("jsonrpc"@, Json::Str("2.0"@)), ("id"@, id.model()), ("result"@, result.model())]);
    jobject(m)
}

pub fn error_response(id: JsonValue, code: &str, message: &str) -> (r: JsonValue)
    ensures
        r.model() == error_model(id.model(), code@, message@),
{
    let mut e: Vec<(String, JsonValue)> = Vec::new();
    push_member(&mut e, "code", JsonValue::Number(owned(code)));
    push_member(&mut e, "message", jstring(message));
    assert(member_models(e@) =~= seq![("code"@, Json::Number(code@)), ("message"@, Json::Str(message@))]);
    let err = jobject(e);
    let mut m: Vec<(String, JsonValue)> = Vec::new();
    push_member(&mut m, "jsonrpc", jstring("2.0"));
    push_member(&mut m, "id", id);
    push_member(&mut m, "error", err);
    assert(member_models(m@) =~= seq![("jsonrpc"@, Json::Str("2.0"@)), ("id"@, id.model()), ("error"@, err.model())]);
    jobject(m)
}

/// The answer to a line that is not JSON: id `null`, code -32700,
/// `Parse error: ` and the parser's words.
pub fn parse_error_response(detail: &str) -> (r: JsonValue)
    ensures
        r.model() == error_model(Json::Null, PARSE_ERROR_CODE@, "Parse error: "@ + detail@),
{
    let mut msg = owned("Parse error: ");
    msg.append(detail);
    error_response(JsonValue::Null, PARSE_ERROR_CODE, msg.as_str())
}

/// What `initialize` answers: the protocol version, the tools capability and
/// the server's name and version.
pub open spec fn initialize_model() -> Json {
    Json::Object(seq![
        ("protocolVersion"@, Json::Str(PROTOCOL_VERSION@)),
        ("capabilities"@, Json::Object(seq![("tools"@, Json::Object(seq![]))])),
        ("serverInfo"@, Json::Object(seq![("name"@, Json::Str(SERVER_NAME@)), ("version"@, Json::Str(SERVER_VERSION@))])),
    ])
}

pub fn initialize_result() -> (r: JsonValue)
    ensures
        r.model() == initialize_model(),
{
    let mut tools: Vec<(String, JsonValue)> = Vec::new();
    assert(member_models(tools@) =~= Seq::<(Seq<char>, Json)>::empty());
    let tools = jobject(tools);
    let mut caps: Vec<(String, JsonValue)> = Vec::new();
    push_member(&mut caps, "tools", tools);
    assert(member_models(caps@) =~= seq![("tools"@, Json::Object(seq![]))]);
    let mut info: Vec<(String, JsonValue)> = Vec::new();
    push_member(&mut info, "name", jstring(SERVER_NAME));
    push_member(&mut info, "version", jstring(SERVER_VERSION));
    assert(member_models(info@) =~= seq![("name"@, Json::Str(SERVER_NAME@)), ("version"@, Json::Str(SERVER_VERSION@))]);
    let caps = jobject(caps);
    let info = jobject(info);
    let mut m: Vec<(String, JsonValue)> = Vec::new();
    push_member(&mut m, "protocolVersion", jstring(PROTOCOL_VERSION));
    push_member(&mut m, "capabilities", caps);
    push_member(&mut m, "serverInfo", info);
    assert(member_models(m@) =~= seq![
        ("protocolVersion"@, Json::Str(PROTOCOL_VERSION@)),
        ("capabilities"@, caps.model()),
        ("serverInfo"@, info.model()),
    ]);
    jobject(m)
}

/// `{"tools": [...]}`
pub fn tools_list_result(tools: Vec<JsonValue>) -> (r: JsonValue)
    ensures
        r.model() == Json::Object(seq![("tools"@, Json::Array(crate::json::models(tools@)))]),
{
    proof {
        crate::json::lemma_array_model(tools);
    }
    let ghost ms = crate::json::models(tools@);
    let arr = JsonValue::Array(tools);
    let mut m: Vec<(String, JsonValue)> = Vec::new();
    push_member(&mut m, "tools", arr);
    assert(member_models(m@) =~= seq![("tools"@, Json::Array(ms))]);
    jobject(m)
}

/// The text content of a tool's answer: `{"content": [{"type": "text", "text": text}]}`,
/// with `"isError": true` after it when the call failed.
pub open spec fn tool_result_model(text: Seq<char>, is_error: bool) -> Json {
    let content = ("content"@, Json::Array(seq![Json::Object(seq![("type"@, Json::Str("text"@)), ("text"@, Json::Str(text))])]));
    if is_error {
        Json::Object(seq![content, ("isError"@, Json::Bool(true))])
    } else {
        Json::Object(seq![content])
    }
}

/// The result of `tools/call`: the tool's answer as text, or `Error: ` and
/// the error's message.
pub fn tool_call_result(outcome: Result<String, String>) -> (r: JsonValue)
    ensures
        r.model() == match outcome {
            Ok(text) => tool_result_model(text@, false),
            Err(message) => tool_result_model("Error: "@ + message@, true),
        },
{
    let (text, is_error) = match outcome {
        Ok(t) => (t, false),
        Err(e) => {
            let mut t = owned("Error: ");
            t.append(e.as_str());
            (t, true)
        },
    };
    let mut item: Vec<(String, JsonValue)> = Vec::new();
    push_member(&mut item, "type", jstring("text"));
    push_member(&mut item, "text", jstring(text.as_str()));
    assert(member_models(item@) =~= seq![("type"@, Json::Str("text"@)), ("text"@, Json::Str(text@))]);
    let item = jobject(item);
    let content = vec![item];
    proof {
        crate::json::lemma_array_model(content);
        assert(crate::json::models(content@) =~= seq![item.model()]);
    }
    let content = JsonValue::Array(content);
    let mut m: Vec<(String, JsonValue)> = Vec::new();
    push_member(&mut m, "content", content);
    if is_error {
        push_member(&mut m, "isError", JsonValue::Bool(true));
        assert(member_models(m@) =~= seq![("content"@, content.model()), ("isError"@, Json::Bool(true))]);
    } else {
        assert(member_models(m@) =~= seq![("content"@, content.model())]);
    }
    jobject(m)
}

/// What the server does with one request.
pub enum RpcStep {
    /// Write this response.
    Respond(JsonValue),
    /// A notification: write nothing.
    Ignore,
    /// List the registered tools and answer request `id` with them.
    ListTools { id: JsonValue },
    /// Run tool `name` on `arguments` and answer request `id` with the outcome.
    CallTool { id: JsonValue, name: String, arguments: JsonValue },
}

/// A member of an object, or `default` where there is none.
pub open spec fn field_or(j: Json, k: Seq<char>, default: Json) -> Json {
    match jfield(j, k) {
        Some(v) => v,
        None => default,
    }
}

/// A member that is a string, or `default` where there is no such member.
pub open spec fn str_field_or(j: Json, k: Seq<char>, default: Seq<char>) -> Seq<char> {
    match jfield(j, k) {
        Some(Json::Str(s)) => s,
        _ => default,
    }
}

/// `r` is what the server does with `req`: `initialize` is answered with the
/// server's description, `notifications/initialized` with nothing,
/// `tools/list` and `tools/call` go to the tools, and any other method is
/// answered with error -32601. A missing id is `null`, a missing method the
/// empty text, and missing parameters an empty object.
pub open spec fn routes(req: Json, r: RpcStep) -> bool {
    let id = field_or(req, "id"@, Json::Null);
    let method = str_field_or(req, "method"@, Seq::empty());
    let params = field_or(req, "params"@, Json::Object(seq![]));
    if method == "initialize"@ {
        r matches RpcStep::Respond(v) && v.model() == success_model(id, initialize_model())
    } else if method == "notifications/initialized"@ {
        r is Ignore
    } else if method == "tools/list"@ {
        r matches RpcStep::ListTools { id: i } && i.model() == id
    } else if method == "tools/call"@ {
        r matches RpcStep::CallTool { id: i, name, arguments }
            && i.model() == id
            && name@ == str_field_or(params, "name"@, Seq::empty())
            && arguments.model() == field_or(params, "arguments"@, Json::Object(seq![]))
    } else {
        r matches RpcStep::Respond(v) && v.model() == error_model(id, METHOD_NOT_FOUND_CODE@, "Method not found: "@ + method)
    }
}

fn empty_object() -> (r: JsonValue)
    ensures
        r.model() == Json::Object(seq![]),
{
    let m: Vec<(String, JsonValue)> = Vec::new();
    assert(member_models(m@) =~= Seq::<(Seq<char>, Json)>::empty());
    jobject(m)
}

fn copy_or(v: Option<&JsonValue>, default: JsonValue) -> (r: JsonValue)
    ensures
        r.model() == match opt_model(v) {
            Some(j) => j,
            None => default.model(),
        },
{
    match v {
        Some(j) => j.duplicate(),
        None => default,
    }
}

fn text_or_empty(v: Option<&JsonValue>) -> (r: String)
    ensures
        r@ == match opt_model(v) {
            Some(Json::Str(s)) => s,
            _ => Seq::<char>::empty(),
        },
{
    match v {
        Some(JsonValue::String(s)) => owned(s.as_str()),
        _ => String::new(),
    }
}

/// Decides what to do with one request.
pub fn route_request(request: &JsonValue) -> (r: RpcStep)
    ensures
        routes(request.model(), r),
{
    let id = copy_or(request.get_key("id"), JsonValue::Null);
    let method = text_or_empty(request.get_key("method"));
    let params = copy_or(request.get_key("params"), empty_object());
    let is_initialize = method == owned("initialize");
    let is_initialized = method == owned("notifications/initialized");
    let is_list = method == owned("tools/list");
    let is_call = method == owned("tools/call");
    if is_initialize {
        RpcStep::Respond(success_response(id, initialize_result()))
    } else if is_initialized {
        RpcStep::Ignore
    } else if is_list {
        RpcStep::ListTools { id }
    } else if is_call {
        let name = text_or_empty(params.get_key("name"));
        let arguments = copy_or(params.get_key("arguments"), empty_object());
        RpcStep::CallTool { id, name, arguments }
    } else {
        let mut msg = owned("Method not found: ");
        msg.append(method.as_str());
        RpcStep::Respond(error_response(id, METHOD_NOT_FOUND_CODE, msg.as_str()))
    }
}

} // verus!
