use gws_mcp::json::JsonValue;
use gws_mcp::replies::{
    accounts_reply, calendar_reply, docs_reply, drive_reply, notebooklm_reply, sheets_reply,
    tasks_reply, PortOutcome,
};
use gws_mcp::tools::{
    AccountsCall, CalendarCall, DocsCall, DriveCall, NotebookLmCall, SheetsCall, TasksCall,
};

fn s(t: &str) -> String {
    t.to_string()
}

fn js(t: &str) -> JsonValue {
    JsonValue::String(s(t))
}

fn obj(members: Vec<(&str, JsonValue)>) -> JsonValue {
    JsonValue::Object(members.into_iter().map(|(k, v)| (s(k), v)).collect())
}

#[test]
fn calendar_delete_answers_deleted() {
    let del = CalendarCall::DeleteEvent { email: s("me"), calendar_id: s("primary"), event_id: s("e") };
    assert_eq!(calendar_reply(&del, PortOutcome::Done), obj(vec![("status", js("deleted"))]));
    let list = CalendarCall::ListCalendars { email: s("me") };
    let v = JsonValue::Array(vec![obj(vec![("id", js("primary"))])]);
    assert_eq!(calendar_reply(&list, PortOutcome::Value(v.duplicate())), v);
}

#[test]
fn drive_replies() {
    let dl = DriveCall::Download { email: s("me"), file_id: s("f") };
    assert_eq!(drive_reply(&dl, PortOutcome::Text(s("bytes"))), obj(vec![("content", js("bytes"))]));
    let ex = DriveCall::Export { email: s("me"), file_id: s("f"), mime_type: s("text/plain") };
    assert_eq!(drive_reply(&ex, PortOutcome::Text(s("txt"))), obj(vec![("content", js("txt"))]));
    let del = DriveCall::Delete { email: s("me"), file_id: s("f") };
    assert_eq!(drive_reply(&del, PortOutcome::Done), obj(vec![("status", js("deleted"))]));
    let un = DriveCall::Unshare { email: s("me"), file_id: s("f"), permission_id: s("p") };
    assert_eq!(drive_reply(&un, PortOutcome::Done), obj(vec![("status", js("unshared"))]));
    let get = DriveCall::GetFile { email: s("me"), file_id: s("f") };
    assert_eq!(drive_reply(&get, PortOutcome::Value(obj(vec![("id", js("f"))]))), obj(vec![("id", js("f"))]));
}

#[test]
fn docs_sheets_tasks_replies() {
    let w = DocsCall::AppendText { email: s("me"), document_id: s("d"), text: s("t") };
    assert_eq!(docs_reply(&w, PortOutcome::Done), obj(vec![("status", js("written"))]));
    let a = SheetsCall::AppendCells { email: s("me"), spreadsheet_id: s("x"), range: s("A1"), values_json: s("[[1]]") };
    assert_eq!(sheets_reply(&a, PortOutcome::Done), obj(vec![("status", js("appended"))]));
    let u = SheetsCall::UpdateValues { email: s("me"), spreadsheet_id: s("x"), range: s("A1"), values_json: s("[[1]]") };
    assert_eq!(sheets_reply(&u, PortOutcome::Done), obj(vec![("status", js("updated"))]));
    let dl = TasksCall::DeleteTaskList { email: s("me"), task_list_id: s("l") };
    assert_eq!(tasks_reply(&dl, PortOutcome::Done), obj(vec![("status", js("deleted"))]));
    let dt = TasksCall::DeleteTask { email: s("me"), task_list_id: s("l"), task_id: s("t") };
    assert_eq!(tasks_reply(&dt, PortOutcome::Done), obj(vec![("status", js("deleted"))]));
    let g = TasksCall::GetTask { email: s("me"), task_list_id: s("l"), task_id: s("t") };
    assert_eq!(tasks_reply(&g, PortOutcome::Value(JsonValue::Null)), JsonValue::Null);
}

#[test]
fn notebooklm_replies() {
    let del = NotebookLmCall::DeleteNotebook { email: s("me"), notebook_id: s("n") };
    assert_eq!(notebooklm_reply(&del, PortOutcome::Done), obj(vec![("status", js("deleted"))]));
    let sum = NotebookLmCall::GetSummary { email: s("me"), notebook_id: s("n") };
    assert_eq!(notebooklm_reply(&sum, PortOutcome::Text(s("S"))), obj(vec![("summary", js("S"))]));
    let add = NotebookLmCall::AddSourceUrl { email: s("me"), notebook_id: s("n"), url: s("u") };
    assert_eq!(
        notebooklm_reply(&add, PortOutcome::Value(JsonValue::Number(s("1")))),
        obj(vec![("status", js("added")), ("result", JsonValue::Number(s("1")))])
    );
    let chat = NotebookLmCall::Chat { email: s("me"), notebook_id: s("n"), question: s("Why?") };
    assert_eq!(
        notebooklm_reply(&chat, PortOutcome::Text(s("Because."))),
        obj(vec![("question", js("Why?")), ("answer", js("Because."))])
    );
    let list = NotebookLmCall::ListNotebooks { email: s("me") };
    assert_eq!(notebooklm_reply(&list, PortOutcome::Value(JsonValue::Array(vec![]))), JsonValue::Array(vec![]));
}

#[test]
fn accounts_replies() {
    let rm = AccountsCall::RemoveAccount { email: s("a@x.com") };
    assert_eq!(accounts_reply(&rm, PortOutcome::Done), obj(vec![("status", js("removed")), ("email", js("a@x.com"))]));
    let auth = accounts_reply(&AccountsCall::Authenticate, PortOutcome::Text(s("https://consent")));
    assert_eq!(
        auth,
        obj(vec![
            ("status", js("awaiting_callback")),
            ("auth_url", js("https://consent")),
            ("message", js("Open this URL in your browser to authenticate. The server is listening on http://localhost:8000 for the OAuth callback.")),
        ])
    );
    let list = accounts_reply(&AccountsCall::ListAccounts, PortOutcome::Value(JsonValue::Array(vec![])));
    assert_eq!(list, JsonValue::Array(vec![]));
}

#[test]
fn drive_answers_spreadsheet_and_document_calls_as_their_tools() {
    let up = DriveCall::Sheets(SheetsCall::UpdateValues { email: s("me"), spreadsheet_id: s("S"), range: s("A1"), values_json: s("[[1]]") });
    assert_eq!(drive_reply(&up, PortOutcome::Done), obj(vec![("status", js("updated"))]));
    let wr = DriveCall::Docs(DocsCall::AppendText { email: s("me"), document_id: s("D"), text: s("hi") });
    assert_eq!(drive_reply(&wr, PortOutcome::Done), obj(vec![("status", js("written"))]));
    let get = DriveCall::Docs(DocsCall::GetDoc { email: s("me"), document_id: s("D") });
    assert_eq!(drive_reply(&get, PortOutcome::Value(js("doc"))), js("doc"));
}
