//! What a tool answers once its service call has returned: the call's value
//! as it came, or, for the calls that say so, a reply of the tool's own.
use vstd::prelude::*;
use vstd::string::StringExecFns;
use crate::json::{Json, JsonValue};
use crate::tools::{
    authenticate_reply, chat_answer_reply, content_reply, removed_reply, source_added_reply,
    status_reply, summary_reply, AccountsCall, CalendarCall, DocsCall, DriveCall, NotebookLmCall,
    SheetsCall, TasksCall, AUTHENTICATE_MESSAGE,
};

verus! {

/// What a service call gave back.
pub enum PortOutcome {
    /// Nothing: the call only acts.
    Done,
    /// A text: downloaded or exported content, a summary, a chat answer, a
    /// consent URL.
    Text(String),
    /// A value, as JSON.
    Value(JsonValue),
}

/// The outcome as JSON: nothing is `null`, a text a string.
pub open spec fn outcome_json(o: PortOutcome) -> Json {
    match o {
        PortOutcome::Done => Json::Null,
        PortOutcome::Text(t) => Json::Str(t@),
        PortOutcome::Value(v) => v.model(),
    }
}

/// The outcome's text, where it is one.
pub open spec fn outcome_text(o: PortOutcome) -> Seq<char> {
    match o {
        PortOutcome::Text(t) => t@,
        _ => Seq::empty(),
    }
}

/// `{"status": s}`
pub open spec fn status_json(s: Seq<char>) -> Json {
    Json::Object(seq![("status"@, Json::Str(s))])
}

fn outcome_value(o: PortOutcome) -> (r: JsonValue)
    ensures
        r.model() == outcome_json(o),
{
    match o {
        PortOutcome::Done => JsonValue::Null,
        PortOutcome::Text(t) => JsonValue::String(t),
        PortOutcome::Value(v) => v,
    }
}

fn text_of(o: &PortOutcome) -> (r: &str)
    ensures
        r@ == outcome_text(*o),
{
    match o {
        PortOutcome::Text(t) => t.as_str(),
        _ => {
            proof {
                reveal_strlit("");
            }
            ""
        },
    }
}

// ---------------------------------------------------------------------------
// manage_calendar
// ---------------------------------------------------------------------------

/// A deleted event gives nothing back; every other call gives a value.
pub open spec fn calendar_outcome_fits(call: CalendarCall, o: PortOutcome) -> bool {
    match call {
        CalendarCall::DeleteEvent { .. } => o is Done,
        _ => o is Value,
    }
}

/// The answer to a calendar call: `{"status": "deleted"}` for a deleted event,
/// else the call's value.
pub open spec fn calendar_reply_json(call: CalendarCall, o: PortOutcome) -> Json {
    match call {
        CalendarCall::DeleteEvent { .. } => status_json("deleted"@),
        _ => outcome_json(o),
    }
}

pub fn calendar_reply(call: &CalendarCall, outcome: PortOutcome) -> (r: JsonValue)
    requires
        calendar_outcome_fits(*call, outcome),
    ensures
        r.model() == calendar_reply_json(*call, outcome),
{
    match call {
        CalendarCall::DeleteEvent { .. } => status_reply("deleted"),
        _ => outcome_value(outcome),
    }
}

// ---------------------------------------------------------------------------
// manage_drive
// ---------------------------------------------------------------------------

/// Downloads and exports give a text, deletions and unshares nothing, every
/// other drive call a value; spreadsheet and document calls give what they
/// give in their own tools.
pub open spec fn drive_outcome_fits(call: DriveCall, o: PortOutcome) -> bool {
    match call {
        DriveCall::Download { .. } | DriveCall::Export { .. } => o is Text,
        DriveCall::Delete { .. } | DriveCall::Unshare { .. } => o is Done,
        DriveCall::Sheets(c) => sheets_outcome_fits(c, o),
        DriveCall::Docs(c) => docs_outcome_fits(c, o),
        _ => o is Value,
    }
}

/// The answer to a drive call: `{"content": text}` for a download or an
/// export, `{"status": "deleted"}` and `{"status": "unshared"}`, the answer
/// of `manage_sheets` or `manage_docs` to their calls, else the call's value.
pub open spec fn drive_reply_json(call: DriveCall, o: PortOutcome) -> Json {
    match call {
        DriveCall::Download { .. } | DriveCall::Export { .. } =>
            Json::Object(seq![("content"@, Json::Str(outcome_text(o)))]),
        DriveCall::Delete { .. } => status_json("deleted"@),
        DriveCall::Unshare { .. } => status_json("unshared"@),
        DriveCall::Sheets(c) => sheets_reply_json(c, o),
        DriveCall::Docs(c) => docs_reply_json(c, o),
        _ => outcome_json(o),
    }
}

pub fn drive_reply(call: &DriveCall, outcome: PortOutcome) -> (r: JsonValue)
    requires
        drive_outcome_fits(*call, outcome),
    ensures
        r.model() == drive_reply_json(*call, outcome),
{
    match call {
        DriveCall::Download { .. } | DriveCall::Export { .. } => content_reply(text_of(&outcome)),
        DriveCall::Delete { .. } => status_reply("deleted"),
        DriveCall::Unshare { .. } => status_reply("unshared"),
        DriveCall::Sheets(c) => sheets_reply(c, outcome),
        DriveCall::Docs(c) => docs_reply(c, outcome),
        _ => outcome_value(outcome),
    }
}

// ---------------------------------------------------------------------------
// manage_docs, manage_sheets
// ---------------------------------------------------------------------------

/// Appended text gives nothing back; the other calls give a value.
pub open spec fn docs_outcome_fits(call: DocsCall, o: PortOutcome) -> bool {
    match call {
        DocsCall::AppendText { .. } => o is Done,
        _ => o is Value,
    }
}

/// The answer to a documents call: `{"status": "written"}` after appending,
/// else the call's value.
pub open spec fn docs_reply_json(call: DocsCall, o: PortOutcome) -> Json {
    match call {
        DocsCall::AppendText { .. } => status_json("written"@),
        _ => outcome_json(o),
    }
}

pub fn docs_reply(call: &DocsCall, outcome: PortOutcome) -> (r: JsonValue)
    requires
        docs_outcome_fits(*call, outcome),
    ensures
        r.model() == docs_reply_json(*call, outcome),
{
    match call {
        DocsCall::AppendText { .. } => status_reply("written"),
        _ => outcome_value(outcome),
    }
}

/// Appended and updated cells give nothing back; the other calls a value.
pub open spec fn sheets_outcome_fits(call: SheetsCall, o: PortOutcome) -> bool {
    match call {
        SheetsCall::AppendCells { .. } | SheetsCall::UpdateValues { .. } => o is Done,
        _ => o is Value,
    }
}

/// The answer to a spreadsheets call: `{"status": "appended"}`,
/// `{"status": "updated"}`, else the call's value.
pub open spec fn sheets_reply_json(call: SheetsCall, o: PortOutcome) -> Json {
    match call {
        SheetsCall::AppendCells { .. } => status_json("appended"@),
        SheetsCall::UpdateValues { .. } => status_json("updated"@),
        _ => outcome_json(o),
    }
}

pub fn sheets_reply(call: &SheetsCall, outcome: PortOutcome) -> (r: JsonValue)
    requires
        sheets_outcome_fits(*call, outcome),
    ensures
        r.model() == sheets_reply_json(*call, outcome),
{
    match call {
        SheetsCall::AppendCells { .. } => status_reply("appended"),
        SheetsCall::UpdateValues { .. } => status_reply("updated"),
        _ => outcome_value(outcome),
    }
}

// ---------------------------------------------------------------------------
// manage_tasks
// ---------------------------------------------------------------------------

/// Deletions give nothing back; the other calls a value.
pub open spec fn tasks_outcome_fits(call: TasksCall, o: PortOutcome) -> bool {
    match call {
        TasksCall::DeleteTaskList { .. } | TasksCall::DeleteTask { .. } => o is Done,
        _ => o is Value,
    }
}

/// The answer to a tasks call: `{"status": "deleted"}` after a deletion, else
/// the call's value.
pub open spec fn tasks_reply_json(call: TasksCall, o: PortOutcome) -> Json {
    match call {
        TasksCall::DeleteTaskList { .. } | TasksCall::DeleteTask { .. } => status_json("deleted"@),
        _ => outcome_json(o),
    }
}

pub fn tasks_reply(call: &TasksCall, outcome: PortOutcome) -> (r: JsonValue)
    requires
        tasks_outcome_fits(*call, outcome),
    ensures
        r.model() == tasks_reply_json(*call, outcome),
{
    match call {
        TasksCall::DeleteTaskList { .. } | TasksCall::DeleteTask { .. } => status_reply("deleted"),
        _ => outcome_value(outcome),
    }
}

// ---------------------------------------------------------------------------
// manage_notebooklm
// ---------------------------------------------------------------------------

/// A deletion gives nothing back, a summary and a chat answer a text, the
/// other calls a value.
pub open spec fn notebooklm_outcome_fits(call: NotebookLmCall, o: PortOutcome) -> bool {
    match call {
        NotebookLmCall::DeleteNotebook { .. } => o is Done,
        NotebookLmCall::GetSummary { .. } | NotebookLmCall::Chat { .. } => o is Text,
        _ => o is Value,
    }
}

/// The answer to a NotebookLM call: `{"status": "deleted"}`,
/// `{"summary": text}`, `{"status": "added", "result": value}`,
/// `{"question": question, "answer": text}`, else the call's value.
pub open spec fn notebooklm_reply_json(call: NotebookLmCall, o: PortOutcome) -> Json {
    match call {
        NotebookLmCall::DeleteNotebook { .. } => status_json("deleted"@),
        NotebookLmCall::GetSummary { .. } => Json::Object(seq![("summary"@, Json::Str(outcome_text(o)))]),
        NotebookLmCall::AddSourceUrl { .. } =>
            Json::Object(seq![("status"@, Json::Str("added"@)), ("result"@, outcome_json(o))]),
        NotebookLmCall::Chat { question, .. } =>
            Json::Object(seq![("question"@, Json::Str(question@)), ("answer"@, Json::Str(outcome_text(o)))]),
        _ => outcome_json(o),
    }
}

pub fn notebooklm_reply(call: &NotebookLmCall, outcome: PortOutcome) -> (r: JsonValue)
    requires
        notebooklm_outcome_fits(*call, outcome),
    ensures
        r.model() == notebooklm_reply_json(*call, outcome),
{
    match call {
        NotebookLmCall::DeleteNotebook { .. } => status_reply("deleted"),
        NotebookLmCall::GetSummary { .. } => summary_reply(text_of(&outcome)),
        NotebookLmCall::AddSourceUrl { .. } => source_added_reply(outcome_value(outcome)),
        NotebookLmCall::Chat { question, .. } => chat_answer_reply(question.as_str(), text_of(&outcome)),
        _ => outcome_value(outcome),
    }
}

// ---------------------------------------------------------------------------
// manage_accounts
// ---------------------------------------------------------------------------

/// Starting an authorization gives the consent URL, a removal nothing, the
/// other calls a value.
pub open spec fn accounts_outcome_fits(call: AccountsCall, o: PortOutcome) -> bool {
    match call {
        AccountsCall::Authenticate => o is Text,
        AccountsCall::RemoveAccount { .. } => o is Done,
        _ => o is Value,
    }
}

/// The answer to an accounts call: the consent URL awaiting its callback,
/// `{"status": "removed", "email": email}`, else the call's value.
pub open spec fn accounts_reply_json(call: AccountsCall, o: PortOutcome) -> Json {
    match call {
        AccountsCall::Authenticate => Json::Object(seq![
            ("status"@, Json::Str("awaiting_callback"@)),
            ("auth_url"@, Json::Str(outcome_text(o))),
            ("message"@, Json::Str(AUTHENTICATE_MESSAGE@)),
        ]),
        AccountsCall::RemoveAccount { email } =>
            Json::Object(seq![("status"@, Json::Str("removed"@)), ("email"@, Json::Str(email@))]),
        _ => outcome_json(o),
    }
}

pub fn accounts_reply(call: &AccountsCall, outcome: PortOutcome) -> (r: JsonValue)
    requires
        accounts_outcome_fits(*call, outcome),
    ensures
        r.model() == accounts_reply_json(*call, outcome),
{
    match call {
        AccountsCall::Authenticate => authenticate_reply(text_of(&outcome)),
        AccountsCall::RemoveAccount { email } => removed_reply(email.as_str()),
        _ => outcome_value(outcome),
    }
}

// ---------------------------------------------------------------------------
// What the replies keep
// ---------------------------------------------------------------------------

/// `{"status": s}`, written out.
pub open spec fn status_object(s: Seq<char>) -> Json {
    Json::Object(seq![("status"@, Json::Str(s))])
}

/// A tasks call answers with what the service returned (the task or list
/// fetched, created, updated or completed, or the lists and tasks listed),
/// exactly as it came; only the two deletions answer `{"status": "deleted"}`.
pub proof fn lemma_tasks_reply_keeps_values(call: TasksCall, v: JsonValue)
    ensures
        !(call is DeleteTaskList || call is DeleteTask) ==> tasks_reply_json(call, PortOutcome::Value(v)) == v.model(),
        (call is DeleteTaskList || call is DeleteTask) ==> tasks_reply_json(call, PortOutcome::Done) == status_object("deleted"@),
{
}

/// A calendar call answers with the service's value as it came; only a
/// deleted event answers `{"status": "deleted"}`.
pub proof fn lemma_calendar_reply_keeps_values(call: CalendarCall, v: JsonValue)
    ensures
        !(call is DeleteEvent) ==> calendar_reply_json(call, PortOutcome::Value(v)) == v.model(),
        call is DeleteEvent ==> calendar_reply_json(call, PortOutcome::Done) == status_object("deleted"@),
{
}

/// A spreadsheet call answers with the service's value as it came; appended
/// and updated cells answer `{"status": "appended"}` and
/// `{"status": "updated"}`.
pub proof fn lemma_sheets_reply_keeps_values(call: SheetsCall, v: JsonValue)
    ensures
        !(call is AppendCells || call is UpdateValues) ==> sheets_reply_json(call, PortOutcome::Value(v)) == v.model(),
        call is AppendCells ==> sheets_reply_json(call, PortOutcome::Done) == status_object("appended"@),
        call is UpdateValues ==> sheets_reply_json(call, PortOutcome::Done) == status_object("updated"@),
{
}

/// A document call answers with the service's value as it came; appended
/// text answers `{"status": "written"}`.
pub proof fn lemma_docs_reply_keeps_values(call: DocsCall, v: JsonValue)
    ensures
        !(call is AppendText) ==> docs_reply_json(call, PortOutcome::Value(v)) == v.model(),
        call is AppendText ==> docs_reply_json(call, PortOutcome::Done) == status_object("written"@),
{
}

/// A drive call answers with the service's value as it came, a download or
/// an export with its text under `content`, a deletion and an unshare with
/// their status; a spreadsheet or document call made through drive answers as
/// `manage_sheets` or `manage_docs` does.
pub proof fn lemma_drive_reply_keeps_values(call: DriveCall, v: JsonValue, t: String)
    ensures
        (call is GetFile || call is ListFiles || call is Upload || call is Copy || call is ListPermissions
            || call is Share || call is Watch) ==> drive_reply_json(call, PortOutcome::Value(v)) == v.model(),
        (call is Download || call is Export) ==> drive_reply_json(call, PortOutcome::Text(t))
            == Json::Object(seq![("content"@, Json::Str(t@))]),
        call is Delete ==> drive_reply_json(call, PortOutcome::Done) == status_object("deleted"@),
        call is Unshare ==> drive_reply_json(call, PortOutcome::Done) == status_object("unshared"@),
        forall|o: PortOutcome| #![trigger drive_reply_json(call, o)]
            call matches DriveCall::Sheets(c) ==> drive_reply_json(call, o) == sheets_reply_json(c, o),
        forall|o: PortOutcome| #![trigger drive_reply_json(call, o)]
            call matches DriveCall::Docs(c) ==> drive_reply_json(call, o) == docs_reply_json(c, o),
{
}

/// A NotebookLM listing or creation answers with the service's value as it
/// came; an added source keeps that value under `result`; a summary and a chat
/// answer keep the service's text.
pub proof fn lemma_notebooklm_reply_keeps_values(call: NotebookLmCall, v: JsonValue, t: String)
    ensures
        (call is ListNotebooks || call is CreateNotebook) ==> notebooklm_reply_json(call, PortOutcome::Value(v)) == v.model(),
        call is AddSourceUrl ==> notebooklm_reply_json(call, PortOutcome::Value(v))
            == Json::Object(seq![("status"@, Json::Str("added"@)), ("result"@, v.model())]),
        call is GetSummary ==> notebooklm_reply_json(call, PortOutcome::Text(t)) == Json::Object(seq![("summary"@, Json::Str(t@))]),
        call matches NotebookLmCall::Chat { question, .. } ==> notebooklm_reply_json(call, PortOutcome::Text(t))
            == Json::Object(seq![("question"@, Json::Str(question@)), ("answer"@, Json::Str(t@))]),
        call is DeleteNotebook ==> notebooklm_reply_json(call, PortOutcome::Done) == status_object("deleted"@),
{
}

/// An accounts call answers with the store's value as it came (the accounts,
/// a status, a refreshed status, the scopes); a removal names the removed
/// account; an authorization hands on the consent URL.
pub proof fn lemma_accounts_reply_keeps_values(call: AccountsCall, v: JsonValue, t: String)
    ensures
        (call is ListAccounts || call is AccountStatus || call is RefreshAccount || call is AccountScopes)
            ==> accounts_reply_json(call, PortOutcome::Value(v)) == v.model(),
        call matches AccountsCall::RemoveAccount { email } ==> accounts_reply_json(call, PortOutcome::Done)
            == Json::Object(seq![("status"@, Json::Str("removed"@)), ("email"@, Json::Str(email@))]),
        call is Authenticate ==> (accounts_reply_json(call, PortOutcome::Text(t)) matches Json::Object(ms)
            && ms.len() == 3 && ms[1] == ("auth_url"@, Json::Str(t@))),
{
}

} // verus!
