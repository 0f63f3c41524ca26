//! The MCP tools: for each, its operations, its arguments, and the check that
//! turns arguments into one call of a service port (or names the first
//! missing argument). Running the call is the caller's work.
use vstd::prelude::*;
use crate::text::{owned, split_spec, trim_spec, string_views, trim_str, split_char, string_of};
use crate::json::{Json, JsonValue, jobject, jstring, push_member, member_models};
use crate::models::PushWatchRequest;
use crate::client::new_web_hook_watch;
use crate::outside::is_uuid_v4_text;

verus! {

/// An argument of a tool.
#[derive(Debug, Clone, Copy, PartialEq, Eq, Structural)]
pub enum ArgName {
    MessageId,
    To,
    Subject,
    Body,
    ThreadId,
    AttachmentId,
    TopicName,
    EventId,
    Summary,
    Start,
    End,
    Text,
    TimeMin,
    TimeMax,
    WebhookAddress,
    FileId,
    Name,
    MimeType,
    ContentBase64,
    ShareEmail,
    PermissionId,
    DocumentId,
    SpreadsheetId,
    Range,
    ValuesJson,
    PresentationId,
    FormId,
    TaskListId,
    TaskId,
    Title,
    ConferenceId,
    MediaItemId,
    NotebookId,
    Url,
    Question,
    Email,
}

impl ArgName {
    /// The argument's name as the tools' schemas spell it.
    pub open spec fn spelling(self) -> Seq<char> {
        match self {
            ArgName::MessageId => "message_id"@,
            ArgName::To => "to"@,
            ArgName::Subject => "subject"@,
            ArgName::Body => "body"@,
            ArgName::ThreadId => "thread_id"@,
            ArgName::AttachmentId => "attachment_id"@,
            ArgName::TopicName => "topic_name"@,
            ArgName::EventId => "event_id"@,
            ArgName::Summary => "summary"@,
            ArgName::Start => "start"@,
            ArgName::End => "end"@,
            ArgName::Text => "text"@,
            ArgName::TimeMin => "time_min"@,
            ArgName::TimeMax => "time_max"@,
            ArgName::WebhookAddress => "webhook_address"@,
            ArgName::FileId => "file_id"@,
            ArgName::Name => "name"@,
            ArgName::MimeType => "mime_type"@,
            ArgName::ContentBase64 => "content_base64"@,
            ArgName::ShareEmail => "share_email"@,
            ArgName::PermissionId => "permission_id"@,
            ArgName::DocumentId => "document_id"@,
            ArgName::SpreadsheetId => "spreadsheet_id"@,
            ArgName::Range => "range"@,
            ArgName::ValuesJson => "values_json"@,
            ArgName::PresentationId => "presentation_id"@,
            ArgName::FormId => "form_id"@,
            ArgName::TaskListId => "task_list_id"@,
            ArgName::TaskId => "task_id"@,
            ArgName::Title => "title"@,
            ArgName::ConferenceId => "conference_id"@,
            ArgName::MediaItemId => "media_item_id"@,
            ArgName::NotebookId => "notebook_id"@,
            ArgName::Url => "url"@,
            ArgName::Question => "question"@,
            ArgName::Email => "email"@,
        }
    }

    pub fn as_str(&self) -> (r: &'static str)
        ensures
            r@ == self.spelling(),
    {
        match self {
            ArgName::MessageId => "message_id",
            ArgName::To => "to",
            ArgName::Subject => "subject",
            ArgName::Body => "body",
            ArgName::ThreadId => "thread_id",
            ArgName::AttachmentId => "attachment_id",
            ArgName::TopicName => "topic_name",
            ArgName::EventId => "event_id",
            ArgName::Summary => "summary",
            ArgName::Start => "start",
            ArgName::End => "end",
            ArgName::Text => "text",
            ArgName::TimeMin => "time_min",
            ArgName::TimeMax => "time_max",
            ArgName::WebhookAddress => "webhook_address",
            ArgName::FileId => "file_id",
            ArgName::Name => "name",
            ArgName::MimeType => "mime_type",
            ArgName::ContentBase64 => "content_base64",
            ArgName::ShareEmail => "share_email",
            ArgName::PermissionId => "permission_id",
            ArgName::DocumentId => "document_id",
            ArgName::SpreadsheetId => "spreadsheet_id",
            ArgName::Range => "range",
            ArgName::ValuesJson => "values_json",
            ArgName::PresentationId => "presentation_id",
            ArgName::FormId => "form_id",
            ArgName::TaskListId => "task_list_id",
            ArgName::TaskId => "task_id",
            ArgName::Title => "title",
            ArgName::ConferenceId => "conference_id",
            ArgName::MediaItemId => "media_item_id",
            ArgName::NotebookId => "notebook_id",
            ArgName::Url => "url",
            ArgName::Question => "question",
            ArgName::Email => "email",
        }
    }
}

/// Why a tool refused its arguments.
#[derive(Debug, Clone, Copy, PartialEq, Eq, Structural)]
pub enum ToolError {
    /// The operation needs this argument and it was not given.
    MissingArgument(ArgName),
}

pub open spec fn missing<C>(a: ArgName) -> Result<C, ToolError> {
    Err(ToolError::MissingArgument(a))
}

impl ToolError {
    /// `<argument> required`.
    pub fn message(&self) -> (r: String)
        ensures
            r@ == (match *self { ToolError::MissingArgument(a) => a.spelling() }) + " required"@,
    {
        match self {
            ToolError::MissingArgument(a) => {
                let mut m = owned(a.as_str());
                m.append(" required");
                m
            },
        }
    }
}

// ---------------------------------------------------------------------------
// Replies that the tools build themselves
// ---------------------------------------------------------------------------

/// `{"status": status}`
pub fn status_reply(status: &str) -> (r: JsonValue)
    ensures
        r.model() == Json::Object(seq![("status"@, Json::Str(status@))]),
{
    let mut m: Vec<(String, JsonValue)> = Vec::new();
    push_member(&mut m, "status", jstring(status));
    assert(member_models(m@) =~= seq![("status"@, Json::Str(status@))]);
    jobject(m)
}

/// `{"content": content}`
pub fn content_reply(content: &str) -> (r: JsonValue)
    ensures
        r.model() == Json::Object(seq![("content"@, Json::Str(content@))]),
{
    let mut m: Vec<(String, JsonValue)> = Vec::new();
    push_member(&mut m, "content", jstring(content));
    assert(member_models(m@) =~= seq![("content"@, Json::Str(content@))]);
    jobject(m)
}

/// `{"summary": summary}`
pub fn summary_reply(summary: &str) -> (r: JsonValue)
    ensures
        r.model() == Json::Object(seq![("summary"@, Json::Str(summary@))]),
{
    let mut m: Vec<(String, JsonValue)> = Vec::new();
    push_member(&mut m, "summary", jstring(summary));
    assert(member_models(m@) =~= seq![("summary"@, Json::Str(summary@))]);
    jobject(m)
}

/// `{"status": "added", "result": result}`
pub fn source_added_reply(result: JsonValue) -> (r: JsonValue)
    ensures
        r.model() == Json::Object(seq![("status"@, Json::Str("added"@)), ("result"@, result.model())]),
{
    let mut m: Vec<(String, JsonValue)> = Vec::new();
    push_member(&mut m, "status", jstring("added"));
    push_member(&mut m, "result", result);
    assert(member_models(m@) =~= seq![("status"@, Json::Str("added"@)), ("result"@, result.model())]);
    jobject(m)
}

/// `{"question": question, "answer": answer}`
pub fn chat_answer_reply(question: &str, answer: &str) -> (r: JsonValue)
    ensures
        r.model() == Json::Object(seq![("question"@, Json::Str(question@)), ("answer"@, Json::Str(answer@))]),
{
    let mut m: Vec<(String, JsonValue)> = Vec::new();
    push_member(&mut m, "question", jstring(question));
    push_member(&mut m, "answer", jstring(answer));
    assert(member_models(m@) =~= seq![("question"@, Json::Str(question@)), ("answer"@, Json::Str(answer@))]);
    jobject(m)
}

pub const AUTHENTICATE_MESSAGE: &'static str = "Open this URL in your browser to authenticate. The server is listening on http://localhost:8000 for the OAuth callback.";

/// The reply to `authenticate`: the consent URL, waiting for its callback.
pub fn authenticate_reply(auth_url: &str) -> (r: JsonValue)
    ensures
        r.model() == Json::Object(seq![
            ("status"@, Json::Str("awaiting_callback"@)),
            ("auth_url"@, Json::Str(auth_url@)),
            ("message"@, Json::Str(AUTHENTICATE_MESSAGE@)),
        ]),
{
    let mut m: Vec<(String, JsonValue)> = Vec::new();
    push_member(&mut m, "status", jstring("awaiting_callback"));
    push_member(&mut m, "auth_url", jstring(auth_url));
    push_member(&mut m, "message", jstring(AUTHENTICATE_MESSAGE));
    assert(member_models(m@) =~= seq![
        ("status"@, Json::Str("awaiting_callback"@)),
        ("auth_url"@, Json::Str(auth_url@)),
        ("message"@, Json::Str(AUTHENTICATE_MESSAGE@)),
    ]);
    jobject(m)
}

/// `{"status": "removed", "email": email}`
pub fn removed_reply(email: &str) -> (r: JsonValue)
    ensures
        r.model() == Json::Object(seq![("status"@, Json::Str("removed"@)), ("email"@, Json::Str(email@))]),
{
    let mut m: Vec<(String, JsonValue)> = Vec::new();
    push_member(&mut m, "status", jstring("removed"));
    push_member(&mut m, "email", jstring(email));
    assert(member_models(m@) =~= seq![("status"@, Json::Str("removed"@)), ("email"@, Json::Str(email@))]);
    jobject(m)
}

// ---------------------------------------------------------------------------
// manage_email
// ---------------------------------------------------------------------------

#[derive(Debug, Clone, Copy, PartialEq, Eq, Structural)]
pub enum EmailOperation {
    Read,
    Search,
    Send,
    Reply,
    /// Reply to the sender and every other recipient of a message.
    ReplyAll,
    Forward,
    Trash,
    Untrash,
    Modify,
    Labels,
    Triage,
    Threads,
    GetThread,
    GetAttachment,
    Watch,
}

pub struct ManageEmailArgs {
    pub operation: EmailOperation,
    pub email: String,
    pub message_id: Option<String>,
    pub query: Option<String>,
    pub to: Option<String>,
    pub subject: Option<String>,
    pub body: Option<String>,
    pub cc: Option<String>,
    pub bcc: Option<String>,
    pub add_labels: Option<Vec<String>>,
    pub remove_labels: Option<Vec<String>>,
    pub thread_id: Option<String>,
    pub attachment_id: Option<String>,
    pub topic_name: Option<String>,
    pub max_results: Option<u32>,
}

/// One call of the mail port.
pub enum EmailCall {
    GetMessage { email: String, message_id: String },
    ListMessages { email: String, query: Option<String>, max_results: Option<u32> },
    SendMessage { email: String, to: String, subject: String, body: String, cc: Option<String>, bcc: Option<String> },
    Reply { email: String, message_id: String, body: String },
    ReplyAll { email: String, message_id: String, body: String },
    Forward { email: String, message_id: String, to: String },
    Trash { email: String, message_id: String },
    Untrash { email: String, message_id: String },
    Modify { email: String, message_id: String, add_labels: Option<Vec<String>>, remove_labels: Option<Vec<String>> },
    ListLabels { email: String },
    Triage { email: String },
    ListThreads { email: String, query: Option<String>, max_results: Option<u32> },
    GetThread { email: String, thread_id: String },
    GetAttachment { email: String, message_id: String, attachment_id: String },
    Watch { email: String, topic_name: String },
}

/// The mail call for `a`, or the first required argument that is missing.
pub open spec fn email_plan(a: ManageEmailArgs) -> Result<EmailCall, ToolError> {
    let e = a.email;
    match a.operation {
        EmailOperation::Read => match a.message_id {
            Some(id) => Ok(EmailCall::GetMessage { email: e, message_id: id }),
            None => missing(ArgName::MessageId),
        },
        EmailOperation::Search => Ok(EmailCall::ListMessages { email: e, query: a.query, max_results: a.max_results }),
        EmailOperation::Send => match (a.to, a.subject, a.body) {
            (None, _, _) => missing(ArgName::To),
            (Some(_), None, _) => missing(ArgName::Subject),
            (Some(_), Some(_), None) => missing(ArgName::Body),
            (Some(to), Some(s), Some(b)) => Ok(EmailCall::SendMessage { email: e, to, subject: s, body: b, cc: a.cc, bcc: a.bcc }),
        },
        EmailOperation::Reply => match (a.message_id, a.body) {
            (None, _) => missing(ArgName::MessageId),
            (Some(_), None) => missing(ArgName::Body),
            (Some(id), Some(b)) => Ok(EmailCall::Reply { email: e, message_id: id, body: b }),
        },
        EmailOperation::ReplyAll => match (a.message_id, a.body) {
            (None, _) => missing(ArgName::MessageId),
            (Some(_), None) => missing(ArgName::Body),
            (Some(id), Some(b)) => Ok(EmailCall::ReplyAll { email: e, message_id: id, body: b }),
        },
        EmailOperation::Forward => match (a.message_id, a.to) {
            (None, _) => missing(ArgName::MessageId),
            (Some(_), None) => missing(ArgName::To),
            (Some(id), Some(to)) => Ok(EmailCall::Forward { email: e, message_id: id, to }),
        },
        EmailOperation::Trash => match a.message_id {
            Some(id) => Ok(EmailCall::Trash { email: e, message_id: id }),
            None => missing(ArgName::MessageId),
        },
        EmailOperation::Untrash => match a.message_id {
            Some(id) => Ok(EmailCall::Untrash { email: e, message_id: id }),
            None => missing(ArgName::MessageId),
        },
        EmailOperation::Modify => match a.message_id {
            Some(id) => Ok(EmailCall::Modify { email: e, message_id: id, add_labels: a.add_labels, remove_labels: a.remove_labels }),
            None => missing(ArgName::MessageId),
        },
        EmailOperation::Labels => Ok(EmailCall::ListLabels { email: e }),
        EmailOperation::Triage => Ok(EmailCall::Triage { email: e }),
        EmailOperation::Threads => Ok(EmailCall::ListThreads { email: e, query: a.query, max_results: a.max_results }),
        EmailOperation::GetThread => match a.thread_id {
            Some(t) => Ok(EmailCall::GetThread { email: e, thread_id: t }),
            None => missing(ArgName::ThreadId),
        },
        EmailOperation::GetAttachment => match (a.message_id, a.attachment_id) {
            (None, _) => missing(ArgName::MessageId),
            (Some(_), None) => missing(ArgName::AttachmentId),
            (Some(m), Some(at)) => Ok(EmailCall::GetAttachment { email: e, message_id: m, attachment_id: at }),
        },
        EmailOperation::Watch => match a.topic_name {
            Some(t) => Ok(EmailCall::Watch { email: e, topic_name: t }),
            None => missing(ArgName::TopicName),
        },
    }
}

/// What the mail plan hands on is what it was given: a modification adds
/// exactly the labels given to add and removes exactly those given to remove;
/// a new message goes to the given recipients (copies and blind copies
/// included) with the given subject and body; a reply, a reply to everyone
/// and a forward are about the given message, with the given body or
/// recipient.
pub proof fn lemma_email_plan_hands_on_arguments(a: ManageEmailArgs)
    ensures
        a.operation == EmailOperation::Modify && a.message_id is Some ==> (email_plan(a) matches Ok(
            EmailCall::Modify { email, message_id, add_labels, remove_labels },
        ) && email == a.email && Some(message_id) == a.message_id && add_labels == a.add_labels
            && remove_labels == a.remove_labels),
        a.operation == EmailOperation::Send && a.to is Some && a.subject is Some && a.body is Some ==> (email_plan(a) matches Ok(
            EmailCall::SendMessage { email, to, subject, body, cc, bcc },
        ) && email == a.email && Some(to) == a.to && Some(subject) == a.subject && Some(body) == a.body && cc == a.cc
            && bcc == a.bcc),
        a.operation == EmailOperation::Reply && a.message_id is Some && a.body is Some ==> (email_plan(a) matches Ok(
            EmailCall::Reply { email, message_id, body },
        ) && email == a.email && Some(message_id) == a.message_id && Some(body) == a.body),
        a.operation == EmailOperation::ReplyAll && a.message_id is Some && a.body is Some ==> (email_plan(a) matches Ok(
            EmailCall::ReplyAll { email, message_id, body },
        ) && email == a.email && Some(message_id) == a.message_id && Some(body) == a.body),
        a.operation == EmailOperation::Forward && a.message_id is Some && a.to is Some ==> (email_plan(a) matches Ok(
            EmailCall::Forward { email, message_id, to },
        ) && email == a.email && Some(message_id) == a.message_id && Some(to) == a.to),
{
}

/// The `manage_email` tool.
pub struct ManageEmailTool {}

impl ManageEmailTool {
    pub fn new() -> Self {
        ManageEmailTool {}
    }

    pub fn name(&self) -> (r: &'static str)
        ensures
            r@ == "manage_email"@,
    {
        "manage_email"
    }

    pub fn description(&self) -> (r: &'static str)
        ensures
            r@ == EMAIL_DESCRIPTION@,
    {
        EMAIL_DESCRIPTION
    }

    /// Checks the arguments of a call and picks the port call to make.
    pub fn plan(&self, a: ManageEmailArgs) -> (r: Result<EmailCall, ToolError>)
        ensures
            r == email_plan(a),
    {
        let e = a.email;
        match a.operation {
            EmailOperation::Read => match a.message_id {
                Some(id) => Ok(EmailCall::GetMessage { email: e, message_id: id }),
                None => Err(ToolError::MissingArgument(ArgName::MessageId)),
            },
            EmailOperation::Search => Ok(EmailCall::ListMessages { email: e, query: a.query, max_results: a.max_results }),
            EmailOperation::Send => match (a.to, a.subject, a.body) {
                (None, _, _) => Err(ToolError::MissingArgument(ArgName::To)),
                (Some(_), None, _) => Err(ToolError::MissingArgument(ArgName::Subject)),
                (Some(_), Some(_), None) => Err(ToolError::MissingArgument(ArgName::Body)),
                (Some(to), Some(s), Some(b)) => Ok(EmailCall::SendMessage { email: e, to, subject: s, body: b, cc: a.cc, bcc: a.bcc }),
            },
            EmailOperation::Reply => match (a.message_id, a.body) {
                (None, _) => Err(ToolError::MissingArgument(ArgName::MessageId)),
                (Some(_), None) => Err(ToolError::MissingArgument(ArgName::Body)),
                (Some(id), Some(b)) => Ok(EmailCall::Reply { email: e, message_id: id, body: b }),
            },
            EmailOperation::ReplyAll => match (a.message_id, a.body) {
                (None, _) => Err(ToolError::MissingArgument(ArgName::MessageId)),
                (Some(_), None) => Err(ToolError::MissingArgument(ArgName::Body)),
                (Some(id), Some(b)) => Ok(EmailCall::ReplyAll { email: e, message_id: id, body: b }),
            },
            EmailOperation::Forward => match (a.message_id, a.to) {
                (None, _) => Err(ToolError::MissingArgument(ArgName::MessageId)),
                (Some(_), None) => Err(ToolError::MissingArgument(ArgName::To)),
                (Some(id), Some(to)) => Ok(EmailCall::Forward { email: e, message_id: id, to }),
            },
            EmailOperation::Trash => match a.message_id {
                Some(id) => Ok(EmailCall::Trash { email: e, message_id: id }),
                None => Err(ToolError::MissingArgument(ArgName::MessageId)),
            },
            EmailOperation::Untrash => match a.message_id {
                Some(id) => Ok(EmailCall::Untrash { email: e, message_id: id }),
                None => Err(ToolError::MissingArgument(ArgName::MessageId)),
            },
            EmailOperation::Modify => match a.message_id {
                Some(id) => Ok(EmailCall::Modify { email: e, message_id: id, add_labels: a.add_labels, remove_labels: a.remove_labels }),
                None => Err(ToolError::MissingArgument(ArgName::MessageId)),
            },
            EmailOperation::Labels => Ok(EmailCall::ListLabels { email: e }),
            EmailOperation::Triage => Ok(EmailCall::Triage { email: e }),
            EmailOperation::Threads => Ok(EmailCall::ListThreads { email: e, query: a.query, max_results: a.max_results }),
            EmailOperation::GetThread => match a.thread_id {
                Some(t) => Ok(EmailCall::GetThread { email: e, thread_id: t }),
                None => Err(ToolError::MissingArgument(ArgName::ThreadId)),
            },
            EmailOperation::GetAttachment => match (a.message_id, a.attachment_id) {
                (None, _) => Err(ToolError::MissingArgument(ArgName::MessageId)),
                (Some(_), None) => Err(ToolError::MissingArgument(ArgName::AttachmentId)),
                (Some(m), Some(at)) => Ok(EmailCall::GetAttachment { email: e, message_id: m, attachment_id: at }),
            },
            EmailOperation::Watch => match a.topic_name {
                Some(t) => Ok(EmailCall::Watch { email: e, topic_name: t }),
                None => Err(ToolError::MissingArgument(ArgName::TopicName)),
            },
        }
    }
}

pub const EMAIL_DESCRIPTION: &'static str = "Search, read, send, reply, forward, trash, untrash, label, triage, and manage Gmail messages and threads.";

// ---------------------------------------------------------------------------
// manage_calendar
// ---------------------------------------------------------------------------

#[derive(Debug, Clone, Copy, PartialEq, Eq, Structural)]
pub enum CalendarOperation {
    Get,
    List,
    /// The upcoming events, from the time of the call on.
    Agenda,
    Create,
    QuickAdd,
    Update,
    Delete,
    Calendars,
    Freebusy,
    Watch,
}

pub struct ManageCalendarArgs {
    pub operation: CalendarOperation,
    pub email: String,
    pub calendar_id: Option<String>,
    pub event_id: Option<String>,
    pub summary: Option<String>,
    pub description: Option<String>,
    pub location: Option<String>,
    pub start: Option<String>,
    pub end: Option<String>,
    pub attendees: Option<String>,
    pub text: Option<String>,
    pub time_min: Option<String>,
    pub time_max: Option<String>,
    pub query: Option<String>,
    pub max_results: Option<u32>,
    pub webhook_address: Option<String>,
}

/// One call of the calendar port.
pub enum CalendarCall {
    GetEvent { email: String, calendar_id: String, event_id: String },
    ListEvents {
        email: String,
        calendar_id: String,
        time_min: Option<String>,
        time_max: Option<String>,
        max_results: Option<u32>,
        query: Option<String>,
    },
    /// The events that start from the time of the call on, in time order.
    Agenda { email: String, calendar_id: String, max_results: Option<u32> },
    CreateEvent {
        email: String,
        calendar_id: String,
        summary: String,
        start: String,
        end: String,
        description: Option<String>,
        attendees: Option<Vec<String>>,
        location: Option<String>,
    },
    QuickAdd { email: String, calendar_id: String, text: String },
    UpdateEvent {
        email: String,
        calendar_id: String,
        event_id: String,
        summary: Option<String>,
        start: Option<String>,
        end: Option<String>,
        description: Option<String>,
    },
    DeleteEvent { email: String, calendar_id: String, event_id: String },
    ListCalendars { email: String },
    FreeBusy { email: String, time_min: String, time_max: String, items: Vec<String> },
    Watch { email: String, calendar_id: String, request: PushWatchRequest },
}

/// The calendar a call is about: the given one, else `primary`.
pub open spec fn calendar_or_primary(c: Option<String>) -> Seq<char> {
    match c {
        Some(c) => c@,
        None => "primary"@,
    }
}

/// A comma-separated attendee list: the pieces between commas, trimmed.
pub open spec fn attendee_list(s: Seq<char>) -> Seq<Seq<char>> {
    split_spec(s, ',').map_values(|p: Seq<char>| trim_spec(p))
}

pub open spec fn opt_strings_view(o: Option<Vec<String>>) -> Option<Seq<Seq<char>>> {
    match o {
        Some(v) => Some(string_views(v@)),
        None => None,
    }
}

/// A fresh web-hook watch on `address`: a random version-4 UUID as channel
/// id, no token, no expiration.
pub open spec fn is_web_hook_watch(w: PushWatchRequest, address: String) -> bool {
    &&& is_uuid_v4_text(w.id@)
    &&& w.watch_type@ == "web_hook"@
    &&& w.address == address
    &&& w.token is None
    &&& w.expiration is None
}

/// `r` is the calendar call for `a`, or names the first required argument
/// that is missing. Only a watch's channel id is left to chance.
pub open spec fn calendar_plan(a: ManageCalendarArgs, r: Result<CalendarCall, ToolError>) -> bool {
    let cal = calendar_or_primary(a.calendar_id);
    let e = a.email;
    match a.operation {
        CalendarOperation::Get => match a.event_id {
            None => r == missing::<CalendarCall>(ArgName::EventId),
            Some(id) => r matches Ok(CalendarCall::GetEvent { email, calendar_id, event_id })
                && email == e && calendar_id@ == cal && event_id == id,
        },
        CalendarOperation::List => r matches Ok(CalendarCall::ListEvents { email, calendar_id, time_min, time_max, max_results, query })
            && email == e && calendar_id@ == cal && time_min == a.time_min && time_max == a.time_max
            && max_results == a.max_results && query == a.query,
        CalendarOperation::Agenda => r matches Ok(CalendarCall::Agenda { email, calendar_id, max_results })
            && email == e && calendar_id@ == cal && max_results == a.max_results,
        CalendarOperation::Create => match (a.summary, a.start, a.end) {
            (None, _, _) => r == missing::<CalendarCall>(ArgName::Summary),
            (Some(_), None, _) => r == missing::<CalendarCall>(ArgName::Start),
            (Some(_), Some(_), None) => r == missing::<CalendarCall>(ArgName::End),
            (Some(su), Some(st), Some(en)) =>
                r matches Ok(CalendarCall::CreateEvent { email, calendar_id, summary, start, end, description, attendees, location })
                && email == e && calendar_id@ == cal && summary == su && start == st && end == en
                && description == a.description && location == a.location
                && opt_strings_view(attendees) == (match a.attendees {
                    Some(s) => Some(attendee_list(s@)),
                    None => None::<Seq<Seq<char>>>,
                }),
        },
        CalendarOperation::QuickAdd => match a.text {
            None => r == missing::<CalendarCall>(ArgName::Text),
            Some(t) => r matches Ok(CalendarCall::QuickAdd { email, calendar_id, text })
                && email == e && calendar_id@ == cal && text == t,
        },
        CalendarOperation::Update => match a.event_id {
            None => r == missing::<CalendarCall>(ArgName::EventId),
            Some(id) => r matches Ok(CalendarCall::UpdateEvent { email, calendar_id, event_id, summary, start, end, description })
                && email == e && calendar_id@ == cal && event_id == id && summary == a.summary && start == a.start
                && end == a.end && description == a.description,
        },
        CalendarOperation::Delete => match a.event_id {
            None => r == missing::<CalendarCall>(ArgName::EventId),
            Some(id) => r matches Ok(CalendarCall::DeleteEvent { email, calendar_id, event_id })
                && email == e && calendar_id@ == cal && event_id == id,
        },
        CalendarOperation::Calendars => r == Ok::<CalendarCall, ToolError>(CalendarCall::ListCalendars { email: e }),
        CalendarOperation::Freebusy => match (a.time_min, a.time_max) {
            (None, _) => r == missing::<CalendarCall>(ArgName::TimeMin),
            (Some(_), None) => r == missing::<CalendarCall>(ArgName::TimeMax),
            (Some(lo), Some(hi)) => r matches Ok(CalendarCall::FreeBusy { email, time_min, time_max, items })
                && email == e && time_min == lo && time_max == hi && string_views(items@) == seq![cal],
        },
        CalendarOperation::Watch => match a.webhook_address {
            None => r == missing::<CalendarCall>(ArgName::WebhookAddress),
            Some(addr) => r matches Ok(CalendarCall::Watch { email, calendar_id, request })
                && email == e && calendar_id@ == cal && is_web_hook_watch(request, addr),
        },
    }
}

/// The attendees of a comma-separated list, each trimmed.
pub fn split_attendees(s: &str) -> (r: Vec<String>)
    ensures
        string_views(r@) == attendee_list(s@),
{
    let cs = crate::text::chars_of(s);
    let pieces = split_char(&cs, ',');
    let ghost want = attendee_list(s@);
    let mut out: Vec<String> = Vec::new();
    let mut i: usize = 0;
    while i < pieces.len()
        invariant
            i <= pieces@.len(),
            pieces@.len() == split_spec(s@, ',').len(),
            forall|k: int| 0 <= k < pieces@.len() ==> #[trigger] pieces@[k]@ == split_spec(s@, ',')[k],
            want == attendee_list(s@),
            want.len() == pieces@.len(),
            out@.len() == i,
            forall|k: int| 0 <= k < i ==> #[trigger] out@[k]@ == want[k],
        decreases pieces@.len() - i,
    {
        let piece = string_of(&pieces[i]);
        let t = trim_str(piece.as_str());
        out.push(t);
        i = i + 1;
    }
    assert(string_views(out@) =~= want);
    out
}

/// What the calendar plan hands on is what it was given: a listing keeps its
/// time bounds, its maximum and its text as given, for the given calendar or
/// else `primary`; a new event keeps its summary, start and end; a free/busy
/// query keeps its bounds and asks about that one calendar.
pub proof fn lemma_calendar_plan_hands_on_arguments(a: ManageCalendarArgs, r: Result<CalendarCall, ToolError>)
    requires
        calendar_plan(a, r),
    ensures
        a.operation == CalendarOperation::List ==> (r matches Ok(
            CalendarCall::ListEvents { email, calendar_id, time_min, time_max, max_results, query },
        ) && email == a.email && time_min == a.time_min && time_max == a.time_max && max_results == a.max_results
            && query == a.query && calendar_id@ == (match a.calendar_id {
                Some(c) => c@,
                None => "primary"@,
            })),
        a.operation == CalendarOperation::Agenda ==> (r matches Ok(CalendarCall::Agenda { email, max_results, .. })
            && email == a.email && max_results == a.max_results),
        a.operation == CalendarOperation::Create && a.summary is Some && a.start is Some && a.end is Some ==> (r matches Ok(
            CalendarCall::CreateEvent { summary, start, end, .. },
        ) && Some(summary) == a.summary && Some(start) == a.start && Some(end) == a.end),
        a.operation == CalendarOperation::Freebusy && a.time_min is Some && a.time_max is Some ==> (r matches Ok(
            CalendarCall::FreeBusy { time_min, time_max, items, .. },
        ) && Some(time_min) == a.time_min && Some(time_max) == a.time_max && string_views(items@) == seq![
            match a.calendar_id {
                Some(c) => c@,
                None => "primary"@,
            },
        ]),
{
}

/// The `manage_calendar` tool.
pub struct ManageCalendarTool {}

impl ManageCalendarTool {
    pub fn new() -> Self {
        ManageCalendarTool {}
    }

    pub fn name(&self) -> (r: &'static str)
        ensures
            r@ == "manage_calendar"@,
    {
        "manage_calendar"
    }

    pub fn description(&self) -> (r: &'static str)
        ensures
            r@ == CALENDAR_DESCRIPTION@,
    {
        CALENDAR_DESCRIPTION
    }

    /// Checks the arguments of a call and picks the port call to make.
    pub fn plan(&self, a: ManageCalendarArgs) -> (r: Result<CalendarCall, ToolError>)
        ensures
            calendar_plan(a, r),
    {
        let ghost a0 = a;
        let cal = match a.calendar_id {
            Some(c) => c,
            None => owned("primary"),
        };
        let e = a.email;
        match a.operation {
            CalendarOperation::Get => match a.event_id {
                None => Err(ToolError::MissingArgument(ArgName::EventId)),
                Some(id) => Ok(CalendarCall::GetEvent { email: e, calendar_id: cal, event_id: id }),
            },
            CalendarOperation::List => Ok(CalendarCall::ListEvents {
                email: e,
                calendar_id: cal,
                time_min: a.time_min,
                time_max: a.time_max,
                max_results: a.max_results,
                query: a.query,
            }),
            CalendarOperation::Agenda => Ok(CalendarCall::Agenda { email: e, calendar_id: cal, max_results: a.max_results }),
            CalendarOperation::Create => match (a.summary, a.start, a.end) {
                (None, _, _) => Err(ToolError::MissingArgument(ArgName::Summary)),
                (Some(_), None, _) => Err(ToolError::MissingArgument(ArgName::Start)),
                (Some(_), Some(_), None) => Err(ToolError::MissingArgument(ArgName::End)),
                (Some(su), Some(st), Some(en)) => {
                    let attendees = match &a.attendees {
                        Some(s) => Some(split_attendees(s.as_str())),
                        None => None,
                    };
                    Ok(CalendarCall::CreateEvent {
                        email: e,
                        calendar_id: cal,
                        summary: su,
                        start: st,
                        end: en,
                        description: a.description,
                        attendees,
                        location: a.location,
                    })
                },
            },
            CalendarOperation::QuickAdd => match a.text {
                None => Err(ToolError::MissingArgument(ArgName::Text)),
                Some(t) => Ok(CalendarCall::QuickAdd { email: e, calendar_id: cal, text: t }),
            },
            CalendarOperation::Update => match a.event_id {
                None => Err(ToolError::MissingArgument(ArgName::EventId)),
                Some(id) => Ok(CalendarCall::UpdateEvent {
                    email: e,
                    calendar_id: cal,
                    event_id: id,
                    summary: a.summary,
                    start: a.start,
                    end: a.end,
                    description: a.description,
                }),
            },
            CalendarOperation::Delete => match a.event_id {
                None => Err(ToolError::MissingArgument(ArgName::EventId)),
                Some(id) => Ok(CalendarCall::DeleteEvent { email: e, calendar_id: cal, event_id: id }),
            },
            CalendarOperation::Calendars => Ok(CalendarCall::ListCalendars { email: e }),
            CalendarOperation::Freebusy => match (a.time_min, a.time_max) {
                (None, _) => Err(ToolError::MissingArgument(ArgName::TimeMin)),
                (Some(_), None) => Err(ToolError::MissingArgument(ArgName::TimeMax)),
                (Some(lo), Some(hi)) => {
                    let items = vec![cal];
                    assert(string_views(items@) =~= seq![calendar_or_primary(a0.calendar_id)]);
                    Ok(CalendarCall::FreeBusy { email: e, time_min: lo, time_max: hi, items })
                },
            },
            CalendarOperation::Watch => match a.webhook_address {
                None => Err(ToolError::MissingArgument(ArgName::WebhookAddress)),
                Some(addr) => {
                    let request = new_web_hook_watch(addr);
                    Ok(CalendarCall::Watch { email: e, calendar_id: cal, request })
                },
            },
        }
    }
}

pub const CALENDAR_DESCRIPTION: &'static str = "List events, view agenda, create, quickAdd, update, delete events, list calendars, check free/busy, and set up push webhooks.";

// ---------------------------------------------------------------------------
// manage_drive
// ---------------------------------------------------------------------------

#[derive(Debug, Clone, Copy, PartialEq, Eq, Structural)]
pub enum DriveOperation {
    Get,
    Search,
    Upload,
    Download,
    Copy,
    Delete,
    Export,
    ListPermissions,
    Share,
    Unshare,
    Watch,
    /// A spreadsheet, as `manage_sheets` gets it.
    SheetsGet,
    /// A new spreadsheet, as `manage_sheets` creates it.
    SheetsCreate,
    /// A range of a spreadsheet, as `manage_sheets` reads it.
    SheetsRead,
    /// Values written over a range, as `manage_sheets` updates them.
    SheetsWrite,
    /// A document, as `manage_docs` gets it.
    DocsGet,
    /// A new document, as `manage_docs` creates it.
    DocsCreate,
    /// Text appended to a document, as `manage_docs` writes it.
    DocsWrite,
}

pub struct ManageDriveArgs {
    pub operation: DriveOperation,
    pub email: String,
    pub file_id: Option<String>,
    pub query: Option<String>,
    pub name: Option<String>,
    pub mime_type: Option<String>,
    pub content_base64: Option<String>,
    pub parent_folder_id: Option<String>,
    pub new_name: Option<String>,
    pub share_email: Option<String>,
    pub role: Option<String>,
    pub permission_id: Option<String>,
    pub max_results: Option<u32>,
    pub webhook_address: Option<String>,
    pub spreadsheet_id: Option<String>,
    pub document_id: Option<String>,
    pub title: Option<String>,
    pub range: Option<String>,
    pub values_json: Option<String>,
    pub text: Option<String>,
}

/// One call of the drive port, or of the spreadsheets or documents port.
pub enum DriveCall {
    GetFile { email: String, file_id: String },
    ListFiles { email: String, query: Option<String>, max_results: Option<u32> },
    Upload { email: String, name: String, mime_type: String, content_base64: String, parent_folder_id: Option<String> },
    Download { email: String, file_id: String },
    Copy { email: String, file_id: String, new_name: Option<String> },
    Delete { email: String, file_id: String },
    Export { email: String, file_id: String, mime_type: String },
    ListPermissions { email: String, file_id: String },
    Share { email: String, file_id: String, share_email: String, role: String },
    Unshare { email: String, file_id: String, permission_id: String },
    Watch { email: String, file_id: String, request: PushWatchRequest },
    Sheets(SheetsCall),
    Docs(DocsCall),
}

/// The spreadsheet arguments within drive arguments.
pub open spec fn drive_sheets_args(a: ManageDriveArgs, op: SheetsOperation) -> ManageSheetsArgs {
    ManageSheetsArgs {
        operation: op,
        email: a.email,
        spreadsheet_id: a.spreadsheet_id,
        title: a.title,
        range: a.range,
        values_json: a.values_json,
    }
}

/// The document arguments within drive arguments.
pub open spec fn drive_docs_args(a: ManageDriveArgs, op: DocsOperation) -> ManageDocsArgs {
    ManageDocsArgs { operation: op, email: a.email, document_id: a.document_id, title: a.title, text: a.text }
}

/// `r` is what `manage_sheets` plans for `sa`, made a drive call.
pub open spec fn as_sheets_plan(sa: ManageSheetsArgs, r: Result<DriveCall, ToolError>) -> bool {
    match r {
        Ok(DriveCall::Sheets(c)) => sheets_plan(sa, Ok(c)),
        Ok(_) => false,
        Err(x) => sheets_plan(sa, Err(x)),
    }
}

/// `r` is what `manage_docs` plans for `da`, made a drive call.
pub open spec fn as_docs_plan(da: ManageDocsArgs, r: Result<DriveCall, ToolError>) -> bool {
    match r {
        Ok(DriveCall::Docs(c)) => docs_plan(da, Ok(c)),
        Ok(_) => false,
        Err(x) => docs_plan(da, Err(x)),
    }
}

/// A spreadsheet call made through the drive tool.
fn in_drive_sheets(sa: ManageSheetsArgs) -> (r: Result<DriveCall, ToolError>)
    ensures
        as_sheets_plan(sa, r),
{
    match ManageSheetsTool::new().plan(sa) {
        Ok(c) => Ok(DriveCall::Sheets(c)),
        Err(x) => Err(x),
    }
}

/// A document call made through the drive tool.
fn in_drive_docs(da: ManageDocsArgs) -> (r: Result<DriveCall, ToolError>)
    ensures
        as_docs_plan(da, r),
{
    match ManageDocsTool::new().plan(da) {
        Ok(c) => Ok(DriveCall::Docs(c)),
        Err(x) => Err(x),
    }
}

/// The role a share grants: the given one, else `reader`.
pub open spec fn role_or_reader(r: Option<String>) -> Seq<char> {
    match r {
        Some(r) => r@,
        None => "reader"@,
    }
}

/// `r` is the drive call for `a`, or names the first required argument that
/// is missing. Only a watch's channel id is left to chance.
pub open spec fn drive_plan(a: ManageDriveArgs, r: Result<DriveCall, ToolError>) -> bool {
    let e = a.email;
    match a.operation {
        DriveOperation::Get => match a.file_id {
            None => r == missing::<DriveCall>(ArgName::FileId),
            Some(f) => r == Ok::<DriveCall, ToolError>(DriveCall::GetFile { email: e, file_id: f }),
        },
        DriveOperation::Search => r == Ok::<DriveCall, ToolError>(DriveCall::ListFiles { email: e, query: a.query, max_results: a.max_results }),
        DriveOperation::Upload => match (a.name, a.mime_type, a.content_base64) {
            (None, _, _) => r == missing::<DriveCall>(ArgName::Name),
            (Some(_), None, _) => r == missing::<DriveCall>(ArgName::MimeType),
            (Some(_), Some(_), None) => r == missing::<DriveCall>(ArgName::ContentBase64),
            (Some(n), Some(m), Some(c)) => r == Ok::<DriveCall, ToolError>(DriveCall::Upload {
                email: e,
                name: n,
                mime_type: m,
                content_base64: c,
                parent_folder_id: a.parent_folder_id,
            }),
        },
        DriveOperation::Download => match a.file_id {
            None => r == missing::<DriveCall>(ArgName::FileId),
            Some(f) => r == Ok::<DriveCall, ToolError>(DriveCall::Download { email: e, file_id: f }),
        },
        DriveOperation::Copy => match a.file_id {
            None => r == missing::<DriveCall>(ArgName::FileId),
            Some(f) => r == Ok::<DriveCall, ToolError>(DriveCall::Copy { email: e, file_id: f, new_name: a.new_name }),
        },
        DriveOperation::Delete => match a.file_id {
            None => r == missing::<DriveCall>(ArgName::FileId),
            Some(f) => r == Ok::<DriveCall, ToolError>(DriveCall::Delete { email: e, file_id: f }),
        },
        DriveOperation::Export => match (a.file_id, a.mime_type) {
            (None, _) => r == missing::<DriveCall>(ArgName::FileId),
            (Some(_), None) => r == missing::<DriveCall>(ArgName::MimeType),
            (Some(f), Some(m)) => r == Ok::<DriveCall, ToolError>(DriveCall::Export { email: e, file_id: f, mime_type: m }),
        },
        DriveOperation::ListPermissions => match a.file_id {
            None => r == missing::<DriveCall>(ArgName::FileId),
            Some(f) => r == Ok::<DriveCall, ToolError>(DriveCall::ListPermissions { email: e, file_id: f }),
        },
        DriveOperation::Share => match (a.file_id, a.share_email) {
            (None, _) => r == missing::<DriveCall>(ArgName::FileId),
            (Some(_), None) => r == missing::<DriveCall>(ArgName::ShareEmail),
            (Some(f), Some(se)) => r matches Ok(DriveCall::Share { email, file_id, share_email, role })
                && email == e && file_id == f && share_email == se && role@ == role_or_reader(a.role),
        },
        DriveOperation::Unshare => match (a.file_id, a.permission_id) {
            (None, _) => r == missing::<DriveCall>(ArgName::FileId),
            (Some(_), None) => r == missing::<DriveCall>(ArgName::PermissionId),
            (Some(f), Some(p)) => r == Ok::<DriveCall, ToolError>(DriveCall::Unshare { email: e, file_id: f, permission_id: p }),
        },
        DriveOperation::Watch => match (a.file_id, a.webhook_address) {
            (None, _) => r == missing::<DriveCall>(ArgName::FileId),
            (Some(_), None) => r == missing::<DriveCall>(ArgName::WebhookAddress),
            (Some(f), Some(addr)) => r matches Ok(DriveCall::Watch { email, file_id, request })
                && email == e && file_id == f && is_web_hook_watch(request, addr),
        },
        DriveOperation::SheetsGet => as_sheets_plan(drive_sheets_args(a, SheetsOperation::Get), r),
        DriveOperation::SheetsCreate => as_sheets_plan(drive_sheets_args(a, SheetsOperation::Create), r),
        DriveOperation::SheetsRead => as_sheets_plan(drive_sheets_args(a, SheetsOperation::Read), r),
        DriveOperation::SheetsWrite => as_sheets_plan(drive_sheets_args(a, SheetsOperation::UpdateValues), r),
        DriveOperation::DocsGet => as_docs_plan(drive_docs_args(a, DocsOperation::Get), r),
        DriveOperation::DocsCreate => as_docs_plan(drive_docs_args(a, DocsOperation::Create), r),
        DriveOperation::DocsWrite => as_docs_plan(drive_docs_args(a, DocsOperation::Write), r),
    }
}

/// The `manage_drive` tool.
pub struct ManageDriveTool {}

impl ManageDriveTool {
    pub fn new() -> Self {
        ManageDriveTool {}
    }

    pub fn name(&self) -> (r: &'static str)
        ensures
            r@ == "manage_drive"@,
    {
        "manage_drive"
    }

    pub fn description(&self) -> (r: &'static str)
        ensures
            r@ == DRIVE_DESCRIPTION@,
    {
        DRIVE_DESCRIPTION
    }

    /// Checks the arguments of a call and picks the port call to make.
    pub fn plan(&self, a: ManageDriveArgs) -> (r: Result<DriveCall, ToolError>)
        ensures
            drive_plan(a, r),
    {
        let e = a.email;
        match a.operation {
            DriveOperation::Get => match a.file_id {
                None => Err(ToolError::MissingArgument(ArgName::FileId)),
                Some(f) => Ok(DriveCall::GetFile { email: e, file_id: f }),
            },
            DriveOperation::Search => Ok(DriveCall::ListFiles { email: e, query: a.query, max_results: a.max_results }),
            DriveOperation::Upload => match (a.name, a.mime_type, a.content_base64) {
                (None, _, _) => Err(ToolError::MissingArgument(ArgName::Name)),
                (Some(_), None, _) => Err(ToolError::MissingArgument(ArgName::MimeType)),
                (Some(_), Some(_), None) => Err(ToolError::MissingArgument(ArgName::ContentBase64)),
                (Some(n), Some(m), Some(c)) => Ok(DriveCall::Upload {
                    email: e,
                    name: n,
                    mime_type: m,
                    content_base64: c,
                    parent_folder_id: a.parent_folder_id,
                }),
            },
            DriveOperation::Download => match a.file_id {
                None => Err(ToolError::MissingArgument(ArgName::FileId)),
                Some(f) => Ok(DriveCall::Download { email: e, file_id: f }),
            },
            DriveOperation::Copy => match a.file_id {
                None => Err(ToolError::MissingArgument(ArgName::FileId)),
                Some(f) => Ok(DriveCall::Copy { email: e, file_id: f, new_name: a.new_name }),
            },
            DriveOperation::Delete => match a.file_id {
                None => Err(ToolError::MissingArgument(ArgName::FileId)),
                Some(f) => Ok(DriveCall::Delete { email: e, file_id: f }),
            },
            DriveOperation::Export => match (a.file_id, a.mime_type) {
                (None, _) => Err(ToolError::MissingArgument(ArgName::FileId)),
                (Some(_), None) => Err(ToolError::MissingArgument(ArgName::MimeType)),
                (Some(f), Some(m)) => Ok(DriveCall::Export { email: e, file_id: f, mime_type: m }),
            },
            DriveOperation::ListPermissions => match a.file_id {
                None => Err(ToolError::MissingArgument(ArgName::FileId)),
                Some(f) => Ok(DriveCall::ListPermissions { email: e, file_id: f }),
            },
            DriveOperation::Share => match (a.file_id, a.share_email) {
                (None, _) => Err(ToolError::MissingArgument(ArgName::FileId)),
                (Some(_), None) => Err(ToolError::MissingArgument(ArgName::ShareEmail)),
                (Some(f), Some(se)) => {
                    let role = match a.role {
                        Some(r) => r,
                        None => owned("reader"),
                    };
                    Ok(DriveCall::Share { email: e, file_id: f, share_email: se, role })
                },
            },
            DriveOperation::Unshare => match (a.file_id, a.permission_id) {
                (None, _) => Err(ToolError::MissingArgument(ArgName::FileId)),
                (Some(_), None) => Err(ToolError::MissingArgument(ArgName::PermissionId)),
                (Some(f), Some(p)) => Ok(DriveCall::Unshare { email: e, file_id: f, permission_id: p }),
            },
            DriveOperation::Watch => match (a.file_id, a.webhook_address) {
                (None, _) => Err(ToolError::MissingArgument(ArgName::FileId)),
                (Some(_), None) => Err(ToolError::MissingArgument(ArgName::WebhookAddress)),
                (Some(f), Some(addr)) => {
                    let request = new_web_hook_watch(addr);
                    Ok(DriveCall::Watch { email: e, file_id: f, request })
                },
            },
            DriveOperation::SheetsGet => in_drive_sheets(ManageSheetsArgs {
                operation: SheetsOperation::Get,
                email: e,
                spreadsheet_id: a.spreadsheet_id,
                title: a.title,
                range: a.range,
                values_json: a.values_json,
            }),
            DriveOperation::SheetsCreate => in_drive_sheets(ManageSheetsArgs {
                operation: SheetsOperation::Create,
                email: e,
                spreadsheet_id: a.spreadsheet_id,
                title: a.title,
                range: a.range,
                values_json: a.values_json,
            }),
            DriveOperation::SheetsRead => in_drive_sheets(ManageSheetsArgs {
                operation: SheetsOperation::Read,
                email: e,
                spreadsheet_id: a.spreadsheet_id,
                title: a.title,
                range: a.range,
                values_json: a.values_json,
            }),
            DriveOperation::SheetsWrite => in_drive_sheets(ManageSheetsArgs {
                operation: SheetsOperation::UpdateValues,
                email: e,
                spreadsheet_id: a.spreadsheet_id,
                title: a.title,
                range: a.range,
                values_json: a.values_json,
            }),
            DriveOperation::DocsGet => in_drive_docs(ManageDocsArgs {
                operation: DocsOperation::Get,
                email: e,
                document_id: a.document_id,
                title: a.title,
                text: a.text,
            }),
            DriveOperation::DocsCreate => in_drive_docs(ManageDocsArgs {
                operation: DocsOperation::Create,
                email: e,
                document_id: a.document_id,
                title: a.title,
                text: a.text,
            }),
            DriveOperation::DocsWrite => in_drive_docs(ManageDocsArgs {
                operation: DocsOperation::Write,
                email: e,
                document_id: a.document_id,
                title: a.title,
                text: a.text,
            }),
        }
    }
}

pub const DRIVE_DESCRIPTION: &'static str = "Search, upload, download, copy, delete, export, and share Google Drive files. Supports permissions management and push webhooks.";

// ---------------------------------------------------------------------------
// manage_docs, manage_sheets, manage_slides, manage_forms
// ---------------------------------------------------------------------------

/// A new file's title: the given one, else `Untitled`.
pub open spec fn title_or_untitled(t: Option<String>) -> Seq<char> {
    match t {
        Some(t) => t@,
        None => "Untitled"@,
    }
}

fn title_or_default(t: Option<String>) -> (r: String)
    ensures
        r@ == title_or_untitled(t),
        t is Some ==> r == t->0,
{
    match t {
        Some(t) => t,
        None => owned("Untitled"),
    }
}

#[derive(Debug, Clone, Copy, PartialEq, Eq, Structural)]
pub enum DocsOperation {
    Get,
    Create,
    Write,
}

pub struct ManageDocsArgs {
    pub operation: DocsOperation,
    pub email: String,
    pub document_id: Option<String>,
    pub title: Option<String>,
    pub text: Option<String>,
}

/// One call of the documents port.
pub enum DocsCall {
    GetDoc { email: String, document_id: String },
    CreateDoc { email: String, title: String },
    AppendText { email: String, document_id: String, text: String },
}

/// `r` is the documents call for `a`, or names the first required argument
/// that is missing.
pub open spec fn docs_plan(a: ManageDocsArgs, r: Result<DocsCall, ToolError>) -> bool {
    match a.operation {
        DocsOperation::Get => match a.document_id {
            None => r == missing::<DocsCall>(ArgName::DocumentId),
            Some(d) => r == Ok::<DocsCall, ToolError>(DocsCall::GetDoc { email: a.email, document_id: d }),
        },
        DocsOperation::Create => r matches Ok(DocsCall::CreateDoc { email, title })
            && email == a.email && title@ == title_or_untitled(a.title),
        DocsOperation::Write => match (a.document_id, a.text) {
            (None, _) => r == missing::<DocsCall>(ArgName::DocumentId),
            (Some(_), None) => r == missing::<DocsCall>(ArgName::Text),
            (Some(d), Some(t)) => r == Ok::<DocsCall, ToolError>(DocsCall::AppendText { email: a.email, document_id: d, text: t }),
        },
    }
}

/// The `manage_docs` tool.
pub struct ManageDocsTool {}

impl ManageDocsTool {
    pub fn new() -> Self {
        ManageDocsTool {}
    }

    pub fn name(&self) -> (r: &'static str)
        ensures
            r@ == "manage_docs"@,
    {
        "manage_docs"
    }

    pub fn description(&self) -> (r: &'static str)
        ensures
            r@ == DOCS_DESCRIPTION@,
    {
        DOCS_DESCRIPTION
    }

    /// Checks the arguments of a call and picks the port call to make.
    pub fn plan(&self, a: ManageDocsArgs) -> (r: Result<DocsCall, ToolError>)
        ensures
            docs_plan(a, r),
    {
        match a.operation {
            DocsOperation::Get => match a.document_id {
                None => Err(ToolError::MissingArgument(ArgName::DocumentId)),
                Some(d) => Ok(DocsCall::GetDoc { email: a.email, document_id: d }),
            },
            DocsOperation::Create => Ok(DocsCall::CreateDoc { email: a.email, title: title_or_default(a.title) }),
            DocsOperation::Write => match (a.document_id, a.text) {
                (None, _) => Err(ToolError::MissingArgument(ArgName::DocumentId)),
                (Some(_), None) => Err(ToolError::MissingArgument(ArgName::Text)),
                (Some(d), Some(t)) => Ok(DocsCall::AppendText { email: a.email, document_id: d, text: t }),
            },
        }
    }
}

pub const DOCS_DESCRIPTION: &'static str = "Read and write Google Docs documents.";

#[derive(Debug, Clone, Copy, PartialEq, Eq, Structural)]
pub enum SheetsOperation {
    Get,
    Create,
    Read,
    Append,
    UpdateValues,
}

pub struct ManageSheetsArgs {
    pub operation: SheetsOperation,
    pub email: String,
    pub spreadsheet_id: Option<String>,
    pub title: Option<String>,
    pub range: Option<String>,
    pub values_json: Option<String>,
}

/// One call of the spreadsheets port.
pub enum SheetsCall {
    GetSheet { email: String, spreadsheet_id: String },
    CreateSheet { email: String, title: String },
    ReadRange { email: String, spreadsheet_id: String, range: String },
    AppendCells { email: String, spreadsheet_id: String, range: String, values_json: String },
    UpdateValues { email: String, spreadsheet_id: String, range: String, values_json: String },
}

/// `r` is the spreadsheets call for `a`, or names the first required
/// argument that is missing.
pub open spec fn sheets_plan(a: ManageSheetsArgs, r: Result<SheetsCall, ToolError>) -> bool {
    let e = a.email;
    match a.operation {
        SheetsOperation::Get => match a.spreadsheet_id {
            None => r == missing::<SheetsCall>(ArgName::SpreadsheetId),
            Some(s) => r == Ok::<SheetsCall, ToolError>(SheetsCall::GetSheet { email: e, spreadsheet_id: s }),
        },
        SheetsOperation::Create => r matches Ok(SheetsCall::CreateSheet { email, title })
            && email == e && title@ == title_or_untitled(a.title),
        SheetsOperation::Read => match (a.spreadsheet_id, a.range) {
            (None, _) => r == missing::<SheetsCall>(ArgName::SpreadsheetId),
            (Some(_), None) => r == missing::<SheetsCall>(ArgName::Range),
            (Some(s), Some(g)) => r == Ok::<SheetsCall, ToolError>(SheetsCall::ReadRange { email: e, spreadsheet_id: s, range: g }),
        },
        SheetsOperation::Append => match (a.spreadsheet_id, a.range, a.values_json) {
            (None, _, _) => r == missing::<SheetsCall>(ArgName::SpreadsheetId),
            (Some(_), None, _) => r == missing::<SheetsCall>(ArgName::Range),
            (Some(_), Some(_), None) => r == missing::<SheetsCall>(ArgName::ValuesJson),
            (Some(s), Some(g), Some(v)) => r == Ok::<SheetsCall, ToolError>(SheetsCall::AppendCells {
                email: e,
                spreadsheet_id: s,
                range: g,
                values_json: v,
            }),
        },
        SheetsOperation::UpdateValues => match (a.spreadsheet_id, a.range, a.values_json) {
            (None, _, _) => r == missing::<SheetsCall>(ArgName::SpreadsheetId),
            (Some(_), None, _) => r == missing::<SheetsCall>(ArgName::Range),
            (Some(_), Some(_), None) => r == missing::<SheetsCall>(ArgName::ValuesJson),
            (Some(s), Some(g), Some(v)) => r == Ok::<SheetsCall, ToolError>(SheetsCall::UpdateValues {
                email: e,
                spreadsheet_id: s,
                range: g,
                values_json: v,
            }),
        },
    }
}

/// The `manage_sheets` tool.
pub struct ManageSheetsTool {}

impl ManageSheetsTool {
    pub fn new() -> Self {
        ManageSheetsTool {}
    }

    pub fn name(&self) -> (r: &'static str)
        ensures
            r@ == "manage_sheets"@,
    {
        "manage_sheets"
    }

    pub fn description(&self) -> (r: &'static str)
        ensures
            r@ == SHEETS_DESCRIPTION@,
    {
        SHEETS_DESCRIPTION
    }

    /// Checks the arguments of a call and picks the port call to make.
    pub fn plan(&self, a: ManageSheetsArgs) -> (r: Result<SheetsCall, ToolError>)
        ensures
            sheets_plan(a, r),
    {
        let e = a.email;
        match a.operation {
            SheetsOperation::Get => match a.spreadsheet_id {
                None => Err(ToolError::MissingArgument(ArgName::SpreadsheetId)),
                Some(s) => Ok(SheetsCall::GetSheet { email: e, spreadsheet_id: s }),
            },
            SheetsOperation::Create => Ok(SheetsCall::CreateSheet { email: e, title: title_or_default(a.title) }),
            SheetsOperation::Read => match (a.spreadsheet_id, a.range) {
                (None, _) => Err(ToolError::MissingArgument(ArgName::SpreadsheetId)),
                (Some(_), None) => Err(ToolError::MissingArgument(ArgName::Range)),
                (Some(s), Some(g)) => Ok(SheetsCall::ReadRange { email: e, spreadsheet_id: s, range: g }),
            },
            SheetsOperation::Append => match (a.spreadsheet_id, a.range, a.values_json) {
                (None, _, _) => Err(ToolError::MissingArgument(ArgName::SpreadsheetId)),
                (Some(_), None, _) => Err(ToolError::MissingArgument(ArgName::Range)),
                (Some(_), Some(_), None) => Err(ToolError::MissingArgument(ArgName::ValuesJson)),
                (Some(s), Some(g), Some(v)) => Ok(SheetsCall::AppendCells { email: e, spreadsheet_id: s, range: g, values_json: v }),
            },
            SheetsOperation::UpdateValues => match (a.spreadsheet_id, a.range, a.values_json) {
                (None, _, _) => Err(ToolError::MissingArgument(ArgName::SpreadsheetId)),
                (Some(_), None, _) => Err(ToolError::MissingArgument(ArgName::Range)),
                (Some(_), Some(_), None) => Err(ToolError::MissingArgument(ArgName::ValuesJson)),
                (Some(s), Some(g), Some(v)) => Ok(SheetsCall::UpdateValues { email: e, spreadsheet_id: s, range: g, values_json: v }),
            },
        }
    }
}

pub const SHEETS_DESCRIPTION: &'static str = "Read, write, create, and append to Google Sheets spreadsheets.";

#[derive(Debug, Clone, Copy, PartialEq, Eq, Structural)]
pub enum SlidesOperation {
    Get,
    Create,
}

pub struct ManageSlidesArgs {
    pub operation: SlidesOperation,
    pub email: String,
    pub presentation_id: Option<String>,
    pub title: Option<String>,
}

/// One call of the presentations port.
pub enum SlidesCall {
    GetPresentation { email: String, presentation_id: String },
    CreatePresentation { email: String, title: String },
}

/// `r` is the presentations call for `a`, or names the missing argument.
pub open spec fn slides_plan(a: ManageSlidesArgs, r: Result<SlidesCall, ToolError>) -> bool {
    match a.operation {
        SlidesOperation::Get => match a.presentation_id {
            None => r == missing::<SlidesCall>(ArgName::PresentationId),
            Some(p) => r == Ok::<SlidesCall, ToolError>(SlidesCall::GetPresentation { email: a.email, presentation_id: p }),
        },
        SlidesOperation::Create => r matches Ok(SlidesCall::CreatePresentation { email, title })
            && email == a.email && title@ == title_or_untitled(a.title),
    }
}

/// The `manage_slides` tool.
pub struct ManageSlidesTool {}

impl ManageSlidesTool {
    pub fn new() -> Self {
        ManageSlidesTool {}
    }

    pub fn name(&self) -> (r: &'static str)
        ensures
            r@ == "manage_slides"@,
    {
        "manage_slides"
    }

    pub fn description(&self) -> (r: &'static str)
        ensures
            r@ == SLIDES_DESCRIPTION@,
    {
        SLIDES_DESCRIPTION
    }

    /// Checks the arguments of a call and picks the port call to make.
    pub fn plan(&self, a: ManageSlidesArgs) -> (r: Result<SlidesCall, ToolError>)
        ensures
            slides_plan(a, r),
    {
        match a.operation {
            SlidesOperation::Get => match a.presentation_id {
                None => Err(ToolError::MissingArgument(ArgName::PresentationId)),
                Some(p) => Ok(SlidesCall::GetPresentation { email: a.email, presentation_id: p }),
            },
            SlidesOperation::Create => Ok(SlidesCall::CreatePresentation { email: a.email, title: title_or_default(a.title) }),
        }
    }
}

pub const SLIDES_DESCRIPTION: &'static str = "Manage Google Slides presentations.";

#[derive(Debug, Clone, Copy, PartialEq, Eq, Structural)]
pub enum FormsOperation {
    Get,
    ListResponses,
}

pub struct ManageFormsArgs {
    pub operation: FormsOperation,
    pub email: String,
    pub form_id: Option<String>,
}

/// One call of the forms port.
pub enum FormsCall {
    GetForm { email: String, form_id: String },
    ListResponses { email: String, form_id: String },
}

/// The forms call for `a`, or the missing argument.
pub open spec fn forms_plan(a: ManageFormsArgs) -> Result<FormsCall, ToolError> {
    match a.form_id {
        None => missing(ArgName::FormId),
        Some(f) => match a.operation {
            FormsOperation::Get => Ok(FormsCall::GetForm { email: a.email, form_id: f }),
            FormsOperation::ListResponses => Ok(FormsCall::ListResponses { email: a.email, form_id: f }),
        },
    }
}

/// The `manage_forms` tool.
pub struct ManageFormsTool {}

impl ManageFormsTool {
    pub fn new() -> Self {
        ManageFormsTool {}
    }

    pub fn name(&self) -> (r: &'static str)
        ensures
            r@ == "manage_forms"@,
    {
        "manage_forms"
    }

    pub fn description(&self) -> (r: &'static str)
        ensures
            r@ == FORMS_DESCRIPTION@,
    {
        FORMS_DESCRIPTION
    }

    /// Checks the arguments of a call and picks the port call to make.
    pub fn plan(&self, a: ManageFormsArgs) -> (r: Result<FormsCall, ToolError>)
        ensures
            r == forms_plan(a),
    {
        match a.form_id {
            None => Err(ToolError::MissingArgument(ArgName::FormId)),
            Some(f) => match a.operation {
                FormsOperation::Get => Ok(FormsCall::GetForm { email: a.email, form_id: f }),
                FormsOperation::ListResponses => Ok(FormsCall::ListResponses { email: a.email, form_id: f }),
            },
        }
    }
}

pub const FORMS_DESCRIPTION: &'static str = "Manage Google Forms.";

// ---------------------------------------------------------------------------
// manage_tasks
// ---------------------------------------------------------------------------

#[derive(Debug, Clone, Copy, PartialEq, Eq, Structural)]
pub enum TasksOperation {
    ListTaskLists,
    /// One task list.
    GetTaskList,
    CreateTaskList,
    DeleteTaskList,
    List,
    Get,
    Create,
    Update,
    Complete,
    Delete,
}

pub struct ManageTasksArgs {
    pub operation: TasksOperation,
    pub email: String,
    pub task_list_id: Option<String>,
    pub task_id: Option<String>,
    pub title: Option<String>,
    pub notes: Option<String>,
    pub due: Option<String>,
}

/// One call of the tasks port.
pub enum TasksCall {
    ListTaskLists { email: String },
    GetTaskList { email: String, task_list_id: String },
    CreateTaskList { email: String, title: String },
    DeleteTaskList { email: String, task_list_id: String },
    ListTasks { email: String, task_list_id: String },
    GetTask { email: String, task_list_id: String, task_id: String },
    CreateTask { email: String, task_list_id: String, title: String, notes: Option<String>, due: Option<String> },
    UpdateTask {
        email: String,
        task_list_id: String,
        task_id: String,
        title: Option<String>,
        notes: Option<String>,
        due: Option<String>,
    },
    CompleteTask { email: String, task_list_id: String, task_id: String },
    DeleteTask { email: String, task_list_id: String, task_id: String },
}

/// The tasks call for `a`, or the first required argument that is missing.
pub open spec fn tasks_plan(a: ManageTasksArgs) -> Result<TasksCall, ToolError> {
    let e = a.email;
    match a.operation {
        TasksOperation::ListTaskLists => Ok(TasksCall::ListTaskLists { email: e }),
        TasksOperation::GetTaskList => match a.task_list_id {
            None => missing(ArgName::TaskListId),
            Some(l) => Ok(TasksCall::GetTaskList { email: e, task_list_id: l }),
        },
        TasksOperation::CreateTaskList => match a.title {
            None => missing(ArgName::Title),
            Some(t) => Ok(TasksCall::CreateTaskList { email: e, title: t }),
        },
        TasksOperation::DeleteTaskList => match a.task_list_id {
            None => missing(ArgName::TaskListId),
            Some(l) => Ok(TasksCall::DeleteTaskList { email: e, task_list_id: l }),
        },
        TasksOperation::List => match a.task_list_id {
            None => missing(ArgName::TaskListId),
            Some(l) => Ok(TasksCall::ListTasks { email: e, task_list_id: l }),
        },
        TasksOperation::Get => match (a.task_list_id, a.task_id) {
            (None, _) => missing(ArgName::TaskListId),
            (Some(_), None) => missing(ArgName::TaskId),
            (Some(l), Some(t)) => Ok(TasksCall::GetTask { email: e, task_list_id: l, task_id: t }),
        },
        TasksOperation::Create => match (a.task_list_id, a.title) {
            (None, _) => missing(ArgName::TaskListId),
            (Some(_), None) => missing(ArgName::Title),
            (Some(l), Some(t)) => Ok(TasksCall::CreateTask { email: e, task_list_id: l, title: t, notes: a.notes, due: a.due }),
        },
        TasksOperation::Update => match (a.task_list_id, a.task_id) {
            (None, _) => missing(ArgName::TaskListId),
            (Some(_), None) => missing(ArgName::TaskId),
            (Some(l), Some(t)) => Ok(TasksCall::UpdateTask {
                email: e,
                task_list_id: l,
                task_id: t,
                title: a.title,
                notes: a.notes,
                due: a.due,
            }),
        },
        TasksOperation::Complete => match (a.task_list_id, a.task_id) {
            (None, _) => missing(ArgName::TaskListId),
            (Some(_), None) => missing(ArgName::TaskId),
            (Some(l), Some(t)) => Ok(TasksCall::CompleteTask { email: e, task_list_id: l, task_id: t }),
        },
        TasksOperation::Delete => match (a.task_list_id, a.task_id) {
            (None, _) => missing(ArgName::TaskListId),
            (Some(_), None) => missing(ArgName::TaskId),
            (Some(l), Some(t)) => Ok(TasksCall::DeleteTask { email: e, task_list_id: l, task_id: t }),
        },
    }
}

/// What the tasks plan hands on is what it was given: a new task keeps its
/// list, title, notes and due date; an update keeps the task and the new
/// title, notes and due date; completing and deleting are about the given
/// task of the given list.
pub proof fn lemma_tasks_plan_hands_on_arguments(a: ManageTasksArgs)
    ensures
        a.operation == TasksOperation::Create && a.task_list_id is Some && a.title is Some ==> (tasks_plan(a) matches Ok(
            TasksCall::CreateTask { email, task_list_id, title, notes, due },
        ) && email == a.email && Some(task_list_id) == a.task_list_id && Some(title) == a.title && notes == a.notes
            && due == a.due),
        a.operation == TasksOperation::Update && a.task_list_id is Some && a.task_id is Some ==> (tasks_plan(a) matches Ok(
            TasksCall::UpdateTask { email, task_list_id, task_id, title, notes, due },
        ) && email == a.email && Some(task_list_id) == a.task_list_id && Some(task_id) == a.task_id && title == a.title
            && notes == a.notes && due == a.due),
        a.operation == TasksOperation::Complete && a.task_list_id is Some && a.task_id is Some ==> (tasks_plan(a) matches Ok(
            TasksCall::CompleteTask { task_list_id, task_id, .. },
        ) && Some(task_list_id) == a.task_list_id && Some(task_id) == a.task_id),
        a.operation == TasksOperation::Delete && a.task_list_id is Some && a.task_id is Some ==> (tasks_plan(a) matches Ok(
            TasksCall::DeleteTask { task_list_id, task_id, .. },
        ) && Some(task_list_id) == a.task_list_id && Some(task_id) == a.task_id),
{
}

/// The `manage_tasks` tool.
pub struct ManageTasksTool {}

impl ManageTasksTool {
    pub fn new() -> Self {
        ManageTasksTool {}
    }

    pub fn name(&self) -> (r: &'static str)
        ensures
            r@ == "manage_tasks"@,
    {
        "manage_tasks"
    }

    pub fn description(&self) -> (r: &'static str)
        ensures
            r@ == TASKS_DESCRIPTION@,
    {
        TASKS_DESCRIPTION
    }

    /// Checks the arguments of a call and picks the port call to make.
    pub fn plan(&self, a: ManageTasksArgs) -> (r: Result<TasksCall, ToolError>)
        ensures
            r == tasks_plan(a),
    {
        let e = a.email;
        match a.operation {
            TasksOperation::ListTaskLists => Ok(TasksCall::ListTaskLists { email: e }),
            TasksOperation::GetTaskList => match a.task_list_id {
                None => Err(ToolError::MissingArgument(ArgName::TaskListId)),
                Some(l) => Ok(TasksCall::GetTaskList { email: e, task_list_id: l }),
            },
            TasksOperation::CreateTaskList => match a.title {
                None => Err(ToolError::MissingArgument(ArgName::Title)),
                Some(t) => Ok(TasksCall::CreateTaskList { email: e, title: t }),
            },
            TasksOperation::DeleteTaskList => match a.task_list_id {
                None => Err(ToolError::MissingArgument(ArgName::TaskListId)),
                Some(l) => Ok(TasksCall::DeleteTaskList { email: e, task_list_id: l }),
            },
            TasksOperation::List => match a.task_list_id {
                None => Err(ToolError::MissingArgument(ArgName::TaskListId)),
                Some(l) => Ok(TasksCall::ListTasks { email: e, task_list_id: l }),
            },
            TasksOperation::Get => match (a.task_list_id, a.task_id) {
                (None, _) => Err(ToolError::MissingArgument(ArgName::TaskListId)),
                (Some(_), None) => Err(ToolError::MissingArgument(ArgName::TaskId)),
                (Some(l), Some(t)) => Ok(TasksCall::GetTask { email: e, task_list_id: l, task_id: t }),
            },
            TasksOperation::Create => match (a.task_list_id, a.title) {
                (None, _) => Err(ToolError::MissingArgument(ArgName::TaskListId)),
                (Some(_), None) => Err(ToolError::MissingArgument(ArgName::Title)),
                (Some(l), Some(t)) => Ok(TasksCall::CreateTask { email: e, task_list_id: l, title: t, notes: a.notes, due: a.due }),
            },
            TasksOperation::Update => match (a.task_list_id, a.task_id) {
                (None, _) => Err(ToolError::MissingArgument(ArgName::TaskListId)),
                (Some(_), None) => Err(ToolError::MissingArgument(ArgName::TaskId)),
                (Some(l), Some(t)) => Ok(TasksCall::UpdateTask {
                    email: e,
                    task_list_id: l,
                    task_id: t,
                    title: a.title,
                    notes: a.notes,
                    due: a.due,
                }),
            },
            TasksOperation::Complete => match (a.task_list_id, a.task_id) {
                (None, _) => Err(ToolError::MissingArgument(ArgName::TaskListId)),
                (Some(_), None) => Err(ToolError::MissingArgument(ArgName::TaskId)),
                (Some(l), Some(t)) => Ok(TasksCall::CompleteTask { email: e, task_list_id: l, task_id: t }),
            },
            TasksOperation::Delete => match (a.task_list_id, a.task_id) {
                (None, _) => Err(ToolError::MissingArgument(ArgName::TaskListId)),
                (Some(_), None) => Err(ToolError::MissingArgument(ArgName::TaskId)),
                (Some(l), Some(t)) => Ok(TasksCall::DeleteTask { email: e, task_list_id: l, task_id: t }),
            },
        }
    }
}

pub const TASKS_DESCRIPTION: &'static str = "Manage task lists and tasks in Google Tasks.";

// ---------------------------------------------------------------------------
// manage_meet, manage_photos
// ---------------------------------------------------------------------------

#[derive(Debug, Clone, Copy, PartialEq, Eq, Structural)]
pub enum MeetOperation {
    ListConferences,
    GetConference,
    ListParticipants,
    /// A new meeting space, with its link.
    Create,
}

pub struct ManageMeetArgs {
    pub operation: MeetOperation,
    pub email: String,
    pub conference_id: Option<String>,
    pub max_results: Option<u32>,
}

/// One call of the conferences port.
pub enum MeetCall {
    ListConferences { email: String, max_results: Option<u32> },
    GetConference { email: String, conference_id: String },
    ListParticipants { email: String, conference_id: String },
    CreateSpace { email: String },
}

/// The conferences call for `a`, or the missing argument.
pub open spec fn meet_plan(a: ManageMeetArgs) -> Result<MeetCall, ToolError> {
    match a.operation {
        MeetOperation::ListConferences => Ok(MeetCall::ListConferences { email: a.email, max_results: a.max_results }),
        MeetOperation::GetConference => match a.conference_id {
            None => missing(ArgName::ConferenceId),
            Some(c) => Ok(MeetCall::GetConference { email: a.email, conference_id: c }),
        },
        MeetOperation::ListParticipants => match a.conference_id {
            None => missing(ArgName::ConferenceId),
            Some(c) => Ok(MeetCall::ListParticipants { email: a.email, conference_id: c }),
        },
        MeetOperation::Create => Ok(MeetCall::CreateSpace { email: a.email }),
    }
}

/// The `manage_meet` tool.
pub struct ManageMeetTool {}

impl ManageMeetTool {
    pub fn new() -> Self {
        ManageMeetTool {}
    }

    pub fn name(&self) -> (r: &'static str)
        ensures
            r@ == "manage_meet"@,
    {
        "manage_meet"
    }

    pub fn description(&self) -> (r: &'static str)
        ensures
            r@ == MEET_DESCRIPTION@,
    {
        MEET_DESCRIPTION
    }

    /// Checks the arguments of a call and picks the port call to make.
    pub fn plan(&self, a: ManageMeetArgs) -> (r: Result<MeetCall, ToolError>)
        ensures
            r == meet_plan(a),
    {
        match a.operation {
            MeetOperation::ListConferences => Ok(MeetCall::ListConferences { email: a.email, max_results: a.max_results }),
            MeetOperation::GetConference => match a.conference_id {
                None => Err(ToolError::MissingArgument(ArgName::ConferenceId)),
                Some(c) => Ok(MeetCall::GetConference { email: a.email, conference_id: c }),
            },
            MeetOperation::ListParticipants => match a.conference_id {
                None => Err(ToolError::MissingArgument(ArgName::ConferenceId)),
                Some(c) => Ok(MeetCall::ListParticipants { email: a.email, conference_id: c }),
            },
            MeetOperation::Create => Ok(MeetCall::CreateSpace { email: a.email }),
        }
    }
}

pub const MEET_DESCRIPTION: &'static str = "Browse Google Meet conferences, participants, and recordings.";

#[derive(Debug, Clone, Copy, PartialEq, Eq, Structural)]
pub enum PhotosOperation {
    ListAlbums,
    ListMedia,
    GetMedia,
}

pub struct ManagePhotosArgs {
    pub operation: PhotosOperation,
    pub email: String,
    pub album_id: Option<String>,
    pub media_item_id: Option<String>,
    pub page_size: Option<u32>,
}

/// One call of the photos port.
pub enum PhotosCall {
    ListAlbums { email: String },
    ListMedia { email: String, album_id: Option<String>, page_size: Option<u32> },
    GetMedia { email: String, media_item_id: String },
}

/// The photos call for `a`, or the missing argument.
pub open spec fn photos_plan(a: ManagePhotosArgs) -> Result<PhotosCall, ToolError> {
    match a.operation {
        PhotosOperation::ListAlbums => Ok(PhotosCall::ListAlbums { email: a.email }),
        PhotosOperation::ListMedia => Ok(PhotosCall::ListMedia { email: a.email, album_id: a.album_id, page_size: a.page_size }),
        PhotosOperation::GetMedia => match a.media_item_id {
            None => missing(ArgName::MediaItemId),
            Some(m) => Ok(PhotosCall::GetMedia { email: a.email, media_item_id: m }),
        },
    }
}

/// The `manage_photos` tool.
pub struct ManagePhotosTool {}

impl ManagePhotosTool {
    pub fn new() -> Self {
        ManagePhotosTool {}
    }

    pub fn name(&self) -> (r: &'static str)
        ensures
            r@ == "manage_photos"@,
    {
        "manage_photos"
    }

    pub fn description(&self) -> (r: &'static str)
        ensures
            r@ == PHOTOS_DESCRIPTION@,
    {
        PHOTOS_DESCRIPTION
    }

    /// Checks the arguments of a call and picks the port call to make.
    pub fn plan(&self, a: ManagePhotosArgs) -> (r: Result<PhotosCall, ToolError>)
        ensures
            r == photos_plan(a),
    {
        match a.operation {
            PhotosOperation::ListAlbums => Ok(PhotosCall::ListAlbums { email: a.email }),
            PhotosOperation::ListMedia => Ok(PhotosCall::ListMedia { email: a.email, album_id: a.album_id, page_size: a.page_size }),
            PhotosOperation::GetMedia => match a.media_item_id {
                None => Err(ToolError::MissingArgument(ArgName::MediaItemId)),
                Some(m) => Ok(PhotosCall::GetMedia { email: a.email, media_item_id: m }),
            },
        }
    }
}

pub const PHOTOS_DESCRIPTION: &'static str = "Manage Google Photos: list albums, browse media items.";

// ---------------------------------------------------------------------------
// manage_notebooklm
// ---------------------------------------------------------------------------

#[derive(Debug, Clone, Copy, PartialEq, Eq, Structural)]
pub enum NotebookLmOperation {
    /// List all notebooks.
    List,
    /// Create a new notebook.
    Create,
    /// Delete a notebook by ID.
    Delete,
    /// Get an AI-generated summary of a notebook's sources.
    GetSummary,
    /// Add a URL as a source to a notebook.
    AddSourceUrl,
    /// Ask a question about the notebook's content.
    Chat,
}

pub struct ManageNotebookLmArgs {
    pub operation: NotebookLmOperation,
    pub email: String,
    pub notebook_id: Option<String>,
    pub title: Option<String>,
    pub url: Option<String>,
    pub question: Option<String>,
}

/// One call of the NotebookLM port.
pub enum NotebookLmCall {
    ListNotebooks { email: String },
    CreateNotebook { email: String, title: String },
    DeleteNotebook { email: String, notebook_id: String },
    GetSummary { email: String, notebook_id: String },
    AddSourceUrl { email: String, notebook_id: String, url: String },
    Chat { email: String, notebook_id: String, question: String },
}

/// The NotebookLM call for `a`, or the first required argument that is
/// missing.
pub open spec fn notebooklm_plan(a: ManageNotebookLmArgs) -> Result<NotebookLmCall, ToolError> {
    let e = a.email;
    match a.operation {
        NotebookLmOperation::List => Ok(NotebookLmCall::ListNotebooks { email: e }),
        NotebookLmOperation::Create => match a.title {
            None => missing(ArgName::Title),
            Some(t) => Ok(NotebookLmCall::CreateNotebook { email: e, title: t }),
        },
        NotebookLmOperation::Delete => match a.notebook_id {
            None => missing(ArgName::NotebookId),
            Some(n) => Ok(NotebookLmCall::DeleteNotebook { email: e, notebook_id: n }),
        },
        NotebookLmOperation::GetSummary => match a.notebook_id {
            None => missing(ArgName::NotebookId),
            Some(n) => Ok(NotebookLmCall::GetSummary { email: e, notebook_id: n }),
        },
        NotebookLmOperation::AddSourceUrl => match (a.notebook_id, a.url) {
            (None, _) => missing(ArgName::NotebookId),
            (Some(_), None) => missing(ArgName::Url),
            (Some(n), Some(u)) => Ok(NotebookLmCall::AddSourceUrl { email: e, notebook_id: n, url: u }),
        },
        NotebookLmOperation::Chat => match (a.notebook_id, a.question) {
            (None, _) => missing(ArgName::NotebookId),
            (Some(_), None) => missing(ArgName::Question),
            (Some(n), Some(q)) => Ok(NotebookLmCall::Chat { email: e, notebook_id: n, question: q }),
        },
    }
}

/// The `manage_notebooklm` tool.
pub struct ManageNotebookLmTool {}

impl ManageNotebookLmTool {
    pub fn new() -> Self {
        ManageNotebookLmTool {}
    }

    pub fn name(&self) -> (r: &'static str)
        ensures
            r@ == "manage_notebooklm"@,
    {
        "manage_notebooklm"
    }

    pub fn description(&self) -> (r: &'static str)
        ensures
            r@ == NOTEBOOKLM_DESCRIPTION@,
    {
        NOTEBOOKLM_DESCRIPTION
    }

    /// Checks the arguments of a call and picks the port call to make.
    pub fn plan(&self, a: ManageNotebookLmArgs) -> (r: Result<NotebookLmCall, ToolError>)
        ensures
            r == notebooklm_plan(a),
    {
        let e = a.email;
        match a.operation {
            NotebookLmOperation::List => Ok(NotebookLmCall::ListNotebooks { email: e }),
            NotebookLmOperation::Create => match a.title {
                None => Err(ToolError::MissingArgument(ArgName::Title)),
                Some(t) => Ok(NotebookLmCall::CreateNotebook { email: e, title: t }),
            },
            NotebookLmOperation::Delete => match a.notebook_id {
                None => Err(ToolError::MissingArgument(ArgName::NotebookId)),
                Some(n) => Ok(NotebookLmCall::DeleteNotebook { email: e, notebook_id: n }),
            },
            NotebookLmOperation::GetSummary => match a.notebook_id {
                None => Err(ToolError::MissingArgument(ArgName::NotebookId)),
                Some(n) => Ok(NotebookLmCall::GetSummary { email: e, notebook_id: n }),
            },
            NotebookLmOperation::AddSourceUrl => match (a.notebook_id, a.url) {
                (None, _) => Err(ToolError::MissingArgument(ArgName::NotebookId)),
                (Some(_), None) => Err(ToolError::MissingArgument(ArgName::Url)),
                (Some(n), Some(u)) => Ok(NotebookLmCall::AddSourceUrl { email: e, notebook_id: n, url: u }),
            },
            NotebookLmOperation::Chat => match (a.notebook_id, a.question) {
                (None, _) => Err(ToolError::MissingArgument(ArgName::NotebookId)),
                (Some(_), None) => Err(ToolError::MissingArgument(ArgName::Question)),
                (Some(n), Some(q)) => Ok(NotebookLmCall::Chat { email: e, notebook_id: n, question: q }),
            },
        }
    }
}

pub const NOTEBOOKLM_DESCRIPTION: &'static str = "Manage Google NotebookLM notebooks: list, create, delete, summarize sources, add URL sources, and chat with notebook content.";

// ---------------------------------------------------------------------------
// manage_accounts
// ---------------------------------------------------------------------------

#[derive(Debug, Clone, Copy, PartialEq, Eq, Structural)]
pub enum AccountsOperation {
    /// List all authenticated accounts.
    List,
    /// Authenticate a new account (opens browser).
    Authenticate,
    /// Check token validity and scopes.
    Status,
    /// Remove an account and its stored tokens.
    Remove,
    /// Renew an account's access token now.
    Refresh,
    /// The scopes an account was granted.
    Scopes,
}

pub struct ManageAccountsArgs {
    pub operation: AccountsOperation,
    pub email: Option<String>,
}

/// One call of the token store.
pub enum AccountsCall {
    ListAccounts,
    Authenticate,
    AccountStatus { email: String },
    RemoveAccount { email: String },
    RefreshAccount { email: String },
    AccountScopes { email: String },
}

/// The token-store call for `a`, or the missing email.
pub open spec fn accounts_plan(a: ManageAccountsArgs) -> Result<AccountsCall, ToolError> {
    match a.operation {
        AccountsOperation::List => Ok(AccountsCall::ListAccounts),
        AccountsOperation::Authenticate => Ok(AccountsCall::Authenticate),
        AccountsOperation::Status => match a.email {
            None => missing(ArgName::Email),
            Some(e) => Ok(AccountsCall::AccountStatus { email: e }),
        },
        AccountsOperation::Remove => match a.email {
            None => missing(ArgName::Email),
            Some(e) => Ok(AccountsCall::RemoveAccount { email: e }),
        },
        AccountsOperation::Refresh => match a.email {
            None => missing(ArgName::Email),
            Some(e) => Ok(AccountsCall::RefreshAccount { email: e }),
        },
        AccountsOperation::Scopes => match a.email {
            None => missing(ArgName::Email),
            Some(e) => Ok(AccountsCall::AccountScopes { email: e }),
        },
    }
}

/// The `manage_accounts` tool.
pub struct ManageAccountsTool {}

impl ManageAccountsTool {
    pub fn new() -> Self {
        ManageAccountsTool {}
    }

    pub fn name(&self) -> (r: &'static str)
        ensures
            r@ == "manage_accounts"@,
    {
        "manage_accounts"
    }

    pub fn description(&self) -> (r: &'static str)
        ensures
            r@ == ACCOUNTS_DESCRIPTION@,
    {
        ACCOUNTS_DESCRIPTION
    }

    /// Checks the arguments of a call and picks the token-store call to make.
    pub fn plan(&self, a: ManageAccountsArgs) -> (r: Result<AccountsCall, ToolError>)
        ensures
            r == accounts_plan(a),
    {
        match a.operation {
            AccountsOperation::List => Ok(AccountsCall::ListAccounts),
            AccountsOperation::Authenticate => Ok(AccountsCall::Authenticate),
            AccountsOperation::Status => match a.email {
                None => Err(ToolError::MissingArgument(ArgName::Email)),
                Some(e) => Ok(AccountsCall::AccountStatus { email: e }),
            },
            AccountsOperation::Remove => match a.email {
                None => Err(ToolError::MissingArgument(ArgName::Email)),
                Some(e) => Ok(AccountsCall::RemoveAccount { email: e }),
            },
            AccountsOperation::Refresh => match a.email {
                None => Err(ToolError::MissingArgument(ArgName::Email)),
                Some(e) => Ok(AccountsCall::RefreshAccount { email: e }),
            },
            AccountsOperation::Scopes => match a.email {
                None => Err(ToolError::MissingArgument(ArgName::Email)),
                Some(e) => Ok(AccountsCall::AccountScopes { email: e }),
            },
        }
    }
}

pub const ACCOUNTS_DESCRIPTION: &'static str = "Manage Google Workspace account lifecycle: list, authenticate (opens browser), check status, or remove accounts.";

} // verus!
