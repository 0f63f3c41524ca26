use gws_mcp::json::JsonValue;
use gws_mcp::tools::{
    authenticate_reply, chat_answer_reply, content_reply, removed_reply, source_added_reply,
    split_attendees, status_reply, summary_reply, AccountsCall, AccountsOperation, ArgName,
    CalendarCall, CalendarOperation, DocsCall, DocsOperation, DriveCall, DriveOperation, EmailCall,
    EmailOperation, FormsCall, FormsOperation, ManageAccountsArgs, ManageAccountsTool,
    ManageCalendarArgs, ManageCalendarTool, ManageDocsArgs, ManageDocsTool, ManageDriveArgs,
    ManageDriveTool, ManageEmailArgs, ManageEmailTool, ManageFormsArgs, ManageFormsTool,
    ManageMeetArgs, ManageMeetTool, ManageNotebookLmArgs, ManageNotebookLmTool, ManagePhotosArgs,
    ManagePhotosTool, ManageSheetsArgs, ManageSheetsTool, ManageSlidesArgs, ManageSlidesTool,
    ManageTasksArgs, ManageTasksTool, MeetCall, MeetOperation, NotebookLmCall, NotebookLmOperation,
    PhotosCall, PhotosOperation, SheetsCall, SheetsOperation, SlidesCall, SlidesOperation,
    TasksCall, TasksOperation, ToolError,
};

fn s(t: &str) -> String {
    t.to_string()
}

fn email_args(op: EmailOperation) -> ManageEmailArgs {
    ManageEmailArgs {
        operation: op,
        email: s("me"),
        message_id: None,
        query: None,
        to: None,
        subject: None,
        body: None,
        cc: None,
        bcc: None,
        add_labels: None,
        remove_labels: None,
        thread_id: None,
        attachment_id: None,
        topic_name: None,
        max_results: None,
    }
}

fn calendar_args(op: CalendarOperation) -> ManageCalendarArgs {
    ManageCalendarArgs {
        operation: op,
        email: s("me"),
        calendar_id: None,
        event_id: None,
        summary: None,
        description: None,
        location: None,
        start: None,
        end: None,
        attendees: None,
        text: None,
        time_min: None,
        time_max: None,
        query: None,
        max_results: None,
        webhook_address: None,
    }
}

fn drive_args(op: DriveOperation) -> ManageDriveArgs {
    ManageDriveArgs {
        operation: op,
        email: s("me"),
        file_id: None,
        query: None,
        name: None,
        mime_type: None,
        content_base64: None,
        parent_folder_id: None,
        new_name: None,
        share_email: None,
        role: None,
        permission_id: None,
        max_results: None,
        webhook_address: None,
        spreadsheet_id: None,
        document_id: None,
        title: None,
        range: None,
        values_json: None,
        text: None,
    }
}

fn missing(a: ArgName) -> ToolError {
    ToolError::MissingArgument(a)
}

#[test]
fn tool_names_and_descriptions() {
    assert_eq!(ManageEmailTool::new().name(), "manage_email");
    assert_eq!(ManageCalendarTool::new().name(), "manage_calendar");
    assert_eq!(ManageDriveTool::new().name(), "manage_drive");
    assert_eq!(ManageDocsTool::new().name(), "manage_docs");
    assert_eq!(ManageSheetsTool::new().name(), "manage_sheets");
    assert_eq!(ManageSlidesTool::new().name(), "manage_slides");
    assert_eq!(ManageFormsTool::new().name(), "manage_forms");
    assert_eq!(ManageTasksTool::new().name(), "manage_tasks");
    assert_eq!(ManageMeetTool::new().name(), "manage_meet");
    assert_eq!(ManagePhotosTool::new().name(), "manage_photos");
    assert_eq!(ManageNotebookLmTool::new().name(), "manage_notebooklm");
    assert_eq!(ManageAccountsTool::new().name(), "manage_accounts");
    assert_eq!(ManageDocsTool::new().description(), "Read and write Google Docs documents.");
    assert_eq!(ManageFormsTool::new().description(), "Manage Google Forms.");
}

#[test]
fn missing_argument_messages() {
    assert_eq!(missing(ArgName::MessageId).message(), "message_id required");
    assert_eq!(missing(ArgName::ContentBase64).message(), "content_base64 required");
    assert_eq!(missing(ArgName::Email).message(), "email required");
}

#[test]
fn email_read_needs_message_id() {
    let t = ManageEmailTool::new();
    assert!(matches!(t.plan(email_args(EmailOperation::Read)), Err(ToolError::MissingArgument(ArgName::MessageId))));
    let mut a = email_args(EmailOperation::Read);
    a.message_id = Some(s("m1"));
    match t.plan(a) {
        Ok(EmailCall::GetMessage { email, message_id }) => {
            assert_eq!(email, "me");
            assert_eq!(message_id, "m1");
        },
        _ => panic!("expected a message fetch"),
    }
}

#[test]
fn email_send_checks_in_order() {
    let t = ManageEmailTool::new();
    let mut a = email_args(EmailOperation::Send);
    a.subject = Some(s("S"));
    assert!(matches!(t.plan(a), Err(ToolError::MissingArgument(ArgName::To))));
    let mut b = email_args(EmailOperation::Send);
    b.to = Some(s("x@y"));
    assert!(matches!(t.plan(b), Err(ToolError::MissingArgument(ArgName::Subject))));
    let mut c = email_args(EmailOperation::Send);
    c.to = Some(s("x@y"));
    c.subject = Some(s("S"));
    assert!(matches!(t.plan(c), Err(ToolError::MissingArgument(ArgName::Body))));
    let mut d = email_args(EmailOperation::Send);
    d.to = Some(s("x@y"));
    d.subject = Some(s("S"));
    d.body = Some(s("B"));
    d.cc = Some(s("c@y"));
    match t.plan(d) {
        Ok(EmailCall::SendMessage { to, subject, body, cc, bcc, .. }) => {
            assert_eq!((to.as_str(), subject.as_str(), body.as_str()), ("x@y", "S", "B"));
            assert_eq!(cc, Some(s("c@y")));
            assert_eq!(bcc, None);
        },
        _ => panic!("expected a send"),
    }
}

#[test]
fn email_operations_without_requirements() {
    let t = ManageEmailTool::new();
    assert!(matches!(t.plan(email_args(EmailOperation::Labels)), Ok(EmailCall::ListLabels { .. })));
    assert!(matches!(t.plan(email_args(EmailOperation::Triage)), Ok(EmailCall::Triage { .. })));
    let mut a = email_args(EmailOperation::Search);
    a.query = Some(s("q"));
    a.max_results = Some(5);
    match t.plan(a) {
        Ok(EmailCall::ListMessages { query, max_results, .. }) => {
            assert_eq!(query, Some(s("q")));
            assert_eq!(max_results, Some(5));
        },
        _ => panic!("expected a search"),
    }
    let mut g = email_args(EmailOperation::GetAttachment);
    g.message_id = Some(s("m"));
    assert!(matches!(t.plan(g), Err(ToolError::MissingArgument(ArgName::AttachmentId))));
    assert!(matches!(t.plan(email_args(EmailOperation::Watch)), Err(ToolError::MissingArgument(ArgName::TopicName))));
    assert!(matches!(t.plan(email_args(EmailOperation::GetThread)), Err(ToolError::MissingArgument(ArgName::ThreadId))));
}

#[test]
fn calendar_defaults_to_primary() {
    let t = ManageCalendarTool::new();
    match t.plan(calendar_args(CalendarOperation::List)) {
        Ok(CalendarCall::ListEvents { calendar_id, .. }) => assert_eq!(calendar_id, "primary"),
        _ => panic!("expected a listing"),
    }
    let mut a = calendar_args(CalendarOperation::Get);
    a.calendar_id = Some(s("work"));
    a.event_id = Some(s("e"));
    match t.plan(a) {
        Ok(CalendarCall::GetEvent { calendar_id, event_id, .. }) => {
            assert_eq!(calendar_id, "work");
            assert_eq!(event_id, "e");
        },
        _ => panic!("expected an event fetch"),
    }
}

#[test]
fn calendar_create_splits_attendees() {
    let t = ManageCalendarTool::new();
    let mut a = calendar_args(CalendarOperation::Create);
    a.summary = Some(s("Sync"));
    a.start = Some(s("s"));
    assert!(matches!(t.plan(a), Err(ToolError::MissingArgument(ArgName::End))));
    let mut b = calendar_args(CalendarOperation::Create);
    b.summary = Some(s("Sync"));
    b.start = Some(s("s"));
    b.end = Some(s("e"));
    b.attendees = Some(s(" a@x.com, b@x.com ,c@x.com"));
    match t.plan(b) {
        Ok(CalendarCall::CreateEvent { attendees, summary, .. }) => {
            assert_eq!(summary, "Sync");
            assert_eq!(attendees, Some(vec![s("a@x.com"), s("b@x.com"), s("c@x.com")]));
        },
        _ => panic!("expected a create"),
    }
    assert_eq!(split_attendees("a,,b"), vec![s("a"), s(""), s("b")]);
}

#[test]
fn calendar_freebusy_and_watch() {
    let t = ManageCalendarTool::new();
    let mut a = calendar_args(CalendarOperation::Freebusy);
    a.time_min = Some(s("lo"));
    assert!(matches!(t.plan(a), Err(ToolError::MissingArgument(ArgName::TimeMax))));
    let mut b = calendar_args(CalendarOperation::Freebusy);
    b.time_min = Some(s("lo"));
    b.time_max = Some(s("hi"));
    match t.plan(b) {
        Ok(CalendarCall::FreeBusy { items, .. }) => assert_eq!(items, vec![s("primary")]),
        _ => panic!("expected freebusy"),
    }
    let mut w = calendar_args(CalendarOperation::Watch);
    w.webhook_address = Some(s("https://hook"));
    match t.plan(w) {
        Ok(CalendarCall::Watch { request, calendar_id, .. }) => {
            assert_eq!(calendar_id, "primary");
            assert_eq!(request.address, "https://hook");
            assert_eq!(request.watch_type, "web_hook");
            assert_eq!(request.id.len(), 36);
        },
        _ => panic!("expected a watch"),
    }
    assert!(matches!(t.plan(calendar_args(CalendarOperation::QuickAdd)), Err(ToolError::MissingArgument(ArgName::Text))));
}

#[test]
fn drive_share_defaults_to_reader() {
    let t = ManageDriveTool::new();
    let mut a = drive_args(DriveOperation::Share);
    a.file_id = Some(s("f"));
    assert!(matches!(t.plan(a), Err(ToolError::MissingArgument(ArgName::ShareEmail))));
    let mut b = drive_args(DriveOperation::Share);
    b.file_id = Some(s("f"));
    b.share_email = Some(s("x@y"));
    match t.plan(b) {
        Ok(DriveCall::Share { role, .. }) => assert_eq!(role, "reader"),
        _ => panic!("expected a share"),
    }
    let mut c = drive_args(DriveOperation::Share);
    c.file_id = Some(s("f"));
    c.share_email = Some(s("x@y"));
    c.role = Some(s("writer"));
    match t.plan(c) {
        Ok(DriveCall::Share { role, .. }) => assert_eq!(role, "writer"),
        _ => panic!("expected a share"),
    }
}

#[test]
fn drive_upload_and_watch_checks() {
    let t = ManageDriveTool::new();
    let mut a = drive_args(DriveOperation::Upload);
    a.name = Some(s("n"));
    a.mime_type = Some(s("text/plain"));
    assert!(matches!(t.plan(a), Err(ToolError::MissingArgument(ArgName::ContentBase64))));
    assert!(matches!(t.plan(drive_args(DriveOperation::Watch)), Err(ToolError::MissingArgument(ArgName::FileId))));
    let mut w = drive_args(DriveOperation::Watch);
    w.file_id = Some(s("f"));
    assert!(matches!(t.plan(w), Err(ToolError::MissingArgument(ArgName::WebhookAddress))));
    assert!(matches!(t.plan(drive_args(DriveOperation::Search)), Ok(DriveCall::ListFiles { .. })));
    let mut e = drive_args(DriveOperation::Export);
    e.file_id = Some(s("f"));
    assert!(matches!(t.plan(e), Err(ToolError::MissingArgument(ArgName::MimeType))));
}

#[test]
fn untitled_defaults() {
    let docs = ManageDocsTool::new();
    match docs.plan(ManageDocsArgs { operation: DocsOperation::Create, email: s("me"), document_id: None, title: None, text: None }) {
        Ok(DocsCall::CreateDoc { title, .. }) => assert_eq!(title, "Untitled"),
        _ => panic!("expected a create"),
    }
    let sheets = ManageSheetsTool::new();
    match sheets.plan(ManageSheetsArgs { operation: SheetsOperation::Create, email: s("me"), spreadsheet_id: None, title: Some(s("Q1")), range: None, values_json: None }) {
        Ok(SheetsCall::CreateSheet { title, .. }) => assert_eq!(title, "Q1"),
        _ => panic!("expected a create"),
    }
    let slides = ManageSlidesTool::new();
    match slides.plan(ManageSlidesArgs { operation: SlidesOperation::Create, email: s("me"), presentation_id: None, title: None }) {
        Ok(SlidesCall::CreatePresentation { title, .. }) => assert_eq!(title, "Untitled"),
        _ => panic!("expected a create"),
    }
}

#[test]
fn docs_sheets_forms_requirements() {
    let docs = ManageDocsTool::new();
    let w = ManageDocsArgs { operation: DocsOperation::Write, email: s("me"), document_id: Some(s("d")), title: None, text: None };
    assert!(matches!(docs.plan(w), Err(ToolError::MissingArgument(ArgName::Text))));
    let sheets = ManageSheetsTool::new();
    let a = ManageSheetsArgs { operation: SheetsOperation::Append, email: s("me"), spreadsheet_id: Some(s("s")), title: None, range: Some(s("A1")), values_json: None };
    assert!(matches!(sheets.plan(a), Err(ToolError::MissingArgument(ArgName::ValuesJson))));
    let r = ManageSheetsArgs { operation: SheetsOperation::Read, email: s("me"), spreadsheet_id: None, title: None, range: Some(s("A1")), values_json: None };
    assert!(matches!(sheets.plan(r), Err(ToolError::MissingArgument(ArgName::SpreadsheetId))));
    let forms = ManageFormsTool::new();
    assert!(matches!(forms.plan(ManageFormsArgs { operation: FormsOperation::ListResponses, email: s("me"), form_id: None }), Err(ToolError::MissingArgument(ArgName::FormId))));
    assert!(matches!(forms.plan(ManageFormsArgs { operation: FormsOperation::Get, email: s("me"), form_id: Some(s("f")) }), Ok(FormsCall::GetForm { .. })));
}

#[test]
fn tasks_requirements() {
    let t = ManageTasksTool::new();
    let args = |op: TasksOperation, tl: Option<&str>, tid: Option<&str>, title: Option<&str>| ManageTasksArgs {
        operation: op,
        email: s("me"),
        task_list_id: tl.map(s),
        task_id: tid.map(s),
        title: title.map(s),
        notes: None,
        due: None,
    };
    assert!(matches!(t.plan(args(TasksOperation::ListTaskLists, None, None, None)), Ok(TasksCall::ListTaskLists { .. })));
    assert!(matches!(t.plan(args(TasksOperation::CreateTaskList, None, None, None)), Err(ToolError::MissingArgument(ArgName::Title))));
    assert!(matches!(t.plan(args(TasksOperation::Get, Some("l"), None, None)), Err(ToolError::MissingArgument(ArgName::TaskId))));
    assert!(matches!(t.plan(args(TasksOperation::Create, Some("l"), None, None)), Err(ToolError::MissingArgument(ArgName::Title))));
    assert!(matches!(t.plan(args(TasksOperation::Complete, None, Some("t"), None)), Err(ToolError::MissingArgument(ArgName::TaskListId))));
    assert!(matches!(t.plan(args(TasksOperation::Delete, Some("l"), Some("t"), None)), Ok(TasksCall::DeleteTask { .. })));
}

#[test]
fn meet_photos_notebooklm_accounts_requirements() {
    let meet = ManageMeetTool::new();
    assert!(matches!(meet.plan(ManageMeetArgs { operation: MeetOperation::GetConference, email: s("me"), conference_id: None, max_results: None }), Err(ToolError::MissingArgument(ArgName::ConferenceId))));
    assert!(matches!(meet.plan(ManageMeetArgs { operation: MeetOperation::ListConferences, email: s("me"), conference_id: None, max_results: Some(3) }), Ok(MeetCall::ListConferences { max_results: Some(3), .. })));
    let photos = ManagePhotosTool::new();
    assert!(matches!(photos.plan(ManagePhotosArgs { operation: PhotosOperation::GetMedia, email: s("me"), album_id: None, media_item_id: None, page_size: None }), Err(ToolError::MissingArgument(ArgName::MediaItemId))));
    assert!(matches!(photos.plan(ManagePhotosArgs { operation: PhotosOperation::ListAlbums, email: s("me"), album_id: None, media_item_id: None, page_size: None }), Ok(PhotosCall::ListAlbums { .. })));
    let nb = ManageNotebookLmTool::new();
    let nargs = |op: NotebookLmOperation, id: Option<&str>, q: Option<&str>| ManageNotebookLmArgs {
        operation: op,
        email: s("me"),
        notebook_id: id.map(s),
        title: None,
        url: None,
        question: q.map(s),
    };
    assert!(matches!(nb.plan(nargs(NotebookLmOperation::Create, None, None)), Err(ToolError::MissingArgument(ArgName::Title))));
    assert!(matches!(nb.plan(nargs(NotebookLmOperation::Chat, Some("n"), None)), Err(ToolError::MissingArgument(ArgName::Question))));
    assert!(matches!(nb.plan(nargs(NotebookLmOperation::AddSourceUrl, Some("n"), None)), Err(ToolError::MissingArgument(ArgName::Url))));
    assert!(matches!(nb.plan(nargs(NotebookLmOperation::List, None, None)), Ok(NotebookLmCall::ListNotebooks { .. })));
    let acc = ManageAccountsTool::new();
    assert!(matches!(acc.plan(ManageAccountsArgs { operation: AccountsOperation::Status, email: None }), Err(ToolError::MissingArgument(ArgName::Email))));
    assert!(matches!(acc.plan(ManageAccountsArgs { operation: AccountsOperation::Authenticate, email: None }), Ok(AccountsCall::Authenticate)));
    match acc.plan(ManageAccountsArgs { operation: AccountsOperation::Remove, email: Some(s("a@x")) }) {
        Ok(AccountsCall::RemoveAccount { email }) => assert_eq!(email, "a@x"),
        _ => panic!("expected a removal"),
    }
}

#[test]
fn replies() {
    let obj = |m: Vec<(&str, JsonValue)>| JsonValue::Object(m.into_iter().map(|(k, v)| (s(k), v)).collect());
    assert_eq!(status_reply("deleted"), obj(vec![("status", JsonValue::String(s("deleted")))]));
    assert_eq!(content_reply("abc"), obj(vec![("content", JsonValue::String(s("abc")))]));
    assert_eq!(summary_reply("sum"), obj(vec![("summary", JsonValue::String(s("sum")))]));
    assert_eq!(
        source_added_reply(JsonValue::Null),
        obj(vec![("status", JsonValue::String(s("added"))), ("result", JsonValue::Null)])
    );
    assert_eq!(
        chat_answer_reply("q", "a"),
        obj(vec![("question", JsonValue::String(s("q"))), ("answer", JsonValue::String(s("a")))])
    );
    assert_eq!(
        removed_reply("a@x"),
        obj(vec![("status", JsonValue::String(s("removed"))), ("email", JsonValue::String(s("a@x")))])
    );
    let auth = authenticate_reply("https://consent");
    assert_eq!(auth.get_key("status"), Some(&JsonValue::String(s("awaiting_callback"))));
    assert_eq!(auth.get_key("auth_url"), Some(&JsonValue::String(s("https://consent"))));
    assert_eq!(
        auth.get_key("message"),
        Some(&JsonValue::String(s("Open this URL in your browser to authenticate. The server is listening on http://localhost:8000 for the OAuth callback.")))
    );
}

#[test]
fn reply_all_needs_the_message_and_a_body() {
    let t = ManageEmailTool::new();
    assert!(matches!(t.plan(email_args(EmailOperation::ReplyAll)), Err(ToolError::MissingArgument(ArgName::MessageId))));
    let mut a = email_args(EmailOperation::ReplyAll);
    a.message_id = Some(s("m1"));
    assert!(matches!(t.plan(a), Err(ToolError::MissingArgument(ArgName::Body))));
    let mut a = email_args(EmailOperation::ReplyAll);
    a.message_id = Some(s("m1"));
    a.body = Some(s("ok"));
    match t.plan(a) {
        Ok(EmailCall::ReplyAll { email, message_id, body }) => {
            assert_eq!(email, "me");
            assert_eq!(message_id, "m1");
            assert_eq!(body, "ok");
        },
        _ => panic!("expected a reply to everyone"),
    }
}

#[test]
fn agenda_lists_upcoming_events_of_the_primary_calendar() {
    let t = ManageCalendarTool::new();
    let mut a = calendar_args(CalendarOperation::Agenda);
    a.max_results = Some(5);
    match t.plan(a) {
        Ok(CalendarCall::Agenda { email, calendar_id, max_results }) => {
            assert_eq!(email, "me");
            assert_eq!(calendar_id, "primary");
            assert_eq!(max_results, Some(5));
        },
        _ => panic!("expected an agenda"),
    }
    let mut a = calendar_args(CalendarOperation::Agenda);
    a.calendar_id = Some(s("work"));
    assert!(matches!(t.plan(a), Ok(CalendarCall::Agenda { calendar_id, max_results: None, .. }) if calendar_id == "work"));
}

#[test]
fn refresh_and_scopes_need_an_email() {
    let acc = ManageAccountsTool::new();
    for op in [AccountsOperation::Refresh, AccountsOperation::Scopes] {
        assert!(matches!(acc.plan(ManageAccountsArgs { operation: op, email: None }), Err(ToolError::MissingArgument(ArgName::Email))));
    }
    match acc.plan(ManageAccountsArgs { operation: AccountsOperation::Refresh, email: Some(s("you@gmail.com")) }) {
        Ok(AccountsCall::RefreshAccount { email }) => assert_eq!(email, "you@gmail.com"),
        _ => panic!("expected a refresh"),
    }
    match acc.plan(ManageAccountsArgs { operation: AccountsOperation::Scopes, email: Some(s("you@gmail.com")) }) {
        Ok(AccountsCall::AccountScopes { email }) => assert_eq!(email, "you@gmail.com"),
        _ => panic!("expected the scopes"),
    }
}

#[test]
fn task_list_fetch_and_meeting_creation_plans() {
    let t = ManageTasksTool::new();
    let args = |tl: Option<&str>| ManageTasksArgs {
        operation: TasksOperation::GetTaskList,
        email: s("me"),
        task_list_id: tl.map(s),
        task_id: None,
        title: None,
        notes: None,
        due: None,
    };
    assert!(matches!(t.plan(args(None)), Err(ToolError::MissingArgument(ArgName::TaskListId))));
    assert!(matches!(t.plan(args(Some("L"))), Ok(TasksCall::GetTaskList { task_list_id, .. }) if task_list_id == "L"));
    let meet = ManageMeetTool::new();
    let a = ManageMeetArgs { operation: MeetOperation::Create, email: s("me"), conference_id: None, max_results: None };
    assert!(matches!(meet.plan(a), Ok(MeetCall::CreateSpace { email }) if email == "me"));
}

#[test]
fn drive_reaches_spreadsheets_and_documents() {
    let t = ManageDriveTool::new();
    assert!(matches!(t.plan(drive_args(DriveOperation::SheetsGet)), Err(ToolError::MissingArgument(ArgName::SpreadsheetId))));
    let mut a = drive_args(DriveOperation::SheetsRead);
    a.spreadsheet_id = Some(s("S"));
    assert!(matches!(t.plan(a), Err(ToolError::MissingArgument(ArgName::Range))));
    let mut a = drive_args(DriveOperation::SheetsWrite);
    a.spreadsheet_id = Some(s("S"));
    a.range = Some(s("A1:B2"));
    a.values_json = Some(s("[[1,2]]"));
    match t.plan(a) {
        Ok(DriveCall::Sheets(SheetsCall::UpdateValues { email, spreadsheet_id, range, values_json })) => {
            assert_eq!(email, "me");
            assert_eq!(spreadsheet_id, "S");
            assert_eq!(range, "A1:B2");
            assert_eq!(values_json, "[[1,2]]");
        },
        _ => panic!("expected a spreadsheet update"),
    }
    assert!(matches!(t.plan(drive_args(DriveOperation::SheetsCreate)), Ok(DriveCall::Sheets(SheetsCall::CreateSheet { title, .. })) if title == "Untitled"));
    let mut a = drive_args(DriveOperation::DocsWrite);
    a.document_id = Some(s("D"));
    assert!(matches!(t.plan(a), Err(ToolError::MissingArgument(ArgName::Text))));
    let mut a = drive_args(DriveOperation::DocsGet);
    a.document_id = Some(s("D"));
    assert!(matches!(t.plan(a), Ok(DriveCall::Docs(DocsCall::GetDoc { document_id, .. })) if document_id == "D"));
    let mut a = drive_args(DriveOperation::DocsCreate);
    a.title = Some(s("Notes"));
    assert!(matches!(t.plan(a), Ok(DriveCall::Docs(DocsCall::CreateDoc { title, .. })) if title == "Notes"));
}
