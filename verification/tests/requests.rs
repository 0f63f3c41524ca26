use base64::Engine;
use gws_mcp::client::{
    append_cells_request, batch_body, batch_result, boundary_for, build_rfc2822, calendar_watch_request,
    complete_task_request, copy_file_request, create_space_request, create_doc_request, create_event_request,
    create_sheet_request, create_task_request, delete_event_request, delete_file_request,
    delete_task_list_request, export_file_request, forward_request, freebusy_request,
    get_conference_request, get_event_request, get_task_list_request, get_message_request, get_sheet_request,
    list_albums_page_request, list_conferences_request, list_events_request, list_files_request, list_media_request,
    list_messages_request, modify_message_request, multipart_content_type, new_boundary,
    new_web_hook_watch, quick_add_request, read_range_request, reply_all_request, reply_request, send_message_request,
    search_media_request, share_request, signed_decimal_text, triage_request, update_event_request, update_task_request,
    upload_body, upload_metadata, ApiRequest, HttpMethod,
};
use gws_mcp::json::JsonValue;
use gws_mcp::models::{EmailMessage, Header, MessagePart, PushWatchRequest};

fn s(t: &str) -> String {
    t.to_string()
}

fn js(t: &str) -> JsonValue {
    JsonValue::String(s(t))
}

fn obj(members: Vec<(&str, JsonValue)>) -> JsonValue {
    JsonValue::Object(members.into_iter().map(|(k, v)| (s(k), v)).collect())
}

fn decode(raw: &str) -> String {
    String::from_utf8(base64::engine::general_purpose::URL_SAFE_NO_PAD.decode(raw).unwrap()).unwrap()
}

fn message(thread: &str, snippet: Option<&str>) -> EmailMessage {
    EmailMessage { id: s("m1"), thread_id: s(thread), snippet: snippet.map(s), label_ids: vec![], payload: None }
}

#[test]
fn rfc2822_message_text() {
    let raw = build_rfc2822("to@x.com", "Hi", "Body", Some("cc@x.com"), None, None, None);
    assert_eq!(
        decode(&raw),
        "To: to@x.com\r\nSubject: Hi\r\nContent-Type: text/plain; charset=utf-8\r\nCc: cc@x.com\r\n\r\nBody"
    );
    assert!(!raw.contains('='));
}

#[test]
fn rfc2822_references_repeat_in_reply_to() {
    let raw = build_rfc2822("", "Re: ", "ok", None, Some("b@x.com"), Some("<id1>"), None);
    assert_eq!(
        decode(&raw),
        "To: \r\nSubject: Re: \r\nContent-Type: text/plain; charset=utf-8\r\nBcc: b@x.com\r\nIn-Reply-To: <id1>\r\nReferences: <id1>\r\n\r\nok"
    );
    let raw2 = build_rfc2822("a", "b", "c", None, None, Some("<id1>"), Some("<r0>"));
    assert!(decode(&raw2).contains("References: <r0>\r\n"));
}

#[test]
fn gmail_urls() {
    let r = get_message_request("me", "abc");
    assert_eq!(r.method, HttpMethod::Get);
    assert_eq!(r.url, "https://gmail.googleapis.com/gmail/v1/users/me/messages/abc?format=full");
    assert_eq!(r.body, None);
    let l = list_messages_request("me", Some("from:a b"), None);
    assert_eq!(l.url, "https://gmail.googleapis.com/gmail/v1/users/me/messages?maxResults=10&q=from%3Aa%20b");
    let l2 = list_messages_request("me", None, Some(3));
    assert_eq!(l2.url, "https://gmail.googleapis.com/gmail/v1/users/me/messages?maxResults=3");
    let t = triage_request("me");
    assert_eq!(t.url, "https://gmail.googleapis.com/gmail/v1/users/me/messages?maxResults=20&q=is%3Aunread%20in%3Ainbox");
}

#[test]
fn send_reply_forward_bodies() {
    let sent = send_message_request("me", "to@x.com", "S", "B", None, None);
    assert_eq!(sent.method, HttpMethod::Post);
    assert_eq!(sent.url, "https://gmail.googleapis.com/gmail/v1/users/me/messages/send");
    let raw = build_rfc2822("to@x.com", "S", "B", None, None, None, None);
    assert_eq!(sent.body, Some(obj(vec![("raw", js(&raw))])));

    let orig = message("t9", Some("hello"));
    let rep = reply_request("me", "m1", "thanks", &orig);
    let rraw = build_rfc2822("", "Re: ", "thanks", None, None, Some("m1"), None);
    assert_eq!(rep.body, Some(obj(vec![("raw", js(&rraw)), ("threadId", js("t9"))])));

    let fwd = forward_request("me", "z@x.com", &orig);
    let fraw = build_rfc2822("z@x.com", "Fwd: ", "hello", None, None, None, None);
    assert_eq!(fwd.body, Some(obj(vec![("raw", js(&fraw)), ("threadId", js("t9"))])));

    let fwd_empty = forward_request("me", "z@x.com", &message("t9", None));
    let eraw = build_rfc2822("z@x.com", "Fwd: ", "", None, None, None, None);
    assert_eq!(fwd_empty.body, Some(obj(vec![("raw", js(&eraw)), ("threadId", js("t9"))])));
}

#[test]
fn modify_defaults_to_empty_label_lists() {
    let r = modify_message_request("me", "m", Some(vec![s("A")]), None);
    assert_eq!(r.url, "https://gmail.googleapis.com/gmail/v1/users/me/messages/m/modify");
    assert_eq!(
        r.body,
        Some(obj(vec![
            ("addLabelIds", JsonValue::Array(vec![js("A")])),
            ("removeLabelIds", JsonValue::Array(vec![])),
        ]))
    );
}

#[test]
fn calendar_requests() {
    assert_eq!(
        get_event_request("a b@x.com", "e1").url,
        "https://www.googleapis.com/calendar/v3/calendars/a%20b%40x.com/events/e1"
    );
    assert_eq!(
        list_events_request("primary", Some("2024-01-01T00:00:00Z"), None, None, Some("x")).url,
        "https://www.googleapis.com/calendar/v3/calendars/primary/events?maxResults=10&singleEvents=true&orderBy=startTime&timeMin=2024-01-01T00%3A00%3A00Z&q=x"
    );
    let c = create_event_request("primary", "Sum", "s", "e", None, Some(vec![s("a@x.com")]), Some("Room"));
    assert_eq!(c.method, HttpMethod::Post);
    assert_eq!(
        c.body,
        Some(obj(vec![
            ("summary", js("Sum")),
            ("start", obj(vec![("dateTime", js("s"))])),
            ("end", obj(vec![("dateTime", js("e"))])),
            ("location", js("Room")),
            ("attendees", JsonValue::Array(vec![obj(vec![("email", js("a@x.com"))])])),
        ]))
    );
    assert_eq!(
        quick_add_request("primary", "Lunch at 1pm").url,
        "https://www.googleapis.com/calendar/v3/calendars/primary/events/quickAdd?text=Lunch%20at%201pm"
    );
    let u = update_event_request("primary", "e1", None, Some("s"), None, Some("d"));
    assert_eq!(u.method, HttpMethod::Patch);
    assert_eq!(u.body, Some(obj(vec![("start", obj(vec![("dateTime", js("s"))])), ("description", js("d"))])));
    assert_eq!(delete_event_request("primary", "e1").method, HttpMethod::Delete);
    let f = freebusy_request("a", "b", &vec![s("primary")]);
    assert_eq!(f.url, "https://www.googleapis.com/calendar/v3/freeBusy");
    assert_eq!(
        f.body,
        Some(obj(vec![
            ("timeMin", js("a")),
            ("timeMax", js("b")),
            ("items", JsonValue::Array(vec![obj(vec![("id", js("primary"))])])),
        ]))
    );
}

#[test]
fn push_watch_body() {
    let w = PushWatchRequest { id: s("ch1"), watch_type: s("web_hook"), address: s("https://h"), token: None, expiration: Some(-5) };
    let r = calendar_watch_request("primary", &w);
    assert_eq!(r.url, "https://www.googleapis.com/calendar/v3/calendars/primary/events/watch");
    assert_eq!(
        r.body,
        Some(obj(vec![
            ("id", js("ch1")),
            ("type", js("web_hook")),
            ("address", js("https://h")),
            ("token", JsonValue::Null),
            ("expiration", JsonValue::Number(s("-5"))),
        ]))
    );
    assert_eq!(signed_decimal_text(i64::MIN), i64::MIN.to_string());
    assert_eq!(signed_decimal_text(42), "42");
}

#[test]
fn fresh_watch_has_a_random_channel_id() {
    let a = new_web_hook_watch(s("https://hook"));
    let b = new_web_hook_watch(s("https://hook"));
    assert_eq!(a.id.len(), 36);
    let c: Vec<char> = a.id.chars().collect();
    for (i, ch) in c.iter().enumerate() {
        if i == 8 || i == 13 || i == 18 || i == 23 {
            assert_eq!(*ch, '-');
        } else {
            assert!(ch.is_ascii_digit() || ('a'..='f').contains(ch));
        }
    }
    assert_eq!(c[14], '4');
    assert!("89ab".contains(c[19]));
    assert_eq!(a.watch_type, "web_hook");
    assert_eq!(a.address, "https://hook");
    assert_eq!(a.token, None);
    assert_eq!(a.expiration, None);
    assert_ne!(a.id, b.id);
}

#[test]
fn drive_requests() {
    assert_eq!(
        list_files_request(Some("name = 'x'"), None).url,
        "https://www.googleapis.com/drive/v3/files?pageSize=10&fields=files(id,name,mimeType,parents,webViewLink)&q=name%20%3D%20%27x%27"
    );
    assert_eq!(copy_file_request("f", None).body, Some(obj(vec![])));
    assert_eq!(copy_file_request("f", Some("n")).body, Some(obj(vec![("name", js("n"))])));
    let d = delete_file_request("f1");
    assert_eq!(d, ApiRequest { method: HttpMethod::Delete, url: s("https://www.googleapis.com/drive/v3/files/f1"), body: None });
    assert_eq!(
        export_file_request("f", "text/plain").url,
        "https://www.googleapis.com/drive/v3/files/f/export?mimeType=text%2Fplain"
    );
    assert_eq!(
        share_request("f", "a@x.com", "writer").body,
        Some(obj(vec![("type", js("user")), ("role", js("writer")), ("emailAddress", js("a@x.com"))]))
    );
}

#[test]
fn multipart_upload_framing() {
    assert_eq!(upload_metadata("n", Some("p")), obj(vec![("name", js("n")), ("parents", JsonValue::Array(vec![js("p")]))]));
    assert_eq!(upload_metadata("n", None), obj(vec![("name", js("n"))]));
    let b = upload_body("B", "{\"name\":\"n\"}", "text/plain", "QUJD");
    assert_eq!(
        b,
        "--B\r\nContent-Type: application/json; charset=UTF-8\r\n\r\n{\"name\":\"n\"}\r\n--B\r\nContent-Type: text/plain\r\nContent-Transfer-Encoding: base64\r\n\r\nQUJD\r\n--B--"
    );
    let nb = new_boundary();
    assert_eq!(nb.len(), 38);
    assert!(nb.starts_with("batch_"));
    let hex: Vec<char> = nb[6..].chars().collect();
    assert!(hex.iter().all(|c| c.is_ascii_digit() || ('a'..='f').contains(c)));
    assert_eq!(hex[12], '4');
    assert!("89ab".contains(hex[16]));
    assert_eq!(multipart_content_type("related", "B"), "multipart/related; boundary=B");
}

#[test]
fn docs_sheets_requests() {
    assert_eq!(create_doc_request("T").body, Some(obj(vec![("title", js("T"))])));
    assert_eq!(get_sheet_request("s1").url, "https://sheets.googleapis.com/v4/spreadsheets/s1");
    assert_eq!(create_sheet_request("T").body, Some(obj(vec![("properties", obj(vec![("title", js("T"))]))])));
    assert_eq!(
        read_range_request("s1", "Sheet1!A1:B2").url,
        "https://sheets.googleapis.com/v4/spreadsheets/s1/values/Sheet1%21A1%3AB2"
    );
    let values = JsonValue::Array(vec![JsonValue::Array(vec![JsonValue::Number(s("1"))])]);
    let a = append_cells_request("s1", "A1", values);
    assert_eq!(a.url, "https://sheets.googleapis.com/v4/spreadsheets/s1/values/A1:append?valueInputOption=USER_ENTERED");
    assert_eq!(
        a.body,
        Some(obj(vec![("range", js("A1")), ("values", JsonValue::Array(vec![JsonValue::Array(vec![JsonValue::Number(s("1"))])]))]))
    );
}

#[test]
fn tasks_meet_photos_requests() {
    let c = create_task_request("L", "T", None, Some("2024-01-01"));
    assert_eq!(c.url, "https://tasks.googleapis.com/tasks/v1/lists/L/tasks");
    assert_eq!(c.body, Some(obj(vec![("title", js("T")), ("due", js("2024-01-01"))])));
    let u = update_task_request("L", "t", None, Some("n"), None);
    assert_eq!(u.method, HttpMethod::Patch);
    assert_eq!(u.body, Some(obj(vec![("notes", js("n"))])));
    assert_eq!(complete_task_request("L", "t").body, Some(obj(vec![("status", js("completed"))])));
    assert_eq!(delete_task_list_request("L").url, "https://tasks.googleapis.com/tasks/v1/users/@me/lists/L");
    assert_eq!(list_conferences_request(None).url, "https://meet.googleapis.com/v2/conferenceRecords?pageSize=25");
    assert_eq!(get_conference_request("conferenceRecords/c1").url, "https://meet.googleapis.com/v2/conferenceRecords/c1");
    let search = list_media_request(Some("al"), None);
    assert_eq!(search.method, HttpMethod::Post);
    assert_eq!(search.url, "https://photoslibrary.googleapis.com/v1/mediaItems:search");
    assert_eq!(search.body, Some(obj(vec![("albumId", js("al")), ("pageSize", JsonValue::Number(s("50")))])));
    let all = list_media_request(None, Some(7));
    assert_eq!(all.url, "https://photoslibrary.googleapis.com/v1/mediaItems?pageSize=7");
    assert_eq!(all.body, None);
}

#[test]
fn batch_framing() {
    let items = vec![
        (s("GET"), s("/a"), None),
        (s("POST"), s("/b"), Some(s("{}"))),
    ];
    assert_eq!(
        batch_body("X", &items),
        "--X\r\nContent-Type: application/http\r\nContent-ID: <item0>\r\n\r\nGET /a HTTP/1.1\r\n\r\n--X\r\nContent-Type: application/http\r\nContent-ID: <item1>\r\n\r\nPOST /b HTTP/1.1\r\nContent-Type: application/json\r\n\r\n{}\r\n--X--"
    );
    assert_eq!(batch_result(s("raw")), vec![obj(vec![("batch_response", js("raw"))])]);
}

#[test]
fn photos_command_line_requests() {
    let a = list_albums_page_request(50);
    assert_eq!(a.method, HttpMethod::Get);
    assert_eq!(a.url, "https://photoslibrary.googleapis.com/v1/albums?pageSize=50");
    let m = search_media_request(None, 20);
    assert_eq!(m.method, HttpMethod::Post);
    assert_eq!(m.url, "https://photoslibrary.googleapis.com/v1/mediaItems:search");
    assert_eq!(m.body, Some(obj(vec![("pageSize", JsonValue::Number(s("20")))])));
    let m2 = search_media_request(Some("al"), 5);
    assert_eq!(m2.body, Some(obj(vec![("pageSize", JsonValue::Number(s("5"))), ("albumId", js("al"))])));
}

#[test]
fn boundary_prefixes_the_drawn_uuid() {
    assert_eq!(boundary_for("0123456789abcdef0123456789abcdef"), "batch_0123456789abcdef0123456789abcdef");
    assert_eq!(boundary_for(""), "batch_");
}

fn header(name: &str, value: &str) -> Header {
    Header { name: s(name), value: s(value) }
}

fn message_with_headers(headers: Vec<Header>) -> EmailMessage {
    EmailMessage {
        id: s("m1"),
        thread_id: s("t7"),
        snippet: None,
        label_ids: vec![],
        payload: Some(MessagePart { part_id: None, mime_type: s("text/plain"), headers, body: None, parts: None }),
    }
}

#[test]
fn reply_all_answers_the_sender_and_copies_the_recipients() {
    let orig = message_with_headers(vec![
        header("Subject", "Plans"),
        header("From", "ann@x.com"),
        header("To", "me@x.com, bob@x.com"),
        header("Cc", "cy@x.com"),
        header("From", "other@x.com"),
    ]);
    let r = reply_all_request("me", "m1", "sounds good", &orig);
    assert_eq!(r.method, HttpMethod::Post);
    assert_eq!(r.url, "https://gmail.googleapis.com/gmail/v1/users/me/messages/send");
    let raw = build_rfc2822("ann@x.com", "Re: ", "sounds good", Some("me@x.com, bob@x.com, cy@x.com"), None, Some("m1"), None);
    assert_eq!(r.body, Some(obj(vec![("raw", js(&raw)), ("threadId", js("t7"))])));
    assert_eq!(
        decode(&raw),
        "To: ann@x.com\r\nSubject: Re: \r\nContent-Type: text/plain; charset=utf-8\r\nCc: me@x.com, bob@x.com, cy@x.com\r\nIn-Reply-To: m1\r\nReferences: m1\r\n\r\nsounds good"
    );
}

#[test]
fn reply_all_without_copied_recipients() {
    let only_to = reply_all_request("me", "m1", "ok", &message_with_headers(vec![header("From", "ann@x.com"), header("To", "me@x.com")]));
    let raw = build_rfc2822("ann@x.com", "Re: ", "ok", Some("me@x.com"), None, Some("m1"), None);
    assert_eq!(only_to.body, Some(obj(vec![("raw", js(&raw)), ("threadId", js("t7"))])));

    let bare = reply_all_request("me", "m1", "ok", &message("t9", None));
    let raw = build_rfc2822("", "Re: ", "ok", None, None, Some("m1"), None);
    assert_eq!(bare.body, Some(obj(vec![("raw", js(&raw)), ("threadId", js("t9"))])));
}

#[test]
fn task_list_fetch_and_new_meeting_space() {
    let g = get_task_list_request("L");
    assert_eq!(g.method, HttpMethod::Get);
    assert_eq!(g.url, "https://tasks.googleapis.com/tasks/v1/users/@me/lists/L");
    assert_eq!(g.body, None);
    let m = create_space_request();
    assert_eq!(m.method, HttpMethod::Post);
    assert_eq!(m.url, "https://meet.googleapis.com/v2/spaces");
    assert_eq!(m.body, Some(JsonValue::Object(vec![])));
}
