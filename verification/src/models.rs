//! The Google Workspace resources that the tools hand back.
use vstd::prelude::*;
use crate::json::JsonValue;

verus! {

// ---------------------------------------------------------------------------
// Gmail
// ---------------------------------------------------------------------------

/// A Gmail message.
#[derive(Debug, PartialEq, Eq)]
pub struct EmailMessage {
    pub id: String,
    pub thread_id: String,
    pub snippet: Option<String>,
    pub label_ids: Vec<String>,
    pub payload: Option<MessagePart>,
}

/// A MIME part of a message.
#[derive(Debug, PartialEq, Eq)]
pub struct MessagePart {
    pub part_id: Option<String>,
    pub mime_type: String,
    pub headers: Vec<Header>,
    pub body: Option<MessagePartBody>,
    pub parts: Option<Vec<MessagePart>>,
}

/// A message header.
#[derive(Debug, PartialEq, Eq)]
pub struct Header {
    pub name: String,
    pub value: String,
}

/// The body of a MIME part.
#[derive(Debug, PartialEq, Eq)]
pub struct MessagePartBody {
    pub size: i64,
    pub data: Option<String>,
    pub attachment_id: Option<String>,
}

/// A conversation.
#[derive(Debug, PartialEq, Eq)]
pub struct GmailThread {
    pub id: String,
    pub snippet: Option<String>,
    pub history_id: Option<String>,
    pub messages: Vec<EmailMessage>,
}

/// A label.
#[derive(Debug, PartialEq, Eq)]
pub struct GmailLabel {
    pub id: String,
    pub name: String,
    pub label_type: Option<String>,
}

// ---------------------------------------------------------------------------
// Calendar
// ---------------------------------------------------------------------------

/// A calendar event.
#[derive(Debug, PartialEq, Eq)]
pub struct CalendarEvent {
    pub id: Option<String>,
    pub summary: Option<String>,
    pub description: Option<String>,
    pub start: Option<EventDateTime>,
    pub end: Option<EventDateTime>,
    pub status: Option<String>,
    pub html_link: Option<String>,
}

/// A date or time of an event.
#[derive(Debug, PartialEq, Eq)]
pub struct EventDateTime {
    pub date: Option<String>,
    pub date_time: Option<String>,
    pub time_zone: Option<String>,
}

/// A calendar of the user's list.
#[derive(Debug, PartialEq, Eq)]
pub struct CalendarListEntry {
    pub id: String,
    pub summary: Option<String>,
    pub primary: Option<bool>,
    pub access_role: Option<String>,
}

/// Free/busy information.
#[derive(Debug, PartialEq, Eq)]
pub struct FreeBusyResponse {
    pub kind: Option<String>,
    pub calendars: Option<JsonValue>,
}

// ---------------------------------------------------------------------------
// Drive
// ---------------------------------------------------------------------------

/// A Drive file.
#[derive(Debug, PartialEq, Eq)]
pub struct DriveFile {
    pub id: Option<String>,
    pub name: Option<String>,
    pub mime_type: Option<String>,
    pub parents: Option<Vec<String>>,
    pub web_view_link: Option<String>,
}

/// A sharing permission.
#[derive(Debug, PartialEq, Eq)]
pub struct DrivePermission {
    pub id: Option<String>,
    pub permission_type: Option<String>,
    pub role: Option<String>,
    pub email_address: Option<String>,
}

// ---------------------------------------------------------------------------
// Slides
// ---------------------------------------------------------------------------

/// A presentation.
#[derive(Debug, PartialEq, Eq)]
pub struct Presentation {
    pub presentation_id: Option<String>,
    pub title: Option<String>,
    pub slides: Option<Vec<Slide>>,
}

/// A slide.
#[derive(Debug, PartialEq, Eq)]
pub struct Slide {
    pub object_id: Option<String>,
}

// ---------------------------------------------------------------------------
// Forms
// ---------------------------------------------------------------------------

/// A form.
#[derive(Debug, PartialEq, Eq)]
pub struct Form {
    pub form_id: Option<String>,
    pub info: Option<FormInfo>,
    pub responder_uri: Option<String>,
}

/// A form's title and description.
#[derive(Debug, PartialEq, Eq)]
pub struct FormInfo {
    pub title: Option<String>,
    pub description: Option<String>,
}

/// A response to a form.
#[derive(Debug, PartialEq, Eq)]
pub struct FormResponse {
    pub response_id: Option<String>,
    pub create_time: Option<String>,
    pub answers: Option<JsonValue>,
}

// ---------------------------------------------------------------------------
// Tasks
// ---------------------------------------------------------------------------

/// A task list.
#[derive(Debug, PartialEq, Eq)]
pub struct TaskList {
    pub id: Option<String>,
    pub title: Option<String>,
    pub updated: Option<String>,
}

/// A task.
#[derive(Debug, PartialEq, Eq)]
pub struct Task {
    pub id: Option<String>,
    pub title: Option<String>,
    pub notes: Option<String>,
    pub status: Option<String>,
    pub due: Option<String>,
    pub completed: Option<String>,
}

// ---------------------------------------------------------------------------
// Meet
// ---------------------------------------------------------------------------

/// A past conference.
#[derive(Debug, PartialEq, Eq)]
pub struct ConferenceRecord {
    pub name: Option<String>,
    pub start_time: Option<String>,
    pub end_time: Option<String>,
    pub space: Option<MeetSpace>,
}

/// A meeting space.
#[derive(Debug, PartialEq, Eq)]
pub struct MeetSpace {
    pub meeting_code: Option<String>,
    pub meeting_uri: Option<String>,
}

/// A conference participant.
#[derive(Debug, PartialEq, Eq)]
pub struct Participant {
    pub name: Option<String>,
    pub earliest_start_time: Option<String>,
    pub latest_end_time: Option<String>,
}

// ---------------------------------------------------------------------------
// Push notifications (Gmail, Calendar, Drive)
// ---------------------------------------------------------------------------

/// A request to push changes to a web hook.
#[derive(Debug, PartialEq, Eq)]
pub struct PushWatchRequest {
    pub id: String,
    pub watch_type: String,
    pub address: String,
    pub token: Option<String>,
    pub expiration: Option<i64>,
}

/// The channel that a watch request opened.
#[derive(Debug, PartialEq, Eq)]
pub struct PushWatchResponse {
    pub id: String,
    pub resource_id: String,
    pub resource_uri: String,
    pub token: Option<String>,
    pub expiration: Option<i64>,
}

/// A request to publish mailbox changes to a Pub/Sub topic.
#[derive(Debug, PartialEq, Eq)]
pub struct GmailWatchRequest {
    pub label_ids: Option<Vec<String>>,
    pub label_filter_action: Option<String>,
    pub topic_name: String,
}

/// The mailbox history point that a watch starts from.
#[derive(Debug, PartialEq, Eq)]
pub struct GmailWatchResponse {
    pub history_id: String,
    pub expiration: i64,
}

} // verus!
