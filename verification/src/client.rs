//! The Google REST requests behind each port operation: method, URL and
//! JSON body, for the account named by `email`.
use vstd::prelude::*;
use vstd::string::StringExecFns;
use vstd::utf8::encode_utf8;
use crate::text::{
    concat2, contains_spec, decimal, decimal_spec, first_index, lemma_first_index_is, occurs_at, owned, string_views,
};
use crate::json::{
    Json, JsonValue, jobject, jstring, member_models, models, opt_json_str, opt_member, opt_str_view,
    push_member, push_opt_member,
};
use crate::notebooklm::jarray;
use crate::outside::{
    base64_url_encode, base64_url_nopad, is_uuid_v4_simple, is_uuid_v4_text, new_uuid, new_uuid_simple, url_encode,
    url_encoded,
};
use crate::models::{EmailMessage, Header, PushWatchRequest};

verus! {

/// An HTTP method.
#[derive(Debug, Clone, Copy, PartialEq, Eq, Structural)]
pub enum HttpMethod {
    Get,
    Post,
    Put,
    Patch,
    Delete,
}

/// A request to a Google API, sent with the account's bearer token.
#[derive(Debug, PartialEq)]
pub struct ApiRequest {
    pub method: HttpMethod,
    pub url: String,
    /// The JSON body, if any.
    pub body: Option<JsonValue>,
}

pub open spec fn opt_json_model(b: Option<JsonValue>) -> Option<Json> {
    match b {
        Some(j) => Some(j.model()),
        None => None,
    }
}

/// `r` is the request `method url` with the given body.
pub open spec fn request_is(r: ApiRequest, method: HttpMethod, url: Seq<char>, body: Option<Json>) -> bool {
    &&& r.method == method
    &&& r.url@ == url
    &&& opt_json_model(r.body) == body
}

/// `&name=` and the encoded value, when there is one.
pub open spec fn opt_param(name: Seq<char>, v: Option<Seq<char>>) -> Seq<char> {
    match v {
        Some(t) => name + url_encoded(t),
        None => seq![],
    }
}

/// The decimal text of `n`, or of `default` when there is none.
pub open spec fn count_or(n: Option<u32>, default: nat) -> Seq<char> {
    match n {
        Some(k) => decimal_spec(k as nat),
        None => decimal_spec(default),
    }
}

fn count_text(n: Option<u32>, default: u32) -> (r: String)
    ensures
        r@ == count_or(n, default as nat),
{
    match n {
        Some(k) => decimal(k as u64),
        None => decimal(default as u64),
    }
}

fn append_opt_param(u: &mut String, name: &str, v: Option<&str>)
    ensures
        final(u)@ == old(u)@ + opt_param(name@, opt_str_view(v)),
{
    match v {
        Some(t) => {
            u.append(name);
            u.append(url_encode(t).as_str());
        },
        None => {},
    }
}

fn request(method: HttpMethod, url: String, body: Option<JsonValue>) -> (r: ApiRequest)
    ensures
        r.method == method,
        r.url == url,
        r.body == body,
{
    ApiRequest { method, url, body }
}

fn empty_object() -> (r: JsonValue)
    ensures
        r.model() == Json::Object(seq![]),
{
    let m: Vec<(String, JsonValue)> = Vec::new();
    assert(member_models(m@) =~= Seq::<(Seq<char>, Json)>::empty());
    jobject(m)
}

fn object1(k: &str, v: JsonValue) -> (r: JsonValue)
    ensures
        r.model() == Json::Object(seq![(k@, v.model())]),
{
    let mut m: Vec<(String, JsonValue)> = Vec::new();
    push_member(&mut m, k, v);
    assert(member_models(m@) =~= seq![(k@, v.model())]);
    jobject(m)
}

// ---------------------------------------------------------------------------
// Gmail
// ---------------------------------------------------------------------------

pub open spec fn gmail_user(email: Seq<char>) -> Seq<char> {
    "https://gmail.googleapis.com/gmail/v1/users/"@ + email
}

fn gmail_url(email: &str, tail: &str) -> (r: String)
    ensures
        r@ == gmail_user(email@) + tail@,
{
    let mut u = owned("https://gmail.googleapis.com/gmail/v1/users/");
    u.append(email);
    u.append(tail);
    u
}

/// The raw RFC 2822 text of a plain-text message.
pub open spec fn rfc2822_text(
    to: Seq<char>,
    subject: Seq<char>,
    body: Seq<char>,
    cc: Option<Seq<char>>,
    bcc: Option<Seq<char>>,
    in_reply_to: Option<Seq<char>>,
    references: Option<Seq<char>>,
) -> Seq<char> {
    let head = "To: "@ + to + "\r\nSubject: "@ + subject + "\r\nContent-Type: text/plain; charset=utf-8\r\n"@;
    let head = match cc {
        Some(c) => head + "Cc: "@ + c + "\r\n"@,
        None => head,
    };
    let head = match bcc {
        Some(b) => head + "Bcc: "@ + b + "\r\n"@,
        None => head,
    };
    let head = match in_reply_to {
        Some(r) => head + "In-Reply-To: "@ + r + "\r\nReferences: "@ + (match references {
            Some(x) => x,
            None => r,
        }) + "\r\n"@,
        None => head,
    };
    head + "\r\n"@ + body
}

/// A plain-text message in RFC 2822 form, encoded as Gmail's `raw` field
/// (URL-safe base64 of its UTF-8 bytes, without padding). `References`
/// repeats `In-Reply-To` unless given.
pub fn build_rfc2822(
    to: &str,
    subject: &str,
    body: &str,
    cc: Option<&str>,
    bcc: Option<&str>,
    in_reply_to: Option<&str>,
    references: Option<&str>,
) -> (r: String)
    ensures
        r@ == base64_url_nopad(encode_utf8(rfc2822_text(
            to@, subject@, body@, opt_str_view(cc), opt_str_view(bcc), opt_str_view(in_reply_to),
            opt_str_view(references),
        ))),
{
    let mut headers = owned("To: ");
    headers.append(to);
    headers.append("\r\nSubject: ");
    headers.append(subject);
    headers.append("\r\nContent-Type: text/plain; charset=utf-8\r\n");
    if let Some(c) = cc {
        headers.append("Cc: ");
        headers.append(c);
        headers.append("\r\n");
    }
    if let Some(b) = bcc {
        headers.append("Bcc: ");
        headers.append(b);
        headers.append("\r\n");
    }
    if let Some(r) = in_reply_to {
        headers.append("In-Reply-To: ");
        headers.append(r);
        headers.append("\r\nReferences: ");
        match references {
            Some(x) => headers.append(x),
            None => headers.append(r),
        }
        headers.append("\r\n");
    }
    headers.append("\r\n");
    headers.append(body);
    base64_url_encode(headers.as_str().as_bytes())
}

/// `p` occurs in `x + p + y` right after `x`.
proof fn lemma_occurs_between(x: Seq<char>, p: Seq<char>, y: Seq<char>)
    ensures
        occurs_at(x + p + y, p, x.len() as int),
        contains_spec(x + p + y, p),
{
    assert((x + p + y).subrange(x.len() as int, x.len() + p.len() as int) =~= p);
    assert(occurs_at(x + p + y, p, x.len() as int));
}

/// `s` ends with a line break (`\r\n`).
spec fn ends_crlf(s: Seq<char>) -> bool {
    s.len() >= 2 && s[s.len() - 2] == '\r' && s[s.len() - 1] == '\n'
}

proof fn lemma_crlf_appended(x: Seq<char>)
    ensures
        ends_crlf(x + "\r\n"@),
{
    reveal_strlit("\r\n");
}

proof fn lemma_crlf_kept(a: Seq<char>, b: Seq<char>)
    requires
        ends_crlf(a),
        b.len() == 0 || ends_crlf(b),
    ensures
        ends_crlf(a + b),
{
    if b.len() == 0 {
        assert(a + b =~= a);
    }
}

spec fn head_part(to: Seq<char>, subject: Seq<char>) -> Seq<char> {
    "To: "@ + to + "\r\nSubject: "@ + subject + "\r\nContent-Type: text/plain; charset=utf-8\r\n"@
}

spec fn line_part(name: Seq<char>, v: Option<Seq<char>>) -> Seq<char> {
    match v {
        Some(x) => name + x + "\r\n"@,
        None => Seq::empty(),
    }
}

spec fn refs_part(in_reply_to: Seq<char>, references: Option<Seq<char>>) -> Seq<char> {
    "References: "@ + (match references {
        Some(x) => x,
        None => in_reply_to,
    }) + "\r\n"@
}

spec fn reply_part(in_reply_to: Option<Seq<char>>, references: Option<Seq<char>>) -> Seq<char> {
    match in_reply_to {
        Some(r) => "In-Reply-To: "@ + r + "\r\n"@ + refs_part(r, references),
        None => Seq::empty(),
    }
}

proof fn lemma_seq_assoc(a: Seq<char>, b: Seq<char>, c: Seq<char>)
    ensures
        a + b + c == a + (b + c),
{
    assert(a + b + c =~= a + (b + c));
}

/// Appending a header line is appending its part.
proof fn lemma_line_appended(h: Seq<char>, name: Seq<char>, v: Seq<char>)
    ensures
        h + name + v + "\r\n"@ == h + line_part(name, Some(v)),
{
    lemma_seq_assoc(h, name, v);
    lemma_seq_assoc(h, name + v, "\r\n"@);
}

/// The message text as its parts, one after the other.
proof fn lemma_rfc2822_parts(
    to: Seq<char>,
    subject: Seq<char>,
    body: Seq<char>,
    cc: Option<Seq<char>>,
    bcc: Option<Seq<char>>,
    in_reply_to: Option<Seq<char>>,
    references: Option<Seq<char>>,
)
    ensures
        rfc2822_text(to, subject, body, cc, bcc, in_reply_to, references)
            == head_part(to, subject) + line_part("Cc: "@, cc) + line_part("Bcc: "@, bcc)
                + reply_part(in_reply_to, references) + ("\r\n"@ + body),
{
    let h = head_part(to, subject);
    let h1 = match cc {
        Some(c) => h + "Cc: "@ + c + "\r\n"@,
        None => h,
    };
    match cc {
        Some(c) => lemma_line_appended(h, "Cc: "@, c),
        None => assert(h + line_part("Cc: "@, cc) =~= h),
    }
    assert(h1 == h + line_part("Cc: "@, cc));
    let h2 = match bcc {
        Some(b) => h1 + "Bcc: "@ + b + "\r\n"@,
        None => h1,
    };
    match bcc {
        Some(b) => lemma_line_appended(h1, "Bcc: "@, b),
        None => assert(h1 + line_part("Bcc: "@, bcc) =~= h1),
    }
    assert(h2 == h1 + line_part("Bcc: "@, bcc));
    let h3 = match in_reply_to {
        Some(r) => h2 + "In-Reply-To: "@ + r + "\r\nReferences: "@ + (match references {
            Some(x) => x,
            None => r,
        }) + "\r\n"@,
        None => h2,
    };
    match in_reply_to {
        Some(r) => {
            let rr = match references {
                Some(x) => x,
                None => r,
            };
            assert("\r\nReferences: "@ =~= "\r\n"@ + "References: "@) by {
                reveal_strlit("\r\nReferences: ");
                reveal_strlit("\r\n");
                reveal_strlit("References: ");
            }
            let i = "In-Reply-To: "@ + r + "\r\n"@;
            let f = "References: "@ + rr + "\r\n"@;
            assert(h2 + "In-Reply-To: "@ + r + "\r\nReferences: "@ + rr + "\r\n"@ =~= h2 + (i + f));
        },
        None => assert(h2 + reply_part(in_reply_to, references) =~= h2),
    }
    assert(h3 == h2 + reply_part(in_reply_to, references));
    assert(rfc2822_text(to, subject, body, cc, bcc, in_reply_to, references) == h3 + "\r\n"@ + body);
    lemma_seq_assoc(h3, "\r\n"@, body);
}

/// The head opens with the `To` and `Subject` lines and ends with a line
/// break.
proof fn lemma_head_part(to: Seq<char>, subject: Seq<char>)
    ensures
        ({
            let first = "To: "@ + to + "\r\n"@ + "Subject: "@ + subject + "\r\n"@;
            head_part(to, subject).len() >= first.len() && head_part(to, subject).subrange(0, first.len() as int) == first
        }),
        ends_crlf(head_part(to, subject)),
{
    reveal_strlit("\r\n");
    reveal_strlit("\r\nSubject: ");
    reveal_strlit("Subject: ");
    reveal_strlit("\r\nContent-Type: text/plain; charset=utf-8\r\n");
    let first = "To: "@ + to + "\r\n"@ + "Subject: "@ + subject + "\r\n"@;
    assert(head_part(to, subject).subrange(0, first.len() as int) =~= first);
}

/// The blank line that ends the headers, then the body.
proof fn lemma_blank_line_then_body(heads: Seq<char>, body: Seq<char>)
    requires
        ends_crlf(heads),
    ensures
        ({
            let t = heads + ("\r\n"@ + body);
            t.len() >= body.len() + 4 && t.subrange(t.len() - body.len() - 4, t.len() as int) == "\r\n\r\n"@ + body
        }),
{
    reveal_strlit("\r\n");
    reveal_strlit("\r\n\r\n");
    let t = heads + ("\r\n"@ + body);
    assert(t.subrange(t.len() - body.len() - 4, t.len() as int) =~= "\r\n\r\n"@ + body);
}

/// The text of a whole message has the opening lines of its head.
proof fn lemma_opening_kept(h: Seq<char>, rest: Seq<char>, first: Seq<char>)
    requires
        h.len() >= first.len(),
        h.subrange(0, first.len() as int) == first,
    ensures
        (h + rest).len() >= first.len(),
        (h + rest).subrange(0, first.len() as int) == first,
{
    assert((h + rest).subrange(0, first.len() as int) =~= h.subrange(0, first.len() as int));
}

/// Each optional part of a message occurs in it.
proof fn lemma_parts_occur(h0: Seq<char>, ccp: Seq<char>, bp: Seq<char>, irt: Seq<char>, refs: Seq<char>, rp: Seq<char>, tail: Seq<char>)
    requires
        rp.len() == 0 || rp == irt + refs,
    ensures
        contains_spec(h0 + ccp + bp + rp + tail, ccp),
        contains_spec(h0 + ccp + bp + rp + tail, bp),
        rp == irt + refs ==> contains_spec(h0 + ccp + bp + rp + tail, irt),
        rp == irt + refs ==> contains_spec(h0 + ccp + bp + rp + tail, refs),
{
    let t = h0 + ccp + bp + rp + tail;
    lemma_seq_assoc(h0 + ccp, bp, rp);
    lemma_seq_assoc(h0 + ccp, bp + rp, tail);
    lemma_occurs_between(h0, ccp, bp + rp + tail);
    lemma_seq_assoc(h0 + ccp + bp, rp, tail);
    lemma_occurs_between(h0 + ccp, bp, rp + tail);
    if rp == irt + refs {
        let x = h0 + ccp + bp;
        lemma_seq_assoc(irt, refs, tail);
        lemma_seq_assoc(x, irt, refs + tail);
        lemma_occurs_between(x, irt, refs + tail);
        lemma_seq_assoc(x, irt, refs);
        lemma_occurs_between(x + irt, refs, tail);
    }
}

/// The lines of a plain-text message: it opens with its `To` and `Subject`
/// lines; it holds a `Cc` line whenever copies are asked for and a `Bcc` line
/// whenever blind copies are, each whatever else is given; a reply holds its
/// `In-Reply-To` line and a `References` line (the given references, else the
/// message replied to); and the body closes it, after the blank line that ends
/// the headers.
pub proof fn lemma_rfc2822_lines(
    to: Seq<char>,
    subject: Seq<char>,
    body: Seq<char>,
    cc: Option<Seq<char>>,
    bcc: Option<Seq<char>>,
    in_reply_to: Option<Seq<char>>,
    references: Option<Seq<char>>,
)
    ensures
        ({
            let t = rfc2822_text(to, subject, body, cc, bcc, in_reply_to, references);
            let first = "To: "@ + to + "\r\n"@ + "Subject: "@ + subject + "\r\n"@;
            &&& t.len() >= first.len() && t.subrange(0, first.len() as int) == first
            &&& t.len() >= body.len() + 4 && t.subrange(t.len() - body.len() - 4, t.len() as int) == "\r\n\r\n"@ + body
            &&& (cc matches Some(c) ==> contains_spec(t, "Cc: "@ + c + "\r\n"@))
            &&& (bcc matches Some(b) ==> contains_spec(t, "Bcc: "@ + b + "\r\n"@))
            &&& (in_reply_to matches Some(r) ==> contains_spec(t, "In-Reply-To: "@ + r + "\r\n"@))
            &&& (in_reply_to matches Some(r) ==> contains_spec(
                t,
                "References: "@ + (match references {
                    Some(x) => x,
                    None => r,
                }) + "\r\n"@,
            ))
        }),
{
    let t = rfc2822_text(to, subject, body, cc, bcc, in_reply_to, references);
    let h0 = head_part(to, subject);
    let ccp = line_part("Cc: "@, cc);
    let bp = line_part("Bcc: "@, bcc);
    let rp = reply_part(in_reply_to, references);
    let tail = "\r\n"@ + body;
    lemma_rfc2822_parts(to, subject, body, cc, bcc, in_reply_to, references);
    lemma_head_part(to, subject);
    assert(t == h0 + ccp + bp + rp + tail);

    // The opening lines.
    let first = "To: "@ + to + "\r\n"@ + "Subject: "@ + subject + "\r\n"@;
    lemma_seq_assoc(h0, ccp, bp);
    lemma_seq_assoc(h0, ccp + bp, rp);
    lemma_seq_assoc(h0, ccp + bp + rp, tail);
    lemma_opening_kept(h0, ccp + bp + rp + tail, first);

    // The blank line and the body.
    if let Some(c) = cc {
        lemma_crlf_appended("Cc: "@ + c);
    }
    if let Some(b) = bcc {
        lemma_crlf_appended("Bcc: "@ + b);
    }
    let (irt, refs) = match in_reply_to {
        Some(r) => ("In-Reply-To: "@ + r + "\r\n"@, refs_part(r, references)),
        None => (Seq::empty(), Seq::empty()),
    };
    if let Some(r) = in_reply_to {
        let rr = match references {
            Some(x) => x,
            None => r,
        };
        lemma_crlf_appended("References: "@ + rr);
        lemma_crlf_appended("In-Reply-To: "@ + r);
        lemma_crlf_kept(irt, refs);
    }
    lemma_crlf_kept(h0, ccp);
    lemma_crlf_kept(h0 + ccp, bp);
    lemma_crlf_kept(h0 + ccp + bp, rp);
    lemma_blank_line_then_body(h0 + ccp + bp + rp, body);

    // The optional lines.
    lemma_parts_occur(h0, ccp, bp, irt, refs, rp, tail);
}

/// Fetch one message in full.
pub fn get_message_request(email: &str, message_id: &str) -> (r: ApiRequest)
    ensures
        request_is(r, HttpMethod::Get, gmail_user(email@) + "/messages/"@ + message_id@ + "?format=full"@, None),
{
    let mut u = gmail_url(email, "/messages/");
    u.append(message_id);
    u.append("?format=full");
    request(HttpMethod::Get, u, None)
}

/// Search messages (`q`), ten unless a maximum is given.
pub fn list_messages_request(email: &str, query: Option<&str>, max_results: Option<u32>) -> (r: ApiRequest)
    ensures
        request_is(
            r,
            HttpMethod::Get,
            gmail_user(email@) + "/messages?maxResults="@ + count_or(max_results, 10) + opt_param("&q="@, opt_str_view(query)),
            None,
        ),
{
    let mut u = gmail_url(email, "/messages?maxResults=");
    u.append(count_text(max_results, 10).as_str());
    append_opt_param(&mut u, "&q=", query);
    request(HttpMethod::Get, u, None)
}

/// Fetch one thread.
pub fn get_thread_request(email: &str, thread_id: &str) -> (r: ApiRequest)
    ensures
        request_is(r, HttpMethod::Get, gmail_user(email@) + "/threads/"@ + thread_id@, None),
{
    let mut u = gmail_url(email, "/threads/");
    u.append(thread_id);
    request(HttpMethod::Get, u, None)
}

pub open spec fn send_url(email: Seq<char>) -> Seq<char> {
    gmail_user(email) + "/messages/send"@
}

/// Send a new message.
pub fn send_message_request(
    email: &str,
    to: &str,
    subject: &str,
    body: &str,
    cc: Option<&str>,
    bcc: Option<&str>,
) -> (r: ApiRequest)
    ensures
        request_is(r, HttpMethod::Post, send_url(email@), Some(Json::Object(seq![
            ("raw"@, Json::Str(base64_url_nopad(encode_utf8(rfc2822_text(
                to@, subject@, body@, opt_str_view(cc), opt_str_view(bcc), None, None,
            ))))),
        ]))),
{
    let raw = build_rfc2822(to, subject, body, cc, bcc, None, None);
    let u = gmail_url(email, "/messages/send");
    request(HttpMethod::Post, u, Some(object1("raw", JsonValue::String(raw))))
}

/// Reply in the thread of `source` (the message `message_id`).
pub fn reply_request(email: &str, message_id: &str, body: &str, source: &EmailMessage) -> (r: ApiRequest)
    ensures
        request_is(r, HttpMethod::Post, send_url(email@), Some(Json::Object(seq![
            ("raw"@, Json::Str(base64_url_nopad(encode_utf8(rfc2822_text(
                seq![], "Re: "@, body@, None, None, Some(message_id@), None,
            ))))),
            ("threadId"@, Json::Str(source.thread_id@)),
        ]))),
{
    let raw = build_rfc2822("", "Re: ", body, None, None, Some(message_id), None);
    assert(""@ =~= Seq::<char>::empty()) by {
        reveal_strlit("");
    }
    let ghost raw_view = raw@;
    let mut m: Vec<(String, JsonValue)> = Vec::new();
    push_member(&mut m, "raw", JsonValue::String(raw));
    push_member(&mut m, "threadId", jstring(source.thread_id.as_str()));
    assert(member_models(m@) =~= seq![("raw"@, Json::Str(raw_view)), ("threadId"@, Json::Str(source.thread_id@))]);
    let u = gmail_url(email, "/messages/send");
    request(HttpMethod::Post, u, Some(jobject(m)))
}

/// The names of a list of headers, in order.
pub open spec fn header_names(hs: Seq<Header>) -> Seq<Seq<char>> {
    Seq::new(hs.len(), |i: int| hs[i].name@)
}

/// The value of the first header called `name`, if any.
pub open spec fn header_value(hs: Seq<Header>, name: Seq<char>) -> Option<Seq<char>> {
    match first_index(header_names(hs), name) {
        Some(i) => Some(hs[i].value@),
        None => None,
    }
}

/// The headers of a message's top part (none without a payload).
pub open spec fn message_headers(m: EmailMessage) -> Seq<Header> {
    match m.payload {
        Some(p) => p.headers@,
        None => Seq::empty(),
    }
}

/// Who a reply to everyone copies: the source's `To` and then its `Cc`
/// recipients, joined by `, `; nobody when it has neither.
pub open spec fn reply_all_cc(to: Option<Seq<char>>, cc: Option<Seq<char>>) -> Option<Seq<char>> {
    match (to, cc) {
        (Some(t), Some(c)) => Some(t + ", "@ + c),
        (Some(t), None) => Some(t),
        (None, Some(c)) => Some(c),
        (None, None) => None,
    }
}

/// The value of the first header called `name`.
fn find_header(hs: &Vec<Header>, name: &str) -> (r: Option<String>)
    ensures
        match r {
            Some(v) => header_value(hs@, name@) == Some(v@),
            None => header_value(hs@, name@) is None,
        },
{
    let key = owned(name);
    let ghost ns = header_names(hs@);
    let mut i: usize = 0;
    while i < hs.len()
        invariant
            i <= hs@.len(),
            ns == header_names(hs@),
            key@ == name@,
            forall|j: int| 0 <= j < i ==> ns[j] != name@,
        decreases hs@.len() - i,
    {
        if hs[i].name == key {
            proof {
                lemma_first_index_is(ns, name@, i as int);
            }
            return Some(owned(hs[i].value.as_str()));
        }
        i = i + 1;
    }
    proof {
        lemma_first_index_is(ns, name@, i as int);
    }
    None
}

/// The text of a reply to everyone on `source` (the message `message_id`):
/// to its sender (`From`), copying its `To` and `Cc` recipients as they
/// stand.
pub open spec fn reply_all_text(source: EmailMessage, message_id: Seq<char>, body: Seq<char>) -> Seq<char> {
    let hs = message_headers(source);
    let from = match header_value(hs, "From"@) {
        Some(f) => f,
        None => Seq::empty(),
    };
    rfc2822_text(from, "Re: "@, body, reply_all_cc(header_value(hs, "To"@), header_value(hs, "Cc"@)), None, Some(message_id), None)
}

/// Reply to everyone on `source` (the message `message_id`), in its thread.
pub fn reply_all_request(email: &str, message_id: &str, body: &str, source: &EmailMessage) -> (r: ApiRequest)
    ensures
        request_is(r, HttpMethod::Post, send_url(email@), Some(Json::Object(seq![
            ("raw"@, Json::Str(base64_url_nopad(encode_utf8(reply_all_text(*source, message_id@, body@))))),
            ("threadId"@, Json::Str(source.thread_id@)),
        ]))),
{
    let no_headers: Vec<Header> = Vec::new();
    let hs: &Vec<Header> = match &source.payload {
        Some(p) => &p.headers,
        None => &no_headers,
    };
    let ghost hv = message_headers(*source);
    assert(hs@ == hv);
    let from = find_header(hs, "From");
    let to = find_header(hs, "To");
    let cc = find_header(hs, "Cc");
    let from_text = match from {
        Some(f) => f,
        None => String::new(),
    };
    let copied: Option<String> = match (to, cc) {
        (Some(t), Some(c)) => {
            let mut x = t;
            x.append(", ");
            x.append(c.as_str());
            Some(x)
        },
        (Some(t), None) => Some(t),
        (None, Some(c)) => Some(c),
        (None, None) => None,
    };
    let copied_str: Option<&str> = match &copied {
        Some(c) => Some(c.as_str()),
        None => None,
    };
    assert(opt_str_view(copied_str) == reply_all_cc(header_value(hv, "To"@), header_value(hv, "Cc"@)));
    let raw = build_rfc2822(from_text.as_str(), "Re: ", body, copied_str, None, Some(message_id), None);
    assert(raw@ == base64_url_nopad(encode_utf8(reply_all_text(*source, message_id@, body@))));
    let ghost raw_view = raw@;
    let mut m: Vec<(String, JsonValue)> = Vec::new();
    push_member(&mut m, "raw", JsonValue::String(raw));
    push_member(&mut m, "threadId", jstring(source.thread_id.as_str()));
    assert(member_models(m@) =~= seq![("raw"@, Json::Str(raw_view)), ("threadId"@, Json::Str(source.thread_id@))]);
    let u = gmail_url(email, "/messages/send");
    request(HttpMethod::Post, u, Some(jobject(m)))
}

/// Forward the snippet of `source` to `to`, in its thread.
pub fn forward_request(email: &str, to: &str, source: &EmailMessage) -> (r: ApiRequest)
    ensures
        request_is(r, HttpMethod::Post, send_url(email@), Some(Json::Object(seq![
            ("raw"@, Json::Str(base64_url_nopad(encode_utf8(rfc2822_text(
                to@, "Fwd: "@, match source.snippet { Some(s) => s@, None => seq![] }, None, None, None, None,
            ))))),
            ("threadId"@, Json::Str(source.thread_id@)),
        ]))),
{
    let snippet = match &source.snippet {
        Some(s) => owned(s.as_str()),
        None => String::new(),
    };
    assert(snippet@ == match source.snippet { Some(s) => s@, None => seq![] });
    let raw = build_rfc2822(to, "Fwd: ", snippet.as_str(), None, None, None, None);
    assert(raw@ == base64_url_nopad(encode_utf8(rfc2822_text(
        to@, "Fwd: "@, match source.snippet { Some(s) => s@, None => seq![] }, None, None, None, None,
    ))));
    let ghost raw_view = raw@;
    let mut m: Vec<(String, JsonValue)> = Vec::new();
    push_member(&mut m, "raw", JsonValue::String(raw));
    push_member(&mut m, "threadId", jstring(source.thread_id.as_str()));
    assert(member_models(m@) =~= seq![
        ("raw"@, Json::Str(base64_url_nopad(encode_utf8(rfc2822_text(
            to@, "Fwd: "@, match source.snippet { Some(s) => s@, None => seq![] }, None, None, None, None,
        ))))),
        ("threadId"@, Json::Str(source.thread_id@)),
    ]);
    let u = gmail_url(email, "/messages/send");
    request(HttpMethod::Post, u, Some(jobject(m)))
}

/// Move a message to the trash.
pub fn trash_message_request(email: &str, message_id: &str) -> (r: ApiRequest)
    ensures
        request_is(r, HttpMethod::Post, gmail_user(email@) + "/messages/"@ + message_id@ + "/trash"@,
            Some(Json::Object(seq![]))),
{
    let mut u = gmail_url(email, "/messages/");
    u.append(message_id);
    u.append("/trash");
    request(HttpMethod::Post, u, Some(empty_object()))
}

/// Take a message out of the trash.
pub fn untrash_message_request(email: &str, message_id: &str) -> (r: ApiRequest)
    ensures
        request_is(r, HttpMethod::Post, gmail_user(email@) + "/messages/"@ + message_id@ + "/untrash"@,
            Some(Json::Object(seq![]))),
{
    let mut u = gmail_url(email, "/messages/");
    u.append(message_id);
    u.append("/untrash");
    request(HttpMethod::Post, u, Some(empty_object()))
}

/// The labels as a JSON array of strings (empty when there are none).
pub open spec fn label_list(v: Option<Seq<Seq<char>>>) -> Json {
    match v {
        Some(ls) => Json::Array(Seq::new(ls.len(), |i: int| Json::Str(ls[i]))),
        None => Json::Array(seq![]),
    }
}

pub open spec fn opt_string_views(v: Option<Vec<String>>) -> Option<Seq<Seq<char>>> {
    match v {
        Some(x) => Some(string_views(x@)),
        None => None,
    }
}

fn label_array(v: Option<Vec<String>>) -> (r: JsonValue)
    ensures
        r.model() == label_list(opt_string_views(v)),
{
    let mut out: Vec<JsonValue> = Vec::new();
    match v {
        Some(ls) => {
            let mut i: usize = 0;
            while i < ls.len()
                invariant
                    i <= ls@.len(),
                    out@.len() == i,
                    forall|j: int| 0 <= j < i ==> #[trigger] out@[j].model() == Json::Str(ls@[j]@),
                decreases ls@.len() - i,
            {
                out.push(jstring(ls[i].as_str()));
                i = i + 1;
            }
            assert(models(out@) =~= Seq::new(string_views(ls@).len(), |i: int| Json::Str(string_views(ls@)[i])));
            jarray(out)
        },
        None => {
            assert(models(out@) =~= Seq::<Json>::empty());
            jarray(out)
        },
    }
}

/// Add and remove labels of a message.
pub fn modify_message_request(
    email: &str,
    message_id: &str,
    add_labels: Option<Vec<String>>,
    remove_labels: Option<Vec<String>>,
) -> (r: ApiRequest)
    ensures
        request_is(r, HttpMethod::Post, gmail_user(email@) + "/messages/"@ + message_id@ + "/modify"@,
            Some(Json::Object(seq![
                ("addLabelIds"@, label_list(opt_string_views(add_labels))),
                ("removeLabelIds"@, label_list(opt_string_views(remove_labels))),
            ]))),
{
    let mut u = gmail_url(email, "/messages/");
    u.append(message_id);
    u.append("/modify");
    let ghost a = label_list(opt_string_views(add_labels));
    let ghost b = label_list(opt_string_views(remove_labels));
    let mut m: Vec<(String, JsonValue)> = Vec::new();
    push_member(&mut m, "addLabelIds", label_array(add_labels));
    push_member(&mut m, "removeLabelIds", label_array(remove_labels));
    assert(member_models(m@) =~= seq![("addLabelIds"@, a), ("removeLabelIds"@, b)]);
    request(HttpMethod::Post, u, Some(jobject(m)))
}

/// List the labels.
pub fn list_labels_request(email: &str) -> (r: ApiRequest)
    ensures
        request_is(r, HttpMethod::Get, gmail_user(email@) + "/labels"@, None),
{
    request(HttpMethod::Get, gmail_url(email, "/labels"), None)
}

/// The unread messages in the inbox, twenty at most.
pub fn triage_request(email: &str) -> (r: ApiRequest)
    ensures
        request_is(
            r,
            HttpMethod::Get,
            gmail_user(email@) + "/messages?maxResults="@ + decimal_spec(20) + "&q="@ + url_encoded("is:unread in:inbox"@),
            None,
        ),
{
    let r = list_messages_request(email, Some("is:unread in:inbox"), Some(20));
    assert(r.url@ =~= gmail_user(email@) + "/messages?maxResults="@ + decimal_spec(20) + "&q="@
        + url_encoded("is:unread in:inbox"@));
    r
}

/// Search threads (`q`), ten unless a maximum is given.
pub fn list_threads_request(email: &str, query: Option<&str>, max_results: Option<u32>) -> (r: ApiRequest)
    ensures
        request_is(
            r,
            HttpMethod::Get,
            gmail_user(email@) + "/threads?maxResults="@ + count_or(max_results, 10) + opt_param("&q="@, opt_str_view(query)),
            None,
        ),
{
    let mut u = gmail_url(email, "/threads?maxResults=");
    u.append(count_text(max_results, 10).as_str());
    append_opt_param(&mut u, "&q=", query);
    request(HttpMethod::Get, u, None)
}

/// Fetch an attachment's data.
pub fn get_attachment_request(email: &str, message_id: &str, attachment_id: &str) -> (r: ApiRequest)
    ensures
        request_is(r, HttpMethod::Get,
            gmail_user(email@) + "/messages/"@ + message_id@ + "/attachments/"@ + attachment_id@, None),
{
    let mut u = gmail_url(email, "/messages/");
    u.append(message_id);
    u.append("/attachments/");
    u.append(attachment_id);
    request(HttpMethod::Get, u, None)
}

/// The JSON of a Gmail watch request (absent values written `null`).
pub open spec fn gmail_watch_json(topic: Seq<char>, labels: Option<Seq<Seq<char>>>) -> Json {
    Json::Object(seq![
        ("labelIds"@, match labels {
            Some(ls) => Json::Array(Seq::new(ls.len(), |i: int| Json::Str(ls[i]))),
            None => Json::Null,
        }),
        ("labelFilterAction"@, Json::Null),
        ("topicName"@, Json::Str(topic)),
    ])
}

/// Publish mailbox changes to a Pub/Sub topic.
pub fn gmail_watch_request(email: &str, topic_name: &str, label_ids: Option<Vec<String>>) -> (r: ApiRequest)
    ensures
        request_is(r, HttpMethod::Post, gmail_user(email@) + "/watch"@,
            Some(gmail_watch_json(topic_name@, opt_string_views(label_ids)))),
{
    let ghost lv = opt_string_views(label_ids);
    let labels = match label_ids {
        Some(ls) => label_array(Some(ls)),
        None => JsonValue::Null,
    };
    assert(labels.model() == match lv {
        Some(ls) => Json::Array(Seq::new(ls.len(), |i: int| Json::Str(ls[i]))),
        None => Json::Null,
    });
    let ghost lm = labels.model();
    let mut m: Vec<(String, JsonValue)> = Vec::new();
    push_member(&mut m, "labelIds", labels);
    push_member(&mut m, "labelFilterAction", JsonValue::Null);
    push_member(&mut m, "topicName", jstring(topic_name));
    assert(member_models(m@) =~= seq![
        ("labelIds"@, match lv {
            Some(ls) => Json::Array(Seq::new(ls.len(), |i: int| Json::Str(ls[i]))),
            None => Json::Null,
        }),
        ("labelFilterAction"@, Json::Null),
        ("topicName"@, Json::Str(topic_name@)),
    ]);
    request(HttpMethod::Post, gmail_url(email, "/watch"), Some(jobject(m)))
}


// ---------------------------------------------------------------------------
// Calendar
// ---------------------------------------------------------------------------

pub open spec fn calendar_base(calendar_id: Seq<char>) -> Seq<char> {
    "https://www.googleapis.com/calendar/v3/calendars/"@ + url_encoded(calendar_id)
}

fn calendar_url(calendar_id: &str, tail: &str) -> (r: String)
    ensures
        r@ == calendar_base(calendar_id@) + tail@,
{
    let mut u = owned("https://www.googleapis.com/calendar/v3/calendars/");
    u.append(url_encode(calendar_id).as_str());
    u.append(tail);
    u
}

/// Fetch one event.
pub fn get_event_request(calendar_id: &str, event_id: &str) -> (r: ApiRequest)
    ensures
        request_is(r, HttpMethod::Get, calendar_base(calendar_id@) + "/events/"@ + event_id@, None),
{
    let mut u = calendar_url(calendar_id, "/events/");
    u.append(event_id);
    request(HttpMethod::Get, u, None)
}

/// List events in time order (recurring events expanded), ten unless a
/// maximum is given, within the optional bounds and matching the optional
/// text.
pub fn list_events_request(
    calendar_id: &str,
    time_min: Option<&str>,
    time_max: Option<&str>,
    max_results: Option<u32>,
    query: Option<&str>,
) -> (r: ApiRequest)
    ensures
        request_is(
            r,
            HttpMethod::Get,
            calendar_base(calendar_id@) + "/events?maxResults="@ + count_or(max_results, 10)
                + "&singleEvents=true&orderBy=startTime"@ + opt_param("&timeMin="@, opt_str_view(time_min))
                + opt_param("&timeMax="@, opt_str_view(time_max)) + opt_param("&q="@, opt_str_view(query)),
            None,
        ),
{
    let mut u = calendar_url(calendar_id, "/events?maxResults=");
    u.append(count_text(max_results, 10).as_str());
    u.append("&singleEvents=true&orderBy=startTime");
    append_opt_param(&mut u, "&timeMin=", time_min);
    append_opt_param(&mut u, "&timeMax=", time_max);
    append_opt_param(&mut u, "&q=", query);
    request(HttpMethod::Get, u, None)
}

/// `{"dateTime": t}`
pub open spec fn date_time_json(t: Seq<char>) -> Json {
    Json::Object(seq![("dateTime"@, Json::Str(t))])
}

/// A list of `{"<key>": v}` objects.
pub open spec fn keyed_objects(key: Seq<char>, vs: Seq<Seq<char>>) -> Json {
    Json::Array(Seq::new(vs.len(), |i: int| Json::Object(seq![(key, Json::Str(vs[i]))])))
}

fn keyed_object_array(key: &str, vs: &Vec<String>) -> (r: JsonValue)
    ensures
        r.model() == keyed_objects(key@, string_views(vs@)),
{
    let mut out: Vec<JsonValue> = Vec::new();
    let mut i: usize = 0;
    while i < vs.len()
        invariant
            i <= vs@.len(),
            out@.len() == i,
            forall|j: int| 0 <= j < i ==> #[trigger] out@[j].model() == Json::Object(seq![(key@, Json::Str(vs@[j]@))]),
        decreases vs@.len() - i,
    {
        out.push(object1(key, jstring(vs[i].as_str())));
        i = i + 1;
    }
    assert(models(out@) =~= Seq::new(string_views(vs@).len(), |i: int| Json::Object(seq![(key@, Json::Str(string_views(vs@)[i]))])));
    jarray(out)
}

/// The attendees member, when there are attendees.
pub open spec fn attendees_member(a: Option<Seq<Seq<char>>>) -> Seq<(Seq<char>, Json)> {
    match a {
        Some(v) => seq![("attendees"@, keyed_objects("email"@, v))],
        None => seq![],
    }
}

/// A list of keyed objects holds one object per value, in the order of the
/// values, each with the value under the key and nothing else.
pub proof fn lemma_keyed_objects_one_per_value(key: Seq<char>, vs: Seq<Seq<char>>)
    ensures
        keyed_objects(key, vs) matches Json::Array(xs) && xs.len() == vs.len()
            && forall|i: int| 0 <= i < vs.len() ==> #[trigger] xs[i] == Json::Object(seq![(key, Json::Str(vs[i]))]),
{
}

/// A new event's attendees are one `{"email": a}` object per attendee given,
/// in order; an event without attendees has no `attendees` member.
pub proof fn lemma_event_attendees(attendees: Option<Seq<Seq<char>>>)
    ensures
        match attendees {
            Some(vs) => attendees_member(attendees).len() == 1 && attendees_member(attendees)[0].0 == "attendees"@
                && (attendees_member(attendees)[0].1 matches Json::Array(xs) && xs.len() == vs.len()
                && forall|i: int| 0 <= i < vs.len() ==> #[trigger] xs[i] == Json::Object(seq![("email"@, Json::Str(vs[i]))])),
            None => attendees_member(attendees).len() == 0,
        },
{
    if let Some(vs) = attendees {
        lemma_keyed_objects_one_per_value("email"@, vs);
    }
}

/// Create an event.
pub fn create_event_request(
    calendar_id: &str,
    summary: &str,
    start_time: &str,
    end_time: &str,
    description: Option<&str>,
    attendees: Option<Vec<String>>,
    location: Option<&str>,
) -> (r: ApiRequest)
    ensures
        request_is(r, HttpMethod::Post, calendar_base(calendar_id@) + "/events"@, Some(Json::Object(
            seq![
                ("summary"@, Json::Str(summary@)),
                ("start"@, date_time_json(start_time@)),
                ("end"@, date_time_json(end_time@)),
            ] + opt_member("description"@, opt_str_view(description)) + opt_member("location"@, opt_str_view(location))
                + attendees_member(opt_string_views(attendees)),
        ))),
{
    let mut m: Vec<(String, JsonValue)> = Vec::new();
    push_member(&mut m, "summary", jstring(summary));
    push_member(&mut m, "start", object1("dateTime", jstring(start_time)));
    push_member(&mut m, "end", object1("dateTime", jstring(end_time)));
    assert(member_models(m@) =~= seq![
        ("summary"@, Json::Str(summary@)),
        ("start"@, date_time_json(start_time@)),
        ("end"@, date_time_json(end_time@)),
    ]);
    push_opt_member(&mut m, "description", description);
    push_opt_member(&mut m, "location", location);
    let ghost before = member_models(m@);
    match attendees {
        Some(a) => {
            push_member(&mut m, "attendees", keyed_object_array("email", &a));
            assert(member_models(m@) =~= before + attendees_member(Some(string_views(a@))));
        },
        None => {
            assert(member_models(m@) =~= before + attendees_member(None));
        },
    }
    assert(member_models(m@) =~= seq![
        ("summary"@, Json::Str(summary@)),
        ("start"@, date_time_json(start_time@)),
        ("end"@, date_time_json(end_time@)),
    ] + opt_member("description"@, opt_str_view(description)) + opt_member("location"@, opt_str_view(location))
        + attendees_member(opt_string_views(attendees)));
    request(HttpMethod::Post, calendar_url(calendar_id, "/events"), Some(jobject(m)))
}

/// Create an event from a sentence.
pub fn quick_add_request(calendar_id: &str, text: &str) -> (r: ApiRequest)
    ensures
        request_is(r, HttpMethod::Post, calendar_base(calendar_id@) + "/events/quickAdd?text="@ + url_encoded(text@),
            Some(Json::Object(seq![]))),
{
    let mut u = calendar_url(calendar_id, "/events/quickAdd?text=");
    u.append(url_encode(text).as_str());
    request(HttpMethod::Post, u, Some(empty_object()))
}

/// The `{"dateTime": t}` member, when there is a `t`.
pub open spec fn opt_date_member(k: Seq<char>, t: Option<Seq<char>>) -> Seq<(Seq<char>, Json)> {
    match t {
        Some(v) => seq![(k, date_time_json(v))],
        None => seq![],
    }
}

fn push_opt_date(m: &mut Vec<(String, JsonValue)>, k: &str, t: Option<&str>)
    ensures
        member_models(final(m)@) == member_models(old(m)@) + opt_date_member(k@, opt_str_view(t)),
{
    match t {
        Some(v) => {
            push_member(m, k, object1("dateTime", jstring(v)));
            assert(member_models(m@) =~= member_models(old(m)@) + opt_date_member(k@, opt_str_view(t)));
        },
        None => {
            assert(member_models(m@) =~= member_models(old(m)@) + opt_date_member(k@, opt_str_view(t)));
        },
    }
}

/// Change the given fields of an event.
pub fn update_event_request(
    calendar_id: &str,
    event_id: &str,
    summary: Option<&str>,
    start_time: Option<&str>,
    end_time: Option<&str>,
    description: Option<&str>,
) -> (r: ApiRequest)
    ensures
        request_is(r, HttpMethod::Patch, calendar_base(calendar_id@) + "/events/"@ + event_id@, Some(Json::Object(
            opt_member("summary"@, opt_str_view(summary)) + opt_date_member("start"@, opt_str_view(start_time))
                + opt_date_member("end"@, opt_str_view(end_time)) + opt_member("description"@, opt_str_view(description)),
        ))),
{
    let mut m: Vec<(String, JsonValue)> = Vec::new();
    assert(member_models(m@) =~= Seq::<(Seq<char>, Json)>::empty());
    push_opt_member(&mut m, "summary", summary);
    push_opt_date(&mut m, "start", start_time);
    push_opt_date(&mut m, "end", end_time);
    push_opt_member(&mut m, "description", description);
    assert(member_models(m@) =~= opt_member("summary"@, opt_str_view(summary)) + opt_date_member("start"@, opt_str_view(start_time))
        + opt_date_member("end"@, opt_str_view(end_time)) + opt_member("description"@, opt_str_view(description)));
    let mut u = calendar_url(calendar_id, "/events/");
    u.append(event_id);
    request(HttpMethod::Patch, u, Some(jobject(m)))
}

/// Delete an event.
pub fn delete_event_request(calendar_id: &str, event_id: &str) -> (r: ApiRequest)
    ensures
        request_is(r, HttpMethod::Delete, calendar_base(calendar_id@) + "/events/"@ + event_id@, None),
{
    let mut u = calendar_url(calendar_id, "/events/");
    u.append(event_id);
    request(HttpMethod::Delete, u, None)
}

/// List the user's calendars.
pub fn list_calendars_request() -> (r: ApiRequest)
    ensures
        request_is(r, HttpMethod::Get, "https://www.googleapis.com/calendar/v3/users/me/calendarList"@, None),
{
    request(HttpMethod::Get, owned("https://www.googleapis.com/calendar/v3/users/me/calendarList"), None)
}

/// Ask when the given calendars are busy.
pub fn freebusy_request(time_min: &str, time_max: &str, items: &Vec<String>) -> (r: ApiRequest)
    ensures
        request_is(r, HttpMethod::Post, "https://www.googleapis.com/calendar/v3/freeBusy"@, Some(Json::Object(seq![
            ("timeMin"@, Json::Str(time_min@)),
            ("timeMax"@, Json::Str(time_max@)),
            ("items"@, keyed_objects("id"@, string_views(items@))),
        ]))),
{
    let mut m: Vec<(String, JsonValue)> = Vec::new();
    push_member(&mut m, "timeMin", jstring(time_min));
    push_member(&mut m, "timeMax", jstring(time_max));
    push_member(&mut m, "items", keyed_object_array("id", items));
    assert(member_models(m@) =~= seq![
        ("timeMin"@, Json::Str(time_min@)),
        ("timeMax"@, Json::Str(time_max@)),
        ("items"@, keyed_objects("id"@, string_views(items@))),
    ]);
    request(HttpMethod::Post, owned("https://www.googleapis.com/calendar/v3/freeBusy"), Some(jobject(m)))
}

/// The JSON of a push-watch request (absent values written `null`).
pub open spec fn push_watch_json(w: PushWatchRequest) -> Json {
    Json::Object(seq![
        ("id"@, Json::Str(w.id@)),
        ("type"@, Json::Str(w.watch_type@)),
        ("address"@, Json::Str(w.address@)),
        ("token"@, opt_json_str(match w.token { Some(t) => Some(t@), None => None })),
        ("expiration"@, match w.expiration { Some(e) => Json::Number(signed_decimal(e as int)), None => Json::Null }),
    ])
}

/// The decimal notation of an integer, with `-` when negative.
pub open spec fn signed_decimal(n: int) -> Seq<char> {
    if n < 0 { seq!['-'] + decimal_spec((-n) as nat) } else { decimal_spec(n as nat) }
}

/// The decimal text of an `i64`.
pub fn signed_decimal_text(n: i64) -> (r: String)
    ensures
        r@ == signed_decimal(n as int),
{
    if n < 0 {
        let mut r = owned("-");
        let mag: u64 = if n == i64::MIN { 9223372036854775808u64 } else { (-n) as u64 };
        r.append(decimal(mag).as_str());
        assert(r@ =~= seq!['-'] + decimal_spec((-(n as int)) as nat)) by {
            reveal_strlit("-");
        }
        r
    } else {
        decimal(n as u64)
    }
}

fn push_watch_value(w: &PushWatchRequest) -> (r: JsonValue)
    ensures
        r.model() == push_watch_json(*w),
{
    let mut m: Vec<(String, JsonValue)> = Vec::new();
    push_member(&mut m, "id", jstring(w.id.as_str()));
    push_member(&mut m, "type", jstring(w.watch_type.as_str()));
    push_member(&mut m, "address", jstring(w.address.as_str()));
    let token = match &w.token {
        Some(t) => jstring(t.as_str()),
        None => JsonValue::Null,
    };
    push_member(&mut m, "token", token);
    let expiration = match w.expiration {
        Some(e) => JsonValue::Number(signed_decimal_text(e)),
        None => JsonValue::Null,
    };
    push_member(&mut m, "expiration", expiration);
    assert(member_models(m@) =~= seq![
        ("id"@, Json::Str(w.id@)),
        ("type"@, Json::Str(w.watch_type@)),
        ("address"@, Json::Str(w.address@)),
        ("token"@, opt_json_str(match w.token { Some(t) => Some(t@), None => None })),
        ("expiration"@, match w.expiration { Some(e) => Json::Number(signed_decimal(e as int)), None => Json::Null }),
    ]);
    jobject(m)
}

/// Push a calendar's event changes to a web hook.
pub fn calendar_watch_request(calendar_id: &str, watch: &PushWatchRequest) -> (r: ApiRequest)
    ensures
        request_is(r, HttpMethod::Post, calendar_base(calendar_id@) + "/events/watch"@, Some(push_watch_json(*watch))),
{
    request(HttpMethod::Post, calendar_url(calendar_id, "/events/watch"), Some(push_watch_value(watch)))
}

/// A push-watch request for a web hook, under a fresh random version-4 UUID
/// as its channel id.
pub fn new_web_hook_watch(address: String) -> (r: PushWatchRequest)
    ensures
        is_uuid_v4_text(r.id@),
        r.watch_type@ == "web_hook"@,
        r.address == address,
        r.token is None,
        r.expiration is None,
{
    PushWatchRequest { id: new_uuid(), watch_type: owned("web_hook"), address, token: None, expiration: None }
}


// ---------------------------------------------------------------------------
// Drive
// ---------------------------------------------------------------------------

pub open spec fn drive_file(file_id: Seq<char>) -> Seq<char> {
    "https://www.googleapis.com/drive/v3/files/"@ + file_id
}

fn url_of(prefix: &str, id: &str) -> (r: String)
    ensures
        r@ == prefix@ + id@,
{
    let mut u = owned(prefix);
    u.append(id);
    u
}

fn drive_url(file_id: &str, tail: &str) -> (r: String)
    ensures
        r@ == drive_file(file_id@) + tail@,
{
    let mut u = owned("https://www.googleapis.com/drive/v3/files/");
    u.append(file_id);
    u.append(tail);
    u
}

/// Fetch a file's metadata.
pub fn get_file_request(file_id: &str) -> (r: ApiRequest)
    ensures
        request_is(r, HttpMethod::Get, drive_file(file_id@) + "?fields=id,name,mimeType,parents,webViewLink"@, None),
{
    request(HttpMethod::Get, drive_url(file_id, "?fields=id,name,mimeType,parents,webViewLink"), None)
}

/// Search files (`q`), ten unless a maximum is given.
pub fn list_files_request(query: Option<&str>, max_results: Option<u32>) -> (r: ApiRequest)
    ensures
        request_is(
            r,
            HttpMethod::Get,
            "https://www.googleapis.com/drive/v3/files?pageSize="@ + count_or(max_results, 10)
                + "&fields=files(id,name,mimeType,parents,webViewLink)"@ + opt_param("&q="@, opt_str_view(query)),
            None,
        ),
{
    let mut u = owned("https://www.googleapis.com/drive/v3/files?pageSize=");
    u.append(count_text(max_results, 10).as_str());
    u.append("&fields=files(id,name,mimeType,parents,webViewLink)");
    append_opt_param(&mut u, "&q=", query);
    request(HttpMethod::Get, u, None)
}

/// The URL of multipart uploads.
pub const UPLOAD_URL: &'static str = "https://www.googleapis.com/upload/drive/v3/files?uploadType=multipart&fields=id,name,mimeType,parents,webViewLink";

/// The metadata part of an upload: the name, and the parent folder if any.
pub fn upload_metadata(name: &str, parent_folder_id: Option<&str>) -> (r: JsonValue)
    ensures
        r.model() == Json::Object(seq![("name"@, Json::Str(name@))] + match parent_folder_id {
            Some(p) => seq![("parents"@, Json::Array(seq![Json::Str(p@)]))],
            None => seq![],
        }),
{
    let mut m: Vec<(String, JsonValue)> = Vec::new();
    push_member(&mut m, "name", jstring(name));
    match parent_folder_id {
        Some(p) => {
            let v = vec![jstring(p)];
            assert(models(v@) =~= seq![Json::Str(p@)]);
            push_member(&mut m, "parents", jarray(v));
        },
        None => {},
    }
    assert(member_models(m@) =~= seq![("name"@, Json::Str(name@))] + match parent_folder_id {
        Some(p) => seq![("parents"@, Json::Array(seq![Json::Str(p@)]))],
        None => seq![],
    });
    jobject(m)
}

/// A multipart upload: the metadata part, then the base64 content part.
pub open spec fn upload_body_spec(boundary: Seq<char>, metadata_json: Seq<char>, mime_type: Seq<char>, content_base64: Seq<char>) -> Seq<char> {
    "--"@ + boundary + "\r\nContent-Type: application/json; charset=UTF-8\r\n\r\n"@ + metadata_json + "\r\n--"@
        + boundary + "\r\nContent-Type: "@ + mime_type + "\r\nContent-Transfer-Encoding: base64\r\n\r\n"@
        + content_base64 + "\r\n--"@ + boundary + "--"@
}

/// Frames a multipart upload. `metadata_json` is the JSON text of
/// `upload_metadata`.
pub fn upload_body(boundary: &str, metadata_json: &str, mime_type: &str, content_base64: &str) -> (r: String)
    ensures
        r@ == upload_body_spec(boundary@, metadata_json@, mime_type@, content_base64@),
{
    let mut b = owned("--");
    b.append(boundary);
    b.append("\r\nContent-Type: application/json; charset=UTF-8\r\n\r\n");
    b.append(metadata_json);
    b.append("\r\n--");
    b.append(boundary);
    b.append("\r\nContent-Type: ");
    b.append(mime_type);
    b.append("\r\nContent-Transfer-Encoding: base64\r\n\r\n");
    b.append(content_base64);
    b.append("\r\n--");
    b.append(boundary);
    b.append("--");
    b
}

/// A fresh multipart boundary: `batch_` and a random version-4 UUID as 32
/// hex digits.
pub fn new_boundary() -> (r: String)
    ensures
        r@.len() == 38,
        r@.subrange(0, 6) == "batch_"@,
        is_uuid_v4_simple(r@.subrange(6, 38)),
{
    let u = new_uuid_simple();
    let b = boundary_for(u.as_str());
    proof {
        reveal_strlit("batch_");
    }
    assert(b@.subrange(0, 6) =~= "batch_"@);
    assert(b@.subrange(6, 38) =~= u@);
    b
}

/// The multipart boundary made from a drawn UUID: `batch_` before it.
pub fn boundary_for(u: &str) -> (r: String)
    ensures
        r@ == "batch_"@ + u@,
{
    concat2("batch_", u)
}

/// The `Content-Type` of a multipart request.
pub fn multipart_content_type(kind: &str, boundary: &str) -> (r: String)
    ensures
        r@ == "multipart/"@ + kind@ + "; boundary="@ + boundary@,
{
    let mut c = owned("multipart/");
    c.append(kind);
    c.append("; boundary=");
    c.append(boundary);
    c
}

/// Download a file's content.
pub fn download_file_request(file_id: &str) -> (r: ApiRequest)
    ensures
        request_is(r, HttpMethod::Get, drive_file(file_id@) + "?alt=media"@, None),
{
    request(HttpMethod::Get, drive_url(file_id, "?alt=media"), None)
}

/// Copy a file, optionally under a new name.
pub fn copy_file_request(file_id: &str, new_name: Option<&str>) -> (r: ApiRequest)
    ensures
        request_is(r, HttpMethod::Post, drive_file(file_id@) + "/copy?fields=id,name,mimeType"@,
            Some(Json::Object(opt_member("name"@, opt_str_view(new_name))))),
{
    let mut m: Vec<(String, JsonValue)> = Vec::new();
    assert(member_models(m@) =~= Seq::<(Seq<char>, Json)>::empty());
    push_opt_member(&mut m, "name", new_name);
    assert(member_models(m@) =~= opt_member("name"@, opt_str_view(new_name)));
    request(HttpMethod::Post, drive_url(file_id, "/copy?fields=id,name,mimeType"), Some(jobject(m)))
}

/// Delete a file.
pub fn delete_file_request(file_id: &str) -> (r: ApiRequest)
    ensures
        request_is(r, HttpMethod::Delete, drive_file(file_id@), None),
{
    request(HttpMethod::Delete, url_of("https://www.googleapis.com/drive/v3/files/", file_id), None)
}

/// Export a Google document in the given format.
pub fn export_file_request(file_id: &str, mime_type: &str) -> (r: ApiRequest)
    ensures
        request_is(r, HttpMethod::Get, drive_file(file_id@) + "/export?mimeType="@ + url_encoded(mime_type@), None),
{
    let mut u = drive_url(file_id, "/export?mimeType=");
    u.append(url_encode(mime_type).as_str());
    request(HttpMethod::Get, u, None)
}

/// List a file's permissions.
pub fn list_permissions_request(file_id: &str) -> (r: ApiRequest)
    ensures
        request_is(r, HttpMethod::Get, drive_file(file_id@) + "/permissions?fields=permissions(id,type,role,emailAddress)"@, None),
{
    request(HttpMethod::Get, drive_url(file_id, "/permissions?fields=permissions(id,type,role,emailAddress)"), None)
}

/// Share a file with a user in a role.
pub fn share_request(file_id: &str, share_email: &str, role: &str) -> (r: ApiRequest)
    ensures
        request_is(r, HttpMethod::Post, drive_file(file_id@) + "/permissions"@, Some(Json::Object(seq![
            ("type"@, Json::Str("user"@)),
            ("role"@, Json::Str(role@)),
            ("emailAddress"@, Json::Str(share_email@)),
        ]))),
{
    let mut m: Vec<(String, JsonValue)> = Vec::new();
    push_member(&mut m, "type", jstring("user"));
    push_member(&mut m, "role", jstring(role));
    push_member(&mut m, "emailAddress", jstring(share_email));
    assert(member_models(m@) =~= seq![
        ("type"@, Json::Str("user"@)),
        ("role"@, Json::Str(role@)),
        ("emailAddress"@, Json::Str(share_email@)),
    ]);
    request(HttpMethod::Post, drive_url(file_id, "/permissions"), Some(jobject(m)))
}

/// Remove a permission.
pub fn unshare_request(file_id: &str, permission_id: &str) -> (r: ApiRequest)
    ensures
        request_is(r, HttpMethod::Delete, drive_file(file_id@) + "/permissions/"@ + permission_id@, None),
{
    let mut u = drive_url(file_id, "/permissions/");
    u.append(permission_id);
    request(HttpMethod::Delete, u, None)
}

/// Push a file's changes to a web hook.
pub fn drive_watch_request(file_id: &str, watch: &PushWatchRequest) -> (r: ApiRequest)
    ensures
        request_is(r, HttpMethod::Post, drive_file(file_id@) + "/watch"@, Some(push_watch_json(*watch))),
{
    request(HttpMethod::Post, drive_url(file_id, "/watch"), Some(push_watch_value(watch)))
}

// ---------------------------------------------------------------------------
// Docs, Sheets, Slides, Forms
// ---------------------------------------------------------------------------

fn url_with(prefix: &str, id: &str, tail: &str) -> (r: String)
    ensures
        r@ == prefix@ + id@ + tail@,
{
    let mut u = url_of(prefix, id);
    u.append(tail);
    u
}

/// Fetch a document.
pub fn get_doc_request(doc_id: &str) -> (r: ApiRequest)
    ensures
        request_is(r, HttpMethod::Get, "https://docs.googleapis.com/v1/documents/"@ + doc_id@, None),
{
    request(HttpMethod::Get, url_of("https://docs.googleapis.com/v1/documents/", doc_id), None)
}

/// Create a document.
pub fn create_doc_request(title: &str) -> (r: ApiRequest)
    ensures
        request_is(r, HttpMethod::Post, "https://docs.googleapis.com/v1/documents"@,
            Some(Json::Object(seq![("title"@, Json::Str(title@))]))),
{
    request(HttpMethod::Post, owned("https://docs.googleapis.com/v1/documents"), Some(object1("title", jstring(title))))
}

/// The batch update that appends text at the end of a document.
pub open spec fn append_text_json(text: Seq<char>) -> Json {
    Json::Object(seq![("requests"@, Json::Array(seq![Json::Object(seq![("insertText"@, Json::Object(seq![
        ("text"@, Json::Str(text)),
        ("endOfSegmentLocation"@, Json::Object(seq![])),
    ]))])]))])
}

/// Append text at the end of a document.
pub fn append_text_request(doc_id: &str, text: &str) -> (r: ApiRequest)
    ensures
        request_is(r, HttpMethod::Post, "https://docs.googleapis.com/v1/documents/"@ + doc_id@ + ":batchUpdate"@,
            Some(append_text_json(text@))),
{
    let mut inner: Vec<(String, JsonValue)> = Vec::new();
    push_member(&mut inner, "text", jstring(text));
    push_member(&mut inner, "endOfSegmentLocation", empty_object());
    assert(member_models(inner@) =~= seq![("text"@, Json::Str(text@)), ("endOfSegmentLocation"@, Json::Object(seq![]))]);
    let insert = object1("insertText", jobject(inner));
    let reqs = vec![insert];
    assert(models(reqs@) =~= seq![Json::Object(seq![("insertText"@, Json::Object(seq![
        ("text"@, Json::Str(text@)),
        ("endOfSegmentLocation"@, Json::Object(seq![])),
    ]))])]);
    let body = object1("requests", jarray(reqs));
    request(HttpMethod::Post, url_with("https://docs.googleapis.com/v1/documents/", doc_id, ":batchUpdate"), Some(body))
}

/// Fetch a spreadsheet.
pub fn get_sheet_request(sheet_id: &str) -> (r: ApiRequest)
    ensures
        request_is(r, HttpMethod::Get, "https://sheets.googleapis.com/v4/spreadsheets/"@ + sheet_id@, None),
{
    request(HttpMethod::Get, url_of("https://sheets.googleapis.com/v4/spreadsheets/", sheet_id), None)
}

/// Create a spreadsheet.
pub fn create_sheet_request(title: &str) -> (r: ApiRequest)
    ensures
        request_is(r, HttpMethod::Post, "https://sheets.googleapis.com/v4/spreadsheets"@,
            Some(Json::Object(seq![("properties"@, Json::Object(seq![("title"@, Json::Str(title@))]))]))),
{
    let body = object1("properties", object1("title", jstring(title)));
    request(HttpMethod::Post, owned("https://sheets.googleapis.com/v4/spreadsheets"), Some(body))
}

pub open spec fn values_url(sheet_id: Seq<char>, range: Seq<char>) -> Seq<char> {
    "https://sheets.googleapis.com/v4/spreadsheets/"@ + sheet_id + "/values/"@ + url_encoded(range)
}

fn values_url_only(sheet_id: &str, range: &str) -> (r: String)
    ensures
        r@ == values_url(sheet_id@, range@),
{
    let mut u = url_with("https://sheets.googleapis.com/v4/spreadsheets/", sheet_id, "/values/");
    u.append(url_encode(range).as_str());
    u
}

fn values_url_text(sheet_id: &str, range: &str, tail: &str) -> (r: String)
    ensures
        r@ == values_url(sheet_id@, range@) + tail@,
{
    let mut u = values_url_only(sheet_id, range);
    u.append(tail);
    u
}

/// Read a range of cells.
pub fn read_range_request(sheet_id: &str, range: &str) -> (r: ApiRequest)
    ensures
        request_is(r, HttpMethod::Get, values_url(sheet_id@, range@), None),
{
    request(HttpMethod::Get, values_url_only(sheet_id, range), None)
}

/// `{"range": range, "values": values}`
pub open spec fn values_json(range: Seq<char>, values: Json) -> Json {
    Json::Object(seq![("range"@, Json::Str(range)), ("values"@, values)])
}

fn values_body(range: &str, values: JsonValue) -> (r: JsonValue)
    ensures
        r.model() == values_json(range@, values.model()),
{
    let ghost vm = values.model();
    let mut m: Vec<(String, JsonValue)> = Vec::new();
    push_member(&mut m, "range", jstring(range));
    push_member(&mut m, "values", values);
    assert(member_models(m@) =~= seq![("range"@, Json::Str(range@)), ("values"@, vm)]);
    jobject(m)
}

/// Write cell values (rows of values, given as parsed JSON) to a range.
pub fn update_values_request(sheet_id: &str, range: &str, values: JsonValue) -> (r: ApiRequest)
    ensures
        request_is(r, HttpMethod::Put, values_url(sheet_id@, range@) + "?valueInputOption=USER_ENTERED"@,
            Some(values_json(range@, values.model()))),
{
    request(HttpMethod::Put, values_url_text(sheet_id, range, "?valueInputOption=USER_ENTERED"), Some(values_body(range, values)))
}

/// Append rows after a range.
pub fn append_cells_request(sheet_id: &str, range: &str, values: JsonValue) -> (r: ApiRequest)
    ensures
        request_is(r, HttpMethod::Post, values_url(sheet_id@, range@) + ":append?valueInputOption=USER_ENTERED"@,
            Some(values_json(range@, values.model()))),
{
    request(HttpMethod::Post, values_url_text(sheet_id, range, ":append?valueInputOption=USER_ENTERED"), Some(values_body(range, values)))
}

/// Fetch a presentation.
pub fn get_presentation_request(presentation_id: &str) -> (r: ApiRequest)
    ensures
        request_is(r, HttpMethod::Get, "https://slides.googleapis.com/v1/presentations/"@ + presentation_id@, None),
{
    request(HttpMethod::Get, url_of("https://slides.googleapis.com/v1/presentations/", presentation_id), None)
}

/// Create a presentation.
pub fn create_presentation_request(title: &str) -> (r: ApiRequest)
    ensures
        request_is(r, HttpMethod::Post, "https://slides.googleapis.com/v1/presentations"@,
            Some(Json::Object(seq![("title"@, Json::Str(title@))]))),
{
    request(HttpMethod::Post, owned("https://slides.googleapis.com/v1/presentations"), Some(object1("title", jstring(title))))
}

/// Fetch a form.
pub fn get_form_request(form_id: &str) -> (r: ApiRequest)
    ensures
        request_is(r, HttpMethod::Get, "https://forms.googleapis.com/v1/forms/"@ + form_id@, None),
{
    request(HttpMethod::Get, url_of("https://forms.googleapis.com/v1/forms/", form_id), None)
}

/// List a form's responses.
pub fn list_responses_request(form_id: &str) -> (r: ApiRequest)
    ensures
        request_is(r, HttpMethod::Get, "https://forms.googleapis.com/v1/forms/"@ + form_id@ + "/responses"@, None),
{
    request(HttpMethod::Get, url_with("https://forms.googleapis.com/v1/forms/", form_id, "/responses"), None)
}

// ---------------------------------------------------------------------------
// Tasks
// ---------------------------------------------------------------------------

pub open spec fn task_lists_url() -> Seq<char> {
    "https://tasks.googleapis.com/tasks/v1/users/@me/lists"@
}

pub open spec fn tasks_url(task_list_id: Seq<char>) -> Seq<char> {
    "https://tasks.googleapis.com/tasks/v1/lists/"@ + task_list_id + "/tasks"@
}

fn tasks_url_only(task_list_id: &str) -> (r: String)
    ensures
        r@ == tasks_url(task_list_id@),
{
    url_with("https://tasks.googleapis.com/tasks/v1/lists/", task_list_id, "/tasks")
}

fn tasks_url_text(task_list_id: &str, tail: &str) -> (r: String)
    ensures
        r@ == tasks_url(task_list_id@) + tail@,
{
    let mut u = url_with("https://tasks.googleapis.com/tasks/v1/lists/", task_list_id, "/tasks");
    u.append(tail);
    u
}

/// List the task lists.
pub fn list_task_lists_request() -> (r: ApiRequest)
    ensures
        request_is(r, HttpMethod::Get, task_lists_url(), None),
{
    request(HttpMethod::Get, owned("https://tasks.googleapis.com/tasks/v1/users/@me/lists"), None)
}

/// List the tasks of a list.
pub fn list_tasks_request(task_list_id: &str) -> (r: ApiRequest)
    ensures
        request_is(r, HttpMethod::Get, tasks_url(task_list_id@), None),
{
    request(HttpMethod::Get, tasks_url_only(task_list_id), None)
}

/// Fetch a task.
pub fn get_task_request(task_list_id: &str, task_id: &str) -> (r: ApiRequest)
    ensures
        request_is(r, HttpMethod::Get, tasks_url(task_list_id@) + "/"@ + task_id@, None),
{
    let mut u = tasks_url_text(task_list_id, "/");
    u.append(task_id);
    request(HttpMethod::Get, u, None)
}

/// Create a task.
pub fn create_task_request(task_list_id: &str, title: &str, notes: Option<&str>, due: Option<&str>) -> (r: ApiRequest)
    ensures
        request_is(r, HttpMethod::Post, tasks_url(task_list_id@), Some(Json::Object(
            seq![("title"@, Json::Str(title@))] + opt_member("notes"@, opt_str_view(notes)) + opt_member("due"@, opt_str_view(due)),
        ))),
{
    let mut m: Vec<(String, JsonValue)> = Vec::new();
    push_member(&mut m, "title", jstring(title));
    assert(member_models(m@) =~= seq![("title"@, Json::Str(title@))]);
    push_opt_member(&mut m, "notes", notes);
    push_opt_member(&mut m, "due", due);
    request(HttpMethod::Post, tasks_url_only(task_list_id), Some(jobject(m)))
}

/// Change the given fields of a task.
pub fn update_task_request(
    task_list_id: &str,
    task_id: &str,
    title: Option<&str>,
    notes: Option<&str>,
    due: Option<&str>,
) -> (r: ApiRequest)
    ensures
        request_is(r, HttpMethod::Patch, tasks_url(task_list_id@) + "/"@ + task_id@, Some(Json::Object(
            opt_member("title"@, opt_str_view(title)) + opt_member("notes"@, opt_str_view(notes))
                + opt_member("due"@, opt_str_view(due)),
        ))),
{
    let mut m: Vec<(String, JsonValue)> = Vec::new();
    assert(member_models(m@) =~= Seq::<(Seq<char>, Json)>::empty());
    push_opt_member(&mut m, "title", title);
    push_opt_member(&mut m, "notes", notes);
    push_opt_member(&mut m, "due", due);
    assert(member_models(m@) =~= opt_member("title"@, opt_str_view(title)) + opt_member("notes"@, opt_str_view(notes))
        + opt_member("due"@, opt_str_view(due)));
    let mut u = tasks_url_text(task_list_id, "/");
    u.append(task_id);
    request(HttpMethod::Patch, u, Some(jobject(m)))
}

/// Mark a task completed.
pub fn complete_task_request(task_list_id: &str, task_id: &str) -> (r: ApiRequest)
    ensures
        request_is(r, HttpMethod::Patch, tasks_url(task_list_id@) + "/"@ + task_id@,
            Some(Json::Object(seq![("status"@, Json::Str("completed"@))]))),
{
    let mut u = tasks_url_text(task_list_id, "/");
    u.append(task_id);
    request(HttpMethod::Patch, u, Some(object1("status", jstring("completed"))))
}

/// Delete a task.
pub fn delete_task_request(task_list_id: &str, task_id: &str) -> (r: ApiRequest)
    ensures
        request_is(r, HttpMethod::Delete, tasks_url(task_list_id@) + "/"@ + task_id@, None),
{
    let mut u = tasks_url_text(task_list_id, "/");
    u.append(task_id);
    request(HttpMethod::Delete, u, None)
}

/// Create a task list.
pub fn create_task_list_request(title: &str) -> (r: ApiRequest)
    ensures
        request_is(r, HttpMethod::Post, task_lists_url(), Some(Json::Object(seq![("title"@, Json::Str(title@))]))),
{
    request(HttpMethod::Post, owned("https://tasks.googleapis.com/tasks/v1/users/@me/lists"), Some(object1("title", jstring(title))))
}

/// Fetch one task list.
pub fn get_task_list_request(task_list_id: &str) -> (r: ApiRequest)
    ensures
        request_is(r, HttpMethod::Get, "https://tasks.googleapis.com/tasks/v1/users/@me/lists/"@ + task_list_id@, None),
{
    request(HttpMethod::Get, url_of("https://tasks.googleapis.com/tasks/v1/users/@me/lists/", task_list_id), None)
}

/// Delete a task list.
pub fn delete_task_list_request(task_list_id: &str) -> (r: ApiRequest)
    ensures
        request_is(r, HttpMethod::Delete, "https://tasks.googleapis.com/tasks/v1/users/@me/lists/"@ + task_list_id@, None),
{
    request(HttpMethod::Delete, url_of("https://tasks.googleapis.com/tasks/v1/users/@me/lists/", task_list_id), None)
}

// ---------------------------------------------------------------------------
// Meet
// ---------------------------------------------------------------------------

/// List past conferences, 25 unless a page size is given.
pub fn list_conferences_request(max_results: Option<u32>) -> (r: ApiRequest)
    ensures
        request_is(r, HttpMethod::Get, "https://meet.googleapis.com/v2/conferenceRecords?pageSize="@ + count_or(max_results, 25), None),
{
    let mut u = owned("https://meet.googleapis.com/v2/conferenceRecords?pageSize=");
    u.append(count_text(max_results, 25).as_str());
    request(HttpMethod::Get, u, None)
}

/// Fetch a conference record (`conference_id` is its resource name).
pub fn get_conference_request(conference_id: &str) -> (r: ApiRequest)
    ensures
        request_is(r, HttpMethod::Get, "https://meet.googleapis.com/v2/"@ + conference_id@, None),
{
    request(HttpMethod::Get, url_of("https://meet.googleapis.com/v2/", conference_id), None)
}

/// List a conference's participants.
pub fn list_participants_request(conference_id: &str) -> (r: ApiRequest)
    ensures
        request_is(r, HttpMethod::Get, "https://meet.googleapis.com/v2/"@ + conference_id@ + "/participants"@, None),
{
    request(HttpMethod::Get, url_with("https://meet.googleapis.com/v2/", conference_id, "/participants"), None)
}

/// Create a meeting space with the default settings.
pub fn create_space_request() -> (r: ApiRequest)
    ensures
        request_is(r, HttpMethod::Post, "https://meet.googleapis.com/v2/spaces"@, Some(Json::Object(seq![]))),
{
    request(HttpMethod::Post, owned("https://meet.googleapis.com/v2/spaces"), Some(empty_object()))
}

// ---------------------------------------------------------------------------
// Photos
// ---------------------------------------------------------------------------

/// List albums.
pub fn list_albums_request() -> (r: ApiRequest)
    ensures
        request_is(r, HttpMethod::Get, "https://photoslibrary.googleapis.com/v1/albums"@, None),
{
    request(HttpMethod::Get, owned("https://photoslibrary.googleapis.com/v1/albums"), None)
}

/// One page of albums, as the photos command line asks for it (its default
/// page size is 50).
pub fn list_albums_page_request(page_size: u32) -> (r: ApiRequest)
    ensures
        request_is(r, HttpMethod::Get, "https://photoslibrary.googleapis.com/v1/albums?pageSize="@ + decimal_spec(page_size as nat), None),
{
    let mut u = owned("https://photoslibrary.googleapis.com/v1/albums?pageSize=");
    u.append(decimal(page_size as u64).as_str());
    request(HttpMethod::Get, u, None)
}

/// A media search as the photos command line makes it: always a search, the
/// album only when one is given.
pub fn search_media_request(album_id: Option<&str>, page_size: u32) -> (r: ApiRequest)
    ensures
        request_is(r, HttpMethod::Post, "https://photoslibrary.googleapis.com/v1/mediaItems:search"@,
            Some(Json::Object(seq![("pageSize"@, Json::Number(decimal_spec(page_size as nat)))]
                + opt_member("albumId"@, opt_str_view(album_id))))),
{
    let mut m: Vec<(String, JsonValue)> = Vec::new();
    push_member(&mut m, "pageSize", JsonValue::Number(decimal(page_size as u64)));
    assert(member_models(m@) =~= seq![("pageSize"@, Json::Number(decimal_spec(page_size as nat)))]);
    push_opt_member(&mut m, "albumId", album_id);
    request(HttpMethod::Post, owned("https://photoslibrary.googleapis.com/v1/mediaItems:search"), Some(jobject(m)))
}

/// List media items, 50 unless a page size is given: those of an album
/// (a search) or the whole library.
pub fn list_media_request(album_id: Option<&str>, page_size: Option<u32>) -> (r: ApiRequest)
    ensures
        match album_id {
            Some(a) => request_is(r, HttpMethod::Post, "https://photoslibrary.googleapis.com/v1/mediaItems:search"@,
                Some(Json::Object(seq![
                    ("albumId"@, Json::Str(a@)),
                    ("pageSize"@, Json::Number(count_or(page_size, 50))),
                ]))),
            None => request_is(r, HttpMethod::Get,
                "https://photoslibrary.googleapis.com/v1/mediaItems?pageSize="@ + count_or(page_size, 50), None),
        },
{
    match album_id {
        Some(a) => {
            let mut m: Vec<(String, JsonValue)> = Vec::new();
            push_member(&mut m, "albumId", jstring(a));
            push_member(&mut m, "pageSize", JsonValue::Number(count_text(page_size, 50)));
            assert(member_models(m@) =~= seq![
                ("albumId"@, Json::Str(a@)),
                ("pageSize"@, Json::Number(count_or(page_size, 50))),
            ]);
            request(HttpMethod::Post, owned("https://photoslibrary.googleapis.com/v1/mediaItems:search"), Some(jobject(m)))
        },
        None => {
            let mut u = owned("https://photoslibrary.googleapis.com/v1/mediaItems?pageSize=");
            u.append(count_text(page_size, 50).as_str());
            request(HttpMethod::Get, u, None)
        },
    }
}

/// Fetch a media item.
pub fn get_media_request(media_item_id: &str) -> (r: ApiRequest)
    ensures
        request_is(r, HttpMethod::Get, "https://photoslibrary.googleapis.com/v1/mediaItems/"@ + media_item_id@, None),
{
    request(HttpMethod::Get, url_of("https://photoslibrary.googleapis.com/v1/mediaItems/", media_item_id), None)
}

// ---------------------------------------------------------------------------
// Batches
// ---------------------------------------------------------------------------

/// One part of a batch: `METHOD url` and, when there is one, a JSON payload
/// given as its text.
pub open spec fn batch_part(boundary: Seq<char>, i: nat, method: Seq<char>, url: Seq<char>, payload: Option<Seq<char>>) -> Seq<char> {
    "--"@ + boundary + "\r\nContent-Type: application/http\r\nContent-ID: <item"@ + decimal_spec(i) + ">\r\n\r\n"@
        + method + " "@ + url + " HTTP/1.1\r\n"@ + (match payload {
            Some(p) => "Content-Type: application/json\r\n\r\n"@ + p,
            None => seq![],
        }) + "\r\n"@
}

pub open spec fn batch_parts(boundary: Seq<char>, items: Seq<(Seq<char>, Seq<char>, Option<Seq<char>>)>) -> Seq<char>
    decreases items.len(),
{
    if items.len() == 0 {
        seq![]
    } else {
        let k: nat = (items.len() - 1) as nat;
        batch_parts(boundary, items.drop_last()) + batch_part(boundary, k, items.last().0, items.last().1, items.last().2)
    }
}

/// The whole multipart/mixed body of a batch.
pub open spec fn batch_body_spec(boundary: Seq<char>, items: Seq<(Seq<char>, Seq<char>, Option<Seq<char>>)>) -> Seq<char> {
    batch_parts(boundary, items) + "--"@ + boundary + "--"@
}

pub open spec fn batch_item_views(v: Seq<(String, String, Option<String>)>) -> Seq<(Seq<char>, Seq<char>, Option<Seq<char>>)> {
    Seq::new(v.len(), |i: int| (v[i].0@, v[i].1@, match v[i].2 { Some(p) => Some(p@), None => None }))
}

/// Frames a batch of sub-requests (method, URL, payload text).
pub fn batch_body(boundary: &str, items: &Vec<(String, String, Option<String>)>) -> (r: String)
    ensures
        r@ == batch_body_spec(boundary@, batch_item_views(items@)),
{
    let ghost views = batch_item_views(items@);
    let mut body = String::new();
    let mut i: usize = 0;
    while i < items.len()
        invariant
            i <= items@.len(),
            views == batch_item_views(items@),
            body@ == batch_parts(boundary@, views.take(i as int)),
        decreases items@.len() - i,
    {
        assert(views.take(i + 1).drop_last() =~= views.take(i as int));
        let ghost before = body@;
        body.append("--");
        body.append(boundary);
        body.append("\r\nContent-Type: application/http\r\nContent-ID: <item");
        body.append(decimal(i as u64).as_str());
        body.append(">\r\n\r\n");
        body.append(items[i].0.as_str());
        body.append(" ");
        body.append(items[i].1.as_str());
        body.append(" HTTP/1.1\r\n");
        match &items[i].2 {
            Some(p) => {
                body.append("Content-Type: application/json\r\n\r\n");
                body.append(p.as_str());
            },
            None => {},
        }
        body.append("\r\n");
        assert(body@ =~= before + batch_part(boundary@, i as nat, views[i as int].0, views[i as int].1, views[i as int].2));
        i = i + 1;
    }
    assert(views.take(items@.len() as int) =~= views);
    body.append("--");
    body.append(boundary);
    body.append("--");
    body
}

/// The result of a batch: the raw response text, under `batch_response`.
pub fn batch_result(text: String) -> (r: Vec<JsonValue>)
    ensures
        r@.len() == 1,
        r@[0].model() == Json::Object(seq![("batch_response"@, Json::Str(text@))]),
{
    let ghost t = text@;
    let v = vec![object1("batch_response", JsonValue::String(text))];
    v
}

} // verus!
