//! NotebookLM: the browser's batchexecute RPC protocol, as this client
//! frames requests and reads responses.
use vstd::prelude::*;
use vstd::string::StringExecFns;
use vstd::utf8::encode_utf8;
use crate::text::{
    chars_of, char_vec_views, contains_chars, contains_spec, find_char_from, find_from,
    first_occurrence_from, index_of_char, join_spec, lemma_index_of_char, lines_of, lines_spec,
    occurs_at, owned, parses_as_usize, parses_usize, slice_vec, starts_with_chars, string_of,
    string_of_range, string_views, trim_chars, trim_spec, decimal, decimal_spec, concat2,
    join_strings, path_join, path_join_spec,
};
use crate::json::{
    Json, JsonValue, jarr, jat, jfield, jstr, jstring, lemma_array_model, models, opt_at,
    opt_model, opt_str, opt_view,
};
use crate::outside::{random_u32, url_encode, url_encoded};
use crate::ports::NotebookLmEntry;

verus! {

pub const BATCHEXECUTE_URL: &'static str = "https://notebooklm.google.com/_/LabsTailwindUi/data/batchexecute";

pub const CHAT_URL: &'static str = "https://notebooklm.google.com/_/LabsTailwindUi/data/google.internal.labs.tailwind.orchestration.v1.LabsTailwindOrchestrationService/GenerateFreeFormStreamed";

pub const USER_AGENT: &'static str = "Mozilla/5.0 (Macintosh; Intel Mac OS X 10_15_7) AppleWebKit/537.36 (KHTML, like Gecko) Chrome/120.0.0.0 Safari/537.36";

pub const HOMEPAGE_URL: &'static str = "https://notebooklm.google.com/";

pub const FORM_CONTENT_TYPE: &'static str = "application/x-www-form-urlencoded;charset=UTF-8";

/// RPC method ids of the web application.
pub const RPC_LIST_NOTEBOOKS: &'static str = "wXbhsf";

pub const RPC_CREATE_NOTEBOOK: &'static str = "CCqFvf";

pub const RPC_DELETE_NOTEBOOK: &'static str = "WWINqb";

pub const RPC_ADD_SOURCE: &'static str = "izAoDd";

/// Where the browser session's cookies are kept:
/// `.notebooklm/storage_state.json` under the home directory, or under the
/// working directory when there is no home.
pub open spec fn storage_path_spec(home: Option<Seq<char>>) -> Seq<char> {
    let base = match home {
        Some(h) => h,
        None => "."@,
    };
    path_join_spec(path_join_spec(base, ".notebooklm"@), "storage_state.json"@)
}

pub fn storage_path(home: Option<String>) -> (r: String)
    ensures
        r@ == storage_path_spec(opt_view(home)),
{
    let base = match home {
        Some(h) => h,
        None => owned("."),
    };
    let dir = path_join(base.as_str(), ".notebooklm");
    path_join(dir.as_str(), "storage_state.json")
}

pub const RPC_SUMMARIZE: &'static str = "VfAZjd";

/// Why a NotebookLM operation failed.
#[derive(Debug, PartialEq)]
pub enum NotebookLmError {
    /// The stored browser state has no `cookies` array.
    NoCookiesArray,
    /// No `SID` cookie for a Google domain: the login has expired.
    SidCookieMissing,
    /// The homepage holds no `SNlM0e` (CSRF token).
    CsrfTokenMissing,
    /// The homepage holds no `FdrFJe` (session id).
    SessionIdMissing,
    /// The server answered the call with an error entry; its detail.
    RpcFailed(JsonValue),
    /// A create call answered with something other than an array.
    UnexpectedCreateResponse,
}

/// Tokens that the NotebookLM homepage hands out to a logged-in browser.
#[derive(Debug, PartialEq)]
pub struct SessionTokens {
    pub csrf_token: String,
    pub session_id: String,
    pub cookie_header: String,
}

// ---------------------------------------------------------------------------
// `"key":"value"` in the homepage's inline configuration
// ---------------------------------------------------------------------------

/// `"key":"`
pub open spec fn js_key_pattern(key: Seq<char>) -> Seq<char> {
    seq!['"'] + key + seq!['"', ':', '"']
}

/// The first position where `p` occurs in `h`.
pub open spec fn first_occurrence(h: Seq<char>, p: Seq<char>) -> Option<int> {
    if exists|i: int| occurs_at(h, p, i) {
        Some(choose|i: int| first_occurrence_from(h, p, 0, i))
    } else {
        None
    }
}

/// The text between the first `"key":"` in `html` and the next `"`.
pub open spec fn js_key_value(html: Seq<char>, key: Seq<char>) -> Option<Seq<char>> {
    let p = js_key_pattern(key);
    match first_occurrence(html, p) {
        None => None,
        Some(i) => {
            let start: int = i + p.len();
            match index_of_char(html.skip(start), '"') {
                None => None,
                Some(k) => Some(html.subrange(start, start + k)),
            }
        },
    }
}

proof fn lemma_first_occurrence(h: Seq<char>, p: Seq<char>, i: int)
    requires
        first_occurrence_from(h, p, 0, i),
    ensures
        first_occurrence(h, p) == Some(i),
{
    assert(occurs_at(h, p, i));
    let j: int = choose|j: int| first_occurrence_from(h, p, 0, j);
    assert(first_occurrence_from(h, p, 0, j));
    if j < i {
        assert(!occurs_at(h, p, j));
    }
    if i < j {
        assert(!occurs_at(h, p, i));
    }
}

proof fn lemma_first_exists(h: Seq<char>, p: Seq<char>, k: int)
    requires
        0 <= k,
        forall|j: int| 0 <= j < k ==> !occurs_at(h, p, j),
        exists|i: int| occurs_at(h, p, i),
    ensures
        exists|i: int| first_occurrence_from(h, p, 0, i),
    decreases h.len() + 1 - k,
{
    if occurs_at(h, p, k) {
        assert(first_occurrence_from(h, p, 0, k));
    } else {
        if k > h.len() {
            let i: int = choose|i: int| occurs_at(h, p, i);
            assert(i < k);
        } else {
            lemma_first_exists(h, p, k + 1);
        }
    }
}

/// Law: a value found for `key` stands in `html` between `"key":"` and a
/// closing `"`, and holds no `"` itself.
pub proof fn lemma_js_key_value_found(html: Seq<char>, key: Seq<char>)
    requires
        js_key_value(html, key) is Some,
    ensures
        contains_spec(html, js_key_pattern(key) + js_key_value(html, key)->0 + seq!['"']),
        forall|j: int| 0 <= j < js_key_value(html, key)->0.len() ==> js_key_value(html, key)->0[j] != '"',
{
    let p = js_key_pattern(key);
    lemma_first_exists(html, p, 0);
    let i: int = first_occurrence(html, p)->0;
    assert(first_occurrence_from(html, p, 0, i));
    let start: int = i + p.len();
    let k: int = index_of_char(html.skip(start), '"')->0;
    lemma_index_of_char(html.skip(start), '"');
    let v = html.subrange(start, start + k);
    let whole = p + v + seq!['"'];
    assert(html.subrange(i, i + whole.len()) =~= whole);
    assert(occurs_at(html, whole, i));
    assert forall|t: int| 0 <= t < v.len() implies v[t] != '"' by {
        assert(v[t] == html.skip(start)[t]);
    }
}

/// Extracts a value written `"key":"value"` in the NotebookLM homepage.
pub fn extract_js_key(html: &str, key: &str) -> (r: Option<String>)
    ensures
        opt_view(r) == js_key_value(html@, key@),
{
    let h = chars_of(html);
    let k = chars_of(key);
    let mut pat: Vec<char> = Vec::new();
    pat.push('"');
    let mut i: usize = 0;
    while i < k.len()
        invariant
            i <= k@.len(),
            pat@ == seq!['"'] + k@.take(i as int),
        decreases k@.len() - i,
    {
        pat.push(k[i]);
        assert(k@.take(i + 1) =~= k@.take(i as int).push(k@[i as int]));
        i = i + 1;
    }
    pat.push('"');
    pat.push(':');
    pat.push('"');
    assert(k@.take(k@.len() as int) =~= k@);
    assert(pat@ =~= js_key_pattern(key@));
    match find_from(&h, &pat, 0) {
        None => {
            assert(!(exists|j: int| occurs_at(h@, pat@, j)));
            None
        },
        Some(pos) => {
            proof {
                lemma_first_occurrence(h@, pat@, pos as int);
            }
            assert(pos + pat@.len() <= h.len());
            let start: usize = pos + pat.len();
            match find_char_from(&h, '"', start) {
                None => None,
                Some(end) => Some(string_of_range(&h, start, end)),
            }
        },
    }
}

/// Reads the CSRF token and session id from the homepage.
pub fn session_tokens(html: &str, cookie_header: String) -> (r: Result<SessionTokens, NotebookLmError>)
    ensures
        match (js_key_value(html@, "SNlM0e"@), js_key_value(html@, "FdrFJe"@)) {
            (None, _) => r == Err::<SessionTokens, NotebookLmError>(NotebookLmError::CsrfTokenMissing),
            (Some(_), None) => r == Err::<SessionTokens, NotebookLmError>(NotebookLmError::SessionIdMissing),
            (Some(c), Some(s)) => r matches Ok(t) && t.csrf_token@ == c && t.session_id@ == s
                && t.cookie_header == cookie_header,
        },
{
    let csrf_token = match extract_js_key(html, "SNlM0e") {
        Some(t) => t,
        None => return Err(NotebookLmError::CsrfTokenMissing),
    };
    let session_id = match extract_js_key(html, "FdrFJe") {
        Some(t) => t,
        None => return Err(NotebookLmError::SessionIdMissing),
    };
    Ok(SessionTokens { csrf_token, session_id, cookie_header })
}

// ---------------------------------------------------------------------------
// Chunked responses
// ---------------------------------------------------------------------------

/// The anti-JSON-hijacking prefix that starts a batchexecute response.
pub open spec fn xssi_prefix() -> Seq<char> {
    seq![')', ']', '}', '\'']
}

/// The response without its first line when that line starts with the prefix
/// (without only the first character when there is no line break).
pub open spec fn strip_xssi(t: Seq<char>) -> Seq<char> {
    if occurs_at(t, xssi_prefix(), 0) {
        match index_of_char(t, '\n') {
            Some(i) => t.skip(i + 1),
            None => t.skip(1),
        }
    } else {
        t
    }
}

/// The JSON texts of a chunked response, line by line: blank lines are
/// skipped; a line that is a length (a `usize`) announces that the next line
/// is a chunk; any other line is a chunk itself.
pub open spec fn chunk_candidates(lines: Seq<Seq<char>>) -> Seq<Seq<char>>
    decreases lines.len(),
{
    if lines.len() == 0 {
        seq![]
    } else {
        let line = trim_spec(lines[0]);
        if line.len() == 0 {
            chunk_candidates(lines.drop_first())
        } else if parses_as_usize(line) {
            if lines.len() >= 2 {
                seq![lines[1]] + chunk_candidates(lines.skip(2))
            } else {
                seq![]
            }
        } else {
            seq![line] + chunk_candidates(lines.drop_first())
        }
    }
}

/// The JSON texts in a whole batchexecute response.
pub open spec fn response_chunks(text: Seq<char>) -> Seq<Seq<char>> {
    chunk_candidates(lines_spec(trim_spec(strip_xssi(text))))
}

/// Splits a batchexecute response into the texts of its JSON chunks. The
/// caller keeps those that parse as JSON, in order.
pub fn chunked_response_candidates(text: &str) -> (r: Vec<String>)
    ensures
        string_views(r@) == response_chunks(text@),
{
    let t = chars_of(text);
    let prefix: Vec<char> = vec![')', ']', '}', '\''];
    assert(prefix@ =~= xssi_prefix());
    let body: Vec<char> = if starts_with_chars(&t, &prefix) {
        match find_char_from(&t, '\n', 0) {
            Some(i) => {
                assert(t@.skip(0) =~= t@);
                assert(i < t.len());
                slice_vec(&t, i + 1, t.len())
            },
            None => {
                assert(t@.skip(0) =~= t@);
                slice_vec(&t, 1, t.len())
            },
        }
    } else {
        slice_vec(&t, 0, t.len())
    };
    assert(body@ =~= strip_xssi(t@));
    let trimmed = trim_chars(&body);
    let lines = lines_of(&trimmed);
    let ghost ls = char_vec_views(lines@);
    assert(ls =~= lines_spec(trimmed@));
    let mut out: Vec<String> = Vec::new();
    let mut i: usize = 0;
    assert(ls.skip(0) =~= ls);
    assert(seq![] + chunk_candidates(ls) =~= chunk_candidates(ls));
    while i < lines.len()
        invariant
            i <= lines@.len(),
            ls == char_vec_views(lines@),
            chunk_candidates(ls) == string_views(out@) + chunk_candidates(ls.skip(i as int)),
        decreases lines@.len() - i,
    {
        let ghost rest = ls.skip(i as int);
        let line = trim_chars(&lines[i]);
        assert(rest[0] == lines@[i as int]@);
        if line.len() == 0 {
            assert(rest.drop_first() =~= ls.skip(i + 1));
            i = i + 1;
        } else if parses_usize(&line) {
            if i + 1 < lines.len() {
                let ghost before = string_views(out@);
                out.push(string_of(&lines[i + 1]));
                assert(rest[1] == lines@[i + 1]@);
                assert(rest.skip(2) =~= ls.skip(i + 2));
                assert(string_views(out@) =~= before.push(lines@[i + 1]@));
                assert(before + (seq![rest[1]] + chunk_candidates(rest.skip(2)))
                    =~= string_views(out@) + chunk_candidates(ls.skip(i + 2)));
                i = i + 2;
            } else {
                assert(ls.skip(lines@.len() as int) =~= Seq::<Seq<char>>::empty());
                assert(string_views(out@) + chunk_candidates(ls.skip(lines@.len() as int)) =~= string_views(out@));
                i = lines.len();
            }
        } else {
            let ghost before = string_views(out@);
            out.push(string_of(&line));
            assert(rest.drop_first() =~= ls.skip(i + 1));
            assert(string_views(out@) =~= before.push(line@));
            assert(before + (seq![line@] + chunk_candidates(rest.drop_first()))
                =~= string_views(out@) + chunk_candidates(ls.skip(i + 1)));
            i = i + 1;
        }
    }
    assert(ls.skip(i as int) =~= Seq::<Seq<char>>::empty());
    assert(string_views(out@) + chunk_candidates(Seq::<Seq<char>>::empty()) =~= string_views(out@));
    out
}


// ---------------------------------------------------------------------------
// The result of one RPC call among the chunks
// ---------------------------------------------------------------------------

/// What the chunks say of one RPC call.
pub enum RpcLookup {
    /// No entry for the call.
    Missing,
    /// A result entry whose payload is a JSON text (to be parsed, or kept as a
    /// string when it does not parse).
    Text(Seq<char>),
    /// A result entry whose payload is not a string.
    Value(Json),
    /// An error entry, with its detail.
    Failure(Json),
}

/// The entries of a chunk: the chunk itself when it is an array whose first
/// element is an array, else the chunk as the only entry; none for a chunk
/// that is not an array.
pub open spec fn chunk_items(c: Json) -> Seq<Json> {
    match c {
        Json::Array(a) => if a.len() > 0 && a[0] is Array { a } else { seq![c] },
        _ => seq![],
    }
}

/// What one entry says of the call `id`.
pub open spec fn item_decision(item: Json, id: Seq<char>) -> Option<RpcLookup> {
    match item {
        Json::Array(a) => {
            if a.len() >= 3 && a[0] == Json::Str("er"@) && a[1] == Json::Str(id) {
                Some(RpcLookup::Failure(a[2]))
            } else if a.len() >= 3 && a[0] == Json::Str("wrb.fr"@) && a[1] == Json::Str(id) {
                match a[2] {
                    Json::Str(t) => Some(RpcLookup::Text(t)),
                    other => Some(RpcLookup::Value(other)),
                }
            } else {
                None
            }
        },
        _ => None,
    }
}

/// The first entry among `items` that says something of the call.
pub open spec fn first_decision(items: Seq<Json>, id: Seq<char>) -> Option<RpcLookup>
    decreases items.len(),
{
    if items.len() == 0 {
        None
    } else {
        match item_decision(items[0], id) {
            Some(d) => Some(d),
            None => first_decision(items.drop_first(), id),
        }
    }
}

/// What the chunks, in order, say of the call `id`: the first entry that
/// names it decides.
pub open spec fn rpc_lookup(chunks: Seq<Json>, id: Seq<char>) -> RpcLookup
    decreases chunks.len(),
{
    if chunks.len() == 0 {
        RpcLookup::Missing
    } else {
        match first_decision(chunk_items(chunks[0]), id) {
            Some(d) => d,
            None => rpc_lookup(chunks.drop_first(), id),
        }
    }
}

/// The result entry of an RPC call.
#[derive(Debug, PartialEq)]
pub enum RpcResult {
    /// No entry: the call's result is `null`.
    Missing,
    /// A JSON text: the result is its parse, or the text itself as a string
    /// when it does not parse.
    Text(String),
    /// The result itself.
    Value(JsonValue),
}

/// The exact correspondence between a result and what the chunks say.
pub open spec fn rpc_result_matches(r: Result<RpcResult, NotebookLmError>, l: RpcLookup) -> bool {
    match (r, l) {
        (Ok(RpcResult::Missing), RpcLookup::Missing) => true,
        (Ok(RpcResult::Text(s)), RpcLookup::Text(t)) => s@ == t,
        (Ok(RpcResult::Value(v)), RpcLookup::Value(j)) => v.model() == j,
        (Err(NotebookLmError::RpcFailed(v)), RpcLookup::Failure(j)) => v.model() == j,
        _ => false,
    }
}

/// What one entry says of the call `id`.
fn decide_item(item: &JsonValue, id: &String, er: &String, wrb: &String) -> (r: Option<Result<RpcResult, NotebookLmError>>)
    requires
        er@ == "er"@,
        wrb@ == "wrb.fr"@,
    ensures
        match (r, item_decision(item.model(), id@)) {
            (None, None) => true,
            (Some(x), Some(d)) => rpc_result_matches(x, d),
            _ => false,
        },
{
    let arr = match item.as_array() {
        Some(a) => a,
        None => return None,
    };
    if arr.len() < 3 {
        return None;
    }
    let ghost a = models(arr@);
    assert(a[0] == arr@[0].model() && a[1] == arr@[1].model() && a[2] == arr@[2].model());
    let is_id = match arr[1].as_str() {
        Some(s) => *s == *id,
        None => false,
    };
    let tag_er = match arr[0].as_str() {
        Some(s) => *s == *er,
        None => false,
    };
    let tag_wrb = match arr[0].as_str() {
        Some(s) => *s == *wrb,
        None => false,
    };
    if tag_er && is_id {
        return Some(Err(NotebookLmError::RpcFailed(arr[2].duplicate())));
    }
    if tag_wrb && is_id {
        match arr[2].as_str() {
            Some(data) => return Some(Ok(RpcResult::Text(owned(data.as_str())))),
            None => return Some(Ok(RpcResult::Value(arr[2].duplicate()))),
        }
    }
    None
}

/// Finds the result of the RPC call `rpc_id` among the parsed chunks of a
/// batchexecute response.
pub fn extract_rpc_result(chunks: &Vec<JsonValue>, rpc_id: &str) -> (r: Result<RpcResult, NotebookLmError>)
    ensures
        rpc_result_matches(r, rpc_lookup(models(chunks@), rpc_id@)),
{
    let id = owned(rpc_id);
    let er = owned("er");
    let wrb = owned("wrb.fr");
    let ghost cs = models(chunks@);
    let mut c: usize = 0;
    assert(cs.skip(0) =~= cs);
    while c < chunks.len()
        invariant
            c <= chunks@.len(),
            cs == models(chunks@),
            id@ == rpc_id@,
            er@ == "er"@,
            wrb@ == "wrb.fr"@,
            rpc_lookup(cs, rpc_id@) == rpc_lookup(cs.skip(c as int), rpc_id@),
        decreases chunks@.len() - c,
    {
        let chunk = &chunks[c];
        assert(cs.skip(c as int)[0] == chunk.model());
        assert(cs.skip(c as int).drop_first() =~= cs.skip(c + 1));
        if let Some(arr) = chunk.as_array() {
            let nested = arr.len() > 0 && arr[0].is_array();
            if nested {
                let ghost items = models(arr@);
                assert(chunk_items(chunk.model()) == items);
                let mut k: usize = 0;
                assert(items.skip(0) =~= items);
                while k < arr.len()
                    invariant
                        k <= arr@.len(),
                        items == models(arr@),
                        id@ == rpc_id@,
                        er@ == "er"@,
                        wrb@ == "wrb.fr"@,
                        first_decision(items, rpc_id@) == first_decision(items.skip(k as int), rpc_id@),
                        c < chunks@.len(),
                        cs == models(chunks@),
                        rpc_lookup(cs, rpc_id@) == rpc_lookup(cs.skip(c as int), rpc_id@),
                        chunk_items(cs.skip(c as int)[0]) == items,
                    decreases arr@.len() - k,
                {
                    assert(items.skip(k as int)[0] == arr@[k as int].model());
                    assert(items.skip(k as int).drop_first() =~= items.skip(k + 1));
                    if let Some(d) = decide_item(&arr[k], &id, &er, &wrb) {
                        return d;
                    }
                    k = k + 1;
                }
                assert(items.skip(k as int) =~= Seq::<Json>::empty());
                assert(first_decision(items, rpc_id@) is None);
                assert(rpc_lookup(cs.skip(c as int), rpc_id@) == rpc_lookup(cs.skip(c + 1), rpc_id@));
            } else {
                assert(chunk_items(chunk.model()) =~= seq![chunk.model()]);
                assert(seq![chunk.model()].drop_first() =~= Seq::<Json>::empty());
                if let Some(d) = decide_item(chunk, &id, &er, &wrb) {
                    return d;
                }
                assert(first_decision(Seq::<Json>::empty(), rpc_id@) is None);
                assert(seq![chunk.model()][0] == chunk.model());
                assert(first_decision(seq![chunk.model()], rpc_id@) is None);
                assert(first_decision(chunk_items(chunk.model()), rpc_id@) is None);
                assert(rpc_lookup(cs.skip(c as int), rpc_id@) == rpc_lookup(cs.skip(c + 1), rpc_id@));
            }
        } else {
            assert(chunk_items(chunk.model()) =~= Seq::<Json>::empty());
        }
        c = c + 1;
    }
    assert(cs.skip(c as int) =~= Seq::<Json>::empty());
    Ok(RpcResult::Missing)
}

// ---------------------------------------------------------------------------
// Chat answers (streamed)
// ---------------------------------------------------------------------------

/// The JSON text that a streamed chat entry carries.
pub open spec fn chat_item_payload(item: Json) -> Option<Seq<char>> {
    match item {
        Json::Array(a) => if a.len() >= 3 && a[0] == Json::Str("wrb.fr"@) { jstr(a[2]) } else { None },
        _ => None,
    }
}

/// The payloads among the entries of one chunk.
pub open spec fn chat_payloads_in(items: Seq<Json>) -> Seq<Seq<char>>
    decreases items.len(),
{
    if items.len() == 0 {
        seq![]
    } else {
        let rest = chat_payloads_in(items.drop_last());
        match chat_item_payload(items.last()) {
            Some(t) => rest.push(t),
            None => rest,
        }
    }
}

/// The payloads of all chunks that are arrays, in order.
pub open spec fn chat_payloads(chunks: Seq<Json>) -> Seq<Seq<char>>
    decreases chunks.len(),
{
    if chunks.len() == 0 {
        seq![]
    } else {
        let rest = chat_payloads(chunks.drop_last());
        match chunks.last() {
            Json::Array(a) => rest + chat_payloads_in(a),
            _ => rest,
        }
    }
}

/// Lists the JSON texts that the streamed chat chunks carry. The caller
/// parses each; a text that does not parse counts as no answer.
pub fn chat_payload_texts(chunks: &Vec<JsonValue>) -> (r: Vec<String>)
    ensures
        string_views(r@) == chat_payloads(models(chunks@)),
{
    let wrb = owned("wrb.fr");
    let ghost cs = models(chunks@);
    let mut out: Vec<String> = Vec::new();
    let mut c: usize = 0;
    while c < chunks.len()
        invariant
            c <= chunks@.len(),
            cs == models(chunks@),
            wrb@ == "wrb.fr"@,
            string_views(out@) == chat_payloads(cs.take(c as int)),
        decreases chunks@.len() - c,
    {
        assert(cs.take(c + 1).drop_last() =~= cs.take(c as int));
        assert(cs.take(c + 1).last() == chunks@[c as int].model());
        if let Some(items) = chunks[c].as_array() {
            let ghost is = models(items@);
            let ghost base = string_views(out@);
            let mut k: usize = 0;
            assert(chat_payloads_in(is.take(0)) =~= Seq::<Seq<char>>::empty());
            assert(base + Seq::<Seq<char>>::empty() =~= base);
            while k < items.len()
                invariant
                    k <= items@.len(),
                    is == models(items@),
                    wrb@ == "wrb.fr"@,
                    string_views(out@) == base + chat_payloads_in(is.take(k as int)),
                decreases items@.len() - k,
            {
                assert(is.take(k + 1).drop_last() =~= is.take(k as int));
                assert(is.take(k + 1).last() == items@[k as int].model());
                let item = &items[k];
                let ghost before = string_views(out@);
                if let Some(arr) = item.as_array() {
                    let ghost a = models(arr@);
                    if arr.len() >= 3 {
                        assert(a[0] == arr@[0].model() && a[2] == arr@[2].model());
                        let tagged = match arr[0].as_str() {
                            Some(s) => *s == wrb,
                            None => false,
                        };
                        if tagged {
                            if let Some(t) = arr[2].as_str() {
                                out.push(owned(t.as_str()));
                                assert(string_views(out@) =~= before.push(t@));
                            }
                        }
                    }
                }
                assert(base + chat_payloads_in(is.take(k + 1)) =~= string_views(out@));
                k = k + 1;
            }
            assert(is.take(items@.len() as int) =~= is);
        }
        c = c + 1;
    }
    assert(cs.take(chunks@.len() as int) =~= cs);
    out
}

/// `len()` of a string: the length of its UTF-8 encoding.
pub open spec fn byte_len(s: Seq<char>) -> usize {
    encode_utf8(s).len() as usize
}

/// The answer text of a parsed chat payload: its `[0][0]` string.
pub open spec fn answer_text(inner: Option<Json>) -> Option<Seq<char>> {
    opt_str(opt_at(opt_at(inner, 0), 0))
}

/// Keeps the longest answer (by byte length; the earliest among equals).
pub open spec fn longest_answer(best: Seq<char>, texts: Seq<Option<Seq<char>>>) -> Seq<char>
    decreases texts.len(),
{
    if texts.len() == 0 {
        best
    } else {
        let next = match texts[0] {
            Some(t) => if byte_len(t) > byte_len(best) { t } else { best },
            None => best,
        };
        longest_answer(next, texts.drop_first())
    }
}

pub open spec fn answer_texts(inner: Seq<Option<JsonValue>>) -> Seq<Option<Seq<char>>> {
    Seq::new(inner.len(), |i: int| answer_text(match inner[i] { Some(v) => Some(v.model()), None => None }))
}

/// The chat reply: the longest answer among the parsed payloads, or a fixed
/// notice when there is none.
pub open spec fn chat_reply(inner: Seq<Option<JsonValue>>) -> Seq<char> {
    let best = longest_answer(seq![], answer_texts(inner));
    if best.len() == 0 { "No answer received."@ } else { best }
}

/// Picks the chat reply among the parsed payloads (`None` where a payload did
/// not parse).
pub fn best_chat_answer(inner: &Vec<Option<JsonValue>>) -> (r: String)
    ensures
        r@ == chat_reply(inner@),
{
    let ghost texts = answer_texts(inner@);
    let mut best = String::new();
    let mut i: usize = 0;
    assert(texts.skip(0) =~= texts);
    while i < inner.len()
        invariant
            i <= inner@.len(),
            texts == answer_texts(inner@),
            longest_answer(seq![], texts) == longest_answer(best@, texts.skip(i as int)),
        decreases inner@.len() - i,
    {
        assert(texts.skip(i as int)[0] == texts[i as int]);
        assert(texts.skip(i as int).drop_first() =~= texts.skip(i + 1));
        let found: Option<&String> = match &inner[i] {
            Some(v) => match v.get_index(0) {
                Some(w) => match w.get_index(0) {
                    Some(x) => x.as_str(),
                    None => None,
                },
                None => None,
            },
            None => None,
        };
        if let Some(t) = found {
            if t.as_str().len() > best.as_str().len() {
                best = owned(t.as_str());
            }
        }
        i = i + 1;
    }
    assert(texts.skip(i as int) =~= Seq::<Option<Seq<char>>>::empty());
    if best.as_str().is_empty() {
        owned("No answer received.")
    } else {
        best
    }
}

/// Law: the reply is at least as long (in bytes) as every answer found, and
/// is one of them unless it is the notice.
pub proof fn lemma_longest_answer(best: Seq<char>, texts: Seq<Option<Seq<char>>>)
    ensures
        byte_len(best) <= byte_len(longest_answer(best, texts)),
        forall|i: int| 0 <= i < texts.len() && texts[i] is Some ==>
            byte_len(texts[i]->0) <= byte_len(longest_answer(best, texts)),
        longest_answer(best, texts) == best || exists|i: int| 0 <= i < texts.len() && texts[i] == Some(longest_answer(best, texts)),
    decreases texts.len(),
{
    if texts.len() > 0 {
        let next = match texts[0] {
            Some(t) => if byte_len(t) > byte_len(best) { t } else { best },
            None => best,
        };
        lemma_longest_answer(next, texts.drop_first());
        assert forall|i: int| 0 <= i < texts.len() && texts[i] is Some implies
            byte_len(texts[i]->0) <= byte_len(longest_answer(best, texts)) by {
            if i > 0 {
                assert(texts[i] == texts.drop_first()[i - 1]);
            }
        }
        if longest_answer(best, texts) != best {
            if longest_answer(next, texts.drop_first()) == next {
                assert(texts[0] == Some(longest_answer(best, texts)));
            } else {
                let j = choose|j: int| 0 <= j < texts.drop_first().len() && texts.drop_first()[j] == Some(longest_answer(next, texts.drop_first()));
                assert(texts[j + 1] == Some(longest_answer(best, texts)));
            }
        }
    }
}

// ---------------------------------------------------------------------------
// Decoding call results
// ---------------------------------------------------------------------------

/// A string member's text, or the empty text.
pub open spec fn str_or_empty(o: Option<Json>) -> Seq<char> {
    match opt_str(o) {
        Some(s) => s,
        None => seq![],
    }
}

/// The model of a notebook entry.
pub open spec fn entry_view(e: NotebookLmEntry) -> (Seq<char>, Seq<char>, Option<Seq<char>>) {
    (e.id@, e.title@, opt_view(e.created_at))
}

pub open spec fn entry_views(v: Seq<NotebookLmEntry>) -> Seq<(Seq<char>, Seq<char>, Option<Seq<char>>)> {
    Seq::new(v.len(), |i: int| entry_view(v[i]))
}

/// The notebook list: the first element when it is itself an array, else the
/// result; nothing when the result is not an array.
pub open spec fn notebook_items(result: Json) -> Seq<Json> {
    match result {
        Json::Array(outer) => {
            if outer.len() > 0 && outer[0] is Array {
                match outer[0] {
                    Json::Array(inner) => inner,
                    _ => seq![],
                }
            } else {
                outer
            }
        },
        _ => seq![],
    }
}

/// The entries of a notebook list: one per element that is an array, from
/// its first three elements.
pub open spec fn notebook_entries(items: Seq<Json>) -> Seq<(Seq<char>, Seq<char>, Option<Seq<char>>)>
    decreases items.len(),
{
    if items.len() == 0 {
        seq![]
    } else {
        let rest = notebook_entries(items.drop_last());
        let nb = items.last();
        if nb is Array {
            rest.push((str_or_empty(jat(nb, 0)), str_or_empty(jat(nb, 1)), opt_str(jat(nb, 2))))
        } else {
            rest
        }
    }
}

/// A string member's text as a `String`, or the empty `String`.
fn text_or_empty(o: Option<&JsonValue>) -> (r: String)
    ensures
        r@ == str_or_empty(opt_model(o)),
{
    match o {
        Some(v) => match v.as_str() {
            Some(s) => owned(s.as_str()),
            None => String::new(),
        },
        None => String::new(),
    }
}

/// A string member's text, if it is one.
fn text_of(o: Option<&JsonValue>) -> (r: Option<String>)
    ensures
        opt_view(r) == opt_str(opt_model(o)),
{
    match o {
        Some(v) => match v.as_str() {
            Some(s) => Some(owned(s.as_str())),
            None => None,
        },
        None => None,
    }
}

/// Decodes the result of the list call into notebook entries.
pub fn notebooks_from_result(result: &JsonValue) -> (r: Vec<NotebookLmEntry>)
    ensures
        entry_views(r@) == notebook_entries(notebook_items(result.model())),
{
    let mut out: Vec<NotebookLmEntry> = Vec::new();
    let outer = match result.as_array() {
        Some(o) => o,
        None => {
            assert(entry_views(out@) =~= Seq::<(Seq<char>, Seq<char>, Option<Seq<char>>)>::empty());
            return out;
        },
    };
    let nested = outer.len() > 0 && outer[0].is_array();
    let items: &Vec<JsonValue> = if nested {
        match outer[0].as_array() {
            Some(inner) => inner,
            None => outer,
        }
    } else {
        outer
    };
    let ghost is = models(items@);
    assert(is =~= notebook_items(result.model()));
    let mut i: usize = 0;
    while i < items.len()
        invariant
            i <= items@.len(),
            is == models(items@),
            entry_views(out@) == notebook_entries(is.take(i as int)),
        decreases items@.len() - i,
    {
        assert(is.take(i + 1).drop_last() =~= is.take(i as int));
        assert(is.take(i + 1).last() == items@[i as int].model());
        let nb = &items[i];
        if nb.is_array() {
            let ghost before = entry_views(out@);
            let id = text_or_empty(nb.get_index(0));
            let title = text_or_empty(nb.get_index(1));
            let created_at = text_of(nb.get_index(2));
            out.push(NotebookLmEntry { id, title, created_at });
            assert(entry_views(out@) =~= before.push(entry_view(out@.last())));
        } else {
            assert(entry_views(out@) =~= notebook_entries(is.take(i + 1)));
        }
        i = i + 1;
    }
    assert(is.take(items@.len() as int) =~= is);
    out
}

/// Decodes the result of the create call; the title falls back to the one
/// asked for.
pub fn created_notebook(result: &JsonValue, title: &str) -> (r: Result<NotebookLmEntry, NotebookLmError>)
    ensures
        match jarr(result.model()) {
            None => r == Err::<NotebookLmEntry, NotebookLmError>(NotebookLmError::UnexpectedCreateResponse),
            Some(_) => r matches Ok(e) && entry_view(e) == (
                str_or_empty(jat(result.model(), 0)),
                match opt_str(jat(result.model(), 1)) {
                    Some(t) => t,
                    None => title@,
                },
                None::<Seq<char>>,
            ),
        },
{
    if !result.is_array() {
        return Err(NotebookLmError::UnexpectedCreateResponse);
    }
    let id = text_or_empty(result.get_index(0));
    let name = match text_of(result.get_index(1)) {
        Some(t) => t,
        None => owned(title),
    };
    Ok(NotebookLmEntry { id, title: name, created_at: None })
}

/// The summary text at `[0][0][0]` of the summarize result.
pub open spec fn summary_of(result: Json) -> Seq<char> {
    match opt_str(opt_at(opt_at(jat(result, 0), 0), 0)) {
        Some(t) => t,
        None => "No summary available."@,
    }
}

/// Reads the summary from the summarize result, or a fixed notice.
pub fn summary_text(result: &JsonValue) -> (r: String)
    ensures
        r@ == summary_of(result.model()),
{
    let found: Option<&String> = match result.get_index(0) {
        Some(a) => match a.get_index(0) {
            Some(b) => match b.get_index(0) {
                Some(c) => c.as_str(),
                None => None,
            },
            None => None,
        },
        None => None,
    };
    match found {
        Some(t) => owned(t.as_str()),
        None => owned("No summary available."),
    }
}


// ---------------------------------------------------------------------------
// Cookies of the stored browser state
// ---------------------------------------------------------------------------

/// A cookie's field as text (`cookie["field"].as_str().unwrap_or("")`).
pub open spec fn cookie_field(c: Json, field: Seq<char>) -> Seq<char> {
    str_or_empty(jfield(c, field))
}

/// Domains whose cookies NotebookLM reads.
pub open spec fn is_google_domain(d: Seq<char>) -> bool {
    contains_spec(d, "google.com"@) || contains_spec(d, ".google."@)
}

/// The position of name `k` in an association list.
pub open spec fn assoc_index(m: Seq<(Seq<char>, Seq<char>)>, k: Seq<char>) -> Option<int>
    decreases m.len(),
{
    if m.len() == 0 {
        None
    } else if m[0].0 == k {
        Some(0)
    } else {
        match assoc_index(m.drop_first(), k) {
            Some(i) => Some(i + 1),
            None => None,
        }
    }
}

/// Sets name `k` to `v`: in place when `k` is present, else at the end.
pub open spec fn assoc_put(m: Seq<(Seq<char>, Seq<char>)>, k: Seq<char>, v: Seq<char>) -> Seq<(Seq<char>, Seq<char>)> {
    match assoc_index(m, k) {
        Some(i) => m.update(i, (k, v)),
        None => m.push((k, v)),
    }
}

/// The cookies that are sent, by name: those of Google domains; a later
/// cookie of a name already taken replaces it only when its domain is
/// exactly `.google.com`.
pub open spec fn cookie_jar(cookies: Seq<Json>) -> Seq<(Seq<char>, Seq<char>)>
    decreases cookies.len(),
{
    if cookies.len() == 0 {
        seq![]
    } else {
        let jar = cookie_jar(cookies.drop_last());
        let c = cookies.last();
        let d = cookie_field(c, "domain"@);
        let n = cookie_field(c, "name"@);
        let v = cookie_field(c, "value"@);
        if is_google_domain(d) && (assoc_index(jar, n) is None || d == ".google.com"@) {
            assoc_put(jar, n, v)
        } else {
            jar
        }
    }
}

/// `name=value` for each cookie, joined with `; `.
pub open spec fn cookie_header_text(jar: Seq<(Seq<char>, Seq<char>)>) -> Seq<char> {
    join_spec(jar.map_values(|p: (Seq<char>, Seq<char>)| p.0 + "="@ + p.1), "; "@)
}

/// The `Cookie` header from the stored browser state, or why there is none.
pub open spec fn cookie_header_spec(state: Json) -> Result<Seq<char>, NotebookLmError> {
    match jarr(opt_or_null(jfield(state, "cookies"@))) {
        None => Err(NotebookLmError::NoCookiesArray),
        Some(cookies) => {
            let jar = cookie_jar(cookies);
            if assoc_index(jar, "SID"@) is None {
                Err(NotebookLmError::SidCookieMissing)
            } else {
                Ok(cookie_header_text(jar))
            }
        },
    }
}

pub open spec fn opt_or_null(o: Option<Json>) -> Json {
    match o {
        Some(j) => j,
        None => Json::Null,
    }
}

pub open spec fn jar_view(v: Seq<(String, String)>) -> Seq<(Seq<char>, Seq<char>)> {
    Seq::new(v.len(), |i: int| (v[i].0@, v[i].1@))
}

proof fn lemma_assoc_index(m: Seq<(Seq<char>, Seq<char>)>, k: Seq<char>)
    ensures
        match assoc_index(m, k) {
            Some(i) => 0 <= i < m.len() && m[i].0 == k && forall|j: int| 0 <= j < i ==> m[j].0 != k,
            None => forall|j: int| 0 <= j < m.len() ==> m[j].0 != k,
        },
    decreases m.len(),
{
    if m.len() > 0 && m[0].0 != k {
        lemma_assoc_index(m.drop_first(), k);
        assert forall|j: int| 0 < j < m.len() implies m[j] == m.drop_first()[j - 1] by {}
    }
}

proof fn lemma_assoc_index_is(m: Seq<(Seq<char>, Seq<char>)>, k: Seq<char>, i: int)
    requires
        0 <= i <= m.len(),
        forall|j: int| 0 <= j < i ==> m[j].0 != k,
        i < m.len() ==> m[i].0 == k,
    ensures
        assoc_index(m, k) == (if i < m.len() { Some(i) } else { None::<int> }),
{
    lemma_assoc_index(m, k);
}

/// The position of `k` in the jar.
fn jar_find(jar: &Vec<(String, String)>, k: &String) -> (r: Option<usize>)
    ensures
        match r {
            Some(i) => assoc_index(jar_view(jar@), k@) == Some(i as int) && i < jar@.len(),
            None => assoc_index(jar_view(jar@), k@) is None,
        },
{
    let ghost m = jar_view(jar@);
    let mut i: usize = 0;
    while i < jar.len()
        invariant
            i <= jar@.len(),
            m == jar_view(jar@),
            forall|j: int| 0 <= j < i ==> m[j].0 != k@,
        decreases jar@.len() - i,
    {
        if jar[i].0 == *k {
            proof {
                lemma_assoc_index_is(m, k@, i as int);
            }
            return Some(i);
        }
        i = i + 1;
    }
    proof {
        lemma_assoc_index_is(m, k@, i as int);
    }
    None
}

/// The cookie header for NotebookLM from the stored browser state.
pub fn cookie_header(state: &JsonValue) -> (r: Result<String, NotebookLmError>)
    ensures
        match (r, cookie_header_spec(state.model())) {
            (Ok(h), Ok(t)) => h@ == t,
            (Err(e), Err(f)) => e == f,
            _ => false,
        },
{
    let cookies = match state.get_key("cookies") {
        Some(c) => match c.as_array() {
            Some(a) => a,
            None => return Err(NotebookLmError::NoCookiesArray),
        },
        None => return Err(NotebookLmError::NoCookiesArray),
    };
    let ghost cs = models(cookies@);
    let google_com = chars_of("google.com");
    let dot_google = chars_of(".google.");
    let exact = owned(".google.com");
    let mut jar: Vec<(String, String)> = Vec::new();
    let mut i: usize = 0;
    while i < cookies.len()
        invariant
            i <= cookies@.len(),
            cs == models(cookies@),
            google_com@ == "google.com"@,
            dot_google@ == ".google."@,
            exact@ == ".google.com"@,
            jar_view(jar@) == cookie_jar(cs.take(i as int)),
        decreases cookies@.len() - i,
    {
        assert(cs.take(i + 1).drop_last() =~= cs.take(i as int));
        assert(cs.take(i + 1).last() == cookies@[i as int].model());
        let c = &cookies[i];
        let domain = text_or_empty(c.get_key("domain"));
        let name = text_or_empty(c.get_key("name"));
        let value = text_or_empty(c.get_key("value"));
        let dc = chars_of(domain.as_str());
        let google = contains_chars(&dc, &google_com) || contains_chars(&dc, &dot_google);
        if google {
            let ghost before = jar_view(jar@);
            match jar_find(&jar, &name) {
                Some(pos) => {
                    if domain == exact {
                        let ghost nv = (name@, value@);
                        jar.set(pos, (name, value));
                        assert(jar_view(jar@) =~= before.update(pos as int, nv));
                    }
                },
                None => {
                    jar.push((name, value));
                    assert(jar_view(jar@) =~= before.push((name@, value@)));
                },
            }
        }
        i = i + 1;
    }
    assert(cs.take(cookies@.len() as int) =~= cs);
    let sid = owned("SID");
    if jar_find(&jar, &sid).is_none() {
        return Err(NotebookLmError::SidCookieMissing);
    }
    let mut parts: Vec<String> = Vec::new();
    let mut k: usize = 0;
    while k < jar.len()
        invariant
            k <= jar@.len(),
            parts@.len() == k,
            forall|j: int| 0 <= j < k ==> #[trigger] parts@[j]@ == jar@[j].0@ + "="@ + jar@[j].1@,
        decreases jar@.len() - k,
    {
        let mut p = owned(jar[k].0.as_str());
        p.append("=");
        p.append(jar[k].1.as_str());
        parts.push(p);
        k = k + 1;
    }
    let header = join_strings(&parts, "; ");
    assert(parts@.map_values(|p: String| p@) =~= jar_view(jar@).map_values(|p: (Seq<char>, Seq<char>)| p.0 + "="@ + p.1));
    Ok(header)
}

// ---------------------------------------------------------------------------
// Building requests
// ---------------------------------------------------------------------------

/// The model of the JSON number `n`.
pub open spec fn jnum(n: nat) -> Json {
    Json::Number(decimal_spec(n))
}

/// `n` as a JSON number.
pub fn jnumber(n: u64) -> (r: JsonValue)
    ensures
        r.model() == jnum(n as nat),
{
    JsonValue::Number(decimal(n))
}

/// A JSON array of the given elements.
pub fn jarray(v: Vec<JsonValue>) -> (r: JsonValue)
    ensures
        r.model() == Json::Array(models(v@)),
{
    proof {
        lemma_array_model(v);
    }
    JsonValue::Array(v)
}

/// Parameters of the list call: `[null, 1, null, [2]]`.
pub fn list_notebooks_params() -> (r: JsonValue)
    ensures
        r.model() == Json::Array(seq![Json::Null, jnum(1), Json::Null, Json::Array(seq![jnum(2)])]),
{
    let inner = vec![jnumber(2)];
    assert(models(inner@) =~= seq![jnum(2)]);
    let two = jarray(inner);
    let v = vec![JsonValue::Null, jnumber(1), JsonValue::Null, two];
    assert(models(v@) =~= seq![Json::Null, jnum(1), Json::Null, Json::Array(seq![jnum(2)])]);
    jarray(v)
}


/// Parameters of the create call: `[title, null, null, [2], [1]]`.
pub fn create_notebook_params(title: &str) -> (r: JsonValue)
    ensures
        r.model() == Json::Array(seq![
            Json::Str(title@), Json::Null, Json::Null, Json::Array(seq![jnum(2)]), Json::Array(seq![jnum(1)]),
        ]),
{
    let a = vec![jnumber(2)];
    assert(models(a@) =~= seq![jnum(2)]);
    let b = vec![jnumber(1)];
    assert(models(b@) =~= seq![jnum(1)]);
    let v = vec![jstring(title), JsonValue::Null, JsonValue::Null, jarray(a), jarray(b)];
    assert(models(v@) =~= seq![
        Json::Str(title@), Json::Null, Json::Null, Json::Array(seq![jnum(2)]), Json::Array(seq![jnum(1)]),
    ]);
    jarray(v)
}

/// Parameters of the delete call: `[notebook_id]`.
pub fn delete_notebook_params(notebook_id: &str) -> (r: JsonValue)
    ensures
        r.model() == Json::Array(seq![Json::Str(notebook_id@)]),
{
    let v = vec![jstring(notebook_id)];
    assert(models(v@) =~= seq![Json::Str(notebook_id@)]);
    jarray(v)
}

/// Parameters of the summarize call: `[notebook_id, [2]]`.
pub fn summarize_params(notebook_id: &str) -> (r: JsonValue)
    ensures
        r.model() == Json::Array(seq![Json::Str(notebook_id@), Json::Array(seq![jnum(2)])]),
{
    let a = vec![jnumber(2)];
    assert(models(a@) =~= seq![jnum(2)]);
    let v = vec![jstring(notebook_id), jarray(a)];
    assert(models(v@) =~= seq![Json::Str(notebook_id@), Json::Array(seq![jnum(2)])]);
    jarray(v)
}

/// Parameters of the add-source call: `[notebook_id, 1, null, [url]]`.
pub fn add_source_params(notebook_id: &str, url: &str) -> (r: JsonValue)
    ensures
        r.model() == Json::Array(seq![
            Json::Str(notebook_id@), jnum(1), Json::Null, Json::Array(seq![Json::Str(url@)]),
        ]),
{
    let a = vec![jstring(url)];
    assert(models(a@) =~= seq![Json::Str(url@)]);
    let v = vec![jstring(notebook_id), jnumber(1), JsonValue::Null, jarray(a)];
    assert(models(v@) =~= seq![Json::Str(notebook_id@), jnum(1), Json::Null, Json::Array(seq![Json::Str(url@)])]);
    jarray(v)
}

/// The request envelope of an RPC call: `[[method, params_json, null, "generic"]]`,
/// where `params_json` is the JSON text of the parameters.
pub fn rpc_envelope(method: &str, params_json: &str) -> (r: JsonValue)
    ensures
        r.model() == Json::Array(seq![Json::Array(seq![
            Json::Str(method@), Json::Str(params_json@), Json::Null, Json::Str("generic"@),
        ])]),
{
    let inner = vec![jstring(method), jstring(params_json), JsonValue::Null, jstring("generic")];
    assert(models(inner@) =~= seq![Json::Str(method@), Json::Str(params_json@), Json::Null, Json::Str("generic"@)]);
    let ghost im = Json::Array(models(inner@));
    let outer = vec![jarray(inner)];
    assert(models(outer@) =~= seq![im]);
    jarray(outer)
}

/// Parameters of a chat question:
/// `[[], question, null, [2, null, [1], [1]], null, null, null, notebook_id, 1]`.
pub fn chat_params(notebook_id: &str, question: &str) -> (r: JsonValue)
    ensures
        r.model() == Json::Array(seq![
            Json::Array(seq![]), Json::Str(question@), Json::Null,
            Json::Array(seq![jnum(2), Json::Null, Json::Array(seq![jnum(1)]), Json::Array(seq![jnum(1)])]),
            Json::Null, Json::Null, Json::Null, Json::Str(notebook_id@), jnum(1),
        ]),
{
    let empty: Vec<JsonValue> = Vec::new();
    assert(models(empty@) =~= Seq::<Json>::empty());
    let one_a = vec![jnumber(1)];
    assert(models(one_a@) =~= seq![jnum(1)]);
    let one_b = vec![jnumber(1)];
    assert(models(one_b@) =~= seq![jnum(1)]);
    let mode = vec![jnumber(2), JsonValue::Null, jarray(one_a), jarray(one_b)];
    assert(models(mode@) =~= seq![jnum(2), Json::Null, Json::Array(seq![jnum(1)]), Json::Array(seq![jnum(1)])]);
    let v = vec![
        jarray(empty), jstring(question), JsonValue::Null, jarray(mode),
        JsonValue::Null, JsonValue::Null, JsonValue::Null, jstring(notebook_id), jnumber(1),
    ];
    assert(models(v@) =~= seq![
        Json::Array(seq![]), Json::Str(question@), Json::Null,
        Json::Array(seq![jnum(2), Json::Null, Json::Array(seq![jnum(1)]), Json::Array(seq![jnum(1)])]),
        Json::Null, Json::Null, Json::Null, Json::Str(notebook_id@), jnum(1),
    ]);
    jarray(v)
}

/// The request envelope of a chat question: `[null, params_json]`.
pub fn chat_envelope(params_json: &str) -> (r: JsonValue)
    ensures
        r.model() == Json::Array(seq![Json::Null, Json::Str(params_json@)]),
{
    let v = vec![JsonValue::Null, jstring(params_json)];
    assert(models(v@) =~= seq![Json::Null, Json::Str(params_json@)]);
    jarray(v)
}

/// The form body of a call: `f.req=` and the encoded request, then `&at=` and
/// the encoded CSRF token when there is one, then `&`.
pub open spec fn form_body_spec(f_req: Seq<char>, csrf: Seq<char>) -> Seq<char> {
    let head = "f.req="@ + url_encoded(f_req);
    let with_token = if csrf.len() > 0 { head + "&at="@ + url_encoded(csrf) } else { head };
    with_token + "&"@
}

/// Builds the form body of a call.
pub fn form_body(f_req: &str, csrf_token: &str) -> (r: String)
    ensures
        r@ == form_body_spec(f_req@, csrf_token@),
{
    let mut body = owned("f.req=");
    body.append(url_encode(f_req).as_str());
    if !csrf_token.is_empty() {
        body.append("&at=");
        body.append(url_encode(csrf_token).as_str());
    }
    body.append("&");
    body
}

/// The URL of an RPC call.
pub open spec fn rpc_url_spec(method: Seq<char>, source_path: Seq<char>, session_id: Seq<char>) -> Seq<char> {
    BATCHEXECUTE_URL@ + "?rpcids="@ + url_encoded(method) + "&source-path="@ + url_encoded(source_path)
        + "&f.sid="@ + url_encoded(session_id) + "&rt=c"@
}

/// Builds the URL of an RPC call.
pub fn rpc_url(method: &str, source_path: &str, session_id: &str) -> (r: String)
    ensures
        r@ == rpc_url_spec(method@, source_path@, session_id@),
{
    let mut u = owned(BATCHEXECUTE_URL);
    u.append("?rpcids=");
    u.append(url_encode(method).as_str());
    u.append("&source-path=");
    u.append(url_encode(source_path).as_str());
    u.append("&f.sid=");
    u.append(url_encode(session_id).as_str());
    u.append("&rt=c");
    u
}

/// The URL of a chat question.
pub open spec fn chat_url_spec(reqid: nat, session_id: Seq<char>) -> Seq<char> {
    CHAT_URL@ + "?hl=en&_reqid="@ + decimal_spec(reqid) + "&rt=c&f.sid="@ + url_encoded(session_id)
}

/// Builds the URL of a chat question.
pub fn chat_url(reqid: u32, session_id: &str) -> (r: String)
    ensures
        r@ == chat_url_spec(reqid as nat, session_id@),
{
    let mut u = owned(CHAT_URL);
    u.append("?hl=en&_reqid=");
    u.append(decimal(reqid as u64).as_str());
    u.append("&rt=c&f.sid=");
    u.append(url_encode(session_id).as_str());
    u
}

/// The request id that a drawn number gives: its remainder modulo one
/// million.
pub fn request_id_from(x: u32) -> (r: u32)
    ensures
        r == x % 1_000_000,
{
    x % 1_000_000
}

/// A request id for a chat question: a random number below one million.
pub fn chat_request_id() -> (r: u32)
    ensures
        r < 1_000_000,
{
    request_id_from(random_u32())
}

/// The source path of calls about one notebook: `/notebook/{id}`.
pub fn notebook_source_path(notebook_id: &str) -> (r: String)
    ensures
        r@ == "/notebook/"@ + notebook_id@,
{
    concat2("/notebook/", notebook_id)
}

/// The value of a call's result: `null` when missing, the parsed text (or the
/// text itself, as a string, when `parsed` is `None` because it did not
/// parse), or the value as it came.
pub fn rpc_result_value(r: RpcResult, parsed: Option<JsonValue>) -> (v: JsonValue)
    ensures
        match r {
            RpcResult::Missing => v.model() == Json::Null,
            RpcResult::Text(t) => match parsed {
                Some(p) => v.model() == p.model(),
                None => v.model() == Json::Str(t@),
            },
            RpcResult::Value(x) => v.model() == x.model(),
        },
{
    match r {
        RpcResult::Missing => JsonValue::Null,
        RpcResult::Text(t) => match parsed {
            Some(p) => p,
            None => JsonValue::String(t),
        },
        RpcResult::Value(x) => x,
    }
}

} // verus!
