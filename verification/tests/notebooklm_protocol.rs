use gws_mcp::json::JsonValue;
use gws_mcp::notebooklm::{
    add_source_params, best_chat_answer, chat_params, chat_payload_texts, chat_request_id, chat_url,
    chunked_response_candidates, cookie_header, create_notebook_params, created_notebook,
    extract_js_key, extract_rpc_result, form_body, list_notebooks_params, notebook_source_path,
    notebooks_from_result, request_id_from, rpc_envelope, rpc_result_value, rpc_url, session_tokens, storage_path,
    summary_text, NotebookLmError, RpcResult,
};
use gws_mcp::ports::NotebookLmEntry;

fn s(t: &str) -> String {
    t.to_string()
}

fn js(t: &str) -> JsonValue {
    JsonValue::String(s(t))
}

fn num(t: &str) -> JsonValue {
    JsonValue::Number(s(t))
}

fn arr(v: Vec<JsonValue>) -> JsonValue {
    JsonValue::Array(v)
}

fn obj(members: Vec<(&str, JsonValue)>) -> JsonValue {
    JsonValue::Object(members.into_iter().map(|(k, v)| (s(k), v)).collect())
}

#[test]
fn js_key_extraction() {
    let html = r#"<script>WIZ_global_data = {"SNlM0e":"csrf123","FdrFJe":"-456","x":"y"};</script>"#;
    assert_eq!(extract_js_key(html, "SNlM0e"), Some(s("csrf123")));
    assert_eq!(extract_js_key(html, "FdrFJe"), Some(s("-456")));
    assert_eq!(extract_js_key(html, "missing"), None);
    assert_eq!(extract_js_key(r#"{"k":"unterminated"#, "k"), None);
    assert_eq!(extract_js_key(r#"{"k":"","k":"second"}"#, "k"), Some(s("")));
}

#[test]
fn session_tokens_need_both_keys() {
    let ok = session_tokens(r#"{"SNlM0e":"c","FdrFJe":"s"}"#, s("SID=1"));
    let t = ok.unwrap();
    assert_eq!(t.csrf_token, "c");
    assert_eq!(t.session_id, "s");
    assert_eq!(t.cookie_header, "SID=1");
    assert_eq!(session_tokens(r#"{"FdrFJe":"s"}"#, s("")), Err(NotebookLmError::CsrfTokenMissing));
    assert_eq!(session_tokens(r#"{"SNlM0e":"c"}"#, s("")), Err(NotebookLmError::SessionIdMissing));
}

#[test]
fn chunked_response_splitting() {
    let text = ")]}'\n\n123\n[[\"wrb.fr\",\"abc\",\"[1]\"]]\n  \n[\"di\",5]\n7\n[1]\n";
    assert_eq!(
        chunked_response_candidates(text),
        vec![s("[[\"wrb.fr\",\"abc\",\"[1]\"]]"), s("[\"di\",5]"), s("[1]")]
    );
    assert_eq!(chunked_response_candidates("  [1]  "), vec![s("[1]")]);
    assert_eq!(chunked_response_candidates("5"), Vec::<String>::new());
    assert_eq!(chunked_response_candidates(""), Vec::<String>::new());
}

#[test]
fn rpc_result_found_as_text() {
    let chunks = vec![arr(vec![arr(vec![js("wrb.fr"), js("abc"), js("[1,2]")])])];
    assert_eq!(extract_rpc_result(&chunks, "abc"), Ok(RpcResult::Text(s("[1,2]"))));
    assert_eq!(extract_rpc_result(&chunks, "other"), Ok(RpcResult::Missing));
}

#[test]
fn rpc_result_value_and_error() {
    let flat = vec![arr(vec![js("wrb.fr"), js("abc"), num("7")])];
    assert_eq!(extract_rpc_result(&flat, "abc"), Ok(RpcResult::Value(num("7"))));
    let err = vec![arr(vec![arr(vec![js("er"), js("abc"), num("3")])]), arr(vec![js("wrb.fr"), js("abc"), js("x")])];
    assert_eq!(extract_rpc_result(&err, "abc"), Err(NotebookLmError::RpcFailed(num("3"))));
    let short = vec![arr(vec![js("wrb.fr"), js("abc")]), JsonValue::Null, js("abc")];
    assert_eq!(extract_rpc_result(&short, "abc"), Ok(RpcResult::Missing));
}

#[test]
fn rpc_result_values() {
    assert_eq!(rpc_result_value(RpcResult::Missing, None), JsonValue::Null);
    assert_eq!(rpc_result_value(RpcResult::Text(s("[1]")), Some(arr(vec![num("1")]))), arr(vec![num("1")]));
    assert_eq!(rpc_result_value(RpcResult::Text(s("not json")), None), js("not json"));
    assert_eq!(rpc_result_value(RpcResult::Value(num("2")), None), num("2"));
}

#[test]
fn chat_payloads_and_longest_answer() {
    let chunks = vec![
        arr(vec![arr(vec![js("wrb.fr"), JsonValue::Null, js("p1")]), arr(vec![js("di"), num("1"), js("zz")])]),
        js("ignored"),
        arr(vec![arr(vec![js("wrb.fr"), JsonValue::Null, js("p2")])]),
    ];
    assert_eq!(chat_payload_texts(&chunks), vec![s("p1"), s("p2")]);
    let parsed = vec![
        Some(arr(vec![arr(vec![js("short")])])),
        None,
        Some(arr(vec![arr(vec![js("the longest answer")])])),
        Some(arr(vec![arr(vec![js("mid answer")])])),
        Some(arr(vec![num("1")])),
    ];
    assert_eq!(best_chat_answer(&parsed), "the longest answer");
    assert_eq!(best_chat_answer(&vec![None, Some(JsonValue::Null)]), "No answer received.");
    let ties = vec![Some(arr(vec![arr(vec![js("abc")])])), Some(arr(vec![arr(vec![js("xyz")])]))];
    assert_eq!(best_chat_answer(&ties), "abc");
}

#[test]
fn notebooks_listing() {
    let nested = arr(vec![arr(vec![
        arr(vec![js("id1"), js("T1"), js("2024")]),
        arr(vec![js("id2")]),
        num("5"),
    ])]);
    assert_eq!(
        notebooks_from_result(&nested),
        vec![
            NotebookLmEntry { id: s("id1"), title: s("T1"), created_at: Some(s("2024")) },
            NotebookLmEntry { id: s("id2"), title: s(""), created_at: None },
        ]
    );
    let flat = arr(vec![num("1"), arr(vec![js("id3"), js("T3")])]);
    assert_eq!(notebooks_from_result(&flat), vec![NotebookLmEntry { id: s("id3"), title: s("T3"), created_at: None }]);
    assert_eq!(notebooks_from_result(&JsonValue::Null), vec![]);
}

#[test]
fn created_notebook_entry() {
    assert_eq!(
        created_notebook(&arr(vec![js("nid")]), "My title"),
        Ok(NotebookLmEntry { id: s("nid"), title: s("My title"), created_at: None })
    );
    assert_eq!(
        created_notebook(&arr(vec![js("nid"), js("Server title")]), "Mine"),
        Ok(NotebookLmEntry { id: s("nid"), title: s("Server title"), created_at: None })
    );
    assert_eq!(created_notebook(&js("x"), "t"), Err(NotebookLmError::UnexpectedCreateResponse));
}

#[test]
fn summary_navigation() {
    assert_eq!(summary_text(&arr(vec![arr(vec![arr(vec![js("A summary")])])])), "A summary");
    assert_eq!(summary_text(&arr(vec![])), "No summary available.");
}

#[test]
fn cookie_header_prefers_dot_google_com() {
    let state = obj(vec![(
        "cookies",
        arr(vec![
            obj(vec![("domain", js("accounts.google.com")), ("name", js("SID")), ("value", js("a"))]),
            obj(vec![("domain", js(".google.com")), ("name", js("SID")), ("value", js("b"))]),
            obj(vec![("domain", js("accounts.google.com")), ("name", js("SID")), ("value", js("c"))]),
            obj(vec![("domain", js("example.com")), ("name", js("X")), ("value", js("no"))]),
            obj(vec![("domain", js("notebooklm.google.de")), ("name", js("HSID")), ("value", js("h"))]),
        ]),
    )]);
    assert_eq!(cookie_header(&state), Ok(s("SID=b; HSID=h")));
}

#[test]
fn cookie_header_errors() {
    assert_eq!(cookie_header(&obj(vec![])), Err(NotebookLmError::NoCookiesArray));
    let no_sid = obj(vec![("cookies", arr(vec![obj(vec![("domain", js(".google.com")), ("name", js("HSID")), ("value", js("h"))])]))]);
    assert_eq!(cookie_header(&no_sid), Err(NotebookLmError::SidCookieMissing));
}

#[test]
fn rpc_framing() {
    assert_eq!(list_notebooks_params(), arr(vec![JsonValue::Null, num("1"), JsonValue::Null, arr(vec![num("2")])]));
    assert_eq!(
        create_notebook_params("T"),
        arr(vec![js("T"), JsonValue::Null, JsonValue::Null, arr(vec![num("2")]), arr(vec![num("1")])])
    );
    assert_eq!(
        add_source_params("n", "https://u"),
        arr(vec![js("n"), num("1"), JsonValue::Null, arr(vec![js("https://u")])])
    );
    assert_eq!(
        rpc_envelope("wXbhsf", "[1]"),
        arr(vec![arr(vec![js("wXbhsf"), js("[1]"), JsonValue::Null, js("generic")])])
    );
    assert_eq!(form_body("F R", "tok"), "f.req=F%20R&at=tok&");
    assert_eq!(form_body("F", ""), "f.req=F&");
    assert_eq!(
        rpc_url("wXbhsf", "/notebook/a b", "-1"),
        "https://notebooklm.google.com/_/LabsTailwindUi/data/batchexecute?rpcids=wXbhsf&source-path=%2Fnotebook%2Fa%20b&f.sid=-1&rt=c"
    );
    assert_eq!(notebook_source_path("abc"), "/notebook/abc");
}

#[test]
fn chat_framing() {
    assert_eq!(
        chat_params("nb", "Why?"),
        arr(vec![
            arr(vec![]),
            js("Why?"),
            JsonValue::Null,
            arr(vec![num("2"), JsonValue::Null, arr(vec![num("1")]), arr(vec![num("1")])]),
            JsonValue::Null,
            JsonValue::Null,
            JsonValue::Null,
            js("nb"),
            num("1"),
        ])
    );
    assert!(chat_url(42, "s").ends_with("/GenerateFreeFormStreamed?hl=en&_reqid=42&rt=c&f.sid=s"));
    for _ in 0..20 {
        assert!(chat_request_id() < 1_000_000);
    }
}

#[test]
fn cookie_state_location() {
    assert_eq!(storage_path(Some(s("/home/u"))), "/home/u/.notebooklm/storage_state.json");
    assert_eq!(storage_path(None), "./.notebooklm/storage_state.json");
}

#[test]
fn request_id_is_the_drawn_number_modulo_a_million() {
    assert_eq!(request_id_from(1_234_567), 234_567);
    assert_eq!(request_id_from(999_999), 999_999);
    assert_eq!(request_id_from(u32::MAX), 967_295);
    assert_eq!(request_id_from(0), 0);
}
