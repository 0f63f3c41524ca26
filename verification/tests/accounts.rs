use base64::Engine;
use gws_mcp::auth::{
    account_email, authorization_url, callback_code, default_scopes, email_claim, expiry_after,
    jwt_payload, needs_userinfo, storage_dir_for, AuthError, StoredToken, TokenAccess, TokenStore,
    UtcTime, MAX_UTC_SECS, REDIRECT_URI,
};
use gws_mcp::json::JsonValue;

fn s(t: &str) -> String {
    t.to_string()
}

fn at(secs: i64) -> UtcTime {
    UtcTime { secs, nanos: 0 }
}

fn token(email: &str, access: &str, refresh: Option<&str>, expires_at: Option<i64>) -> StoredToken {
    StoredToken {
        access_token: s(access),
        refresh_token: refresh.map(s),
        expires_at: expires_at.map(at),
        email: s(email),
        scopes: vec![s("openid")],
    }
}

fn store(loaded: Vec<StoredToken>) -> TokenStore {
    TokenStore::new(s("cid"), s("secret"), s("/cfg/google-workspace-mcp/accounts"), loaded)
}

#[test]
fn token_without_expiry_is_expired() {
    let t = token("a@x.com", "at", None, None);
    assert!(t.is_expired());
    assert!(t.is_expired_at(at(0)));
}

#[test]
fn token_expiry_boundary() {
    let t = token("a@x.com", "at", None, Some(1000));
    assert!(!t.is_expired_at(at(999)));
    assert!(t.is_expired_at(at(1000)));
    assert!(t.is_expired_at(at(1001)));
    let far = token("a@x.com", "at", None, Some(i64::MAX));
    assert!(!far.is_expired());
    let past = token("a@x.com", "at", None, Some(1));
    assert!(past.is_expired());
}

#[test]
fn insert_then_get_gives_the_token() {
    let mut st = store(vec![]);
    st.insert(token("a@x.com", "one", None, Some(5)));
    assert_eq!(st.get("a@x.com").unwrap().access_token, "one");
    assert!(st.get("b@x.com").is_none());
}

#[test]
fn insert_replaces_the_accounts_earlier_token() {
    let mut st = store(vec![token("a@x.com", "one", None, None), token("b@x.com", "two", None, None)]);
    st.insert(token("a@x.com", "three", None, None));
    assert_eq!(st.get("a@x.com").unwrap().access_token, "three");
    assert_eq!(st.get("b@x.com").unwrap().access_token, "two");
    assert_eq!(st.list_accounts().len(), 2);
}

#[test]
fn loading_keeps_the_last_token_of_an_account() {
    let st = store(vec![
        token("a@x.com", "old", None, None),
        token("b@x.com", "b", None, None),
        token("a@x.com", "new", None, None),
    ]);
    assert_eq!(st.get("a@x.com").unwrap().access_token, "new");
    assert_eq!(st.list_accounts().len(), 2);
}

#[test]
fn remove_forgets_only_that_account() {
    let mut st = store(vec![token("a@x.com", "one", None, None), token("b@x.com", "two", None, None)]);
    assert!(st.remove("a@x.com"));
    assert!(st.get("a@x.com").is_none());
    assert_eq!(st.get("b@x.com").unwrap().access_token, "two");
    assert!(!st.remove("a@x.com"));
}

#[test]
fn access_decision_cases() {
    let st = store(vec![
        token("valid@x.com", "fresh", Some("r1"), Some(2000)),
        token("old@x.com", "stale", Some("r2"), Some(1000)),
        token("dead@x.com", "stale", None, Some(1000)),
    ]);
    assert_eq!(st.access_decision("valid@x.com", at(1500)), Ok(TokenAccess::Valid(s("fresh"))));
    assert_eq!(st.access_decision("old@x.com", at(1500)), Ok(TokenAccess::NeedsRefresh(s("r2"))));
    assert_eq!(st.access_decision("dead@x.com", at(1500)), Err(AuthError::NoValidToken(s("dead@x.com"))));
    assert_eq!(st.access_decision("nobody@x.com", at(1500)), Err(AuthError::NoValidToken(s("nobody@x.com"))));
}

#[test]
fn get_access_token_now() {
    let st = store(vec![token("a@x.com", "at", Some("rt"), Some(i64::MAX)), token("b@x.com", "bt", Some("rb"), Some(0))]);
    assert_eq!(st.get_access_token("a@x.com"), Ok(TokenAccess::Valid(s("at"))));
    assert_eq!(st.get_access_token("b@x.com"), Ok(TokenAccess::NeedsRefresh(s("rb"))));
}

#[test]
fn refresh_and_exchange_forms() {
    let st = store(vec![]);
    assert_eq!(
        st.refresh_form("rt"),
        vec![
            (s("client_id"), s("cid")),
            (s("client_secret"), s("secret")),
            (s("refresh_token"), s("rt")),
            (s("grant_type"), s("refresh_token")),
        ]
    );
    assert_eq!(
        st.exchange_form("the-code", REDIRECT_URI),
        vec![
            (s("code"), s("the-code")),
            (s("client_id"), s("cid")),
            (s("client_secret"), s("secret")),
            (s("redirect_uri"), s("http://localhost:8000/oauth2callback")),
            (s("grant_type"), s("authorization_code")),
        ]
    );
}

#[test]
fn apply_refresh_updates_only_access_and_expiry() {
    let mut st = store(vec![token("a@x.com", "old", Some("rt"), Some(1))]);
    assert!(st.apply_refresh("a@x.com", s("new"), Some(at(99))));
    let t = st.get("a@x.com").unwrap();
    assert_eq!(t.access_token, "new");
    assert_eq!(t.expires_at, Some(at(99)));
    assert_eq!(t.refresh_token, Some(s("rt")));
    assert!(!st.apply_refresh("z@x.com", s("n"), None));
    assert!(st.get("z@x.com").is_none());
}

#[test]
fn account_status_and_listing() {
    let st = store(vec![token("a@x.com", "at", None, Some(10)), token("b@x.com", "bt", None, None)]);
    let infos = st.list_accounts_at(at(5));
    assert_eq!(infos.len(), 2);
    assert_eq!(infos[0].email, "a@x.com");
    assert!(infos[0].token_valid);
    assert_eq!(infos[0].display_name, None);
    assert_eq!(infos[0].scopes, vec![s("openid")]);
    assert!(!infos[1].token_valid);
    let a = st.account_status_at("a@x.com", at(20)).unwrap();
    assert!(!a.token_valid);
    assert_eq!(st.account_status("zz@x.com"), Err(AuthError::AccountNotFound));
    assert_eq!(st.account_status_at("zz@x.com", at(0)), Err(AuthError::AccountNotFound));
}

#[test]
fn token_file_names() {
    let mut st = store(vec![token("first.last@example.com", "at", None, None)]);
    assert_eq!(st.token_path("first.last@example.com"), "/cfg/google-workspace-mcp/accounts/first_last_at_example_com.json");
    let path = st.remove_account("first.last@example.com");
    assert_eq!(path, "/cfg/google-workspace-mcp/accounts/first_last_at_example_com.json");
    assert!(st.get("first.last@example.com").is_none());
}

#[test]
fn storage_directory() {
    assert_eq!(storage_dir_for(Some(s("/home/u/.config"))), "/home/u/.config/google-workspace-mcp/accounts");
    assert_eq!(storage_dir_for(None), "./google-workspace-mcp/accounts");
}

#[test]
fn default_scope_list_is_complete() {
    let d = default_scopes();
    assert_eq!(d.len(), 15);
    assert_eq!(d[0], "https://www.googleapis.com/auth/gmail.modify");
    assert_eq!(d[14], "profile");
}

#[test]
fn consent_url_is_percent_encoded() {
    let u = authorization_url("my id", "http://localhost:8000/oauth2callback", "openid email", "s-1");
    assert_eq!(
        u,
        "https://accounts.google.com/o/oauth2/v2/auth?client_id=my%20id&redirect_uri=http%3A%2F%2Flocalhost%3A8000%2Foauth2callback&response_type=code&scope=openid%20email&access_type=offline&prompt=consent&state=s-1"
    );
}

#[test]
fn start_authenticate_uses_default_scopes_and_a_fresh_state() {
    let st = store(vec![]);
    let start = st.start_authenticate(None);
    assert_eq!(start.scopes, default_scopes());
    assert_eq!(start.redirect_uri, REDIRECT_URI);
    assert_eq!(start.state.len(), 36);
    assert!(start.auth_url.starts_with("https://accounts.google.com/o/oauth2/v2/auth?client_id=cid&redirect_uri=http%3A%2F%2Flocalhost%3A8000%2Foauth2callback&response_type=code&scope=https%3A%2F%2Fwww.googleapis.com%2Fauth%2Fgmail.modify%20"));
    assert!(start.auth_url.ends_with(&format!("&state={}", start.state)));
    let other = st.start_authenticate(Some(vec![s("email")]));
    assert_eq!(other.scopes, vec![s("email")]);
    assert!(other.auth_url.contains("&scope=email&"));
}

#[test]
fn expiry_is_seconds_after_now() {
    let now = UtcTime { secs: 1_000, nanos: 123_456_789 };
    assert_eq!(expiry_after(now, Some(3600)), Some(UtcTime { secs: 4_600, nanos: 123_456_789 }));
    assert_eq!(expiry_after(now, None), None);
}

#[test]
fn callback_code_from_request_line() {
    let req = "GET /oauth2callback?state=abc&code=4%2F0Ab%20c&scope=x HTTP/1.1\r\nHost: localhost:8000\r\n\r\n";
    assert_eq!(callback_code(req), Some(s("4/0Ab c")));
    assert_eq!(callback_code("GET /oauth2callback?error=access_denied HTTP/1.1\r\n"), None);
    assert_eq!(callback_code(""), None);
    assert_eq!(callback_code("GET\r\n"), None);
}

#[test]
fn email_from_claims_and_fallbacks() {
    let claims = JsonValue::Object(vec![(s("email"), JsonValue::String(s("me@x.com"))), (s("sub"), JsonValue::Number(s("1")))]);
    assert_eq!(email_claim(&claims), Some(s("me@x.com")));
    assert_eq!(email_claim(&JsonValue::Object(vec![(s("email"), JsonValue::Number(s("3")))])), None);
    assert_eq!(email_claim(&JsonValue::Null), None);
    assert!(needs_userinfo(&None));
    assert!(needs_userinfo(&Some(s(""))));
    assert!(!needs_userinfo(&Some(s("a@b.c"))));
    assert_eq!(account_email(Some(s("a@b.c")), None), "a@b.c");
    assert_eq!(account_email(Some(s("")), Some(s("u@b.c"))), "u@b.c");
    assert_eq!(account_email(None, None), "unknown_account@gmail.com");
}

#[test]
fn jwt_payload_decodes_the_middle_part() {
    let payload = base64::engine::general_purpose::URL_SAFE_NO_PAD.encode(br#"{"email":"me@x.com"}"#);
    let jwt = format!("hdr.{}.sig", payload);
    assert_eq!(jwt_payload(&jwt), Some(br#"{"email":"me@x.com"}"#.to_vec()));
    assert_eq!(jwt_payload("no-dots"), None);
    assert_eq!(jwt_payload("a.!!!.c"), None);
}

#[test]
fn expiry_compares_to_the_nanosecond() {
    let mut t = token("a@x.com", "at", None, None);
    t.expires_at = Some(UtcTime { secs: 10, nanos: 500 });
    assert!(!t.is_expired_at(UtcTime { secs: 10, nanos: 499 }));
    assert!(t.is_expired_at(UtcTime { secs: 10, nanos: 500 }));
    assert!(!t.is_expired_at(UtcTime { secs: 9, nanos: 999_999_999 }));
    assert!(t.is_expired_at(UtcTime { secs: 11, nanos: 0 }));
}

#[test]
fn expiry_up_to_the_last_representable_second() {
    let now = UtcTime { secs: MAX_UTC_SECS - 10, nanos: 5 };
    assert_eq!(expiry_after(now, Some(10)), Some(UtcTime { secs: MAX_UTC_SECS, nanos: 5 }));
}

#[test]
fn scopes_of_a_stored_account() {
    let st = store(vec![token("a@x.com", "at", Some("rt"), Some(10))]);
    assert_eq!(st.account_scopes("a@x.com"), Ok(vec![s("openid")]));
    assert_eq!(st.account_scopes("zz@x.com"), Err(AuthError::AccountNotFound));
}

#[test]
fn refresh_on_request_needs_a_refresh_token() {
    let st = store(vec![token("a@x.com", "at", Some("rt"), Some(i64::MAX)), token("b@x.com", "bt", None, None)]);
    assert_eq!(st.refresh_token_for("a@x.com"), Ok(s("rt")));
    assert_eq!(st.refresh_token_for("b@x.com"), Err(AuthError::NoValidToken(s("b@x.com"))));
    assert_eq!(st.refresh_token_for("zz@x.com"), Err(AuthError::AccountNotFound));
}
