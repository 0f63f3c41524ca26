//! OAuth accounts: stored tokens, the decisions around them, and the
//! authorization-code flow's requests.
use vstd::prelude::*;
use vstd::string::StringExecFns;
use crate::text::{
    chars_of, char_vec_views, copy_strings, first_index, join_spec, join_strings,
    lemma_first_index, lemma_first_index_is, lines_of, lines_spec, owned, path_join, path_join_spec,
    replace_char, replace_char_spec, split_char, split_spec, string_of, string_views, words_of,
    words_spec,
};
use crate::json::{JsonValue, jfield, opt_str, opt_view};
use crate::outside::{
    base64_url_decode, base64_url_nopad, is_uuid_v4_text, new_uuid, now_utc, pairs_view, query_pairs, url_encode,
    url_encoded, url_query_pairs,
};

verus! {

/// The redirect URI that the local callback listener serves.
pub const REDIRECT_URI: &'static str = "http://localhost:8000/oauth2callback";

/// The origin that the callback request's path is resolved against.
pub const CALLBACK_ORIGIN: &'static str = "http://localhost:8000";

/// Google's OAuth token endpoint.
pub const TOKEN_URL: &'static str = "https://oauth2.googleapis.com/token";

/// Google's user-info endpoint.
pub const USERINFO_URL: &'static str = "https://www.googleapis.com/oauth2/v2/userinfo";

/// The scopes asked for when none are given: every Workspace app, plus the
/// OpenID identity scopes.
pub open spec fn default_scope_list() -> Seq<Seq<char>> {
    seq![
        "https://www.googleapis.com/auth/gmail.modify"@,
        "https://www.googleapis.com/auth/gmail.send"@,
        "https://www.googleapis.com/auth/calendar"@,
        "https://www.googleapis.com/auth/drive"@,
        "https://www.googleapis.com/auth/documents"@,
        "https://www.googleapis.com/auth/spreadsheets"@,
        "https://www.googleapis.com/auth/presentations"@,
        "https://www.googleapis.com/auth/forms.body.readonly"@,
        "https://www.googleapis.com/auth/forms.responses.readonly"@,
        "https://www.googleapis.com/auth/tasks"@,
        "https://www.googleapis.com/auth/meetings.space.readonly"@,
        "https://www.googleapis.com/auth/photoslibrary.readonly"@,
        "openid"@,
        "email"@,
        "profile"@,
    ]
}

/// The default scopes.
pub fn default_scopes() -> (r: Vec<String>)
    ensures
        string_views(r@) == default_scope_list(),
{
    let r = vec![
        owned("https://www.googleapis.com/auth/gmail.modify"),
        owned("https://www.googleapis.com/auth/gmail.send"),
        owned("https://www.googleapis.com/auth/calendar"),
        owned("https://www.googleapis.com/auth/drive"),
        owned("https://www.googleapis.com/auth/documents"),
        owned("https://www.googleapis.com/auth/spreadsheets"),
        owned("https://www.googleapis.com/auth/presentations"),
        owned("https://www.googleapis.com/auth/forms.body.readonly"),
        owned("https://www.googleapis.com/auth/forms.responses.readonly"),
        owned("https://www.googleapis.com/auth/tasks"),
        owned("https://www.googleapis.com/auth/meetings.space.readonly"),
        owned("https://www.googleapis.com/auth/photoslibrary.readonly"),
        owned("openid"),
        owned("email"),
        owned("profile"),
    ];
    assert(string_views(r@) =~= default_scope_list());
    r
}

/// A UTC time: whole seconds since the Unix epoch, and the nanoseconds into
/// that second (1_000_000_000 and more only within a leap second).
#[derive(Debug, Clone, Copy, PartialEq, Eq, Structural)]
pub struct UtcTime {
    pub secs: i64,
    pub nanos: u32,
}

/// `a` is `b` or later.
pub open spec fn at_or_after(a: UtcTime, b: UtcTime) -> bool {
    a.secs > b.secs || (a.secs == b.secs && a.nanos >= b.nanos)
}

/// An account's OAuth tokens as stored on disk.
#[derive(Debug, PartialEq, Eq)]
pub struct StoredToken {
    pub access_token: String,
    pub refresh_token: Option<String>,
    /// When the access token expires.
    pub expires_at: Option<UtcTime>,
    pub email: String,
    pub scopes: Vec<String>,
}

impl StoredToken {
    /// Expired at time `now`: no expiry is known, or it has passed.
    pub open spec fn expired_at(&self, now: UtcTime) -> bool {
        match self.expires_at {
            Some(exp) => at_or_after(now, exp),
            None => true,
        }
    }

    /// Whether the access token has expired at `now`.
    pub fn is_expired_at(&self, now: UtcTime) -> (r: bool)
        ensures
            r == self.expired_at(now),
    {
        match self.expires_at {
            Some(exp) => now.secs > exp.secs || (now.secs == exp.secs && now.nanos >= exp.nanos),
            None => true,
        }
    }

    /// Whether the access token has expired now. A token without an expiry
    /// always counts as expired.
    pub fn is_expired(&self) -> (r: bool)
        ensures
            self.expires_at is None ==> r,
            exists|now: UtcTime| now.secs >= 0 && now.nanos < 1_000_000_000 && r == #[trigger] self.expired_at(now),
    {
        let now: UtcTime = now_utc();
        self.is_expired_at(now)
    }
}

/// What is shown of an account.
#[derive(Debug, PartialEq, Eq)]
pub struct AccountInfo {
    pub email: String,
    pub display_name: Option<String>,
    pub scopes: Vec<String>,
    pub token_valid: bool,
}

/// The account summary of a stored token at time `now`.
pub open spec fn info_matches(info: AccountInfo, t: StoredToken, now: UtcTime) -> bool {
    &&& info.email@ == t.email@
    &&& info.display_name is None
    &&& string_views(info.scopes@) == string_views(t.scopes@)
    &&& info.token_valid == !t.expired_at(now)
}

/// The summaries of the stored tokens at time `now`, in order.
pub open spec fn infos_match(infos: Seq<AccountInfo>, ts: Seq<StoredToken>, now: UtcTime) -> bool {
    &&& infos.len() == ts.len()
    &&& forall|i: int| 0 <= i < infos.len() ==> info_matches(#[trigger] infos[i], ts[i], now)
}

/// The status of an account at time `now`.
pub open spec fn status_matches(r: Result<AccountInfo, AuthError>, t: Option<StoredToken>, now: UtcTime) -> bool {
    match t {
        None => r == Err::<AccountInfo, AuthError>(AuthError::AccountNotFound),
        Some(tok) => r matches Ok(info) && info_matches(info, tok, now),
    }
}

/// Why an account operation failed.
#[derive(Debug, PartialEq, Eq)]
pub enum AuthError {
    /// No usable token for the account: sign in with `manage_accounts`.
    NoValidToken(String),
    /// No stored account with that email.
    AccountNotFound,
}

impl AuthError {
    /// The error's text.
    pub fn message(&self) -> (r: String)
        ensures
            r@ == match *self {
                AuthError::NoValidToken(e) => "No valid token for '"@ + e@
                    + "'. Use manage_accounts with operation 'authenticate' to sign in."@,
                AuthError::AccountNotFound => "Account not found"@,
            },
    {
        match self {
            AuthError::NoValidToken(e) => {
                let mut m = owned("No valid token for '");
                m.append(e.as_str());
                m.append("'. Use manage_accounts with operation 'authenticate' to sign in.");
                m
            },
            AuthError::AccountNotFound => owned("Account not found"),
        }
    }
}

/// What the caller does to get an access token.
#[derive(Debug, PartialEq, Eq)]
pub enum TokenAccess {
    /// The stored access token is still valid.
    Valid(String),
    /// The access token has expired: refresh it with this refresh token.
    NeedsRefresh(String),
}

/// The emails of a sequence of tokens.
pub open spec fn emails(ts: Seq<StoredToken>) -> Seq<Seq<char>> {
    Seq::new(ts.len(), |i: int| ts[i].email@)
}

/// The stored token for `email`.
pub open spec fn lookup(ts: Seq<StoredToken>, email: Seq<char>) -> Option<StoredToken> {
    match first_index(emails(ts), email) {
        Some(i) => Some(ts[i]),
        None => None,
    }
}

/// The decision for getting an access token at time `now`.
pub open spec fn access_decision_spec(t: Option<StoredToken>, email: Seq<char>, now: UtcTime) -> Result<Seq<char>, Option<Seq<char>>> {
    // Ok: the valid access token; Err(Some): refresh with this token; Err(None): no valid token.
    match t {
        None => Err(None),
        Some(tok) => {
            if !tok.expired_at(now) {
                Ok(tok.access_token@)
            } else {
                match tok.refresh_token {
                    Some(r) => Err(Some(r@)),
                    None => Err(None),
                }
            }
        },
    }
}

pub open spec fn access_matches(r: Result<TokenAccess, AuthError>, d: Result<Seq<char>, Option<Seq<char>>>, email: Seq<char>) -> bool {
    match (r, d) {
        (Ok(TokenAccess::Valid(a)), Ok(b)) => a@ == b,
        (Ok(TokenAccess::NeedsRefresh(a)), Err(Some(b))) => a@ == b,
        (Err(AuthError::NoValidToken(e)), Err(None)) => e@ == email,
        _ => false,
    }
}

/// The file name of an account's tokens: `@` written `_at_`, then `.`
/// written `_`, then `.json`.
pub open spec fn token_file_name(email: Seq<char>) -> Seq<char> {
    replace_char_spec(replace_char_spec(email, '@', "_at_"@), '.', "_"@) + ".json"@
}

/// The directory of the token files under a configuration directory (`.`
/// when there is none).
pub open spec fn storage_dir_spec(config_dir: Option<Seq<char>>) -> Seq<char> {
    let base = match config_dir {
        Some(d) => d,
        None => "."@,
    };
    path_join_spec(path_join_spec(base, "google-workspace-mcp"@), "accounts"@)
}

/// The token files' directory: `google-workspace-mcp/accounts` under the
/// user's configuration directory.
pub fn storage_dir_for(config_dir: Option<String>) -> (r: String)
    ensures
        r@ == storage_dir_spec(opt_view(config_dir)),
{
    let base = match config_dir {
        Some(d) => d,
        None => owned("."),
    };
    let app = path_join(base.as_str(), "google-workspace-mcp");
    path_join(app.as_str(), "accounts")
}

/// The multi-account token store. Every account appears once, keyed by its
/// email.
pub struct TokenStore {
    client_id: String,
    client_secret: String,
    storage_dir: String,
    tokens: Vec<StoredToken>,
}

impl TokenStore {
    /// The stored tokens, one per account, in the order they were added.
    pub closed spec fn entries(&self) -> Seq<StoredToken> {
        self.tokens@
    }

    pub closed spec fn client_id_spec(&self) -> Seq<char> {
        self.client_id@
    }

    pub closed spec fn client_secret_spec(&self) -> Seq<char> {
        self.client_secret@
    }

    pub closed spec fn storage_dir_spec(&self) -> Seq<char> {
        self.storage_dir@
    }

    #[verifier::type_invariant]
    closed spec fn one_per_account(&self) -> bool {
        emails(self.tokens@).no_duplicates()
    }

    /// The stored token of an account.
    pub open spec fn token_of(&self, email: Seq<char>) -> Option<StoredToken> {
        lookup(self.entries(), email)
    }

    /// A store holding `loaded`, added in order (a later token of the same
    /// account replaces an earlier one).
    pub fn new(client_id: String, client_secret: String, storage_dir: String, loaded: Vec<StoredToken>) -> (r: Self)
        ensures
            r.client_id_spec() == client_id@,
            r.client_secret_spec() == client_secret@,
            r.storage_dir_spec() == storage_dir@,
            forall|e: Seq<char>| #[trigger] r.token_of(e) == lookup_last(loaded@, e),
            emails(r.entries()).no_duplicates(),
    {
        let ghost all = loaded@;
        let mut store = TokenStore { client_id, client_secret, storage_dir, tokens: Vec::new() };
        let mut rest = loaded;
        let mut k: usize = 0;
        let n: usize = rest.len();
        assert(all.skip(0) =~= all);
        proof {
            assert forall|e: Seq<char>| #[trigger] store.token_of(e) == lookup_last(all.take(0), e) by {
                assert(emails(store.tokens@) =~= Seq::<Seq<char>>::empty());
            }
        }
        while rest.len() > 0
            invariant
                k <= all.len(),
                all.len() == n,
                rest@ == all.skip(k as int),
                store.client_id_spec() == client_id@,
                store.client_secret_spec() == client_secret@,
                store.storage_dir_spec() == storage_dir@,
                forall|e: Seq<char>| #[trigger] store.token_of(e) == lookup_last(all.take(k as int), e),
            decreases rest@.len(),
        {
            let t = rest.remove(0);
            assert(t == all[k as int]);
            assert(rest@ =~= all.skip(k + 1));
            let ghost before = store;
            store.insert(t);
            proof {
                assert forall|e: Seq<char>| #[trigger] store.token_of(e) == lookup_last(all.take(k + 1), e) by {
                    assert(all.take(k + 1).drop_last() =~= all.take(k as int));
                    assert(all.take(k + 1).last() == all[k as int]);
                    assert(before.token_of(e) == lookup_last(all.take(k as int), e));
                }
            }
            k = k + 1;
        }
        assert(all.take(k as int) =~= all);
        proof {
            use_type_invariant(&store);
        }
        store
    }

    /// Stores `token` for its account, replacing the account's earlier token.
    pub fn insert(&mut self, token: StoredToken)
        ensures
            forall|e: Seq<char>| #[trigger] final(self).token_of(e)
                == (if e == token.email@ { Some(token) } else { old(self).token_of(e) }),
            final(self).client_id_spec() == old(self).client_id_spec(),
            final(self).client_secret_spec() == old(self).client_secret_spec(),
            final(self).storage_dir_spec() == old(self).storage_dir_spec(),
            emails(final(self).entries()).no_duplicates(),
    {
        proof {
            use_type_invariant(&*self);
        }
        let ghost old_ts = self.tokens@;
        let ghost te = token.email@;
        match self.find(&token.email) {
            Some(i) => {
                proof {
                    lemma_first_index(emails(old_ts), te);
                }
                let mut tokens: Vec<StoredToken> = Vec::new();
                std::mem::swap(&mut tokens, &mut self.tokens);
                assert(tokens@ == old_ts);
                tokens.set(i, token);
                assert(emails(tokens@) =~= emails(old_ts));
                self.tokens = tokens;
                proof {
                    lemma_first_index(emails(old_ts), te);
                    assert forall|e: Seq<char>| #[trigger] self.token_of(e)
                        == (if e == te { Some(self.tokens@[i as int]) } else { lookup(old_ts, e) }) by {
                        lemma_first_index(emails(old_ts), e);
                    }
                }
            },
            None => {
                let mut tokens: Vec<StoredToken> = Vec::new();
                std::mem::swap(&mut tokens, &mut self.tokens);
                assert(tokens@ == old_ts);
                tokens.push(token);
                assert(emails(tokens@) =~= emails(old_ts).push(te));
                proof {
                    lemma_first_index(emails(old_ts), te);
                    assert forall|a: int, b: int| 0 <= a < b < emails(tokens@).len()
                        implies emails(tokens@)[a] != emails(tokens@)[b] by {
                        if b == emails(old_ts).len() {
                            assert(emails(tokens@)[a] == emails(old_ts)[a]);
                        }
                    }
                }
                self.tokens = tokens;
                proof {
                    assert forall|e: Seq<char>| #[trigger] self.token_of(e)
                        == (if e == te { Some(self.tokens@.last()) } else { lookup(old_ts, e) }) by {
                        lemma_first_index(emails(old_ts), e);
                        match first_index(emails(old_ts), e) {
                            Some(j) => {
                                lemma_first_index_is(emails(self.tokens@), e, j);
                            },
                            None => {
                                if e == te {
                                    lemma_first_index_is(emails(self.tokens@), e, old_ts.len() as int);
                                } else {
                                    lemma_first_index_is(emails(self.tokens@), e, self.tokens@.len() as int);
                                }
                            },
                        }
                    }
                }
            },
        }
    }

    /// The position of the account's entry.
    fn find(&self, email: &String) -> (r: Option<usize>)
        ensures
            match r {
                Some(i) => first_index(emails(self.entries()), email@) == Some(i as int),
                None => first_index(emails(self.entries()), email@) is None,
            },
    {
        let ghost es = emails(self.tokens@);
        let mut i: usize = 0;
        while i < self.tokens.len()
            invariant
                i <= self.tokens@.len(),
                es == emails(self.tokens@),
                forall|j: int| 0 <= j < i ==> es[j] != email@,
            decreases self.tokens@.len() - i,
        {
            if self.tokens[i].email == *email {
                proof {
                    lemma_first_index_is(es, email@, i as int);
                }
                return Some(i);
            }
            i = i + 1;
        }
        proof {
            lemma_first_index_is(es, email@, i as int);
        }
        None
    }

    /// Forgets the account's tokens; returns whether there were any.
    pub fn remove(&mut self, email: &str) -> (r: bool)
        ensures
            r == old(self).token_of(email@) is Some,
            forall|e: Seq<char>| #[trigger] final(self).token_of(e)
                == (if e == email@ { None } else { old(self).token_of(e) }),
            final(self).client_id_spec() == old(self).client_id_spec(),
            final(self).client_secret_spec() == old(self).client_secret_spec(),
            final(self).storage_dir_spec() == old(self).storage_dir_spec(),
    {
        proof {
            use_type_invariant(&*self);
        }
        let key = owned(email);
        let ghost old_ts = self.tokens@;
        let ghost es = emails(old_ts);
        match self.find(&key) {
            None => false,
            Some(i) => {
                proof {
                    lemma_first_index(es, email@);
                }
                let mut tokens: Vec<StoredToken> = Vec::new();
                std::mem::swap(&mut tokens, &mut self.tokens);
                assert(tokens@ == old_ts);
                let _gone = tokens.remove(i);
                let ghost ns = emails(tokens@);
                assert(ns =~= es.remove(i as int));
                proof {
                    lemma_first_index(es, email@);
                    assert forall|a: int, b: int| 0 <= a < b < ns.len() implies ns[a] != ns[b] by {
                        let oa: int = if a < i { a } else { a + 1 };
                        let ob: int = if b < i { b } else { b + 1 };
                        assert(ns[a] == es[oa] && ns[b] == es[ob]);
                    }
                }
                self.tokens = tokens;
                proof {
                    assert forall|e: Seq<char>| #[trigger] self.token_of(e)
                        == (if e == email@ { None } else { lookup(old_ts, e) }) by {
                        lemma_first_index(es, e);
                        lemma_first_index(ns, e);
                        if e == email@ {
                            match first_index(ns, e) {
                                Some(j) => {
                                    let oj: int = if j < i { j } else { j + 1 };
                                    assert(es[oj] == e);
                                    assert(es[i as int] == e);
                                },
                                None => {},
                            }
                        } else {
                            match first_index(es, e) {
                                Some(j) => {
                                    let nj: int = if j < i { j } else { j - 1 };
                                    assert(j != i);
                                    assert forall|x: int| 0 <= x < nj implies ns[x] != e by {
                                        let ox: int = if x < i { x } else { x + 1 };
                                        assert(ns[x] == es[ox]);
                                    }
                                    assert(ns[nj] == es[j]);
                                    lemma_first_index_is(ns, e, nj);
                                    assert(self.tokens@[nj] == old_ts[j]);
                                },
                                None => {
                                    assert forall|x: int| 0 <= x < ns.len() implies ns[x] != e by {
                                        let ox: int = if x < i { x } else { x + 1 };
                                        assert(ns[x] == es[ox]);
                                    }
                                    lemma_first_index_is(ns, e, ns.len() as int);
                                },
                            }
                        }
                    }
                }
                true
            },
        }
    }
}

/// The last token of `e` among `ts`.
pub open spec fn lookup_last(ts: Seq<StoredToken>, e: Seq<char>) -> Option<StoredToken>
    decreases ts.len(),
{
    if ts.len() == 0 {
        None
    } else if ts.last().email@ == e {
        Some(ts.last())
    } else {
        lookup_last(ts.drop_last(), e)
    }
}

/// A token that is the only one of its account among those loaded is the
/// account's token after loading: what a store reads back of a token file is
/// that token.
pub proof fn lemma_loaded_token_found(ts: Seq<StoredToken>, i: int)
    requires
        0 <= i < ts.len(),
        forall|j: int| 0 <= j < ts.len() && j != i ==> (#[trigger] ts[j]).email@ != ts[i].email@,
    ensures
        lookup_last(ts, ts[i].email@) == Some(ts[i]),
    decreases ts.len(),
{
    if i != ts.len() - 1 {
        let d = ts.drop_last();
        assert(d[i] == ts[i]);
        assert forall|j: int| 0 <= j < d.len() && j != i implies (#[trigger] d[j]).email@ != d[i].email@ by {
            assert(d[j] == ts[j]);
        }
        assert(ts.last() == ts[ts.len() - 1]);
        lemma_loaded_token_found(d, i);
    }
}

impl TokenStore {
    /// The stored token of an account.
    pub fn get(&self, email: &str) -> (r: Option<&StoredToken>)
        ensures
            match r {
                Some(t) => self.token_of(email@) == Some(*t),
                None => self.token_of(email@) is None,
            },
    {
        let key = owned(email);
        match self.find(&key) {
            Some(i) => {
                proof {
                    lemma_first_index(emails(self.tokens@), email@);
                }
                Some(&self.tokens[i])
            },
            None => None,
        }
    }

    /// How to get an access token for `email` at time `now`: the stored one
    /// while it is valid, else a refresh with the stored refresh token; no
    /// token at all when the account is unknown or cannot be refreshed.
    pub fn access_decision(&self, email: &str, now: UtcTime) -> (r: Result<TokenAccess, AuthError>)
        ensures
            access_matches(r, access_decision_spec(self.token_of(email@), email@, now), email@),
    {
        match self.get(email) {
            None => Err(AuthError::NoValidToken(owned(email))),
            Some(t) => {
                if !t.is_expired_at(now) {
                    Ok(TokenAccess::Valid(owned(t.access_token.as_str())))
                } else {
                    match &t.refresh_token {
                        Some(rt) => Ok(TokenAccess::NeedsRefresh(owned(rt.as_str()))),
                        None => Err(AuthError::NoValidToken(owned(email))),
                    }
                }
            },
        }
    }

    /// How to get an access token for `email` now (see `access_decision`).
    pub fn get_access_token(&self, email: &str) -> (r: Result<TokenAccess, AuthError>)
        ensures
            exists|now: UtcTime| now.secs >= 0 && now.nanos < 1_000_000_000
                && access_matches(r, #[trigger] access_decision_spec(self.token_of(email@), email@, now), email@),
    {
        let now: UtcTime = now_utc();
        self.access_decision(email, now)
    }

    /// The form of a refresh request.
    pub fn refresh_form(&self, refresh_token: &str) -> (r: Vec<(String, String)>)
        ensures
            pairs_view(r@) == seq![
                ("client_id"@, self.client_id_spec()),
                ("client_secret"@, self.client_secret_spec()),
                ("refresh_token"@, refresh_token@),
                ("grant_type"@, "refresh_token"@),
            ],
    {
        let r = vec![
            (owned("client_id"), owned(self.client_id.as_str())),
            (owned("client_secret"), owned(self.client_secret.as_str())),
            (owned("refresh_token"), owned(refresh_token)),
            (owned("grant_type"), owned("refresh_token")),
        ];
        assert(pairs_view(r@) =~= seq![
            ("client_id"@, self.client_id_spec()),
            ("client_secret"@, self.client_secret_spec()),
            ("refresh_token"@, refresh_token@),
            ("grant_type"@, "refresh_token"@),
        ]);
        r
    }

    /// The form that exchanges an authorization code for tokens.
    pub fn exchange_form(&self, code: &str, redirect_uri: &str) -> (r: Vec<(String, String)>)
        ensures
            pairs_view(r@) == seq![
                ("code"@, code@),
                ("client_id"@, self.client_id_spec()),
                ("client_secret"@, self.client_secret_spec()),
                ("redirect_uri"@, redirect_uri@),
                ("grant_type"@, "authorization_code"@),
            ],
    {
        let r = vec![
            (owned("code"), owned(code)),
            (owned("client_id"), owned(self.client_id.as_str())),
            (owned("client_secret"), owned(self.client_secret.as_str())),
            (owned("redirect_uri"), owned(redirect_uri)),
            (owned("grant_type"), owned("authorization_code")),
        ];
        assert(pairs_view(r@) =~= seq![
            ("code"@, code@),
            ("client_id"@, self.client_id_spec()),
            ("client_secret"@, self.client_secret_spec()),
            ("redirect_uri"@, redirect_uri@),
            ("grant_type"@, "authorization_code"@),
        ]);
        r
    }

    /// Records a refreshed access token for `email`; returns whether the
    /// account is stored (an unknown account is left out).
    pub fn apply_refresh(&mut self, email: &str, access_token: String, expires_at: Option<UtcTime>) -> (r: bool)
        ensures
            r == old(self).token_of(email@) is Some,
            forall|e: Seq<char>| #[trigger] final(self).token_of(e) == (match old(self).token_of(e) {
                Some(t) => if e == email@ {
                    Some(StoredToken { access_token: access_token, expires_at: expires_at, ..t })
                } else {
                    Some(t)
                },
                None => None,
            }),
            final(self).client_id_spec() == old(self).client_id_spec(),
            final(self).client_secret_spec() == old(self).client_secret_spec(),
            final(self).storage_dir_spec() == old(self).storage_dir_spec(),
    {
        proof {
            use_type_invariant(&*self);
        }
        let key = owned(email);
        let ghost old_ts = self.tokens@;
        let ghost es = emails(old_ts);
        match self.find(&key) {
            None => {
                false
            },
            Some(i) => {
                proof {
                    lemma_first_index(es, email@);
                }
                let mut tokens: Vec<StoredToken> = Vec::new();
                std::mem::swap(&mut tokens, &mut self.tokens);
                assert(tokens@ == old_ts);
                let old_tok = tokens.remove(i);
                let updated = StoredToken {
                    access_token,
                    expires_at,
                    refresh_token: old_tok.refresh_token,
                    email: old_tok.email,
                    scopes: old_tok.scopes,
                };
                tokens.insert(i, updated);
                assert(tokens@ =~= old_ts.update(i as int, updated));
                assert(emails(tokens@) =~= es);
                self.tokens = tokens;
                proof {
                    assert forall|e: Seq<char>| #[trigger] self.token_of(e) == (match lookup(old_ts, e) {
                        Some(t) => if e == email@ {
                            Some(StoredToken { access_token: access_token, expires_at: expires_at, ..t })
                        } else {
                            Some(t)
                        },
                        None => None,
                    }) by {
                        lemma_first_index(es, e);
                    }
                }
                true
            },
        }
    }

    /// The accounts at time `now`, in the store's order.
    pub fn list_accounts_at(&self, now: UtcTime) -> (r: Vec<AccountInfo>)
        ensures
            infos_match(r@, self.entries(), now),
    {
        let mut out: Vec<AccountInfo> = Vec::new();
        let mut i: usize = 0;
        while i < self.tokens.len()
            invariant
                i <= self.tokens@.len(),
                out@.len() == i,
                forall|j: int| 0 <= j < i ==> info_matches(#[trigger] out@[j], self.tokens@[j], now),
            decreases self.tokens@.len() - i,
        {
            out.push(account_info(&self.tokens[i], now));
            i = i + 1;
        }
        out
    }

    /// The accounts now, in the store's order.
    pub fn list_accounts(&self) -> (r: Vec<AccountInfo>)
        ensures
            r@.len() == self.entries().len(),
            exists|now: UtcTime| now.secs >= 0 && now.nanos < 1_000_000_000 && #[trigger] infos_match(r@, self.entries(), now),
    {
        let now: UtcTime = now_utc();
        self.list_accounts_at(now)
    }

    /// One account's summary at time `now`.
    pub fn account_status_at(&self, email: &str, now: UtcTime) -> (r: Result<AccountInfo, AuthError>)
        ensures
            status_matches(r, self.token_of(email@), now),
    {
        match self.get(email) {
            None => Err(AuthError::AccountNotFound),
            Some(t) => Ok(account_info(t, now)),
        }
    }

    /// The scopes that an account was granted.
    pub fn account_scopes(&self, email: &str) -> (r: Result<Vec<String>, AuthError>)
        ensures
            match self.token_of(email@) {
                None => r == Err::<Vec<String>, AuthError>(AuthError::AccountNotFound),
                Some(t) => r matches Ok(v) && string_views(v@) == string_views(t.scopes@),
            },
    {
        match self.get(email) {
            None => Err(AuthError::AccountNotFound),
            Some(t) => Ok(copy_strings(&t.scopes)),
        }
    }

    /// The refresh token with which to renew an account's access token on
    /// request, whether or not it has expired. An unknown account is not
    /// found; one stored without a refresh token has no valid token to give.
    pub fn refresh_token_for(&self, email: &str) -> (r: Result<String, AuthError>)
        ensures
            match self.token_of(email@) {
                None => r == Err::<String, AuthError>(AuthError::AccountNotFound),
                Some(t) => match t.refresh_token {
                    Some(rt) => r matches Ok(s) && s@ == rt@,
                    None => r matches Err(AuthError::NoValidToken(e)) && e@ == email@,
                },
            },
    {
        match self.get(email) {
            None => Err(AuthError::AccountNotFound),
            Some(t) => match &t.refresh_token {
                Some(rt) => Ok(owned(rt.as_str())),
                None => Err(AuthError::NoValidToken(owned(email))),
            },
        }
    }

    /// One account's summary now.
    pub fn account_status(&self, email: &str) -> (r: Result<AccountInfo, AuthError>)
        ensures
            exists|now: UtcTime| now.secs >= 0 && now.nanos < 1_000_000_000 && #[trigger] status_matches(r, self.token_of(email@), now),
    {
        let now: UtcTime = now_utc();
        self.account_status_at(email, now)
    }

    /// The file that holds an account's tokens.
    pub fn token_path(&self, email: &str) -> (r: String)
        ensures
            r@ == path_join_spec(self.storage_dir_spec(), token_file_name(email@)),
    {
        let e = chars_of(email);
        let at = chars_of("_at_");
        let us = chars_of("_");
        let a = replace_char(&e, '@', &at);
        let b = replace_char(&a, '.', &us);
        let mut name = string_of(&b);
        name.append(".json");
        path_join(self.storage_dir.as_str(), name.as_str())
    }

    /// Forgets an account; returns the file of its tokens, for the caller to
    /// delete where it exists.
    pub fn remove_account(&mut self, email: &str) -> (r: String)
        ensures
            forall|e: Seq<char>| #[trigger] final(self).token_of(e)
                == (if e == email@ { None } else { old(self).token_of(e) }),
            r@ == path_join_spec(old(self).storage_dir_spec(), token_file_name(email@)),
            final(self).client_id_spec() == old(self).client_id_spec(),
            final(self).client_secret_spec() == old(self).client_secret_spec(),
            final(self).storage_dir_spec() == old(self).storage_dir_spec(),
    {
        self.remove(email);
        self.token_path(email)
    }

    /// Starts the authorization-code flow: the URL to open, and what the
    /// callback needs (the scopes asked for and the redirect URI).
    pub fn start_authenticate(&self, scopes: Option<Vec<String>>) -> (r: AuthStart)
        ensures
            string_views(r.scopes@) == (match scopes {
                Some(s) => string_views(s@),
                None => default_scope_list(),
            }),
            r.redirect_uri@ == REDIRECT_URI@,
            is_uuid_v4_text(r.state@),
            r.auth_url@ == authorization_url_spec(
                self.client_id_spec(),
                REDIRECT_URI@,
                join_spec(string_views(r.scopes@), " "@),
                r.state@,
            ),
    {
        let scopes = match scopes {
            Some(s) => s,
            None => default_scopes(),
        };
        let scope_str = join_strings(&scopes, " ");
        assert(scopes@.map_values(|p: String| p@) =~= string_views(scopes@));
        let state = new_uuid();
        let redirect_uri = owned(REDIRECT_URI);
        let auth_url = authorization_url(self.client_id.as_str(), redirect_uri.as_str(), scope_str.as_str(), state.as_str());
        AuthStart { auth_url, scopes, redirect_uri, state }
    }
}

/// An account's summary at time `now`.
fn account_info(t: &StoredToken, now: UtcTime) -> (r: AccountInfo)
    ensures
        info_matches(r, *t, now),
{
    AccountInfo {
        email: owned(t.email.as_str()),
        display_name: None,
        scopes: copy_strings(&t.scopes),
        token_valid: !t.is_expired_at(now),
    }
}

/// The largest number of seconds that a `TimeDelta` holds.
pub const MAX_DELTA_SECS: i64 = 9_223_372_036_854_775;

/// The first second that a `DateTime<Utc>` holds (January 1 of year
/// -262143), in seconds since the Unix epoch.
pub const MIN_UTC_SECS: i64 = -8_334_601_315_200;

/// The last second that a `DateTime<Utc>` holds (December 31 of year 262142,
/// 23:59:59), in seconds since the Unix epoch.
pub const MAX_UTC_SECS: i64 = 8_210_266_876_799;

/// When a refreshed or new access token expires: `expires_in` whole seconds
/// after `now`, if the server said. `now` is not within a leap second, as the
/// clock never is, and the expiry is a time that chrono holds.
pub fn expiry_after(now: UtcTime, expires_in: Option<i64>) -> (r: Option<UtcTime>)
    requires
        now.nanos < 1_000_000_000,
        expires_in matches Some(secs) ==> -MAX_DELTA_SECS <= secs <= MAX_DELTA_SECS,
        expires_in matches Some(secs) ==> MIN_UTC_SECS <= now.secs + secs <= MAX_UTC_SECS,
    ensures
        r == (match expires_in {
            Some(secs) => Some(UtcTime { secs: (now.secs + secs) as i64, nanos: now.nanos }),
            None => None::<UtcTime>,
        }),
{
    match expires_in {
        Some(secs) => Some(UtcTime { secs: now.secs + secs, nanos: now.nanos }),
        None => None,
    }
}

/// The start of an authorization: the URL to open and what the callback
/// needs.
#[derive(Debug, PartialEq, Eq)]
pub struct AuthStart {
    pub auth_url: String,
    pub scopes: Vec<String>,
    pub redirect_uri: String,
    pub state: String,
}

/// Google's consent page URL for the code flow with offline access.
pub open spec fn authorization_url_spec(client_id: Seq<char>, redirect_uri: Seq<char>, scopes: Seq<char>, state: Seq<char>) -> Seq<char> {
    "https://accounts.google.com/o/oauth2/v2/auth?client_id="@ + url_encoded(client_id) + "&redirect_uri="@
        + url_encoded(redirect_uri) + "&response_type=code&scope="@ + url_encoded(scopes)
        + "&access_type=offline&prompt=consent&state="@ + url_encoded(state)
}

/// Builds the consent page URL.
pub fn authorization_url(client_id: &str, redirect_uri: &str, scopes: &str, state: &str) -> (r: String)
    ensures
        r@ == authorization_url_spec(client_id@, redirect_uri@, scopes@, state@),
{
    let mut u = owned("https://accounts.google.com/o/oauth2/v2/auth?client_id=");
    u.append(url_encode(client_id).as_str());
    u.append("&redirect_uri=");
    u.append(url_encode(redirect_uri).as_str());
    u.append("&response_type=code&scope=");
    u.append(url_encode(scopes).as_str());
    u.append("&access_type=offline&prompt=consent&state=");
    u.append(url_encode(state).as_str());
    u
}

/// The value of the first pair named `key`.
pub open spec fn pair_value(pairs: Seq<(Seq<char>, Seq<char>)>, key: Seq<char>) -> Option<Seq<char>>
    decreases pairs.len(),
{
    if pairs.len() == 0 {
        None
    } else if pairs[0].0 == key {
        Some(pairs[0].1)
    } else {
        pair_value(pairs.drop_first(), key)
    }
}

/// The authorization code in the browser's callback request: the `code`
/// query parameter of the path in its request line.
pub open spec fn callback_code_spec(request: Seq<char>) -> Option<Seq<char>> {
    let lines = lines_spec(request);
    if lines.len() == 0 {
        None
    } else {
        let words = words_spec(lines[0]);
        if words.len() < 2 {
            None
        } else {
            match url_query_pairs(CALLBACK_ORIGIN@ + words[1]) {
                None => None,
                Some(pairs) => pair_value(pairs, "code"@),
            }
        }
    }
}

/// Reads the authorization code from the callback's HTTP request.
#[verifier::loop_isolation(false)]
pub fn callback_code(request: &str) -> (r: Option<String>)
    ensures
        opt_view(r) == callback_code_spec(request@),
{
    let text = chars_of(request);
    let lines = lines_of(&text);
    if lines.len() == 0 {
        return None;
    }
    let words = words_of(&lines[0]);
    assert(words_spec(lines@[0]@) == char_vec_views(words@));
    if words.len() < 2 {
        return None;
    }
    assert(char_vec_views(words@)[1] == words@[1]@);
    let mut url = owned(CALLBACK_ORIGIN);
    url.append(string_of(&words[1]).as_str());
    let pairs = match query_pairs(url.as_str()) {
        Some(p) => p,
        None => return None,
    };
    let ghost ps = pairs_view(pairs@);
    let code = owned("code");
    let mut i: usize = 0;
    assert(ps.skip(0) =~= ps);
    while i < pairs.len()
        invariant
            i <= pairs@.len(),
            ps == pairs_view(pairs@),
            code@ == "code"@,
            pair_value(ps, "code"@) == pair_value(ps.skip(i as int), "code"@),
        decreases pairs@.len() - i,
    {
        assert(ps.skip(i as int)[0] == (pairs@[i as int].0@, pairs@[i as int].1@));
        assert(ps.skip(i as int).drop_first() =~= ps.skip(i + 1));
        if pairs[i].0 == code {
            return Some(owned(pairs[i].1.as_str()));
        }
        i = i + 1;
    }
    assert(ps.skip(i as int) =~= Seq::<(Seq<char>, Seq<char>)>::empty());
    None
}

/// Whether the user-info endpoint must name the account: the ID token gave
/// no email.
pub fn needs_userinfo(jwt_email: &Option<String>) -> (r: bool)
    ensures
        r == (match jwt_email {
            Some(e) => e@.len() == 0,
            None => true,
        }),
{
    match jwt_email {
        Some(e) => e.as_str().is_empty(),
        None => true,
    }
}

/// The account's email: the ID token's, else the user-info endpoint's, else
/// a placeholder.
pub fn account_email(jwt_email: Option<String>, userinfo_email: Option<String>) -> (r: String)
    ensures
        r@ == (match jwt_email {
            Some(e) if e@.len() > 0 => e@,
            _ => match userinfo_email {
                Some(u) => u@,
                None => "unknown_account@gmail.com"@,
            },
        }),
{
    if let Some(e) = jwt_email {
        if !e.as_str().is_empty() {
            return e;
        }
    }
    match userinfo_email {
        Some(u) => u,
        None => owned("unknown_account@gmail.com"),
    }
}

/// The decoded payload of a JWT: its second `.`-separated part, decoded as
/// URL-safe base64 without padding.
pub fn jwt_payload(jwt: &str) -> (r: Option<Vec<u8>>)
    ensures
        split_spec(jwt@, '.').len() < 2 ==> r is None,
        split_spec(jwt@, '.').len() >= 2 ==> match r {
            Some(b) => base64_url_nopad(b@) == split_spec(jwt@, '.')[1],
            None => forall|b: Seq<u8>| base64_url_nopad(b) != split_spec(jwt@, '.')[1],
        },
{
    let text = chars_of(jwt);
    let parts = split_char(&text, '.');
    if parts.len() < 2 {
        return None;
    }
    let payload = string_of(&parts[1]);
    base64_url_decode(payload.as_str())
}

/// The `email` claim of a JWT payload.
pub fn email_claim(claims: &JsonValue) -> (r: Option<String>)
    ensures
        opt_view(r) == opt_str(jfield(claims.model(), "email"@)),
{
    match claims.get_key("email") {
        Some(v) => match v.as_str() {
            Some(s) => Some(owned(s.as_str())),
            None => None,
        },
        None => None,
    }
}

} // verus!
