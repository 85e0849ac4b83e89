//! Decision logic of the request handlers: what a login request answers
//! and whether a chat page renders its logged-in view.  Form decoding,
//! cookie transport and template rendering sit outside the library and
//! hand plain values in.

use crate::codec::{auth_token_user, issue, validate, ServerKey};
use crate::passwd::{password_matches, verify_password};
use crate::store::{stored_hash, CredentialStore};
use vstd::prelude::*;

verus! {

/// Whether submitted credentials are accepted: the store holds a record
/// with exactly that username, the record carries a stored hash, and the
/// password matches it.  A missing user, a malformed record and a wrong
/// password are indistinguishable to the client.
pub open spec fn credentials_ok(
    entries: Seq<(Seq<char>, Option<Seq<char>>)>,
    username: Seq<char>,
    password: Seq<char>,
) -> bool {
    match stored_hash(entries, username) {
        Some(hash) => match hash {
            Some(h) => password_matches(password, h),
            None => false,
        },
        None => false,
    }
}

/// The fragment answered on a successful login.
pub open spec fn success_fragment() -> Seq<char> {
    "<div class='success' style='color: green; padding: 10px; margin-top: 10px;'>Login successful!</div>"@
}

/// The single fragment answered on every failed login, whatever failed.
pub open spec fn failure_fragment() -> Seq<char> {
    "<div class='error' style='color: red; padding: 10px; margin-top: 10px;'>Invalid username or password</div>"@
}

/// The body a login request is answered with.
pub open spec fn login_body(
    entries: Seq<(Seq<char>, Option<Seq<char>>)>,
    username: Seq<char>,
    password: Seq<char>,
) -> Seq<char> {
    if credentials_ok(entries, username, password) {
        success_fragment()
    } else {
        failure_fragment()
    }
}

/// Outcome of a login request: the HTML fragment for the client and, on
/// success and only then, the fresh session token to set as the auth
/// cookie.
pub struct LoginOutcome {
    pub body: String,
    pub token: Option<String>,
}

/// Decide a login request.  A token is minted exactly when the credentials
/// are accepted, and it validates under `key` to the submitted username;
/// the body is the success fragment then and the one failure fragment in
/// every other case.
pub fn login(
    store: &CredentialStore,
    key: &ServerKey,
    username: &str,
    password: &str,
) -> (r: LoginOutcome)
    requires
        key.wf(),
    ensures
        r.body@ == login_body(store@, username@, password@),
        r.token is Some <==> credentials_ok(store@, username@, password@),
        match r.token {
            Some(t) => auth_token_user(key@, t@) == Some(username@),
            None => true,
        },
{
    let accepted = match store.lookup(username) {
        Some(record) => match &record.password_hash {
            Some(h) => verify_password(password, h.as_str()),
            None => false,
        },
        None => false,
    };
    if accepted {
        let token = issue(key, username);
        LoginOutcome {
            body: "<div class='success' style='color: green; padding: 10px; margin-top: 10px;'>Login successful!</div>".to_owned(),
            token: Some(token),
        }
    } else {
        LoginOutcome {
            body: "<div class='error' style='color: red; padding: 10px; margin-top: 10px;'>Invalid username or password</div>".to_owned(),
            token: None,
        }
    }
}

/// Law: the answer to a login for a username the store does not hold is
/// the very same body as for a failed login on a username it does hold;
/// the client learns nothing about which usernames exist.
pub proof fn lemma_login_no_username_leak(
    entries: Seq<(Seq<char>, Option<Seq<char>>)>,
    absent_user: Seq<char>,
    absent_password: Seq<char>,
    present_user: Seq<char>,
    wrong_password: Seq<char>,
)
    requires
        stored_hash(entries, absent_user) is None,
        !credentials_ok(entries, present_user, wrong_password),
    ensures
        !credentials_ok(entries, absent_user, absent_password),
        login_body(entries, absent_user, absent_password) == failure_fragment(),
        login_body(entries, absent_user, absent_password) == login_body(
            entries,
            present_user,
            wrong_password,
        ),
{
}

/// Which chat room a page shows.
#[derive(Clone, Copy, PartialEq, Eq, Structural, Debug)]
pub enum ChatPageType {
    Ana,
    La,
    Eaz,
}

/// What a chat page renders from: the room and whether the request proved
/// a login.
pub struct ChatPage {
    pub is_logged_in: bool,
    pub c_type: ChatPageType,
}

/// Whether a presented auth cookie proves a login under `key`: a cookie
/// must be there and must validate.
pub open spec fn logged_in(key: Seq<u8>, auth_cookie: Option<Seq<char>>) -> bool {
    match auth_cookie {
        Some(c) => auth_token_user(key, c) is Some,
        None => false,
    }
}

/// Decide a chat page: logged in exactly when the request carried an auth
/// cookie that validates under the current server key.  A missing cookie,
/// a tampered one and one minted before a restart all render the anonymous
/// view.
pub fn chat_page(key: &ServerKey, c_type: ChatPageType, auth_cookie: Option<&String>) -> (p:
    ChatPage)
    requires
        key.wf(),
    ensures
        p.c_type == c_type,
        p.is_logged_in == logged_in(key@, auth_cookie.deep_view()),
{
    let is_logged_in = match auth_cookie {
        Some(c) => validate(key, c.as_str()).is_some(),
        None => false,
    };
    ChatPage { is_logged_in, c_type }
}

} // verus!
