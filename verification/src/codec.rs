//! Session codec: mints and validates tamper-evident, confidential session
//! tokens.  A token binds a username under a symmetric server key that is
//! generated fresh each process start, so every token dies with the
//! process.  Tokens never expire on their own.

use vstd::prelude::*;

verus! {

/// What authenticated decryption of a sealed cookie value yields under a
/// given 64-byte master key and cookie name (the name is bound into the
/// seal as associated data): the plaintext for a value sealed under that
/// key and name, and nothing for a malformed or foreign one.  The nonce
/// travels inside the token, so the result depends on these three alone.
pub uninterp spec fn decrypt_of(key: Seq<u8>, name: Seq<char>, token: Seq<char>) -> Option<
    Seq<char>,
>;

/// The username a presented auth-cookie token stands for under `key`,
/// if any: session tokens live in the cookie named `auth`.
pub open spec fn auth_token_user(key: Seq<u8>, token: Seq<char>) -> Option<Seq<char>> {
    decrypt_of(key, "auth"@, token)
}

/// The server-held symmetric secret: the 64 master bytes of a cookie key.
pub struct ServerKey {
    bytes: Vec<u8>,
}

impl ServerKey {
    /// The master bytes of the key.
    pub closed spec fn view(&self) -> Seq<u8> {
        self.bytes@
    }

    /// A key is the full 64 master bytes.
    pub closed spec fn wf(&self) -> bool {
        self.bytes@.len() == 64
    }

    /// Generate the process's key from operating-system randomness.
    pub fn generate() -> (k: ServerKey)
        ensures
            k.wf(),
    {
        ServerKey { bytes: generate_master_bytes() }
    }

    /// The raw master bytes, for handing the same key to the cookie layer
    /// that sits around the library.
    pub fn master_bytes(&self) -> (b: &Vec<u8>)
        ensures
            b@ == self@,
    {
        &self.bytes
    }
}

/// Relies on `cookie::Key::generate` and `cookie::Key::master`: a key
/// drawn fresh from operating-system randomness, 64 master bytes long.
/// Nothing else can be said of a random value.
#[verifier::external_body]
fn generate_master_bytes() -> (b: Vec<u8>)
    ensures
        b@.len() == 64,
{
    cookie::Key::generate().master().to_vec()
}

/// Relies on `cookie::CookieJar::private_mut` and `PrivateJar::add`: the
/// added cookie's value is sealed under the key (authenticated encryption
/// with a fresh random nonce, the cookie's name as associated data), and
/// the crate documents that decryption under the same key always succeeds
/// on a value it sealed and gives back the original value.  The nonce is
/// random, so only that round trip is stated, and it holds of every
/// outcome.
#[verifier::external_body]
fn seal_cookie(key: &ServerKey, name: &str, value: &str) -> (t: String)
    requires
        key.wf(),
    ensures
        decrypt_of(key@, name@, t@) == Some(value@),
{
    let k = cookie::Key::from(key.bytes.as_slice());
    let mut jar = cookie::CookieJar::new();
    jar.private_mut(&k).add(cookie::Cookie::new(name.to_string(), value.to_string()));
    jar.get(name).unwrap().value().to_string()
}

/// Relies on `cookie::PrivateJar::decrypt`: authenticated decryption of
/// the value, deterministic in the key, the cookie's name and the value;
/// it returns nothing when the token is malformed or fails authentication
/// under this key.
#[verifier::external_body]
fn open_cookie(key: &ServerKey, name: &str, token: &str) -> (r: Option<String>)
    requires
        key.wf(),
    ensures
        r.deep_view() == decrypt_of(key@, name@, token@),
{
    let k = cookie::Key::from(key.bytes.as_slice());
    let jar = cookie::CookieJar::new();
    jar.private(&k).decrypt(cookie::Cookie::new(name.to_string(), token.to_string())).map(
        |c| c.value().to_string(),
    )
}

/// Mint a session token for `username`: whatever nonce the sealing drew,
/// the token validates under the same key to exactly `username`.
pub fn issue(key: &ServerKey, username: &str) -> (t: String)
    requires
        key.wf(),
    ensures
        auth_token_user(key@, t@) == Some(username@),
{
    seal_cookie(key, "auth", username)
}

/// Validate a presented token under the in-memory server key: exactly the
/// username sealed into a token of this key, and nothing for a malformed
/// token, a tampered token, or one sealed under another key that fails
/// authentication here.
pub fn validate(key: &ServerKey, token: &str) -> (r: Option<String>)
    requires
        key.wf(),
    ensures
        r.deep_view() == auth_token_user(key@, token@),
{
    open_cookie(key, "auth", token)
}

/// Law: a token minted by `issue` for a username — any token the codec can
/// hand out, characterized by what `issue` ensures of it — validates under
/// the same key to exactly that username: what `validate` returns for it
/// is the username and nothing else.
pub proof fn lemma_issue_validate_round_trip(
    key: Seq<u8>,
    token: Seq<char>,
    username: Seq<char>,
    validated: Option<Seq<char>>,
)
    requires
        auth_token_user(key, token) == Some(username),
        validated == auth_token_user(key, token),
    ensures
        validated == Some(username),
{
}

} // verus!
