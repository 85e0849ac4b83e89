use chat_auth::codec::{issue, validate, ServerKey};
use chat_auth::errors::{error_body, u16_decimal, AppError};
use chat_auth::handlers::{chat_page, login, ChatPageType};
use chat_auth::passwd::verify_password;
use chat_auth::session::SessionTable;
use chat_auth::store::CredentialStore;

const SUCCESS_FRAGMENT: &str =
    "<div class='success' style='color: green; padding: 10px; margin-top: 10px;'>Login successful!</div>";
const FAILURE_FRAGMENT: &str =
    "<div class='error' style='color: red; padding: 10px; margin-top: 10px;'>Invalid username or password</div>";

fn store_with(username: &str, password: &str) -> CredentialStore {
    let hash = bcrypt::hash(password, 4).unwrap();
    CredentialStore::from_records(vec![(username.to_string(), Some(hash))])
}

#[test]
fn login_success_sets_cookie() {
    let store = store_with("alice", "correct");
    let key = ServerKey::generate();
    let r = login(&store, &key, "alice", "correct");
    assert_eq!(r.body, SUCCESS_FRAGMENT);
    let token = r.token.expect("a cookie must be set on success");
    assert_eq!(validate(&key, token.as_str()), Some("alice".to_string()));
}

#[test]
fn login_wrong_password_fails() {
    let store = store_with("alice", "correct");
    let key = ServerKey::generate();
    let r = login(&store, &key, "alice", "wrong");
    assert_eq!(r.body, FAILURE_FRAGMENT);
    assert!(r.token.is_none());
}

#[test]
fn login_unknown_user_same_message_as_wrong_password() {
    let store = store_with("alice", "correct");
    let key = ServerKey::generate();
    let unknown = login(&store, &key, "mallory", "anything");
    let wrong = login(&store, &key, "alice", "wrong");
    assert_eq!(unknown.body, wrong.body);
    assert_eq!(unknown.body, FAILURE_FRAGMENT);
    assert!(unknown.token.is_none());
}

#[test]
fn login_is_case_sensitive() {
    let store = store_with("alice", "correct");
    let key = ServerKey::generate();
    let r = login(&store, &key, "Alice", "correct");
    assert_eq!(r.body, FAILURE_FRAGMENT);
    assert!(r.token.is_none());
}

#[test]
fn login_malformed_hash_fails_closed() {
    let store = CredentialStore::from_records(vec![(
        "alice".to_string(),
        Some("not-a-bcrypt-hash".to_string()),
    )]);
    let key = ServerKey::generate();
    let r = login(&store, &key, "alice", "anything");
    assert_eq!(r.body, FAILURE_FRAGMENT);
    assert!(r.token.is_none());
}

#[test]
fn login_record_without_hash_fails_closed() {
    let store = CredentialStore::from_records(vec![("alice".to_string(), None)]);
    let key = ServerKey::generate();
    let r = login(&store, &key, "alice", "anything");
    assert_eq!(r.body, FAILURE_FRAGMENT);
    assert!(r.token.is_none());
}

#[test]
fn verify_password_matches_own_hash() {
    let hash = bcrypt::hash("hunter2", 4).unwrap();
    assert!(verify_password("hunter2", &hash));
    assert!(!verify_password("hunter3", &hash));
    assert!(!verify_password("hunter2", "garbage"));
}

#[test]
fn token_round_trip() {
    let key = ServerKey::generate();
    let token = issue(&key, "alice");
    assert_eq!(validate(&key, token.as_str()), Some("alice".to_string()));
}

#[test]
fn token_is_not_the_plain_username() {
    let key = ServerKey::generate();
    let token = issue(&key, "alice");
    assert_ne!(token, "alice");
    assert_eq!(validate(&key, "alice"), None);
}

#[test]
fn token_fails_under_other_key() {
    let key1 = ServerKey::generate();
    let key2 = ServerKey::generate();
    let token = issue(&key1, "alice");
    assert_eq!(validate(&key2, token.as_str()), None);
}

#[test]
fn token_tamper_one_byte_fails() {
    let key = ServerKey::generate();
    let token = issue(&key, "alice");
    let mut bytes = token.clone().into_bytes();
    bytes[0] = if bytes[0] == b'A' { b'B' } else { b'A' };
    let tampered = String::from_utf8(bytes).unwrap();
    assert_ne!(tampered, token);
    assert_eq!(validate(&key, tampered.as_str()), None);
}

#[test]
fn chat_without_cookie_is_anonymous() {
    let key = ServerKey::generate();
    let p = chat_page(&key, ChatPageType::Ana, None);
    assert!(!p.is_logged_in);
    assert_eq!(p.c_type, ChatPageType::Ana);
}

#[test]
fn chat_with_valid_cookie_is_logged_in() {
    let key = ServerKey::generate();
    let token = issue(&key, "alice");
    let p = chat_page(&key, ChatPageType::Ana, Some(&token));
    assert!(p.is_logged_in);
    assert_eq!(p.c_type, ChatPageType::Ana);
}

#[test]
fn restart_invalidates_replayed_cookie() {
    let old_key = ServerKey::generate();
    let token = issue(&old_key, "alice");
    let new_key = ServerKey::generate();
    let p = chat_page(&new_key, ChatPageType::Ana, Some(&token));
    assert!(!p.is_logged_in);
}

#[test]
fn store_loads_from_toml() {
    let text = "[alice]\npassword = \"h1\"\n\n[bob]\npassword = \"h2\"\n";
    let store = CredentialStore::from_toml(text).expect("valid TOML must load");
    let alice = store.lookup("alice").expect("alice is present");
    assert_eq!(alice.username, "alice");
    assert_eq!(alice.password_hash, Some("h1".to_string()));
    let bob = store.lookup("bob").expect("bob is present");
    assert_eq!(bob.password_hash, Some("h2".to_string()));
    assert!(store.lookup("carol").is_none());
}

#[test]
fn store_rejects_invalid_toml() {
    assert!(CredentialStore::from_toml("this is [not toml").is_none());
}

#[test]
fn store_entry_without_password_field_is_malformed() {
    let text = "[alice]\nnote = \"no password here\"\n";
    let store = CredentialStore::from_toml(text).unwrap();
    let alice = store.lookup("alice").expect("alice is present");
    assert_eq!(alice.password_hash, None);
}

#[test]
fn store_lookup_on_empty_store() {
    let store = CredentialStore::from_records(vec![]);
    assert!(store.lookup("anyone").is_none());
}

#[test]
fn session_table_put_and_get() {
    let mut table = SessionTable::new();
    let id1 = table.put("alice".to_string());
    let id2 = table.put("bob".to_string());
    assert_ne!(id1, id2);
    assert_eq!(table.get(id1), Some(&"alice".to_string()));
    assert_eq!(table.get(id2), Some(&"bob".to_string()));
    assert_eq!(table.get(id1.max(id2) + 1), None);
}

#[test]
fn session_table_interleaved_logins_keep_both() {
    let mut table = SessionTable::new();
    let id1 = table.put("alice".to_string());
    let id2 = table.put("bob".to_string());
    let id3 = table.put("alice".to_string());
    assert_eq!(table.get(id1), Some(&"alice".to_string()));
    assert_eq!(table.get(id2), Some(&"bob".to_string()));
    assert_eq!(table.get(id3), Some(&"alice".to_string()));
}

#[test]
fn decimal_rendering() {
    assert_eq!(u16_decimal(0), "0");
    assert_eq!(u16_decimal(7), "7");
    assert_eq!(u16_decimal(500), "500");
    assert_eq!(u16_decimal(65535), "65535");
}

#[test]
fn error_body_is_fixed_format() {
    assert_eq!(
        error_body(500, "Internal server error"),
        "error has occurred with status code 500 and message Internal server error"
    );
    let e = AppError::Render;
    assert_eq!(e.status_code(), 500);
    assert_eq!(e.message(), "Internal server error");
    assert_eq!(
        e.response_body(),
        "error has occurred with status code 500 and message Internal server error"
    );
}
