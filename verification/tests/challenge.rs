use rustwasgi::acme;
use rustwasgi::tls::challenge::{is_valid_token, ChallengeStore};

#[test]
fn valid() {
    assert!(is_valid_token("abc123-_9"));
    assert!(is_valid_token("abc123-_-XYZ_123"));
}

#[test]
fn invalid_traversal() {
    assert!(!is_valid_token("../etc/passwd"));
    assert!(!is_valid_token("a/b"));
    assert!(!is_valid_token("a\\b"));
}

#[test]
fn invalid_chars() {
    assert!(!is_valid_token("abc!"));
}

#[test]
fn token_length_limits() {
    assert!(!is_valid_token(""));
    assert!(is_valid_token(&"a".repeat(128)));
    assert!(!is_valid_token(&"a".repeat(129)));
    assert!(!is_valid_token("\u{e9}"));
    assert!(!is_valid_token("a.b"));
}

#[test]
fn store_keeps_answers() {
    let mut store = ChallengeStore::new();
    assert_eq!(store.get("abc"), None);
    let line = store.insert("abc".to_string(), "answer".to_string());
    assert_eq!(line, "INFO rustwasgi: ACME challenge installed for token");
    store.insert("def".to_string(), "other".to_string());
    assert_eq!(store.get("abc"), Some("answer".to_string()));
    store.remove("abc");
    assert_eq!(store.get("abc"), None);
    assert_eq!(store.get("def"), Some("other".to_string()));
    store.clear();
    assert_eq!(store.get("def"), None);
}

#[test]
fn store_rejects_what_is_no_token() {
    let mut store = ChallengeStore::new();
    let line = store.insert("a/\"b".to_string(), "answer".to_string());
    assert_eq!(line, "WARN rustwasgi: rejecting invalid challenge token \"a/\\\"b\"");
    assert_eq!(store.get("a/\"b"), None);
}

#[test]
fn wider_tokens_allow_single_dots() {
    assert!(acme::challenge::is_valid_token("a.b-c_d"));
    assert!(!acme::challenge::is_valid_token("a..b"));
    assert!(!acme::challenge::is_valid_token("a/b"));
    assert!(!acme::challenge::is_valid_token(""));
    assert!(!acme::challenge::is_valid_token(&"a".repeat(129)));
}

#[test]
fn plain_store_keeps_everything() {
    let mut store = acme::challenge::ChallengeStore::new();
    store.insert("a/b".to_string(), "answer".to_string());
    assert_eq!(store.get("a/b"), Some("answer".to_string()));
    store.remove("a/b");
    assert_eq!(store.get("a/b"), None);
}
