use hearye::keychain::{deletion_outcome, secret_from_store, has_api_key, is_known, set_api_key, Keychain, KeyringError, ACCOUNT_ANTHROPIC, ACCOUNT_GROQ};

#[test]
fn only_the_two_keys_are_known() {
    assert!(is_known("groq_api_key"));
    assert!(is_known("anthropic_api_key"));
    assert!(!is_known("openai_api_key"));
    assert!(!is_known(""));
}

#[test]
fn read_after_write_comes_from_the_cache() {
    let mut keys = Keychain::new();
    keys.set(ACCOUNT_GROQ, "gsk-123").unwrap();
    assert_eq!(keys.get(ACCOUNT_GROQ).unwrap(), Some("gsk-123".to_string()));
    keys.set(ACCOUNT_GROQ, "").unwrap();
    assert_eq!(keys.get(ACCOUNT_GROQ).unwrap(), None);
}

#[test]
fn a_read_is_remembered() {
    let mut keys = Keychain::new();
    let first = keys.get(ACCOUNT_ANTHROPIC).unwrap();
    assert_eq!(keys.get(ACCOUNT_ANTHROPIC).unwrap(), first);
}

#[test]
fn has_api_key_refuses_unknown_names() {
    let mut keys = Keychain::new();
    assert_eq!(has_api_key(&mut keys, "nope"), Err("unknown key: nope".to_string()));
    assert_eq!(set_api_key(&mut keys, "nope", "v"), Err("unknown key: nope".to_string()));
}

#[test]
fn has_api_key_after_setting() {
    let mut keys = Keychain::new();
    set_api_key(&mut keys, ACCOUNT_ANTHROPIC, "sk-ant").unwrap();
    assert_eq!(has_api_key(&mut keys, ACCOUNT_ANTHROPIC), Ok(true));
    set_api_key(&mut keys, ACCOUNT_ANTHROPIC, "").unwrap();
    assert_eq!(has_api_key(&mut keys, ACCOUNT_ANTHROPIC), Ok(false));
}

#[test]
fn keyring_error_messages() {
    assert_eq!(KeyringError::NoEntry.message(), "No matching entry found in secure storage");
    assert_eq!(KeyringError::Other("boom".to_string()).message(), "boom");
}

#[test]
fn store_reads_and_deletions() {
    assert_eq!(secret_from_store(Ok("s".into())).unwrap(), Some("s".to_string()));
    assert_eq!(secret_from_store(Err(KeyringError::NoEntry)).unwrap(), None);
    assert!(matches!(secret_from_store(Err(KeyringError::Other("x".into()))), Err(KeyringError::Other(m)) if m == "x"));
    assert!(deletion_outcome(Ok(())).is_ok());
    assert!(deletion_outcome(Err(KeyringError::NoEntry)).is_ok());
    assert!(matches!(deletion_outcome(Err(KeyringError::Other("y".into()))), Err(KeyringError::Other(m)) if m == "y"));
}

#[test]
fn writing_one_key_leaves_the_other() {
    let mut keys = Keychain::new();
    keys.set(ACCOUNT_GROQ, "gsk-1").unwrap();
    keys.set(ACCOUNT_ANTHROPIC, "sk-ant-2").unwrap();
    assert_eq!(keys.get(ACCOUNT_GROQ).unwrap(), Some("gsk-1".to_string()));
    keys.set(ACCOUNT_ANTHROPIC, "").unwrap();
    assert_eq!(keys.get(ACCOUNT_GROQ).unwrap(), Some("gsk-1".to_string()));
    assert_eq!(keys.get(ACCOUNT_ANTHROPIC).unwrap(), None);
}
