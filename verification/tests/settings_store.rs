use hearye::keychain::{Keychain, ACCOUNT_GROQ};
use hearye::settings::{migrate_legacy_key, Settings, StoredSettings, StoredValue};

fn empty_store() -> StoredSettings {
    StoredSettings {
        engine: None,
        ai_cleanup_enabled: None,
        toggle_hotkey: None,
        ptt_hotkey: None,
        whisper_model: None,
        native_whisper_model: None,
        haiku_model: None,
        input_device: None,
        initialized: None,
        overlay_size: None,
        overlay_position: None,
    }
}

fn s(v: &str) -> Option<StoredValue> {
    Some(StoredValue::Str(v.to_string()))
}

#[test]
fn defaults_of_a_first_launch() {
    let d = Settings::default();
    assert_eq!(d.engine, "native");
    assert!(!d.ai_cleanup_enabled);
    assert_eq!(d.toggle_hotkey, "Cmd+Shift+Space");
    assert_eq!(d.ptt_hotkey, "F18");
    assert_eq!(d.overlay_size, "medium");
    assert_eq!(d.overlay_position, "top");
    assert!(d.input_device.is_none() && d.whisper_model.is_none() && !d.initialized);
    assert!(d.groq_api_key.is_empty() && d.anthropic_api_key.is_empty());
}

#[test]
fn an_empty_store_gives_the_defaults() {
    let mut keys = Keychain::new();
    let got = Settings::from_store(&empty_store(), &mut keys);
    assert_eq!(got.engine, "native");
    assert_eq!(got.toggle_hotkey, "Cmd+Shift+Space");
    assert!(!got.ai_cleanup_enabled && !got.initialized);
    assert_eq!(got.overlay_size, "medium");
}

#[test]
fn stored_values_replace_defaults() {
    let mut keys = Keychain::new();
    keys.set(ACCOUNT_GROQ, "gsk").unwrap();
    let mut st = empty_store();
    st.engine = s("groq");
    st.ai_cleanup_enabled = Some(StoredValue::Bool(true));
    st.toggle_hotkey = s("Alt+D");
    st.whisper_model = s("whisper-large-v3");
    st.input_device = s("USB Mic");
    st.initialized = Some(StoredValue::Bool(true));
    st.overlay_position = s("bottom");
    let got = Settings::from_store(&st, &mut keys);
    assert_eq!(got.engine, "groq");
    assert_eq!(got.groq_api_key, "gsk");
    assert!(got.ai_cleanup_enabled && got.initialized);
    assert_eq!(got.toggle_hotkey, "Alt+D");
    assert_eq!(got.whisper_model.as_deref(), Some("whisper-large-v3"));
    assert_eq!(got.input_device.as_deref(), Some("USB Mic"));
    assert_eq!(got.overlay_position, "bottom");
}

#[test]
fn wrong_kinds_and_empty_device_are_ignored() {
    let mut keys = Keychain::new();
    let mut st = empty_store();
    st.engine = Some(StoredValue::Bool(true));
    st.ai_cleanup_enabled = s("yes");
    st.input_device = s("");
    st.overlay_size = Some(StoredValue::Other);
    let got = Settings::from_store(&st, &mut keys);
    assert_eq!(got.engine, "native");
    assert!(!got.ai_cleanup_enabled);
    assert!(got.input_device.is_none());
    assert_eq!(got.overlay_size, "medium");
}

#[test]
fn legacy_key_is_moved_then_deleted() {
    let mut keys = Keychain::new();
    assert!(migrate_legacy_key(&mut keys, &s("gsk-old"), ACCOUNT_GROQ));
    assert_eq!(keys.get(ACCOUNT_GROQ).unwrap().as_deref(), Some("gsk-old"));
}

#[test]
fn empty_legacy_key_is_only_deleted() {
    let mut keys = Keychain::new();
    keys.set(ACCOUNT_GROQ, "kept").unwrap();
    assert!(migrate_legacy_key(&mut keys, &s(""), ACCOUNT_GROQ));
    assert_eq!(keys.get(ACCOUNT_GROQ).unwrap().as_deref(), Some("kept"));
}

#[test]
fn absent_legacy_key_is_left_alone() {
    let mut keys = Keychain::new();
    assert!(!migrate_legacy_key(&mut keys, &None, ACCOUNT_GROQ));
    assert!(!migrate_legacy_key(&mut keys, &Some(StoredValue::Bool(false)), ACCOUNT_GROQ));
}
