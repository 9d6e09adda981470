//! The user's settings: their defaults, how they are read back from the
//! settings store, and the move of legacy plain-text keys to the key store.

use vstd::prelude::*;
use vstd::string::StringExecFns;
use crate::keychain::{Keychain, StoreOp, ACCOUNT_GROQ, ACCOUNT_ANTHROPIC, SERVICE, opt_view, write_op};

verus! {

/// File of the settings store.
pub const STORE_FILE: &'static str = "settings.json";

/// Store key that once held the Groq key in plain text.
pub const LEGACY_KEY_GROQ: &'static str = "groq_api_key";

/// Store key that once held the Anthropic key in plain text.
pub const LEGACY_KEY_ANTHROPIC: &'static str = "anthropic_api_key";

pub const KEY_AI_CLEANUP: &'static str = "ai_cleanup_enabled";
pub const KEY_TOGGLE_HOTKEY: &'static str = "toggle_hotkey";
pub const KEY_PTT_HOTKEY: &'static str = "ptt_hotkey";
pub const KEY_WHISPER_MODEL: &'static str = "whisper_model";
pub const KEY_NATIVE_WHISPER_MODEL: &'static str = "native_whisper_model";
pub const KEY_HAIKU_MODEL: &'static str = "haiku_model";
pub const KEY_INPUT_DEVICE: &'static str = "input_device";
pub const KEY_ENGINE: &'static str = "engine";
pub const KEY_INITIALIZED: &'static str = "initialized";
pub const KEY_OVERLAY_SIZE: &'static str = "overlay_size";
pub const KEY_OVERLAY_POSITION: &'static str = "overlay_position";

pub const DEFAULT_TOGGLE_HOTKEY: &'static str = "Cmd+Shift+Space";
pub const DEFAULT_PTT_HOTKEY: &'static str = "F18";
pub const ENGINE_NATIVE: &'static str = "native";
pub const ENGINE_GROQ: &'static str = "groq";

/// The settings that every part of the app reads.
#[derive(Clone, Debug)]
pub struct Settings {
    pub engine: String,
    pub groq_api_key: String,
    pub anthropic_api_key: String,
    pub ai_cleanup_enabled: bool,
    pub toggle_hotkey: String,
    pub ptt_hotkey: String,
    pub whisper_model: Option<String>,
    pub native_whisper_model: Option<String>,
    pub haiku_model: Option<String>,
    pub input_device: Option<String>,
    pub initialized: bool,
    pub overlay_size: String,
    pub overlay_position: String,
}

/// Whether `s` holds the settings of a first launch: the local engine, no
/// keys, AI cleanup off, the default hotkeys, no model or device chosen, a
/// medium overlay at the top.
pub open spec fn is_default(s: Settings) -> bool {
    &&& s.engine@ == ENGINE_NATIVE@
    &&& s.groq_api_key@ == Seq::<char>::empty()
    &&& s.anthropic_api_key@ == Seq::<char>::empty()
    &&& !s.ai_cleanup_enabled
    &&& s.toggle_hotkey@ == DEFAULT_TOGGLE_HOTKEY@
    &&& s.ptt_hotkey@ == DEFAULT_PTT_HOTKEY@
    &&& s.whisper_model is None
    &&& s.native_whisper_model is None
    &&& s.haiku_model is None
    &&& s.input_device is None
    &&& !s.initialized
    &&& s.overlay_size@ == "medium"@
    &&& s.overlay_position@ == "top"@
}

impl Default for Settings {
    fn default() -> (r: Settings)
        ensures
            is_default(r),
    {
        Settings {
            engine: String::from_str(ENGINE_NATIVE),
            groq_api_key: String::new(),
            anthropic_api_key: String::new(),
            ai_cleanup_enabled: false,
            toggle_hotkey: String::from_str(DEFAULT_TOGGLE_HOTKEY),
            ptt_hotkey: String::from_str(DEFAULT_PTT_HOTKEY),
            whisper_model: None,
            native_whisper_model: None,
            haiku_model: None,
            input_device: None,
            initialized: false,
            overlay_size: String::from_str("medium"),
            overlay_position: String::from_str("top"),
        }
    }
}

/// A value held by the settings store, as far as the settings read it.
#[derive(Clone, Debug)]
pub enum StoredValue {
    Str(String),
    Bool(bool),
    /// A number, a list, an object or null.
    Other,
}

/// The store's value for each settings key (`None`: the key is absent).
#[derive(Clone, Debug)]
pub struct StoredSettings {
    pub engine: Option<StoredValue>,
    pub ai_cleanup_enabled: Option<StoredValue>,
    pub toggle_hotkey: Option<StoredValue>,
    pub ptt_hotkey: Option<StoredValue>,
    pub whisper_model: Option<StoredValue>,
    pub native_whisper_model: Option<StoredValue>,
    pub haiku_model: Option<StoredValue>,
    pub input_device: Option<StoredValue>,
    pub initialized: Option<StoredValue>,
    pub overlay_size: Option<StoredValue>,
    pub overlay_position: Option<StoredValue>,
}

/// The text of a stored string, if the value is one.
pub open spec fn as_str(v: Option<StoredValue>) -> Option<Seq<char>> {
    match v {
        Some(StoredValue::Str(s)) => Some(s@),
        _ => None,
    }
}

/// The stored boolean, if the value is one.
pub open spec fn as_bool(v: Option<StoredValue>) -> Option<bool> {
    match v {
        Some(StoredValue::Bool(b)) => Some(b),
        _ => None,
    }
}

/// A stored string, or `default` when the value is absent or no string.
pub open spec fn str_or(v: Option<StoredValue>, default: Seq<char>) -> Seq<char> {
    match as_str(v) {
        Some(s) => s,
        None => default,
    }
}

/// The secret that the key cache `keys` holds for `account`, or the empty
/// string when it holds none.
pub open spec fn secret_or_empty(keys: Map<Seq<char>, Option<Seq<char>>>, account: Seq<char>) -> Seq<char> {
    if keys.contains_key(account) && keys[account] is Some {
        keys[account]->0
    } else {
        Seq::empty()
    }
}

fn read_str(v: &Option<StoredValue>) -> (r: Option<String>)
    ensures
        opt_view(r) == as_str(*v),
{
    match v {
        Some(StoredValue::Str(s)) => Some(s.clone()),
        _ => None,
    }
}

fn read_str_or(v: &Option<StoredValue>, default: &str) -> (r: String)
    ensures
        r@ == str_or(*v, default@),
{
    match v {
        Some(StoredValue::Str(s)) => s.clone(),
        _ => String::from_str(default),
    }
}

fn read_bool_or(v: &Option<StoredValue>, default: bool) -> (r: bool)
    ensures
        r == match as_bool(*v) {
            Some(b) => b,
            None => default,
        },
{
    match v {
        Some(StoredValue::Bool(b)) => *b,
        _ => default,
    }
}

/// A read of one of the app's two keys from the key store, of one that
/// the cache `cached` did not hold yet.
pub open spec fn is_key_read(op: StoreOp, cached: Map<Seq<char>, Option<Seq<char>>>) -> bool {
    ||| op == StoreOp::Read(SERVICE@, ACCOUNT_GROQ@) && !cached.contains_key(ACCOUNT_GROQ@)
    ||| op == StoreOp::Read(SERVICE@, ACCOUNT_ANTHROPIC@) && !cached.contains_key(ACCOUNT_ANTHROPIC@)
}

/// The secret of `account` from the key cache, or the empty string when
/// there is none or the key store fails.
fn secret_of(keys: &mut Keychain, account: &str) -> (r: String)
    ensures
        r@ == secret_or_empty(final(keys)@, account@),
        final(keys)@.dom() == old(keys)@.dom() || final(keys)@.dom() == old(keys)@.dom().insert(
            account@,
        ),
        forall|k: Seq<char>| #[trigger]
            old(keys)@.contains_key(k) ==> final(keys)@.contains_key(k) && final(keys)@[k] == old(
                keys,
            )@[k],
        old(keys)@.contains_key(account@) ==> final(keys).ops() == old(keys).ops(),
        final(keys).ops() == old(keys).ops() || final(keys).ops() == old(keys).ops().push(
            StoreOp::Read(SERVICE@, account@),
        ),
{
    match keys.get(account) {
        Ok(Some(s)) => s,
        Ok(None) => String::new(),
        Err(_) => String::new(),
    }
}

impl Settings {
    /// Whether the settings window opens at launch: only on the very first
    /// one, before the user has saved anything.
    pub fn show_settings_at_launch(&self) -> (r: bool)
        ensures
            r == !self.initialized,
    {
        !self.initialized
    }

    /// The settings that the store `stored` and the key cache hold: each
    /// value of the right kind replaces its default (an empty input device
    /// counts as none); the two API keys come from the key store.
    pub fn from_store(stored: &StoredSettings, keys: &mut Keychain) -> (r: Settings)
        ensures
            r.engine@ == str_or(stored.engine, ENGINE_NATIVE@),
            r.groq_api_key@ == secret_or_empty(final(keys)@, ACCOUNT_GROQ@),
            r.anthropic_api_key@ == secret_or_empty(final(keys)@, ACCOUNT_ANTHROPIC@),
            r.ai_cleanup_enabled == (as_bool(stored.ai_cleanup_enabled) == Some(true)),
            r.toggle_hotkey@ == str_or(stored.toggle_hotkey, DEFAULT_TOGGLE_HOTKEY@),
            r.ptt_hotkey@ == str_or(stored.ptt_hotkey, DEFAULT_PTT_HOTKEY@),
            opt_view(r.whisper_model) == as_str(stored.whisper_model),
            opt_view(r.native_whisper_model) == as_str(stored.native_whisper_model),
            opt_view(r.haiku_model) == as_str(stored.haiku_model),
            opt_view(r.input_device) == match as_str(stored.input_device) {
                Some(d) => if d.len() == 0 {
                    None
                } else {
                    Some(d)
                },
                None => None,
            },
            r.initialized == (as_bool(stored.initialized) == Some(true)),
            r.overlay_size@ == str_or(stored.overlay_size, "medium"@),
            r.overlay_position@ == str_or(stored.overlay_position, "top"@),
            forall|k: Seq<char>| #[trigger]
                old(keys)@.contains_key(k) ==> final(keys)@.contains_key(k) && final(keys)@[k]
                    == old(keys)@[k],
            final(keys).ops().len() <= old(keys).ops().len() + 2,
            final(keys).ops().subrange(0, old(keys).ops().len() as int) == old(keys).ops(),
            forall|i: int|
                old(keys).ops().len() <= i < final(keys).ops().len() ==> is_key_read(
                    #[trigger] final(keys).ops()[i],
                    old(keys)@,
                ),
    {
        let engine = read_str_or(&stored.engine, ENGINE_NATIVE);
        let groq = secret_of(keys, ACCOUNT_GROQ);
        let ghost mid = keys@;
        let anthropic = secret_of(keys, ACCOUNT_ANTHROPIC);
        proof {
            assert(ACCOUNT_GROQ@ != ACCOUNT_ANTHROPIC@) by {
                reveal_strlit("groq_api_key");
                reveal_strlit("anthropic_api_key");
                assert(ACCOUNT_GROQ@.len() == 12);
                assert(ACCOUNT_ANTHROPIC@.len() == 17);
            }
            if mid.contains_key(ACCOUNT_GROQ@) {
                assert(keys@.contains_key(ACCOUNT_GROQ@));
            } else {
                assert(!keys@.contains_key(ACCOUNT_GROQ@));
            }
        }
        let input_device = match read_str(&stored.input_device) {
            Some(d) => {
                let c = crate::text::chars_of(d.as_str());
                if c.len() == 0 {
                    None
                } else {
                    Some(d)
                }
            },
            None => None,
        };
        Settings {
            engine,
            groq_api_key: groq,
            anthropic_api_key: anthropic,
            ai_cleanup_enabled: read_bool_or(&stored.ai_cleanup_enabled, false),
            toggle_hotkey: read_str_or(&stored.toggle_hotkey, DEFAULT_TOGGLE_HOTKEY),
            ptt_hotkey: read_str_or(&stored.ptt_hotkey, DEFAULT_PTT_HOTKEY),
            whisper_model: read_str(&stored.whisper_model),
            native_whisper_model: read_str(&stored.native_whisper_model),
            haiku_model: read_str(&stored.haiku_model),
            input_device,
            initialized: read_bool_or(&stored.initialized, false),
            overlay_size: read_str_or(&stored.overlay_size, "medium"),
            overlay_position: read_str_or(&stored.overlay_position, "top"),
        }
    }
}

/// Moves a key that an older version kept in plain text in the settings
/// store (`legacy`, the store's value) into the key store as `account`.
/// Returns whether the store's copy is to be deleted: yes when the value was
/// empty or was written to the key store; no when there is no string there
/// or the key store refused it.
pub fn migrate_legacy_key(keys: &mut Keychain, legacy: &Option<StoredValue>, account: &str) -> (r: bool)
    ensures
        match as_str(*legacy) {
            None => !r && final(keys)@ == old(keys)@ && final(keys).ops() == old(keys).ops(),
            Some(v) => if v.len() == 0 {
                r && final(keys)@ == old(keys)@ && final(keys).ops() == old(keys).ops()
            } else if r {
                &&& final(keys)@ == old(keys)@.insert(account@, Some(v))
                &&& final(keys).ops() == old(keys).ops().push(write_op(account@, v))
            } else {
                &&& final(keys)@ == old(keys)@
                &&& (final(keys).ops() == old(keys).ops() || final(keys).ops() == old(
                    keys,
                ).ops().push(write_op(account@, v)))
            },
        },
{
    match legacy {
        Some(StoredValue::Str(value)) => {
            let c = crate::text::chars_of(value.as_str());
            if c.len() > 0 {
                match keys.set(account, value.as_str()) {
                    Ok(()) => true,
                    Err(_) => false,
                }
            } else {
                true
            }
        },
        _ => false,
    }
}

} // verus!
