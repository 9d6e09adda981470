//! API keys in the system key store, behind a cache of what was read or
//! written.

use vstd::prelude::*;
use vstd::string::StringExecFns;
use crate::text::str_eq;

verus! {

/// The key store service under which the app's keys live.
pub const SERVICE: &'static str = "com.charlie.hearye";

/// Account of the Groq API key.
pub const ACCOUNT_GROQ: &'static str = "groq_api_key";

/// Account of the Anthropic API key.
pub const ACCOUNT_ANTHROPIC: &'static str = "anthropic_api_key";

#[verifier::external_type_specification]
#[verifier::external_body]
pub struct ExKeyringEntry(keyring::Entry);

/// A failure of the key store.
#[derive(Debug)]
pub enum KeyringError {
    /// The store holds no such entry.
    NoEntry,
    /// Any other failure, with the store's description.
    Other(String),
}

impl KeyringError {
    /// The description of the failure.
    pub open spec fn message_spec(&self) -> Seq<char> {
        match self {
            KeyringError::NoEntry => "No matching entry found in secure storage"@,
            KeyringError::Other(m) => m@,
        }
    }

    /// The description of the failure.
    pub fn message(&self) -> (r: String)
        ensures
            r@ == self.message_spec(),
    {
        match self {
            KeyringError::NoEntry => String::from_str("No matching entry found in secure storage"),
            KeyringError::Other(m) => m.clone(),
        }
    }
}

/// An operation handed to the platform key store: a read of the entry
/// (service, account), or a write of its secret (`None`: the entry deleted).
pub enum StoreOp {
    Read(Seq<char>, Seq<char>),
    Write(Seq<char>, Seq<char>, Option<Seq<char>>),
}

/// The operations handed to the key store so far, oldest first. It exists
/// for the contracts alone and holds nothing at run time.
pub struct StoreLog {
    ops: Ghost<Seq<StoreOp>>,
}

impl View for StoreLog {
    type V = Seq<StoreOp>;

    closed spec fn view(&self) -> Self::V {
        self.ops@
    }
}

impl StoreLog {
    /// A log of no operations.
    pub fn new() -> (r: StoreLog)
        ensures
            r@ == Seq::<StoreOp>::empty(),
    {
        StoreLog { ops: Ghost(Seq::empty()) }
    }
}

/// A key-store entry, with the service and account it was made for.
struct StoreEntry {
    entry: keyring::Entry,
    service: String,
    account: String,
}

/// `keyring::Entry::new`: the entry of `account` under `service`, kept with
/// the two names it was made for. Whether the platform store can make one
/// is not stated.
#[verifier::external_body]
fn entry_new(service: &str, account: &str) -> (r: Result<StoreEntry, KeyringError>)
    ensures
        r matches Ok(e) ==> e.service@ == service@ && e.account@ == account@,
{
    match keyring::Entry::new(service, account) {
        Ok(entry) => Ok(StoreEntry { entry, service: service.to_string(), account: account.to_string() }),
        Err(keyring::Error::NoEntry) => Err(KeyringError::NoEntry),
        Err(e) => Err(KeyringError::Other(e.to_string())),
    }
}

/// `keyring::Entry::get_password` on `e`: asks the store for the entry's
/// secret, which `log` records as a read of `e`'s service and account. What
/// the store answers is not stated.
#[verifier::external_body]
fn entry_get_password(log: &mut StoreLog, e: &StoreEntry) -> (r: Result<String, KeyringError>)
    ensures
        final(log)@ == old(log)@.push(StoreOp::Read(e.service@, e.account@)),
{
    e.entry.get_password().map_err(|err| match err {
        keyring::Error::NoEntry => KeyringError::NoEntry,
        err => KeyringError::Other(err.to_string()),
    })
}

/// `keyring::Entry::set_password` on `e`: hands the store `password` as the
/// entry's secret, which `log` records. Whether the store accepts it is not
/// stated.
#[verifier::external_body]
fn entry_set_password(log: &mut StoreLog, e: &StoreEntry, password: &str) -> (r: Result<(), KeyringError>)
    ensures
        final(log)@ == old(log)@.push(StoreOp::Write(e.service@, e.account@, Some(password@))),
{
    e.entry.set_password(password).map_err(|err| match err {
        keyring::Error::NoEntry => KeyringError::NoEntry,
        err => KeyringError::Other(err.to_string()),
    })
}

/// `keyring::Entry::delete_credential` on `e`: asks the store to remove the
/// entry, which `log` records as a write of no secret. Whether the store held
/// one or accepts the removal is not stated.
#[verifier::external_body]
fn entry_delete_credential(log: &mut StoreLog, e: &StoreEntry) -> (r: Result<(), KeyringError>)
    ensures
        final(log)@ == old(log)@.push(StoreOp::Write(e.service@, e.account@, None)),
{
    e.entry.delete_credential().map_err(|err| match err {
        keyring::Error::NoEntry => KeyringError::NoEntry,
        err => KeyringError::Other(err.to_string()),
    })
}

/// The secret that a key store read gives: the password, no secret when the
/// store holds no entry, or the store's failure.
pub fn secret_from_store(read: Result<String, KeyringError>) -> (r: Result<Option<String>, KeyringError>)
    ensures
        match read {
            Ok(s) => r matches Ok(Some(v)) && v@ == s@,
            Err(KeyringError::NoEntry) => r matches Ok(None),
            Err(KeyringError::Other(m)) => r matches Err(KeyringError::Other(m2)) && m2@ == m@,
        },
{
    match read {
        Ok(s) => Ok(Some(s)),
        Err(KeyringError::NoEntry) => Ok(None),
        Err(e) => Err(e),
    }
}

/// The outcome of deleting an entry: deleting one that does not exist is no
/// failure.
pub fn deletion_outcome(deleted: Result<(), KeyringError>) -> (r: Result<(), KeyringError>)
    ensures
        match deleted {
            Ok(()) => r is Ok,
            Err(KeyringError::NoEntry) => r is Ok,
            Err(KeyringError::Other(m)) => r matches Err(KeyringError::Other(m2)) && m2@ == m@,
        },
{
    match deleted {
        Ok(()) => Ok(()),
        Err(KeyringError::NoEntry) => Ok(()),
        Err(e) => Err(e),
    }
}

/// Whether `account` names one of the app's two keys.
pub fn is_known(account: &str) -> (r: bool)
    ensures
        r == (account@ == ACCOUNT_GROQ@ || account@ == ACCOUNT_ANTHROPIC@),
{
    str_eq(account, ACCOUNT_GROQ) || str_eq(account, ACCOUNT_ANTHROPIC)
}

/// What the key store holds after `value` is written: the value itself, or
/// no secret for an empty value.
pub open spec fn stored_secret(value: Seq<char>) -> Option<Seq<char>> {
    if value.len() == 0 {
        None
    } else {
        Some(value)
    }
}

/// The characters of an optional string.
pub open spec fn opt_view(o: Option<String>) -> Option<Seq<char>> {
    match o {
        Some(s) => Some(s@),
        None => None,
    }
}

/// What `Keychain::get` does, from the cache `before` and store log `ops0`
/// to the cache `after` and log `ops1`: a cached account is answered from
/// the cache, which stays as it was, and the store is not asked; an account
/// not cached yet is read from the store entry (`SERVICE`, `account`), and
/// what was read is cached (a failure leaves the cache as it was, the read
/// asked for or not).
pub open spec fn get_post(
    before: Map<Seq<char>, Option<Seq<char>>>,
    ops0: Seq<StoreOp>,
    account: Seq<char>,
    r: Result<Option<String>, KeyringError>,
    after: Map<Seq<char>, Option<Seq<char>>>,
    ops1: Seq<StoreOp>,
) -> bool {
    if before.contains_key(account) {
        &&& r matches Ok(v)
        &&& opt_view(v) == before[account]
        &&& after == before
        &&& ops1 == ops0
    } else {
        match r {
            Ok(v) => {
                &&& after == before.insert(account, opt_view(v))
                &&& ops1 == ops0.push(StoreOp::Read(SERVICE@, account))
            },
            Err(_) => {
                &&& after == before
                &&& (ops1 == ops0 || ops1 == ops0.push(StoreOp::Read(SERVICE@, account)))
            },
        }
    }
}

/// The store operation that writing `value` as the secret of `account`
/// hands over: the value for the entry (`SERVICE`, `account`), or its
/// deletion for an empty value.
pub open spec fn write_op(account: Seq<char>, value: Seq<char>) -> StoreOp {
    StoreOp::Write(SERVICE@, account, stored_secret(value))
}

/// What `Keychain::set` does, from the cache `before` and store log `ops0`
/// to the cache `after` and log `ops1`: on success the store was handed
/// `write_op(account, value)` and the account holds the new secret (none for
/// an empty value); on a failure the cache stays as it was, the write handed
/// over or not.
pub open spec fn set_post(
    before: Map<Seq<char>, Option<Seq<char>>>,
    ops0: Seq<StoreOp>,
    account: Seq<char>,
    value: Seq<char>,
    r: Result<(), KeyringError>,
    after: Map<Seq<char>, Option<Seq<char>>>,
    ops1: Seq<StoreOp>,
) -> bool {
    match r {
        Ok(_) => {
            &&& after == before.insert(account, stored_secret(value))
            &&& ops1 == ops0.push(write_op(account, value))
        },
        Err(_) => {
            &&& after == before
            &&& (ops1 == ops0 || ops1 == ops0.push(write_op(account, value)))
        },
    }
}

/// The cache as a map; a later entry for an account overrides an earlier one.
pub open spec fn cache_map(es: Seq<(String, Option<String>)>) -> Map<Seq<char>, Option<Seq<char>>>
    decreases es.len(),
{
    if es.len() == 0 {
        Map::empty()
    } else {
        cache_map(es.drop_last()).insert(es.last().0@, opt_view(es.last().1))
    }
}

/// The key store as the app sees it: for each account read or written so
/// far, its secret (`None`: no entry).
pub struct Keychain {
    entries: Vec<(String, Option<String>)>,
    log: StoreLog,
}

impl Keychain {
    /// The operations handed to the key store through this cache so far.
    pub closed spec fn ops(&self) -> Seq<StoreOp> {
        self.log@
    }
}

impl View for Keychain {
    type V = Map<Seq<char>, Option<Seq<char>>>;

    closed spec fn view(&self) -> Self::V {
        cache_map(self.entries@)
    }
}

proof fn lemma_cache_lookup(es: Seq<(String, Option<String>)>, k: Seq<char>, i: int)
    requires
        -1 <= i < es.len(),
        forall|t: int| i < t < es.len() ==> (#[trigger] es[t]).0@ != k,
        i >= 0 ==> es[i].0@ == k,
    ensures
        i >= 0 ==> cache_map(es).contains_key(k) && cache_map(es)[k] == opt_view(es[i].1),
        i < 0 ==> !cache_map(es).contains_key(k),
    decreases es.len(),
{
    if es.len() > 0 {
        if i == es.len() - 1 {
        } else {
            let p = es.drop_last();
            assert forall|t: int| i < t < p.len() implies (#[trigger] p[t]).0@ != k by {
                assert(p[t] == es[t]);
            }
            if i >= 0 {
                assert(p[i] == es[i]);
            }
            lemma_cache_lookup(p, k, i);
        }
    }
}

proof fn lemma_cache_update(es: Seq<(String, Option<String>)>, i: int, e: (String, Option<String>))
    requires
        0 <= i < es.len(),
        es[i].0@ == e.0@,
        forall|t: int| i < t < es.len() ==> (#[trigger] es[t]).0@ != e.0@,
    ensures
        cache_map(es.update(i, e)) == cache_map(es).insert(e.0@, opt_view(e.1)),
    decreases es.len(),
{
    let u = es.update(i, e);
    if i == es.len() - 1 {
        assert(u.drop_last() =~= es.drop_last());
        assert(cache_map(es).insert(e.0@, opt_view(e.1)) =~= cache_map(es.drop_last()).insert(
            e.0@,
            opt_view(e.1),
        ));
    } else {
        let p = es.drop_last();
        assert(u.drop_last() =~= p.update(i, e));
        assert forall|t: int| i < t < p.len() implies (#[trigger] p[t]).0@ != e.0@ by {
            assert(p[t] == es[t]);
        }
        lemma_cache_update(p, i, e);
        assert(u.last() == es.last());
        assert(es.last().0@ != e.0@);
        assert(cache_map(u) =~= cache_map(es).insert(e.0@, opt_view(e.1)));
    }
}

impl Keychain {
    /// A cache that has seen nothing yet.
    pub fn new() -> (r: Keychain)
        ensures
            r@ == Map::<Seq<char>, Option<Seq<char>>>::empty(),
            r.ops() == Seq::<StoreOp>::empty(),
    {
        Keychain { entries: Vec::new(), log: StoreLog::new() }
    }

    /// The position of the last entry for `account`, if any.
    fn find(&self, account: &str) -> (r: Option<usize>)
        ensures
            r matches Some(i) ==> i < self.entries@.len() && self.entries@[i as int].0@ == account@
                && forall|t: int|
                i < t < self.entries@.len() ==> (#[trigger] self.entries@[t]).0@ != account@,
            r is None ==> forall|t: int|
                0 <= t < self.entries@.len() ==> (#[trigger] self.entries@[t]).0@ != account@,
    {
        let mut i = self.entries.len();
        while i > 0
            invariant
                i <= self.entries@.len(),
                forall|t: int|
                    i <= t < self.entries@.len() ==> (#[trigger] self.entries@[t]).0@ != account@,
            decreases i,
        {
            if str_eq(self.entries[i - 1].0.as_str(), account) {
                return Some(i - 1);
            }
            i = i - 1;
        }
        None
    }

    /// Records that `account` now holds `value`.
    fn remember(&mut self, account: &str, value: Option<String>)
        ensures
            final(self)@ == old(self)@.insert(account@, opt_view(value)),
            final(self).ops() == old(self).ops(),
    {
        let name = String::from_str(account);
        match self.find(account) {
            Some(i) => {
                proof {
                    lemma_cache_update(self.entries@, i as int, (name, value));
                }
                self.entries.set(i, (name, value));
            },
            None => {
                let ghost before = self.entries@;
                self.entries.push((name, value));
                assert(self.entries@.drop_last() =~= before);
            },
        }
    }

    /// The secret of `account`: the cached one when the account was read or
    /// written before, else the key store's, which is then cached (no entry
    /// in the store reads as `None`). A failure of the store is passed on
    /// and leaves the cache as it was.
    pub fn get(&mut self, account: &str) -> (r: Result<Option<String>, KeyringError>)
        ensures
            get_post(old(self)@, old(self).ops(), account@, r, final(self)@, final(self).ops()),
    {
        match self.find(account) {
            Some(i) => {
                proof {
                    lemma_cache_lookup(self.entries@, account@, i as int);
                }
                return Ok(self.entries[i].1.clone());
            },
            None => {
                proof {
                    lemma_cache_lookup(self.entries@, account@, -1);
                }
            },
        }
        let entry = match entry_new(SERVICE, account) {
            Ok(e) => e,
            Err(e) => return Err(e),
        };
        let value = match secret_from_store(entry_get_password(&mut self.log, &entry)) {
            Ok(v) => v,
            Err(e) => return Err(e),
        };
        self.remember(account, value.clone());
        Ok(value)
    }

    /// Stores `value` as the secret of `account`; an empty value deletes the
    /// entry (deleting one that does not exist is no failure). On success
    /// the cache holds the new secret (`None` for an empty value); on a
    /// failure of the store it is left as it was.
    pub fn set(&mut self, account: &str, value: &str) -> (r: Result<(), KeyringError>)
        ensures
            set_post(old(self)@, old(self).ops(), account@, value@, r, final(self)@, final(self).ops()),
    {
        let entry = match entry_new(SERVICE, account) {
            Ok(e) => e,
            Err(e) => return Err(e),
        };
        let chars = crate::text::chars_of(value);
        if chars.len() == 0 {
            match deletion_outcome(entry_delete_credential(&mut self.log, &entry)) {
                Ok(()) => {},
                Err(e) => return Err(e),
            }
            self.remember(account, None);
        } else {
            match entry_set_password(&mut self.log, &entry, value) {
                Ok(()) => {},
                Err(e) => return Err(e),
            }
            self.remember(account, Some(String::from_str(value)));
        }
        Ok(())
    }
}


/// Whether the cached secret is present and non-empty.
pub open spec fn has_secret(v: Option<Seq<char>>) -> bool {
    v matches Some(s) && s.len() > 0
}

/// The refusal of a key name that is not one of the app's.
pub open spec fn unknown_key_message(name: Seq<char>) -> Seq<char> {
    "unknown key: "@ + name
}

fn unknown_key(name: &str) -> (r: String)
    ensures
        r@ == unknown_key_message(name@),
{
    let mut m = String::from_str("unknown key: ");
    m.append(name);
    m
}

/// Whether `name` is one of the app's two keys.
pub open spec fn is_app_key(name: Seq<char>) -> bool {
    name == ACCOUNT_GROQ@ || name == ACCOUNT_ANTHROPIC@
}

/// What `has_api_key` does, from the cache `before` and store log `ops0` to
/// the cache `after` and log `ops1`: a name that is not one of the app's
/// keys is refused and nothing changes; otherwise the key is read as
/// `Keychain::get` reads it (see `get_post`), and the answer is whether a
/// non-empty secret came back.
pub open spec fn has_key_post(
    before: Map<Seq<char>, Option<Seq<char>>>,
    ops0: Seq<StoreOp>,
    name: Seq<char>,
    r: Result<bool, String>,
    after: Map<Seq<char>, Option<Seq<char>>>,
    ops1: Seq<StoreOp>,
) -> bool {
    if !is_app_key(name) {
        &&& r matches Err(m)
        &&& m@ == unknown_key_message(name)
        &&& after == before
        &&& ops1 == ops0
    } else if before.contains_key(name) {
        &&& r == Ok::<bool, String>(has_secret(before[name]))
        &&& after == before
        &&& ops1 == ops0
    } else {
        match r {
            Ok(b) => {
                &&& after.contains_key(name)
                &&& b == has_secret(after[name])
                &&& after == before.insert(name, after[name])
                &&& ops1 == ops0.push(StoreOp::Read(SERVICE@, name))
            },
            Err(_) => {
                &&& after == before
                &&& (ops1 == ops0 || ops1 == ops0.push(StoreOp::Read(SERVICE@, name)))
            },
        }
    }
}

/// What `set_api_key` does, from the cache `before` and store log `ops0` to
/// the cache `after` and log `ops1`: a name that is not one of the app's
/// keys is refused and nothing changes; otherwise as `Keychain::set` (see
/// `set_post`).
pub open spec fn set_key_post(
    before: Map<Seq<char>, Option<Seq<char>>>,
    ops0: Seq<StoreOp>,
    name: Seq<char>,
    value: Seq<char>,
    r: Result<(), String>,
    after: Map<Seq<char>, Option<Seq<char>>>,
    ops1: Seq<StoreOp>,
) -> bool {
    if !is_app_key(name) {
        &&& r matches Err(m)
        &&& m@ == unknown_key_message(name)
        &&& after == before
        &&& ops1 == ops0
    } else {
        match r {
            Ok(_) => {
                &&& after == before.insert(name, stored_secret(value))
                &&& ops1 == ops0.push(write_op(name, value))
            },
            Err(_) => {
                &&& after == before
                &&& (ops1 == ops0 || ops1 == ops0.push(write_op(name, value)))
            },
        }
    }
}

/// Whether a non-empty secret is stored for the key `name`; refuses names
/// that are not one of the app's keys.
pub fn has_api_key(keys: &mut Keychain, name: &str) -> (r: Result<bool, String>)
    ensures
        has_key_post(old(keys)@, old(keys).ops(), name@, r, final(keys)@, final(keys).ops()),
{
    if !is_known(name) {
        return Err(unknown_key(name));
    }
    match keys.get(name) {
        Ok(Some(s)) => {
            let c = crate::text::chars_of(s.as_str());
            Ok(c.len() > 0)
        },
        Ok(None) => Ok(false),
        Err(e) => Err(e.message()),
    }
}

/// Stores `value` as the key `name` (an empty value deletes it); refuses
/// names that are not one of the app's keys.
pub fn set_api_key(keys: &mut Keychain, name: &str, value: &str) -> (r: Result<(), String>)
    ensures
        set_key_post(old(keys)@, old(keys).ops(), name@, value@, r, final(keys)@, final(keys).ops()),
{
    if !is_known(name) {
        return Err(unknown_key(name));
    }
    match keys.set(name, value) {
        Ok(()) => Ok(()),
        Err(e) => Err(e.message()),
    }
}

/// A secret written through the cache is what a later read returns,
/// without asking the key store again: after `set` succeeds, having handed
/// the store the value for the entry (`SERVICE`, `account`), `get` of the
/// same account answers the value itself (no secret for an empty value),
/// leaves the cache as it was and hands the store nothing.
pub proof fn law_read_after_write(
    k0: Map<Seq<char>, Option<Seq<char>>>,
    k1: Map<Seq<char>, Option<Seq<char>>>,
    k2: Map<Seq<char>, Option<Seq<char>>>,
    o0: Seq<StoreOp>,
    o1: Seq<StoreOp>,
    o2: Seq<StoreOp>,
    account: Seq<char>,
    value: Seq<char>,
    w: Result<(), KeyringError>,
    r: Result<Option<String>, KeyringError>,
)
    requires
        w is Ok,
        set_post(k0, o0, account, value, w, k1, o1),
        get_post(k1, o1, account, r, k2, o2),
    ensures
        o1 == o0.push(StoreOp::Write(SERVICE@, account, stored_secret(value))),
        r matches Ok(v) && opt_view(v) == stored_secret(value),
        k2 == k1,
        o2 == o1,
        has_secret(k2[account]) == (value.len() > 0),
{
    assert(k1.contains_key(account));
}

/// Writing one account leaves another as it was: what is cached for it,
/// and hence what a later read of it answers, without asking the store.
pub proof fn law_writes_do_not_interfere(
    k0: Map<Seq<char>, Option<Seq<char>>>,
    k1: Map<Seq<char>, Option<Seq<char>>>,
    k2: Map<Seq<char>, Option<Seq<char>>>,
    o0: Seq<StoreOp>,
    o1: Seq<StoreOp>,
    o2: Seq<StoreOp>,
    a: Seq<char>,
    b: Seq<char>,
    value: Seq<char>,
    w: Result<(), KeyringError>,
    r: Result<Option<String>, KeyringError>,
)
    requires
        a != b,
        k0.contains_key(a),
        set_post(k0, o0, b, value, w, k1, o1),
        get_post(k1, o1, a, r, k2, o2),
    ensures
        k1.contains_key(a),
        k1[a] == k0[a],
        r matches Ok(v) && opt_view(v) == k0[a],
        k2 == k1,
        o2 == o1,
{
}

/// The settings window's round trip: once `set_api_key` has stored a
/// value for a key, `has_api_key` reports whether that value was non-empty,
/// from the cache, without changing it or asking the store.
pub proof fn law_has_key_after_set(
    k0: Map<Seq<char>, Option<Seq<char>>>,
    k1: Map<Seq<char>, Option<Seq<char>>>,
    k2: Map<Seq<char>, Option<Seq<char>>>,
    o0: Seq<StoreOp>,
    o1: Seq<StoreOp>,
    o2: Seq<StoreOp>,
    name: Seq<char>,
    value: Seq<char>,
    w: Result<(), String>,
    r: Result<bool, String>,
)
    requires
        w is Ok,
        set_key_post(k0, o0, name, value, w, k1, o1),
        has_key_post(k1, o1, name, r, k2, o2),
    ensures
        is_app_key(name),
        o1 == o0.push(write_op(name, value)),
        r == Ok::<bool, String>(value.len() > 0),
        k2 == k1,
        o2 == o1,
{
    assert(k1.contains_key(name));
}

/// A failed write leaves the cache as it was; at most the attempted write
/// was handed to the store.
pub proof fn law_failed_write_changes_nothing(
    k0: Map<Seq<char>, Option<Seq<char>>>,
    k1: Map<Seq<char>, Option<Seq<char>>>,
    o0: Seq<StoreOp>,
    o1: Seq<StoreOp>,
    account: Seq<char>,
    value: Seq<char>,
    w: Result<(), KeyringError>,
)
    requires
        w is Err,
        set_post(k0, o0, account, value, w, k1, o1),
    ensures
        k1 == k0,
        o1 == o0 || o1 == o0.push(write_op(account, value)),
{
}

} // verus!
