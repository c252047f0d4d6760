//! Database passphrase storage.
//!
//! The passphrase lives in the data-protection keychain. On the way there it
//! is migrated, once, from the legacy ACL keychain (whose entry is then
//! deleted) or from a legacy `.db_key` file (which is then renamed to
//! `.db_key.bak`); with neither, a fresh 64-hex-digit passphrase is made.
//! Every keychain is reached through [`KeychainBackend`]; the files are read
//! and renamed by the caller, which hands their contents in and carries out
//! the rename the result asks for.
use vstd::prelude::*;

use crate::codec::{hex_digit, hex_encode, hex_text};
use crate::text::{concat, is_space, lemma_trim_idempotent, lemma_trim_unchanged, owned, trim, trimmed};

verus! {

/// Keychain service name of every item this app stores.
pub const SERVICE_NAME: &'static str = "com.signalui.app";

/// Keychain account of the database encryption key.
pub const DB_KEY_ACCOUNT: &'static str = "signalui-db-encryption-key";

/// Why a keychain operation failed.
#[derive(Debug, Clone)]
pub enum KeychainError {
    InvalidData,
    StoreFailed(String),
    DeleteFailed(String),
    AccessFailed(String),
}

/// The text shown for each keychain error.
pub open spec fn keychain_error_text(e: KeychainError) -> Seq<char> {
    match e {
        KeychainError::InvalidData => "invalid data in keychain"@,
        KeychainError::StoreFailed(m) => "failed to store in keychain: "@ + m@,
        KeychainError::DeleteFailed(m) => "failed to delete from keychain: "@ + m@,
        KeychainError::AccessFailed(m) => "keychain access failed: "@ + m@,
    }
}

impl KeychainError {
    /// The error's text.
    pub fn message(&self) -> (r: String)
        ensures
            r@ == keychain_error_text(*self),
    {
        match self {
            KeychainError::InvalidData => owned("invalid data in keychain"),
            KeychainError::StoreFailed(m) => concat("failed to store in keychain: ", m.as_str()),
            KeychainError::DeleteFailed(m) => concat("failed to delete from keychain: ", m.as_str()),
            KeychainError::AccessFailed(m) => concat("keychain access failed: ", m.as_str()),
        }
    }
}

/// A key of a keychain item: service and account.
pub type ItemKey = (Seq<char>, Seq<char>);

/// What a lookup of `key` in `items` finds.
pub open spec fn lookup(items: Map<ItemKey, Seq<u8>>, key: ItemKey) -> Option<Seq<u8>> {
    if items.contains_key(key) {
        Some(items[key])
    } else {
        None
    }
}

/// A keychain: secret bytes stored under a service and an account.
pub trait KeychainBackend {
    /// The items stored, by service and account.
    spec fn items(&self) -> Map<ItemKey, Seq<u8>>;

    /// Whether this keychain's operations always succeed.
    spec fn reliable(&self) -> bool;

    /// The item stored under `service` / `account`; `Ok(None)` if it is
    /// missing.
    fn get(&self, service: &str, account: &str) -> (r: Result<Option<Vec<u8>>, KeychainError>)
        ensures
            self.reliable() ==> r is Ok,
            r matches Ok(found) ==> match found {
                Some(v) => lookup(self.items(), (service@, account@)) == Some(v@),
                None => lookup(self.items(), (service@, account@)) is None,
            },
    ;

    /// Store (or replace) the item under `service` / `account`. A failed
    /// store changes nothing.
    fn set(&mut self, service: &str, account: &str, password: &[u8]) -> (r: Result<(), KeychainError>)
        ensures
            old(self).reliable() ==> r is Ok,
            final(self).reliable() == old(self).reliable(),
            r is Ok ==> final(self).items() == old(self).items().insert((service@, account@), password@),
            r is Err ==> final(self).items() == old(self).items(),
    ;

    /// Remove the item under `service` / `account`; removing a missing
    /// item is a no-op and returns `Ok`. A failed removal changes nothing.
    fn delete(&mut self, service: &str, account: &str) -> (r: Result<(), KeychainError>)
        ensures
            old(self).reliable() ==> r is Ok,
            !old(self).items().contains_key((service@, account@)) ==> r is Ok,
            final(self).reliable() == old(self).reliable(),
            r is Ok ==> final(self).items() == old(self).items().remove((service@, account@)),
            r is Err ==> final(self).items() == old(self).items(),
    ;
}

/// Against any keychain's contract: an item just stored is found with the
/// stored bytes, an item just deleted is missing, and other items are left
/// as they were.
pub proof fn lemma_store_then_lookup(items: Map<ItemKey, Seq<u8>>, key: ItemKey, other: ItemKey, secret: Seq<u8>)
    requires
        other != key,
    ensures
        lookup(items.insert(key, secret), key) == Some(secret),
        lookup(items.remove(key), key) is None,
        lookup(items.insert(key, secret), other) == lookup(items, other),
        lookup(items.remove(key), other) == lookup(items, other),
{
}

/// The key of the database passphrase item.
pub open spec fn db_key() -> ItemKey {
    (SERVICE_NAME@, DB_KEY_ACCOUNT@)
}

/// What the caller found of the legacy `.db_key` file.
#[derive(Debug, Clone)]
pub enum LegacyKeyFile {
    /// No such file.
    Absent,
    /// The file exists but could not be read, with the read error's text.
    Unreadable(String),
    /// The file's contents.
    Present(String),
}

/// A resolved passphrase, and whether the caller must now rename the legacy
/// `.db_key` file to `.db_key.bak` (it was migrated into the keychain).
#[derive(Debug, Clone)]
pub struct ResolvedPassphrase {
    pub passphrase: String,
    pub retire_legacy_file: bool,
}

/// Where the passphrase comes from, by precedence: the data-protection
/// keychain, the legacy ACL keychain, the legacy file, else a fresh one.
pub enum KeySource {
    DataProtection(Seq<u8>),
    LegacyKeychain(Seq<u8>),
    LegacyFile(Seq<char>),
    LegacyFileUnreadable(Seq<char>),
    Fresh,
}

/// The source the passphrase is taken from, given both keychains' items and
/// the legacy file.
pub open spec fn key_source(dp: Map<ItemKey, Seq<u8>>, sys: Map<ItemKey, Seq<u8>>, legacy: LegacyKeyFile) -> KeySource {
    match lookup(dp, db_key()) {
        Some(b) => KeySource::DataProtection(b),
        None => match lookup(sys, db_key()) {
            Some(b) => KeySource::LegacyKeychain(b),
            None => match legacy {
                LegacyKeyFile::Absent => KeySource::Fresh,
                LegacyKeyFile::Unreadable(e) => KeySource::LegacyFileUnreadable(e@),
                LegacyKeyFile::Present(raw) => KeySource::LegacyFile(raw@),
            },
        },
    }
}

/// A passphrase this module makes: 64 lowercase hex digits.
pub open spec fn fresh_passphrase(p: Seq<char>) -> bool {
    p.len() == 64 && forall|i: int| 0 <= i < p.len() ==> is_lower_hex(#[trigger] p[i])
}

/// A lowercase hex digit.
pub open spec fn is_lower_hex(c: char) -> bool {
    ('0' <= c && c <= '9') || ('a' <= c && c <= 'f')
}

/// Whether the passphrase can be had from `source` (all keychain operations
/// succeeding): stored bytes must be UTF-8 and the legacy file readable.
pub open spec fn obtainable(source: KeySource) -> bool {
    match source {
        KeySource::DataProtection(b) => vstd::utf8::valid_utf8(b),
        KeySource::LegacyKeychain(b) => vstd::utf8::valid_utf8(b),
        KeySource::LegacyFileUnreadable(_) => false,
        _ => true,
    }
}

/// The passphrase stored as `b`, trimmed.
pub open spec fn stored_passphrase(b: Seq<u8>) -> Seq<char> {
    trimmed(vstd::utf8::decode_utf8(b))
}

/// What a successful resolution from `source` returns and leaves behind.
pub open spec fn resolved_from(
    source: KeySource,
    p: ResolvedPassphrase,
    dp0: Map<ItemKey, Seq<u8>>,
    sys0: Map<ItemKey, Seq<u8>>,
    dp1: Map<ItemKey, Seq<u8>>,
    sys1: Map<ItemKey, Seq<u8>>,
) -> bool {
    let stored = dp0.insert(db_key(), vstd::utf8::encode_utf8(p.passphrase@));
    match source {
        KeySource::DataProtection(b) => {
            &&& vstd::utf8::valid_utf8(b)
            &&& p.passphrase@ == stored_passphrase(b)
            &&& !p.retire_legacy_file
            &&& dp1 == dp0
            &&& sys1 == sys0
        },
        KeySource::LegacyKeychain(b) => {
            &&& vstd::utf8::valid_utf8(b)
            &&& p.passphrase@ == stored_passphrase(b)
            &&& !p.retire_legacy_file
            &&& dp1 == stored
            &&& (sys1 == sys0.remove(db_key()) || sys1 == sys0)
        },
        KeySource::LegacyFile(raw) => {
            &&& p.passphrase@ == trimmed(raw)
            &&& p.retire_legacy_file
            &&& dp1 == stored
            &&& sys1 == sys0
        },
        KeySource::Fresh => {
            &&& fresh_passphrase(p.passphrase@)
            &&& !p.retire_legacy_file
            &&& dp1 == stored
            &&& sys1 == sys0
        },
        KeySource::LegacyFileUnreadable(_) => false,
    }
}

/// `String::from_utf8`: the text the bytes encode, if they are UTF-8.
#[verifier::external_body]
fn utf8_text(bytes: Vec<u8>) -> (r: Option<String>)
    ensures
        r is Some <==> vstd::utf8::valid_utf8(bytes@),
        r matches Some(s) ==> s@ == vstd::utf8::decode_utf8(bytes@),
{
    String::from_utf8(bytes).ok()
}

/// `rand::random::<[u8; 32]>()`: 32 bytes from the thread-local generator.
/// Nothing is stated of their values.
#[verifier::external_body]
fn random_key_bytes() -> (r: Vec<u8>)
    ensures
        r@.len() == 32,
{
    let bytes: [u8; 32] = rand::random();
    bytes.to_vec()
}

/// Hex text is made of lowercase hex digits, two per byte.
pub proof fn lemma_hex_text_is_lower_hex(bytes: Seq<u8>)
    ensures
        hex_text(bytes).len() == 2 * bytes.len(),
        forall|i: int| 0 <= i < hex_text(bytes).len() ==> is_lower_hex(#[trigger] hex_text(bytes)[i]),
{
    assert forall|i: int| 0 <= i < hex_text(bytes).len() implies is_lower_hex(#[trigger] hex_text(bytes)[i]) by {
        let b = bytes[i / 2];
        let v: u8 = if i % 2 == 0 { b / 16 } else { b % 16 };
        assert(v < 16);
        assert(hex_text(bytes)[i] == hex_digit(v));
        if v < 10 {
            assert(((v + 48) as u8) as char == hex_digit(v));
        }
    }
}

/// A fresh passphrase: 32 random bytes as 64 lowercase hex digits.
pub fn generate_passphrase() -> (r: String)
    ensures
        fresh_passphrase(r@),
{
    let bytes = random_key_bytes();
    let r = hex_encode(bytes.as_slice());
    proof {
        lemma_hex_text_is_lower_hex(bytes@);
    }
    r
}

/// The trimmed passphrase stored as `bytes`; `InvalidData` unless UTF-8.
fn decode_stored(bytes: Vec<u8>) -> (r: Result<String, KeychainError>)
    ensures
        match r {
            Ok(s) => vstd::utf8::valid_utf8(bytes@) && s@ == stored_passphrase(bytes@),
            Err(e) => !vstd::utf8::valid_utf8(bytes@) && e is InvalidData,
        },
{
    match utf8_text(bytes) {
        Some(s) => Ok(trim(s.as_str())),
        None => Err(KeychainError::InvalidData),
    }
}

/// Store `passphrase` as the database key in `dp` and hand it back.
fn store_passphrase<D: KeychainBackend>(dp: &mut D, passphrase: String, retire_legacy_file: bool) -> (r: Result<ResolvedPassphrase, KeychainError>)
    ensures
        old(dp).reliable() ==> r is Ok,
        final(dp).reliable() == old(dp).reliable(),
        r matches Ok(p) ==> p.passphrase@ == passphrase@ && p.retire_legacy_file == retire_legacy_file
            && final(dp).items() == old(dp).items().insert(db_key(), vstd::utf8::encode_utf8(passphrase@)),
        r is Err ==> final(dp).items() == old(dp).items(),
{
    match dp.set(SERVICE_NAME, DB_KEY_ACCOUNT, passphrase.as_str().as_bytes()) {
        Ok(()) => Ok(ResolvedPassphrase { passphrase, retire_legacy_file }),
        Err(e) => Err(e),
    }
}

/// Resolve the database passphrase from the data-protection keychain `dp`,
/// the legacy ACL keychain `sys` and the legacy `.db_key` file, by
/// precedence:
///
/// 1. an entry in `dp` is returned (trimmed) and nothing changes;
/// 2. an entry in `sys` is copied (trimmed) into `dp` and deleted from `sys`
///    (a failed delete is ignored; a reliable `sys` always loses the entry);
/// 3. the legacy file's contents are copied (trimmed) into `dp`, and the
///    caller is told to rename the file to `.db_key.bak`;
/// 4. otherwise a fresh passphrase is made and stored in `dp`.
///
/// Stored bytes that are not UTF-8 give `InvalidData`, an unreadable legacy
/// file `AccessFailed("read .db_key: ...")`, and a failing keychain its own
/// error; a failed resolution changes neither keychain.
pub fn get_or_create_db_passphrase_impl<D: KeychainBackend, S: KeychainBackend>(
    dp: &mut D,
    sys: &mut S,
    legacy: &LegacyKeyFile,
) -> (r: Result<ResolvedPassphrase, KeychainError>)
    ensures
        final(dp).reliable() == old(dp).reliable(),
        final(sys).reliable() == old(sys).reliable(),
        old(dp).reliable() && old(sys).reliable() ==> (r is Ok <==> obtainable(
            key_source(old(dp).items(), old(sys).items(), *legacy),
        )),
        r matches Ok(p) ==> resolved_from(
            key_source(old(dp).items(), old(sys).items(), *legacy),
            p,
            old(dp).items(),
            old(sys).items(),
            final(dp).items(),
            final(sys).items(),
        ),
        old(dp).reliable() && old(sys).reliable() ==> match key_source(old(dp).items(), old(sys).items(), *legacy) {
            KeySource::LegacyFileUnreadable(e) => r matches Err(KeychainError::AccessFailed(m)) && m@
                == "read .db_key: "@ + e,
            KeySource::DataProtection(b) => !vstd::utf8::valid_utf8(b) ==> r matches Err(KeychainError::InvalidData),
            KeySource::LegacyKeychain(b) => !vstd::utf8::valid_utf8(b) ==> r matches Err(KeychainError::InvalidData),
            _ => true,
        },
        r is Ok && old(sys).reliable() && key_source(old(dp).items(), old(sys).items(), *legacy) is LegacyKeychain
            ==> final(sys).items() == old(sys).items().remove(db_key()),
        r is Err ==> final(dp).items() == old(dp).items() && final(sys).items() == old(sys).items(),
{
    match dp.get(SERVICE_NAME, DB_KEY_ACCOUNT) {
        Err(e) => return Err(e),
        Ok(Some(bytes)) => {
            return match decode_stored(bytes) {
                Ok(s) => Ok(ResolvedPassphrase { passphrase: s, retire_legacy_file: false }),
                Err(e) => Err(e),
            };
        },
        Ok(None) => {},
    }
    match sys.get(SERVICE_NAME, DB_KEY_ACCOUNT) {
        Err(e) => return Err(e),
        Ok(Some(bytes)) => {
            let s = match decode_stored(bytes) {
                Ok(s) => s,
                Err(e) => return Err(e),
            };
            let r = store_passphrase(dp, s, false);
            if r.is_ok() {
                let _ = sys.delete(SERVICE_NAME, DB_KEY_ACCOUNT);
            }
            return r;
        },
        Ok(None) => {},
    }
    match legacy {
        LegacyKeyFile::Unreadable(e) => Err(KeychainError::AccessFailed(concat("read .db_key: ", e.as_str()))),
        LegacyKeyFile::Present(raw) => store_passphrase(dp, trim(raw.as_str()), true),
        LegacyKeyFile::Absent => store_passphrase(dp, generate_passphrase(), false),
    }
}

/// What a resolution against a single keychain (standing in for both the
/// data-protection and the legacy keychain) returns and leaves behind.
pub open spec fn resolved_in_one(
    source: KeySource,
    p: ResolvedPassphrase,
    k0: Map<ItemKey, Seq<u8>>,
    k1: Map<ItemKey, Seq<u8>>,
) -> bool {
    let stored = k0.insert(db_key(), vstd::utf8::encode_utf8(p.passphrase@));
    match source {
        KeySource::DataProtection(b) => {
            &&& vstd::utf8::valid_utf8(b)
            &&& p.passphrase@ == stored_passphrase(b)
            &&& !p.retire_legacy_file
            &&& k1 == k0
        },
        KeySource::LegacyFile(raw) => {
            &&& p.passphrase@ == trimmed(raw)
            &&& p.retire_legacy_file
            &&& k1 == stored
        },
        KeySource::Fresh => {
            &&& fresh_passphrase(p.passphrase@)
            &&& !p.retire_legacy_file
            &&& k1 == stored
        },
        _ => false,
    }
}

/// [`get_or_create_db_passphrase_impl`] with one keychain in both roles:
/// the legacy lookup repeats the first one, so only the stored entry, the
/// legacy file or a fresh passphrase can answer.
pub fn get_or_create_db_passphrase_with<K: KeychainBackend>(
    keychain: &mut K,
    legacy: &LegacyKeyFile,
) -> (r: Result<ResolvedPassphrase, KeychainError>)
    ensures
        final(keychain).reliable() == old(keychain).reliable(),
        old(keychain).reliable() ==> (r is Ok <==> obtainable(
            key_source(old(keychain).items(), old(keychain).items(), *legacy),
        )),
        r matches Ok(p) ==> resolved_in_one(
            key_source(old(keychain).items(), old(keychain).items(), *legacy),
            p,
            old(keychain).items(),
            final(keychain).items(),
        ),
        old(keychain).reliable() ==> match key_source(old(keychain).items(), old(keychain).items(), *legacy) {
            KeySource::LegacyFileUnreadable(e) => r matches Err(KeychainError::AccessFailed(m)) && m@
                == "read .db_key: "@ + e,
            KeySource::DataProtection(b) => !vstd::utf8::valid_utf8(b) ==> r matches Err(KeychainError::InvalidData),
            _ => true,
        },
        r is Err ==> final(keychain).items() == old(keychain).items(),
{
    match keychain.get(SERVICE_NAME, DB_KEY_ACCOUNT) {
        Err(e) => return Err(e),
        Ok(Some(bytes)) => {
            return match decode_stored(bytes) {
                Ok(s) => Ok(ResolvedPassphrase { passphrase: s, retire_legacy_file: false }),
                Err(e) => Err(e),
            };
        },
        Ok(None) => {},
    }
    match keychain.get(SERVICE_NAME, DB_KEY_ACCOUNT) {
        Err(e) => return Err(e),
        Ok(Some(bytes)) => {
            let s = match decode_stored(bytes) {
                Ok(s) => s,
                Err(e) => return Err(e),
            };
            let r = store_passphrase(keychain, s, false);
            if r.is_ok() {
                let _ = keychain.delete(SERVICE_NAME, DB_KEY_ACCOUNT);
            }
            return r;
        },
        Ok(None) => {},
    }
    match legacy {
        LegacyKeyFile::Unreadable(e) => Err(KeychainError::AccessFailed(concat("read .db_key: ", e.as_str()))),
        LegacyKeyFile::Present(raw) => store_passphrase(keychain, trim(raw.as_str()), true),
        LegacyKeyFile::Absent => store_passphrase(keychain, generate_passphrase(), false),
    }
}

proof fn lemma_fresh_is_trimmed(p: Seq<char>)
    requires
        fresh_passphrase(p),
    ensures
        trimmed(p) == p,
{
    assert(is_lower_hex(p[0]) && is_lower_hex(p.last()));
    assert(!is_space(p[0]));
    assert(!is_space(p.last()));
    lemma_trim_unchanged(p);
}

proof fn lemma_stored_reads_back(p: Seq<char>)
    requires
        trimmed(p) == p,
    ensures
        vstd::utf8::valid_utf8(vstd::utf8::encode_utf8(p)),
        stored_passphrase(vstd::utf8::encode_utf8(p)) == p,
{
    vstd::utf8::encode_utf8_valid_utf8(p);
    vstd::utf8::encode_utf8_decode_utf8(p);
}

/// Once a passphrase has been resolved, every later resolution (whatever
/// the legacy file then holds) reads it back from the data-protection
/// keychain: the same passphrase, without touching the legacy keychain or
/// the file again.
pub proof fn lemma_resolution_is_stable(
    dp0: Map<ItemKey, Seq<u8>>,
    sys0: Map<ItemKey, Seq<u8>>,
    legacy: LegacyKeyFile,
    p: ResolvedPassphrase,
    dp1: Map<ItemKey, Seq<u8>>,
    sys1: Map<ItemKey, Seq<u8>>,
    later_legacy: LegacyKeyFile,
)
    requires
        resolved_from(key_source(dp0, sys0, legacy), p, dp0, sys0, dp1, sys1),
    ensures
        key_source(dp1, sys1, later_legacy) is DataProtection,
        obtainable(key_source(dp1, sys1, later_legacy)),
        stored_passphrase(key_source(dp1, sys1, later_legacy)->DataProtection_0) == p.passphrase@,
{
    match key_source(dp0, sys0, legacy) {
        KeySource::DataProtection(b) => {},
        KeySource::LegacyKeychain(b) => {
            lemma_trim_idempotent(vstd::utf8::decode_utf8(b));
            lemma_stored_reads_back(p.passphrase@);
        },
        KeySource::LegacyFile(raw) => {
            lemma_trim_idempotent(raw);
            lemma_stored_reads_back(p.passphrase@);
        },
        KeySource::Fresh => {
            lemma_fresh_is_trimmed(p.passphrase@);
            lemma_stored_reads_back(p.passphrase@);
        },
        KeySource::LegacyFileUnreadable(_) => {},
    }
}

/// The same holds with one keychain in both roles.
pub proof fn lemma_single_resolution_is_stable(
    k0: Map<ItemKey, Seq<u8>>,
    legacy: LegacyKeyFile,
    p: ResolvedPassphrase,
    k1: Map<ItemKey, Seq<u8>>,
    later_legacy: LegacyKeyFile,
)
    requires
        resolved_in_one(key_source(k0, k0, legacy), p, k0, k1),
    ensures
        key_source(k1, k1, later_legacy) is DataProtection,
        obtainable(key_source(k1, k1, later_legacy)),
        stored_passphrase(key_source(k1, k1, later_legacy)->DataProtection_0) == p.passphrase@,
{
    match key_source(k0, k0, legacy) {
        KeySource::DataProtection(b) => {},
        KeySource::LegacyFile(raw) => {
            lemma_trim_idempotent(raw);
            lemma_stored_reads_back(p.passphrase@);
        },
        KeySource::Fresh => {
            lemma_fresh_is_trimmed(p.passphrase@);
            lemma_stored_reads_back(p.passphrase@);
        },
        _ => {},
    }
}

/// Resolving twice gives the same passphrase: the second resolution (with
/// whatever legacy file) can succeed (so it does, on reliable keychains),
/// reads the first one's passphrase back from the data-protection keychain
/// and changes neither keychain.
pub proof fn lemma_second_resolution_agrees(
    dp0: Map<ItemKey, Seq<u8>>,
    sys0: Map<ItemKey, Seq<u8>>,
    legacy: LegacyKeyFile,
    p1: ResolvedPassphrase,
    dp1: Map<ItemKey, Seq<u8>>,
    sys1: Map<ItemKey, Seq<u8>>,
    later_legacy: LegacyKeyFile,
    p2: ResolvedPassphrase,
    dp2: Map<ItemKey, Seq<u8>>,
    sys2: Map<ItemKey, Seq<u8>>,
)
    requires
        resolved_from(key_source(dp0, sys0, legacy), p1, dp0, sys0, dp1, sys1),
        resolved_from(key_source(dp1, sys1, later_legacy), p2, dp1, sys1, dp2, sys2),
    ensures
        obtainable(key_source(dp1, sys1, later_legacy)),
        p2.passphrase@ == p1.passphrase@,
        !p2.retire_legacy_file,
        dp2 == dp1,
        sys2 == sys1,
{
    lemma_resolution_is_stable(dp0, sys0, legacy, p1, dp1, sys1, later_legacy);
}

/// The same with one keychain in both roles: a first call on an empty
/// keychain without a legacy file makes a fresh 64-hex-digit passphrase and
/// stores it; a second call gives it back and changes nothing.
pub proof fn lemma_second_single_resolution_agrees(
    k0: Map<ItemKey, Seq<u8>>,
    legacy: LegacyKeyFile,
    p1: ResolvedPassphrase,
    k1: Map<ItemKey, Seq<u8>>,
    later_legacy: LegacyKeyFile,
    p2: ResolvedPassphrase,
    k2: Map<ItemKey, Seq<u8>>,
)
    requires
        resolved_in_one(key_source(k0, k0, legacy), p1, k0, k1),
        resolved_in_one(key_source(k1, k1, later_legacy), p2, k1, k2),
    ensures
        obtainable(key_source(k1, k1, later_legacy)),
        p2.passphrase@ == p1.passphrase@,
        !p2.retire_legacy_file,
        k2 == k1,
        !k0.contains_key(db_key()) && legacy is Absent ==> fresh_passphrase(p1.passphrase@) && k1 == k0.insert(
            db_key(),
            vstd::utf8::encode_utf8(p1.passphrase@),
        ),
{
    lemma_single_resolution_is_stable(k0, legacy, p1, k1, later_legacy);
}

/// What deleting the database key does to a keychain holding `k0`, given
/// the result `r`: a missing key is deleted without error; success removes
/// the key and nothing else; failure changes nothing.
pub open spec fn key_deleted(k0: Map<ItemKey, Seq<u8>>, r: Result<(), KeychainError>, k1: Map<ItemKey, Seq<u8>>) -> bool {
    &&& !k0.contains_key(db_key()) ==> r is Ok
    &&& r is Ok ==> k1 == k0.remove(db_key())
    &&& r is Err ==> k1 == k0
}

/// Deleting the key twice in a row: the second deletion finds nothing,
/// succeeds and changes nothing.
pub proof fn lemma_delete_twice(
    k0: Map<ItemKey, Seq<u8>>,
    r1: Result<(), KeychainError>,
    k1: Map<ItemKey, Seq<u8>>,
    r2: Result<(), KeychainError>,
    k2: Map<ItemKey, Seq<u8>>,
)
    requires
        key_deleted(k0, r1, k1),
        r1 is Ok,
        key_deleted(k1, r2, k2),
    ensures
        r2 is Ok,
        k2 == k1,
        !k2.contains_key(db_key()),
{
    assert(k1.remove(db_key()) =~= k1);
}

/// Delete the database key from `keychain`.
pub fn delete_db_passphrase_with<K: KeychainBackend>(keychain: &mut K) -> (r: Result<(), KeychainError>)
    ensures
        old(keychain).reliable() ==> r is Ok,
        final(keychain).reliable() == old(keychain).reliable(),
        key_deleted(old(keychain).items(), r, final(keychain).items()),
{
    keychain.delete(SERVICE_NAME, DB_KEY_ACCOUNT)
}

/// Delete the database key from both keychains (for users caught mid
/// migration). The legacy keychain's outcome is ignored; the result is the
/// data-protection keychain's.
pub fn delete_db_passphrase<S: KeychainBackend, D: KeychainBackend>(sys: &mut S, dp: &mut D) -> (r: Result<(), KeychainError>)
    ensures
        old(dp).reliable() ==> r is Ok,
        key_deleted(old(dp).items(), r, final(dp).items()),
        final(sys).items() == old(sys).items().remove(db_key()) || final(sys).items() == old(sys).items(),
        old(sys).reliable() ==> final(sys).items() == old(sys).items().remove(db_key()),
{
    let _ = sys.delete(SERVICE_NAME, DB_KEY_ACCOUNT);
    dp.delete(SERVICE_NAME, DB_KEY_ACCOUNT)
}

/// What the fallback files give: `.db_key.bak` first, then `.db_key`,
/// trimmed; an unreadable file's error, or an error when neither exists.
pub open spec fn fallback_outcome(bak: LegacyKeyFile, key: LegacyKeyFile, r: Result<String, KeychainError>) -> bool {
    match bak {
        LegacyKeyFile::Present(raw) => r matches Ok(p) && p@ == trimmed(raw@),
        LegacyKeyFile::Unreadable(e) => r matches Err(KeychainError::AccessFailed(m)) && m@
            == "read .db_key.bak: "@ + e@,
        LegacyKeyFile::Absent => match key {
            LegacyKeyFile::Present(raw) => r matches Ok(p) && p@ == trimmed(raw@),
            LegacyKeyFile::Unreadable(e) => r matches Err(KeychainError::AccessFailed(m)) && m@
                == "read .db_key: "@ + e@,
            LegacyKeyFile::Absent => r matches Err(KeychainError::AccessFailed(m)) && m@
                == "keychain unavailable and no .db_key{,.bak} fallback on disk"@,
        },
    }
}

/// The passphrase the command-line tools fall back to when the keychain
/// fails or is too slow: `.db_key.bak` first, then `.db_key`, trimmed.
pub fn read_passphrase_fallback_files(bak: &LegacyKeyFile, key: &LegacyKeyFile) -> (r: Result<String, KeychainError>)
    ensures
        fallback_outcome(*bak, *key, r),
{
    match bak {
        LegacyKeyFile::Present(raw) => return Ok(trim(raw.as_str())),
        LegacyKeyFile::Unreadable(e) => {
            return Err(KeychainError::AccessFailed(concat("read .db_key.bak: ", e.as_str())));
        },
        LegacyKeyFile::Absent => {},
    }
    match key {
        LegacyKeyFile::Present(raw) => Ok(trim(raw.as_str())),
        LegacyKeyFile::Unreadable(e) => Err(KeychainError::AccessFailed(concat("read .db_key: ", e.as_str()))),
        LegacyKeyFile::Absent => Err(
            KeychainError::AccessFailed(owned("keychain unavailable and no .db_key{,.bak} fallback on disk")),
        ),
    }
}

/// The command-line tools' passphrase: the keychain's, when its resolution
/// finished in time and succeeded (`resolved` is `None` when it timed out),
/// else the fallback files'.
pub fn resolve_db_passphrase_for_cli(
    resolved: Option<Result<String, KeychainError>>,
    bak: &LegacyKeyFile,
    key: &LegacyKeyFile,
) -> (r: Result<String, KeychainError>)
    ensures
        match resolved {
            Some(Ok(p)) => r matches Ok(q) && q@ == p@,
            _ => fallback_outcome(*bak, *key, r),
        },
{
    match resolved {
        Some(Ok(p)) => Ok(p),
        _ => read_passphrase_fallback_files(bak, key),
    }
}

} // verus!
