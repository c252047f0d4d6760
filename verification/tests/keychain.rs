use signalui::store::keychain::{
    delete_db_passphrase, delete_db_passphrase_with, generate_passphrase, get_or_create_db_passphrase_impl,
    get_or_create_db_passphrase_with, read_passphrase_fallback_files, resolve_db_passphrase_for_cli, KeychainBackend,
    KeychainError, LegacyKeyFile, DB_KEY_ACCOUNT, SERVICE_NAME,
};
use signalui::store::memory::MemoryKeychain;

fn present(s: &str) -> LegacyKeyFile {
    LegacyKeyFile::Present(s.to_string())
}

#[test]
fn generate_passphrase_is_64_hex_chars() {
    let pass = generate_passphrase();
    assert_eq!(pass.len(), 64);
    assert!(pass.chars().all(|c| c.is_ascii_hexdigit()));
}

#[test]
fn generate_passphrase_is_random() {
    let p1 = generate_passphrase();
    let p2 = generate_passphrase();
    assert_ne!(p1, p2);
}

#[test]
fn memory_backend_round_trip() {
    let mut kc = MemoryKeychain::new();
    assert!(kc.get(SERVICE_NAME, DB_KEY_ACCOUNT).unwrap().is_none());
    kc.set(SERVICE_NAME, DB_KEY_ACCOUNT, b"hunter2").unwrap();
    assert_eq!(kc.get(SERVICE_NAME, DB_KEY_ACCOUNT).unwrap().as_deref(), Some(b"hunter2".as_ref()));
    kc.delete(SERVICE_NAME, DB_KEY_ACCOUNT).unwrap();
    assert!(kc.get(SERVICE_NAME, DB_KEY_ACCOUNT).unwrap().is_none());
}

#[test]
fn cold_start_generates_and_stores_in_keychain() {
    let mut kc = MemoryKeychain::new();
    let p = get_or_create_db_passphrase_with(&mut kc, &LegacyKeyFile::Absent).unwrap();
    assert_eq!(p.passphrase.len(), 64);
    assert!(!p.retire_legacy_file);
    let stored = kc.get(SERVICE_NAME, DB_KEY_ACCOUNT).unwrap().unwrap();
    assert_eq!(stored, p.passphrase.as_bytes());
}

#[test]
fn keychain_hit_returns_existing() {
    let mut kc = MemoryKeychain::new();
    kc.set(SERVICE_NAME, DB_KEY_ACCOUNT, b"deadbeef").unwrap();
    let p = get_or_create_db_passphrase_with(&mut kc, &LegacyKeyFile::Absent).unwrap();
    assert_eq!(p.passphrase.as_str(), "deadbeef");
}

#[test]
fn keychain_hit_is_trimmed() {
    let mut kc = MemoryKeychain::new();
    kc.set(SERVICE_NAME, DB_KEY_ACCOUNT, b"  deadbeef\n").unwrap();
    let p = get_or_create_db_passphrase_with(&mut kc, &LegacyKeyFile::Absent).unwrap();
    assert_eq!(p.passphrase.as_str(), "deadbeef");
}

#[test]
fn invalid_utf8_in_keychain_is_invalid_data() {
    let mut kc = MemoryKeychain::new();
    kc.set(SERVICE_NAME, DB_KEY_ACCOUNT, &[0xff, 0xfe]).unwrap();
    let r = get_or_create_db_passphrase_with(&mut kc, &LegacyKeyFile::Absent);
    assert!(matches!(r, Err(KeychainError::InvalidData)));
}

#[test]
fn migrates_legacy_db_key_file() {
    let mut kc = MemoryKeychain::new();
    let p = get_or_create_db_passphrase_with(&mut kc, &present("legacy-passphrase\n")).unwrap();
    assert_eq!(p.passphrase.as_str(), "legacy-passphrase");
    assert_eq!(kc.get(SERVICE_NAME, DB_KEY_ACCOUNT).unwrap().unwrap(), b"legacy-passphrase");
    assert!(p.retire_legacy_file);
}

#[test]
fn unreadable_legacy_file_is_access_failed() {
    let mut kc = MemoryKeychain::new();
    let r = get_or_create_db_passphrase_with(&mut kc, &LegacyKeyFile::Unreadable("permission denied".to_string()));
    match r {
        Err(KeychainError::AccessFailed(m)) => assert_eq!(m, "read .db_key: permission denied"),
        other => panic!("unexpected {other:?}"),
    }
    assert_eq!(kc.len(), 0);
}

#[test]
fn second_call_uses_keychain_not_filesystem() {
    let mut kc = MemoryKeychain::new();
    let p1 = get_or_create_db_passphrase_with(&mut kc, &LegacyKeyFile::Absent).unwrap();
    let p2 = get_or_create_db_passphrase_with(&mut kc, &present("something-else")).unwrap();
    assert_eq!(p1.passphrase.as_str(), p2.passphrase.as_str());
    assert!(!p2.retire_legacy_file);
}

#[test]
fn migrates_from_acl_to_dp_keychain() {
    let mut dp = MemoryKeychain::new();
    let mut sys = MemoryKeychain::new();
    sys.set(SERVICE_NAME, DB_KEY_ACCOUNT, b"old-acl-key").unwrap();

    let p = get_or_create_db_passphrase_impl(&mut dp, &mut sys, &LegacyKeyFile::Absent).unwrap();
    assert_eq!(p.passphrase.as_str(), "old-acl-key");
    assert_eq!(dp.get(SERVICE_NAME, DB_KEY_ACCOUNT).unwrap().as_deref(), Some(b"old-acl-key".as_ref()));
    assert!(sys.get(SERVICE_NAME, DB_KEY_ACCOUNT).unwrap().is_none());
}

#[test]
fn dp_takes_precedence_over_acl() {
    let mut dp = MemoryKeychain::new();
    let mut sys = MemoryKeychain::new();
    dp.set(SERVICE_NAME, DB_KEY_ACCOUNT, b"dp-key").unwrap();
    sys.set(SERVICE_NAME, DB_KEY_ACCOUNT, b"old-acl-key").unwrap();

    let p = get_or_create_db_passphrase_impl(&mut dp, &mut sys, &LegacyKeyFile::Absent).unwrap();
    assert_eq!(p.passphrase.as_str(), "dp-key");
    assert!(sys.get(SERVICE_NAME, DB_KEY_ACCOUNT).unwrap().is_some());
}

#[test]
fn cli_resolver_falls_back_to_db_key_bak_when_no_keychain_match() {
    let p = resolve_db_passphrase_for_cli(None, &present("from-bak-mirror\n"), &LegacyKeyFile::Absent).unwrap();
    assert_eq!(p.as_str(), "from-bak-mirror");
}

#[test]
fn cli_resolver_errors_when_no_keychain_and_no_files() {
    let err = resolve_db_passphrase_for_cli(None, &LegacyKeyFile::Absent, &LegacyKeyFile::Absent).unwrap_err();
    match err {
        KeychainError::AccessFailed(msg) => assert!(msg.contains("no .db_key"), "unexpected error: {msg}"),
        other => panic!("expected AccessFailed, got {other:?}"),
    }
}

#[test]
fn cli_resolver_prefers_bak_over_db_key() {
    let p = resolve_db_passphrase_for_cli(None, &present("from-bak\n"), &present("from-key\n")).unwrap();
    assert_eq!(p.as_str(), "from-bak");
}

#[test]
fn cli_resolver_prefers_the_keychain() {
    let p = resolve_db_passphrase_for_cli(Some(Ok("kc".to_string())), &present("from-bak\n"), &LegacyKeyFile::Absent)
        .unwrap();
    assert_eq!(p.as_str(), "kc");
    let p = resolve_db_passphrase_for_cli(
        Some(Err(KeychainError::InvalidData)),
        &LegacyKeyFile::Absent,
        &present("from-key\n"),
    )
    .unwrap();
    assert_eq!(p.as_str(), "from-key");
}

#[test]
fn fallback_reports_unreadable_files() {
    match read_passphrase_fallback_files(&LegacyKeyFile::Unreadable("eio".to_string()), &present("k")) {
        Err(KeychainError::AccessFailed(m)) => assert_eq!(m, "read .db_key.bak: eio"),
        other => panic!("unexpected {other:?}"),
    }
}

#[test]
fn ignores_db_key_bak_post_migration_leftover() {
    // A leftover `.db_key.bak` is never consulted by the resolution (only
    // `.db_key` is), so a fresh passphrase is made.
    let mut kc = MemoryKeychain::new();
    let p = get_or_create_db_passphrase_with(&mut kc, &LegacyKeyFile::Absent).unwrap();
    assert_ne!(p.passphrase.as_str(), "stale-passphrase");
    assert_eq!(p.passphrase.len(), 64);
    assert!(p.passphrase.chars().all(|c| c.is_ascii_hexdigit()));
    assert_eq!(kc.get(SERVICE_NAME, DB_KEY_ACCOUNT).unwrap().as_deref(), Some(p.passphrase.as_bytes()));
    assert!(!p.retire_legacy_file);
}

#[test]
fn delete_removes_existing_entry() {
    let mut kc = MemoryKeychain::new();
    kc.set(SERVICE_NAME, DB_KEY_ACCOUNT, b"hunter2").unwrap();
    assert_eq!(kc.len(), 1);
    delete_db_passphrase_with(&mut kc).unwrap();
    assert_eq!(kc.len(), 0);
}

#[test]
fn delete_is_idempotent_when_missing() {
    let mut kc = MemoryKeychain::new();
    delete_db_passphrase_with(&mut kc).unwrap();
    delete_db_passphrase_with(&mut kc).unwrap();
    assert_eq!(kc.len(), 0);
}

#[test]
fn delete_after_create_round_trip() {
    let mut kc = MemoryKeychain::new();
    let _ = get_or_create_db_passphrase_with(&mut kc, &LegacyKeyFile::Absent).unwrap();
    assert_eq!(kc.len(), 1);
    delete_db_passphrase_with(&mut kc).unwrap();
    assert_eq!(kc.len(), 0);
    let new_pass = get_or_create_db_passphrase_with(&mut kc, &LegacyKeyFile::Absent).unwrap();
    assert_eq!(new_pass.passphrase.len(), 64);
}

#[test]
fn delete_from_both_keychains() {
    let mut dp = MemoryKeychain::new();
    let mut sys = MemoryKeychain::new();
    dp.set(SERVICE_NAME, DB_KEY_ACCOUNT, b"a").unwrap();
    sys.set(SERVICE_NAME, DB_KEY_ACCOUNT, b"b").unwrap();
    sys.set(SERVICE_NAME, "other", b"c").unwrap();
    delete_db_passphrase(&mut sys, &mut dp).unwrap();
    assert_eq!(dp.len(), 0);
    assert_eq!(sys.len(), 1);
    assert_eq!(KeychainError::StoreFailed("x".to_string()).message(), "failed to store in keychain: x");
    assert_eq!(KeychainError::InvalidData.message(), "invalid data in keychain");
}
