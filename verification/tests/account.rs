use signalui::account::{sign_out_report, sign_out_with, SignOutReport};
use signalui::store::keychain::{KeychainBackend, KeychainError, DB_KEY_ACCOUNT, SERVICE_NAME};
use signalui::store::memory::MemoryKeychain;

fn files(names: &[&str]) -> Vec<String> {
    names.iter().map(|s| s.to_string()).collect()
}

#[test]
fn sign_out_wipes_keychain_and_files() {
    let mut kc = MemoryKeychain::new();
    kc.set(SERVICE_NAME, DB_KEY_ACCOUNT, b"some-hex").unwrap();
    let mut dir = files(&[".db_key", "signalui.db", ".db_key.bak", "settings.json"]);

    let report = sign_out_with(&mut kc, &mut dir).unwrap();
    assert_eq!(
        report,
        SignOutReport { keychain_cleared: true, db_key_file_removed: true, db_key_bak_removed: true }
    );
    assert!(kc.get(SERVICE_NAME, DB_KEY_ACCOUNT).unwrap().is_none());
    assert_eq!(dir, files(&["signalui.db", "settings.json"]));
}

#[test]
fn sign_out_is_idempotent() {
    let mut kc = MemoryKeychain::new();
    let mut dir = files(&[]);

    let report = sign_out_with(&mut kc, &mut dir).unwrap();
    assert!(report.keychain_cleared);
    assert!(!report.db_key_file_removed);
    assert!(!report.db_key_bak_removed);

    let report2 = sign_out_with(&mut kc, &mut dir).unwrap();
    assert_eq!(report, report2);
}

#[test]
fn failed_wipe_passes_the_error_on_and_keeps_the_files() {
    let mut dir = files(&[".db_key", ".db_key.bak"]);
    let r = sign_out_report(Err(KeychainError::DeleteFailed("locked".to_string())), &mut dir);
    match r {
        Err(KeychainError::DeleteFailed(m)) => assert_eq!(m, "locked"),
        other => panic!("unexpected {other:?}"),
    }
    assert_eq!(dir, files(&[".db_key", ".db_key.bak"]));
    let r = sign_out_report(Ok(()), &mut dir).unwrap();
    assert_eq!(r, SignOutReport { keychain_cleared: true, db_key_file_removed: true, db_key_bak_removed: true });
    assert!(dir.is_empty());
}
