//! Signing out: the database key is wiped from the keychain and from the
//! legacy files on disk, which makes the encrypted store unreadable and
//! forces a fresh link on the next start. Nothing else is touched: the
//! encrypted store itself stays where it is.
use vstd::prelude::*;

use crate::store::keychain::{db_key, delete_db_passphrase_with, key_deleted, KeychainBackend, KeychainError};
use crate::text::{owned, same_text};

verus! {

/// Which side effects of a sign-out actually happened.
#[derive(Debug, Clone, Copy, PartialEq, Eq, Structural)]
pub struct SignOutReport {
    pub keychain_cleared: bool,
    pub db_key_file_removed: bool,
    pub db_key_bak_removed: bool,
}

/// The names of a list of files, as text.
pub open spec fn names(files: Seq<String>) -> Seq<Seq<char>> {
    files.map_values(|f: String| f@)
}

/// The legacy key files a sign-out removes: `.db_key` and `.db_key.bak`.
pub open spec fn is_key_file(name: Seq<char>) -> bool {
    name == ".db_key"@ || name == ".db_key.bak"@
}

/// The files a sign-out keeps: every one but the legacy key files.
pub open spec fn kept_file() -> spec_fn(Seq<char>) -> bool {
    |name: Seq<char>| !is_key_file(name)
}

/// The report of a sign-out whose keychain wipe succeeded, in a data
/// directory holding the files `files`: each key file is removed if present.
pub open spec fn report_for(files: Seq<Seq<char>>) -> SignOutReport {
    SignOutReport {
        keychain_cleared: true,
        db_key_file_removed: files.contains(".db_key"@),
        db_key_bak_removed: files.contains(".db_key.bak"@),
    }
}

/// What signing out does to a keychain holding `k0` and a data directory
/// holding the files `f0`, given the result `r`: the database key goes
/// (without error when it is missing), then the two key files, and nothing
/// else; on failure nothing changes.
pub open spec fn signed_out(
    k0: Map<(Seq<char>, Seq<char>), Seq<u8>>,
    f0: Seq<Seq<char>>,
    r: Result<SignOutReport, KeychainError>,
    k1: Map<(Seq<char>, Seq<char>), Seq<u8>>,
    f1: Seq<Seq<char>>,
) -> bool {
    &&& !k0.contains_key(db_key()) ==> r is Ok
    &&& r is Ok ==> r == Ok::<SignOutReport, KeychainError>(report_for(f0)) && k1 == k0.remove(db_key()) && f1
        == f0.filter(kept_file())
    &&& r is Err ==> k1 == k0 && f1 == f0
}

/// The rest of a sign-out once the keychain wipe has given `wiped`: its
/// error is passed on as it came, with `files` (the names of the data
/// directory's files) left alone; after a successful wipe `.db_key` and
/// `.db_key.bak` are taken out of `files` (every other name stays, in
/// order) and the report says which of the two were there.
pub fn sign_out_report(wiped: Result<(), KeychainError>, files: &mut Vec<String>) -> (r: Result<SignOutReport, KeychainError>)
    ensures
        match wiped {
            Err(e) => r == Err::<SignOutReport, KeychainError>(e) && final(files)@ == old(files)@,
            Ok(()) => r == Ok::<SignOutReport, KeychainError>(report_for(names(old(files)@))) && names(
                final(files)@,
            ) == names(old(files)@).filter(kept_file()),
        },
{
    match wiped {
        Err(e) => Err(e),
        Ok(()) => {
            let ghost ns = names(files@);
            let mut kept: Vec<String> = Vec::new();
            let mut had_key = false;
            let mut had_bak = false;
            let mut i: usize = 0;
            proof {
                reveal_with_fuel(Seq::filter, 1);
                assert(ns.take(0) =~= Seq::<Seq<char>>::empty());
                assert(names(kept@) =~= ns.take(0).filter(kept_file()));
            }
            while i < files.len()
                invariant
                    i <= files@.len(),
                    ns == names(files@),
                    names(kept@) == ns.take(i as int).filter(kept_file()),
                    had_key == ns.take(i as int).contains(".db_key"@),
                    had_bak == ns.take(i as int).contains(".db_key.bak"@),
                decreases files@.len() - i,
            {
                let n = files[i].as_str();
                let ghost before = kept@;
                proof {
                    assert(ns.take(i + 1) =~= ns.take(i as int).push(n@));
                    ns.take(i as int).lemma_filter_push(n@, kept_file());
                }
                let is_key = same_text(n, ".db_key");
                let is_bak = same_text(n, ".db_key.bak");
                if is_key {
                    had_key = true;
                } else if is_bak {
                    had_bak = true;
                } else {
                    kept.push(owned(n));
                    proof {
                        assert(names(kept@) =~= names(before).push(n@));
                    }
                }
                proof {
                    reveal_strlit(".db_key");
                    reveal_strlit(".db_key.bak");
                    assert(".db_key"@.len() != ".db_key.bak"@.len());
                    let t = ns.take(i as int);
                    let u = ns.take(i + 1);
                    assert(u[i as int] == n@);
                    assert(t.contains(".db_key"@) ==> u.contains(".db_key"@)) by {
                        if t.contains(".db_key"@) {
                            let j = choose|j: int| 0 <= j < t.len() && t[j] == ".db_key"@;
                            assert(u[j] == t[j]);
                        }
                    }
                    assert(t.contains(".db_key.bak"@) ==> u.contains(".db_key.bak"@)) by {
                        if t.contains(".db_key.bak"@) {
                            let j = choose|j: int| 0 <= j < t.len() && t[j] == ".db_key.bak"@;
                            assert(u[j] == t[j]);
                        }
                    }
                    assert(u.contains(".db_key"@) ==> t.contains(".db_key"@) || n@ == ".db_key"@) by {
                        if u.contains(".db_key"@) {
                            let j = choose|j: int| 0 <= j < u.len() && u[j] == ".db_key"@;
                            if j < i {
                                assert(t[j] == u[j]);
                            }
                        }
                    }
                    assert(u.contains(".db_key.bak"@) ==> t.contains(".db_key.bak"@) || n@ == ".db_key.bak"@) by {
                        if u.contains(".db_key.bak"@) {
                            let j = choose|j: int| 0 <= j < u.len() && u[j] == ".db_key.bak"@;
                            if j < i {
                                assert(t[j] == u[j]);
                            }
                        }
                    }
                }
                i = i + 1;
            }
            proof {
                assert(ns.take(i as int) =~= ns);
            }
            *files = kept;
            Ok(SignOutReport { keychain_cleared: true, db_key_file_removed: had_key, db_key_bak_removed: had_bak })
        },
    }
}

/// Sign out: wipe the database key from `keychain` (a failure there stops
/// the sign-out, and its error is passed on as [`sign_out_report`] says),
/// then take `.db_key` and `.db_key.bak` out of `files`, the names of the
/// data directory's files, for the caller to delete; no other file is
/// touched. A reliable keychain, or one without the key, always lets the
/// sign-out through.
pub fn sign_out_with<K: KeychainBackend>(keychain_backend: &mut K, files: &mut Vec<String>) -> (r: Result<
    SignOutReport,
    KeychainError,
>)
    ensures
        old(keychain_backend).reliable() ==> r is Ok,
        final(keychain_backend).reliable() == old(keychain_backend).reliable(),
        signed_out(
            old(keychain_backend).items(),
            names(old(files)@),
            r,
            final(keychain_backend).items(),
            names(final(files)@),
        ),
{
    let wiped = delete_db_passphrase_with(keychain_backend);
    sign_out_report(wiped, files)
}

/// A filter keeps every item of a sequence it has already filtered.
proof fn lemma_filter_again(s: Seq<Seq<char>>)
    ensures
        s.filter(kept_file()).filter(kept_file()) == s.filter(kept_file()),
        !s.filter(kept_file()).contains(".db_key"@),
        !s.filter(kept_file()).contains(".db_key.bak"@),
    decreases s.len(),
{
    reveal_with_fuel(Seq::filter, 1);
    if s.len() > 0 {
        lemma_filter_again(s.drop_last());
        let f = s.drop_last().filter(kept_file());
        if kept_file()(s.last()) {
            f.lemma_filter_push(s.last(), kept_file());
            assert(s.filter(kept_file()) == f.push(s.last()));
            assert forall|j: int| 0 <= j < f.push(s.last()).len() implies !is_key_file(
                #[trigger] f.push(s.last())[j],
            ) by {
                if j < f.len() {
                    if is_key_file(f[j]) {
                        assert(f.contains(f[j]));
                    }
                }
            }
        }
    } else {
        assert(s.filter(kept_file()) =~= s);
    }
}

/// Signing out twice in a row: the second sign-out finds neither the key
/// nor the key files, succeeds, reports that it removed no file and
/// changes nothing; after a first sign-out on a keychain without the key
/// and a directory without key files, both reports are the same.
pub proof fn lemma_sign_out_twice(
    k0: Map<(Seq<char>, Seq<char>), Seq<u8>>,
    f0: Seq<Seq<char>>,
    r1: Result<SignOutReport, KeychainError>,
    k1: Map<(Seq<char>, Seq<char>), Seq<u8>>,
    f1: Seq<Seq<char>>,
    r2: Result<SignOutReport, KeychainError>,
    k2: Map<(Seq<char>, Seq<char>), Seq<u8>>,
    f2: Seq<Seq<char>>,
)
    requires
        signed_out(k0, f0, r1, k1, f1),
        r1 is Ok,
        signed_out(k1, f1, r2, k2, f2),
    ensures
        r2 == Ok::<SignOutReport, KeychainError>(
            SignOutReport { keychain_cleared: true, db_key_file_removed: false, db_key_bak_removed: false },
        ),
        k2 == k1,
        f2 == f1,
        !k0.contains_key(db_key()) && !f0.contains(".db_key"@) && !f0.contains(".db_key.bak"@) ==> r1 == r2,
{
    lemma_filter_again(f0);
    assert(k1.remove(db_key()) =~= k1);
}

} // verus!
