//! An in-memory keychain: a list of items with distinct keys.
use vstd::prelude::*;

use crate::store::keychain::{ItemKey, KeychainBackend, KeychainError};
use crate::text::{owned, same_text};

verus! {

/// One stored item.
#[derive(Debug, Clone)]
pub struct MemoryItem {
    pub service: String,
    pub account: String,
    pub secret: Vec<u8>,
}

/// The key an item is stored under.
pub open spec fn item_key(e: MemoryItem) -> ItemKey {
    (e.service@, e.account@)
}

/// The keys of a list of items, in order.
pub open spec fn item_keys(s: Seq<MemoryItem>) -> Seq<ItemKey> {
    Seq::new(s.len(), |i: int| item_key(s[i]))
}

/// The position of the item stored under `k`, if there is one.
pub open spec fn position_of(s: Seq<MemoryItem>, k: ItemKey) -> int {
    choose|i: int| 0 <= i < s.len() && item_key(s[i]) == k
}

/// The items of a list, as a map from key to secret.
pub open spec fn items_of(s: Seq<MemoryItem>) -> Map<ItemKey, Seq<u8>> {
    Map::new(|k: ItemKey| item_keys(s).contains(k), |k: ItemKey| s[position_of(s, k)].secret@)
}

/// A keychain held in memory, for tests and tools: it never fails.
#[derive(Debug)]
pub struct MemoryKeychain {
    items: Vec<MemoryItem>,
}

proof fn lemma_position(s: Seq<MemoryItem>, i: int)
    requires
        item_keys(s).no_duplicates(),
        0 <= i < s.len(),
    ensures
        position_of(s, item_key(s[i])) == i,
        item_keys(s).contains(item_key(s[i])),
{
    assert(item_keys(s)[i] == item_key(s[i]));
    let j = position_of(s, item_key(s[i]));
    assert(item_keys(s)[j] == item_keys(s)[i]);
}

proof fn lemma_contains(s: Seq<MemoryItem>, k: ItemKey)
    ensures
        item_keys(s).contains(k) <==> exists|i: int| 0 <= i < s.len() && item_key(s[i]) == k,
        item_keys(s).contains(k) ==> 0 <= position_of(s, k) < s.len() && item_key(s[position_of(s, k)])
            == k,
{
    if item_keys(s).contains(k) {
        let i = choose|i: int| 0 <= i < item_keys(s).len() && item_keys(s)[i] == k;
        assert(item_key(s[i]) == k);
    }
    if exists|i: int| 0 <= i < s.len() && item_key(s[i]) == k {
        let i = choose|i: int| 0 <= i < s.len() && item_key(s[i]) == k;
        assert(item_keys(s)[i] == k);
    }
}

proof fn lemma_replace(s: Seq<MemoryItem>, i: int, e: MemoryItem)
    requires
        item_keys(s).no_duplicates(),
        0 <= i < s.len(),
        item_key(e) == item_key(s[i]),
    ensures
        item_keys(s.update(i, e)).no_duplicates(),
        items_of(s.update(i, e)) == items_of(s).insert(item_key(e), e.secret@),
{
    let t = s.update(i, e);
    assert(item_keys(t) =~= item_keys(s));
    lemma_position(t, i);
    assert forall|k: ItemKey| #[trigger] items_of(t).contains_key(k) && k != item_key(e) implies items_of(
        t,
    )[k] == items_of(s)[k] by {
        lemma_contains(t, k);
        let j = position_of(t, k);
        lemma_position(s, j);
        lemma_position(t, j);
    }
    assert(items_of(t) =~= items_of(s).insert(item_key(e), e.secret@));
}

proof fn lemma_push(s: Seq<MemoryItem>, e: MemoryItem)
    requires
        item_keys(s).no_duplicates(),
        !item_keys(s).contains(item_key(e)),
    ensures
        item_keys(s.push(e)).no_duplicates(),
        items_of(s.push(e)) == items_of(s).insert(item_key(e), e.secret@),
{
    let t = s.push(e);
    assert(item_keys(t) =~= item_keys(s).push(item_key(e)));
    assert forall|a: int, b: int| 0 <= a < item_keys(t).len() && 0 <= b < item_keys(t).len() && a != b
        implies item_keys(t)[a] != item_keys(t)[b] by {
        if a == s.len() {
            assert(item_keys(s)[b] == item_keys(t)[b]);
        } else if b == s.len() {
            assert(item_keys(s)[a] == item_keys(t)[a]);
        }
    }
    lemma_position(t, s.len() as int);
    assert forall|k: ItemKey| #[trigger] items_of(t).contains_key(k) && k != item_key(e) implies items_of(
        s,
    ).contains_key(k) && items_of(t)[k] == items_of(s)[k] by {
        lemma_contains(t, k);
        let j = position_of(t, k);
        assert(j != s.len());
        lemma_position(s, j);
        lemma_position(t, j);
    }
    assert forall|k: ItemKey| #[trigger] items_of(s).contains_key(k) implies items_of(t).contains_key(k) by {
        lemma_contains(s, k);
        let j = position_of(s, k);
        assert(item_keys(t)[j] == k);
    }
    assert(items_of(t) =~= items_of(s).insert(item_key(e), e.secret@));
}

proof fn lemma_remove(s: Seq<MemoryItem>, i: int)
    requires
        item_keys(s).no_duplicates(),
        0 <= i < s.len(),
    ensures
        item_keys(s.remove(i)).no_duplicates(),
        items_of(s.remove(i)) == items_of(s).remove(item_key(s[i])),
{
    let t = s.remove(i);
    let k0 = item_key(s[i]);
    assert(item_keys(t) =~= item_keys(s).remove(i));
    assert forall|a: int, b: int| 0 <= a < item_keys(t).len() && 0 <= b < item_keys(t).len() && a != b
        implies item_keys(t)[a] != item_keys(t)[b] by {
        let a2 = if a < i { a } else { a + 1 };
        let b2 = if b < i { b } else { b + 1 };
        assert(item_keys(t)[a] == item_keys(s)[a2]);
        assert(item_keys(t)[b] == item_keys(s)[b2]);
    }
    assert forall|k: ItemKey| #[trigger] items_of(t).contains_key(k) implies k != k0 && items_of(
        s,
    ).contains_key(k) && items_of(t)[k] == items_of(s)[k] by {
        lemma_contains(t, k);
        let j = position_of(t, k);
        let j2 = if j < i { j } else { j + 1 };
        assert(t[j] == s[j2]);
        assert(item_keys(s)[j2] == k);
        assert(item_keys(s)[i] == k0);
        lemma_position(s, j2);
        lemma_position(t, j);
    }
    assert forall|k: ItemKey| #[trigger] items_of(s).contains_key(k) && k != k0 implies items_of(
        t,
    ).contains_key(k) by {
        lemma_contains(s, k);
        let j = position_of(s, k);
        assert(j != i);
        let j2 = if j < i { j } else { j - 1 };
        assert(t[j2] == s[j]);
        assert(item_keys(t)[j2] == k);
    }
    assert(items_of(t) =~= items_of(s).remove(k0));
}

/// The position of the item stored under `service` / `account`.
fn find_item(items: &Vec<MemoryItem>, service: &str, account: &str) -> (r: Option<usize>)
    ensures
        match r {
            Some(i) => i < items@.len() && item_key(items@[i as int]) == (service@, account@),
            None => !item_keys(items@).contains((service@, account@)),
        },
{
    let mut i: usize = 0;
    while i < items.len()
        invariant
            i <= items@.len(),
            forall|j: int| 0 <= j < i ==> item_key(#[trigger] items@[j]) != (service@, account@),
        decreases items@.len() - i,
    {
        let e = &items[i];
        if same_text(e.service.as_str(), service) && same_text(e.account.as_str(), account) {
            return Some(i);
        }
        i = i + 1;
    }
    proof {
        lemma_contains(items@, (service@, account@));
    }
    None
}


impl MemoryKeychain {
    #[verifier::type_invariant]
    spec fn distinct_keys(self) -> bool {
        item_keys(self.items@).no_duplicates()
    }

    /// An empty keychain.
    pub fn new() -> (r: MemoryKeychain)
        ensures
            r.items().is_empty(),
    {
        let r = MemoryKeychain { items: Vec::new() };
        assert(r.items() =~= Map::empty());
        r
    }

    /// The number of items stored.
    pub fn len(&self) -> (r: usize)
        ensures
            r == self.items().len(),
    {
        proof {
            use_type_invariant(self);
            item_keys(self.items@).unique_seq_to_set();
            assert(self.items().dom() =~= item_keys(self.items@).to_set());
        }
        self.items.len()
    }
}

impl KeychainBackend for MemoryKeychain {
    closed spec fn items(&self) -> Map<ItemKey, Seq<u8>> {
        items_of(self.items@)
    }

    open spec fn reliable(&self) -> bool {
        true
    }

    fn get(&self, service: &str, account: &str) -> (r: Result<Option<Vec<u8>>, KeychainError>) {
        proof {
            use_type_invariant(self);
        }
        match find_item(&self.items, service, account) {
            Some(i) => {
                proof {
                    lemma_position(self.items@, i as int);
                }
                Ok(Some(vstd::slice::slice_to_vec(self.items[i].secret.as_slice())))
            },
            None => Ok(None),
        }
    }

    fn set(&mut self, service: &str, account: &str, password: &[u8]) -> (r: Result<(), KeychainError>) {
        proof {
            use_type_invariant(&*self);
        }
        let e = MemoryItem {
            service: owned(service),
            account: owned(account),
            secret: vstd::slice::slice_to_vec(password),
        };
        let mut items: Vec<MemoryItem> = Vec::new();
        std::mem::swap(&mut items, &mut self.items);
        let ghost s = items@;
        match find_item(&items, service, account) {
            Some(i) => {
                proof {
                    lemma_replace(s, i as int, e);
                }
                items.set(i, e);
            },
            None => {
                proof {
                    lemma_push(s, e);
                }
                items.push(e);
            },
        }
        self.items = items;
        Ok(())
    }

    fn delete(&mut self, service: &str, account: &str) -> (r: Result<(), KeychainError>) {
        proof {
            use_type_invariant(&*self);
        }
        let mut items: Vec<MemoryItem> = Vec::new();
        std::mem::swap(&mut items, &mut self.items);
        let ghost s = items@;
        match find_item(&items, service, account) {
            Some(i) => {
                proof {
                    lemma_remove(s, i as int);
                }
                let _ = items.remove(i);
            },
            None => {
                assert(items_of(s).remove((service@, account@)) =~= items_of(s));
            },
        }
        self.items = items;
        Ok(())
    }
}

} // verus!
