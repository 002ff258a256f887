//! The keyed store of vault records.
use vstd::prelude::*;
use crate::errors::CustomError;
use crate::account::VaultAccount;
use crate::pubkey::Pubkey;

verus! {

/// A record together with the key it is stored under.
#[derive(Clone, Copy, Debug)]
struct Entry {
    key: Pubkey,
    record: VaultAccount,
}

/// The vault records, each stored under the identity it was created for.
///
/// Seen from outside, a ledger is a map from keys to records: `ledger@`.
#[derive(Debug)]
pub struct VaultLedger {
    entries: Vec<Entry>,
}

impl View for VaultLedger {
    type V = Map<Pubkey, VaultAccount>;

    closed spec fn view(&self) -> Map<Pubkey, VaultAccount> {
        records_of(self.entries@)
    }
}

impl VaultLedger {
    #[verifier::type_invariant]
    spec fn well_formed(&self) -> bool {
        distinct_keys(self.entries@)
    }

    /// A ledger that holds no record.
    pub fn new() -> (ledger: VaultLedger)
        ensures
            ledger@ == Map::<Pubkey, VaultAccount>::empty(),
    {
        let ledger = VaultLedger { entries: Vec::new() };
        assert(ledger@ =~= Map::<Pubkey, VaultAccount>::empty());
        ledger
    }

    /// Where the record under `key` is kept, if there is one.
    fn position(&self, key: &Pubkey) -> (found: Option<usize>)
        ensures
            match found {
                Some(at) => stored_at(self.entries@, at as int, *key) && self@.contains_key(*key)
                    && self@[*key] == self.entries@[at as int].record,
                None => !self@.contains_key(*key),
            },
    {
        proof {
            use_type_invariant(self);
        }
        let mut i: usize = 0;
        while i < self.entries.len()
            invariant
                i <= self.entries@.len(),
                distinct_keys(self.entries@),
                forall|j: int| 0 <= j < i ==> !stored_at(self.entries@, j, *key),
            decreases self.entries@.len() - i,
        {
            if self.entries[i].key == *key {
                proof {
                    assert(stored_at(self.entries@, i as int, *key));
                    lemma_record_at(self.entries@, i as int, *key);
                }
                return Some(i);
            }
            i = i + 1;
        }
        None
    }

    /// Whether a record is stored under `key`.
    pub fn contains(&self, key: &Pubkey) -> (present: bool)
        ensures
            present == self@.contains_key(*key),
    {
        self.position(key).is_some()
    }

    /// Reads the record stored under `key`.
    pub fn get(&self, key: &Pubkey) -> (found: Result<VaultAccount, CustomError>)
        ensures
            self@.contains_key(*key) ==> found == Ok::<VaultAccount, CustomError>(self@[*key]),
            !self@.contains_key(*key) ==> found == Err::<VaultAccount, CustomError>(
                CustomError::NotFound,
            ),
    {
        match self.position(key) {
            Some(at) => Ok(self.entries[at].record),
            None => Err(CustomError::NotFound),
        }
    }

    /// Stores `record` under `key`, which must be free.
    pub fn create(&mut self, key: Pubkey, record: VaultAccount) -> (created: Result<
        (),
        CustomError,
    >)
        ensures
            old(self)@.contains_key(key) ==> created == Err::<(), CustomError>(
                CustomError::AlreadyExists,
            ) && final(self)@ == old(self)@,
            !old(self)@.contains_key(key) ==> created == Ok::<(), CustomError>(()) && final(self)@
                == old(self)@.insert(key, record),
    {
        proof {
            use_type_invariant(&*self);
        }
        match self.position(&key) {
            Some(_) => Err(CustomError::AlreadyExists),
            None => {
                proof {
                    lemma_push(self.entries@, Entry { key, record });
                }
                let mut entries: Vec<Entry> = Vec::new();
                std::mem::swap(&mut entries, &mut self.entries);
                entries.push(Entry { key, record });
                self.entries = entries;
                Ok(())
            },
        }
    }

    /// Replaces the record stored under `key`.
    pub fn update(&mut self, key: &Pubkey, record: VaultAccount) -> (updated: Result<
        (),
        CustomError,
    >)
        ensures
            old(self)@.contains_key(*key) ==> updated == Ok::<(), CustomError>(()) && final(self)@
                == old(self)@.insert(*key, record),
            !old(self)@.contains_key(*key) ==> updated == Err::<(), CustomError>(
                CustomError::NotFound,
            ) && final(self)@ == old(self)@,
    {
        proof {
            use_type_invariant(&*self);
        }
        match self.position(key) {
            Some(at) => {
                proof {
                    lemma_update(self.entries@, at as int, record);
                }
                let mut entries: Vec<Entry> = Vec::new();
                std::mem::swap(&mut entries, &mut self.entries);
                entries.set(at, Entry { key: *key, record });
                self.entries = entries;
                Ok(())
            },
            None => Err(CustomError::NotFound),
        }
    }

    /// Removes the record stored under `key` and hands it back.
    pub fn delete(&mut self, key: &Pubkey) -> (deleted: Result<VaultAccount, CustomError>)
        ensures
            old(self)@.contains_key(*key) ==> deleted == Ok::<VaultAccount, CustomError>(
                old(self)@[*key],
            ) && final(self)@ == old(self)@.remove(*key),
            !old(self)@.contains_key(*key) ==> deleted == Err::<VaultAccount, CustomError>(
                CustomError::NotFound,
            ) && final(self)@ == old(self)@,
    {
        proof {
            use_type_invariant(&*self);
        }
        match self.position(key) {
            Some(at) => {
                proof {
                    lemma_remove(self.entries@, at as int);
                }
                let mut entries: Vec<Entry> = Vec::new();
                std::mem::swap(&mut entries, &mut self.entries);
                let entry = entries.remove(at);
                self.entries = entries;
                Ok(entry.record)
            },
            None => Err(CustomError::NotFound),
        }
    }
}

/// Whether position `at` of `entries` holds the record stored under `key`.
spec fn stored_at(entries: Seq<Entry>, at: int, key: Pubkey) -> bool {
    0 <= at < entries.len() && entries[at].key == key
}

/// No key occurs at two positions.
spec fn distinct_keys(entries: Seq<Entry>) -> bool {
    forall|i: int, j: int|
        0 <= i < entries.len() && 0 <= j < entries.len() && #[trigger] entries[i].key
            == #[trigger] entries[j].key ==> i == j
}

/// The map that the entries stand for.
spec fn records_of(entries: Seq<Entry>) -> Map<Pubkey, VaultAccount> {
    Map::new(
        |key: Pubkey| exists|at: int| stored_at(entries, at, key),
        |key: Pubkey| entries[choose|at: int| stored_at(entries, at, key)].record,
    )
}

/// With distinct keys, the record at a key's position is the one the map gives for it.
proof fn lemma_record_at(entries: Seq<Entry>, at: int, key: Pubkey)
    requires
        distinct_keys(entries),
        stored_at(entries, at, key),
    ensures
        records_of(entries).contains_key(key),
        records_of(entries)[key] == entries[at].record,
{
    let chosen = choose|at: int| stored_at(entries, at, key);
    assert(stored_at(entries, chosen, key));
    assert(entries[chosen].key == entries[at].key);
}

/// A key that the map lacks is at no position.
proof fn lemma_absent(entries: Seq<Entry>, key: Pubkey)
    requires
        !records_of(entries).contains_key(key),
    ensures
        forall|at: int| !stored_at(entries, at, key),
{
}

/// Appending an entry under a fresh key inserts it into the map.
proof fn lemma_push(entries: Seq<Entry>, entry: Entry)
    requires
        distinct_keys(entries),
        !records_of(entries).contains_key(entry.key),
    ensures
        distinct_keys(entries.push(entry)),
        records_of(entries.push(entry)) == records_of(entries).insert(entry.key, entry.record),
{
    let after = entries.push(entry);
    lemma_absent(entries, entry.key);
    assert forall|i: int, j: int|
        0 <= i < after.len() && 0 <= j < after.len() && #[trigger] after[i].key
            == #[trigger] after[j].key implies i == j by {
        if i < entries.len() && j < entries.len() {
            assert(entries[i].key == entries[j].key);
        } else if i < entries.len() {
            assert(stored_at(entries, i, entry.key));
        } else if j < entries.len() {
            assert(stored_at(entries, j, entry.key));
        }
    }
    assert forall|key: Pubkey|
        records_of(after).contains_key(key) == records_of(entries).insert(
            entry.key,
            entry.record,
        ).contains_key(key) by {
        if key == entry.key {
            assert(stored_at(after, entries.len() as int, key));
        } else if records_of(entries).contains_key(key) {
            let at = choose|at: int| stored_at(entries, at, key);
            assert(stored_at(after, at, key));
        } else if records_of(after).contains_key(key) {
            let at = choose|at: int| stored_at(after, at, key);
            assert(stored_at(entries, at, key));
        }
    }
    assert forall|key: Pubkey| records_of(after).contains_key(key) implies records_of(after)[key]
        == records_of(entries).insert(entry.key, entry.record)[key] by {
        let at = choose|at: int| stored_at(after, at, key);
        lemma_record_at(after, at, key);
        if key != entry.key {
            assert(stored_at(entries, at, key));
            lemma_record_at(entries, at, key);
        } else {
            assert(stored_at(after, entries.len() as int, key));
        }
    }
    assert(records_of(after) =~= records_of(entries).insert(entry.key, entry.record));
}

/// The entries with the record at position `at` replaced by `record`.
spec fn replaced(entries: Seq<Entry>, at: int, record: VaultAccount) -> Seq<Entry> {
    entries.update(at, Entry { key: entries[at].key, record })
}

/// Replacing the record at a key's position replaces it in the map.
proof fn lemma_update(entries: Seq<Entry>, at: int, record: VaultAccount)
    requires
        distinct_keys(entries),
        0 <= at < entries.len(),
    ensures
        distinct_keys(replaced(entries, at, record)),
        records_of(replaced(entries, at, record)) == records_of(entries).insert(
            entries[at].key,
            record,
        ),
{
    let key = entries[at].key;
    let after = replaced(entries, at, record);
    assert forall|i: int| 0 <= i < entries.len() implies #[trigger] after[i].key
        == entries[i].key by {}
    assert forall|i: int, j: int|
        0 <= i < after.len() && 0 <= j < after.len() && #[trigger] after[i].key
            == #[trigger] after[j].key implies i == j by {
        assert(entries[i].key == entries[j].key);
    }
    assert forall|k: Pubkey, i: int| stored_at(after, i, k) == stored_at(entries, i, k) by {
        if 0 <= i < entries.len() {
            assert(after[i].key == entries[i].key);
        }
    }
    assert(stored_at(entries, at, key));
    assert forall|k: Pubkey|
        records_of(after).contains_key(k) == records_of(entries).insert(key, record).contains_key(
            k,
        ) by {
        if records_of(entries).contains_key(k) {
            let i = choose|i: int| stored_at(entries, i, k);
            assert(stored_at(after, i, k));
        } else if records_of(after).contains_key(k) {
            let i = choose|i: int| stored_at(after, i, k);
            assert(stored_at(entries, i, k));
        }
    }
    assert forall|k: Pubkey| records_of(after).contains_key(k) implies records_of(after)[k]
        == records_of(entries).insert(key, record)[k] by {
        let i = choose|i: int| stored_at(after, i, k);
        lemma_record_at(after, i, k);
        assert(stored_at(entries, i, k));
        lemma_record_at(entries, i, k);
    }
    assert(records_of(after) =~= records_of(entries).insert(key, record));
}

/// Taking out the entry at a key's position removes the key from the map.
proof fn lemma_remove(entries: Seq<Entry>, at: int)
    requires
        distinct_keys(entries),
        0 <= at < entries.len(),
    ensures
        distinct_keys(entries.remove(at)),
        records_of(entries.remove(at)) == records_of(entries).remove(entries[at].key),
{
    let key = entries[at].key;
    let after = entries.remove(at);
    assert forall|i: int| 0 <= i < after.len() implies #[trigger] after[i] == entries[if i < at {
        i
    } else {
        i + 1
    }] by {}
    assert forall|i: int, j: int|
        0 <= i < after.len() && 0 <= j < after.len() && #[trigger] after[i].key
            == #[trigger] after[j].key implies i == j by {
        let i0 = if i < at { i } else { i + 1 };
        let j0 = if j < at { j } else { j + 1 };
        assert(entries[i0].key == entries[j0].key);
    }
    assert forall|k: Pubkey|
        records_of(after).contains_key(k) == records_of(entries).remove(key).contains_key(k) by {
        if records_of(after).contains_key(k) {
            let i = choose|i: int| stored_at(after, i, k);
            let i0 = if i < at { i } else { i + 1 };
            assert(stored_at(entries, i0, k));
            assert(entries[i0].key == k);
            if k == key {
                assert(entries[i0].key == entries[at].key);
            }
        } else if records_of(entries).remove(key).contains_key(k) {
            let i0 = choose|i: int| stored_at(entries, i, k);
            assert(stored_at(entries, i0, k));
            assert(i0 != at);
            let i = if i0 < at { i0 } else { i0 - 1 };
            assert(stored_at(after, i, k));
        }
    }
    assert forall|k: Pubkey| records_of(after).contains_key(k) implies records_of(after)[k]
        == records_of(entries).remove(key)[k] by {
        let i = choose|i: int| stored_at(after, i, k);
        let i0 = if i < at { i } else { i + 1 };
        lemma_record_at(after, i, k);
        assert(stored_at(entries, i0, k));
        lemma_record_at(entries, i0, k);
    }
    assert(records_of(after) =~= records_of(entries).remove(key));
}

} // verus!
