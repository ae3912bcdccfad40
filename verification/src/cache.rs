//! A key→bytes store keyed by URL string.
//!
//! The store keeps immutable byte payloads under their source URL. Writing
//! an existing key replaces its payload in place (last write wins); an
//! entry larger than the store's configured capacity is rejected. Eviction
//! and expiry are deliberately out of scope: entries live as long as the
//! store.
//!
//! The contents are modelled as the sequence of (key, payload) views in
//! insertion order; [`spec_lookup`] and [`spec_store`] say exactly what a
//! read and a write mean over that sequence.

use vstd::prelude::*;

verus! {

use vstd::pervasive::VecAdditionalExecFns;

/// A payload handed out by the store.
pub struct BytesCacheEntry {
    pub bytes: Vec<u8>,
}

/// The first payload stored under `key`, if any.
///
/// The store never holds two entries with one key, so "first" is simply
/// "the" entry for `key`.
pub open spec fn spec_lookup(entries: Seq<(Seq<char>, Seq<u8>)>, key: Seq<char>) -> Option<Seq<u8>>
    decreases entries.len(),
{
    if entries.len() == 0 {
        None
    } else if entries[0].0 == key {
        Some(entries[0].1)
    } else {
        spec_lookup(entries.skip(1), key)
    }
}

/// The contents after `value` is written under `key`: the entry for `key`
/// is replaced in place, or appended when `key` is new.
pub open spec fn spec_store(
    entries: Seq<(Seq<char>, Seq<u8>)>,
    key: Seq<char>,
    value: Seq<u8>,
) -> Seq<(Seq<char>, Seq<u8>)>
    decreases entries.len(),
{
    if entries.len() == 0 {
        seq![(key, value)]
    } else if entries[0].0 == key {
        seq![(key, value)] + entries.skip(1)
    } else {
        seq![entries[0]] + spec_store(entries.skip(1), key, value)
    }
}

/// When `key` first occurs at position `at`, the lookup answers with that
/// entry's payload.
proof fn lemma_lookup_at_index(entries: Seq<(Seq<char>, Seq<u8>)>, key: Seq<char>, at: int)
    requires
        0 <= at < entries.len(),
        entries[at].0 == key,
        forall|j: int| 0 <= j < at ==> entries[j].0 != key,
    ensures
        spec_lookup(entries, key) == Some(entries[at].1),
    decreases at,
{
    if at > 0 {
        let tail = entries.skip(1);
        assert(forall|j: int| 0 <= j < at - 1 ==> tail[j] == entries[j + 1]);
        lemma_lookup_at_index(tail, key, at - 1);
    }
}

/// When `key` occurs nowhere, the lookup answers with nothing.
proof fn lemma_lookup_absent(entries: Seq<(Seq<char>, Seq<u8>)>, key: Seq<char>)
    requires
        forall|j: int| 0 <= j < entries.len() ==> entries[j].0 != key,
    ensures
        spec_lookup(entries, key) is None,
    decreases entries.len(),
{
    if entries.len() > 0 {
        let tail = entries.skip(1);
        assert(forall|j: int| 0 <= j < tail.len() ==> tail[j] == entries[j + 1]);
        lemma_lookup_absent(tail, key);
    }
}

/// When `key` first occurs at position `at`, a store is an in-place update.
proof fn lemma_store_at_existing_key(
    entries: Seq<(Seq<char>, Seq<u8>)>,
    key: Seq<char>,
    value: Seq<u8>,
    at: int,
)
    requires
        0 <= at < entries.len(),
        entries[at].0 == key,
        forall|j: int| 0 <= j < at ==> entries[j].0 != key,
    ensures
        spec_store(entries, key, value) == entries.update(at, (key, value)),
    decreases at,
{
    if at == 0 {
        assert(spec_store(entries, key, value) =~= entries.update(0, (key, value)));
    } else {
        let tail = entries.skip(1);
        assert(forall|j: int| 0 <= j < at - 1 ==> tail[j] == entries[j + 1]);
        lemma_store_at_existing_key(tail, key, value, at - 1);
        assert(spec_store(entries, key, value) =~= entries.update(at, (key, value)));
    }
}

/// When `key` occurs nowhere, a store is an append.
proof fn lemma_store_at_new_key(entries: Seq<(Seq<char>, Seq<u8>)>, key: Seq<char>, value: Seq<u8>)
    requires
        forall|j: int| 0 <= j < entries.len() ==> entries[j].0 != key,
    ensures
        spec_store(entries, key, value) == entries.push((key, value)),
    decreases entries.len(),
{
    if entries.len() == 0 {
        assert(spec_store(entries, key, value) =~= entries.push((key, value)));
    } else {
        let tail = entries.skip(1);
        assert(forall|j: int| 0 <= j < tail.len() ==> tail[j] == entries[j + 1]);
        lemma_store_at_new_key(tail, key, value);
        assert(spec_store(entries, key, value) =~= entries.push((key, value)));
    }
}

/// A write under `key` is read back as exactly the bytes written.
pub proof fn lemma_lookup_after_store(
    entries: Seq<(Seq<char>, Seq<u8>)>,
    key: Seq<char>,
    value: Seq<u8>,
)
    ensures
        spec_lookup(spec_store(entries, key, value), key) == Some(value),
    decreases entries.len(),
{
    if entries.len() == 0 {
        assert(spec_store(entries, key, value)[0] == (key, value));
    } else if entries[0].0 == key {
        assert((seq![(key, value)] + entries.skip(1))[0] == (key, value));
    } else {
        lemma_lookup_after_store(entries.skip(1), key, value);
        let stored = seq![entries[0]] + spec_store(entries.skip(1), key, value);
        assert(stored[0] == entries[0]);
        assert(stored.skip(1) =~= spec_store(entries.skip(1), key, value));
    }
}

/// In-memory byte store keyed by URL string.
pub struct BytesCache {
    entries: Vec<(String, Vec<u8>)>,
    entry_size_limit: usize,
}

impl BytesCache {
    /// The stored (key, payload) pairs, in insertion order.
    pub closed spec fn contents(&self) -> Seq<(Seq<char>, Seq<u8>)> {
        self.entries@.map_values(|p: (String, Vec<u8>)| (p.0@, p.1@))
    }

    /// Largest payload the store accepts.
    pub closed spec fn spec_entry_size_limit(&self) -> usize {
        self.entry_size_limit
    }

    /// An empty store that accepts payloads of up to `entry_size_limit` bytes.
    pub fn new(entry_size_limit: usize) -> (c: Self)
        ensures
            c.contents() == Seq::<(Seq<char>, Seq<u8>)>::empty(),
            c.spec_entry_size_limit() == entry_size_limit,
    {
        let c = BytesCache { entries: Vec::new(), entry_size_limit };
        proof {
            assert(c.contents() =~= Seq::<(Seq<char>, Seq<u8>)>::empty());
        }
        c
    }

    /// Position of the entry for `key`, scanning from the front.
    fn find(&self, key: &String) -> (r: Option<usize>)
        ensures
            match r {
                Some(i) => {
                    &&& i < self.contents().len()
                    &&& self.contents()[i as int].0 == key@
                    &&& forall|j: int| 0 <= j < i ==> self.contents()[j].0 != key@
                },
                None => forall|j: int|
                    0 <= j < self.contents().len() ==> self.contents()[j].0 != key@,
            },
    {
        let n = self.entries.len();
        let mut i: usize = 0;
        while i < n
            invariant
                i <= n,
                n == self.entries.len(),
                forall|j: int| 0 <= j < i ==> self.contents()[j].0 != key@,
            decreases n - i,
        {
            proof {
                assert(self.contents()[i as int] == (self.entries@[i as int].0@, self.entries@[
                    i as int
                ].1@));
            }
            if self.entries[i].0.eq(key) {
                return Some(i);
            }
            i = i + 1;
        }
        None
    }

    /// The payload stored under `key`, if any, as a fresh copy.
    pub fn get(&self, key: &String) -> (r: Option<BytesCacheEntry>)
        ensures
            match r {
                Some(entry) => spec_lookup(self.contents(), key@) == Some(entry.bytes@),
                None => spec_lookup(self.contents(), key@) is None,
            },
    {
        match self.find(key) {
            Some(i) => {
                proof {
                    lemma_lookup_at_index(self.contents(), key@, i as int);
                    assert(self.contents()[i as int] == (self.entries@[i as int].0@, self.entries@[
                        i as int
                    ].1@));
                }
                let bytes = copy_bytes(&self.entries[i].1);
                Some(BytesCacheEntry { bytes })
            },
            None => {
                proof {
                    lemma_lookup_absent(self.contents(), key@);
                }
                None
            },
        }
    }

    /// Store `bytes` under `key`, replacing any previous entry for `key`.
    ///
    /// Rejects, and changes nothing, iff the payload is larger than the
    /// store's configured capacity.
    pub fn set(&mut self, key: String, bytes: Vec<u8>) -> (r: Result<(), ()>)
        ensures
            final(self).spec_entry_size_limit() == old(self).spec_entry_size_limit(),
            bytes@.len() > old(self).spec_entry_size_limit() ==> {
                &&& r is Err
                &&& final(self).contents() == old(self).contents()
            },
            bytes@.len() <= old(self).spec_entry_size_limit() ==> {
                &&& r is Ok
                &&& final(self).contents() == spec_store(old(self).contents(), key@, bytes@)
            },
    {
        if bytes.len() > self.entry_size_limit {
            return Err(());
        }
        let ghost orig = self.contents();
        match self.find(&key) {
            Some(i) => {
                proof {
                    lemma_store_at_existing_key(orig, key@, bytes@, i as int);
                }
                self.entries.set(i, (key, bytes));
                proof {
                    assert(self.contents() =~= orig.update(i as int, (key@, bytes@)));
                }
            },
            None => {
                proof {
                    lemma_store_at_new_key(orig, key@, bytes@);
                }
                self.entries.push((key, bytes));
                proof {
                    assert(self.contents() =~= orig.push((key@, bytes@)));
                }
            },
        }
        Ok(())
    }
}

/// A fresh copy of a byte payload.
pub(crate) fn copy_bytes(v: &Vec<u8>) -> (r: Vec<u8>)
    ensures
        r@ == v@,
{
    let mut r: Vec<u8> = Vec::new();
    let n = v.len();
    let mut i: usize = 0;
    while i < n
        invariant
            i <= n,
            n == v.len(),
            r@ == v@.take(i as int),
        decreases n - i,
    {
        r.push(v[i]);
        proof {
            assert(r@ =~= v@.take(i as int + 1));
        }
        i = i + 1;
    }
    proof {
        assert(r@ =~= v@);
    }
    r
}

} // verus!
