//! An insertion-ordered table: keys are unique, a key keeps the place of its
//! first insertion, and lookups go by the key's view.

use vstd::prelude::*;

verus! {

/// A key of a [`Table`]: two keys are the same key when their views are equal.
pub trait Key: View + Sized {
    /// Whether `self` and `other` are the same key.
    fn same_key(&self, other: &Self) -> (same: bool)
        ensures
            same == (self@ == other@),
    ;

    /// A copy of the key.
    fn copy_key(&self) -> (copy: Self)
        ensures
            copy@ == self@,
    ;
}

impl Key for String {
    fn same_key(&self, other: &Self) -> (same: bool) {
        *self == *other
    }

    fn copy_key(&self) -> (copy: Self) {
        self.clone()
    }
}

/// No key occurs twice in `entries`.
pub open spec fn distinct_keys<I, V>(entries: Seq<(I, V)>) -> bool {
    forall|i: int, j: int|
        0 <= i < entries.len() && 0 <= j < entries.len() && i != j ==> (#[trigger] entries[i]).0
            != (#[trigger] entries[j]).0
}

/// `key` occurs in `entries`.
pub open spec fn has_key<I, V>(entries: Seq<(I, V)>, key: I) -> bool {
    exists|i: int| 0 <= i < entries.len() && (#[trigger] entries[i]).0 == key
}

/// Index of the first entry with `key`, or the length where there is none.
pub open spec fn key_position<I, V>(entries: Seq<(I, V)>, key: I) -> int
    decreases entries.len(),
{
    if entries.len() == 0 {
        0
    } else if entries[0].0 == key {
        0
    } else {
        1 + key_position(entries.drop_first(), key)
    }
}

/// The value stored under `key`, if any.
pub open spec fn lookup<I, V>(entries: Seq<(I, V)>, key: I) -> Option<V> {
    let at = key_position(entries, key);
    if at < entries.len() {
        Some(entries[at].1)
    } else {
        None
    }
}

/// `entries` with `value` stored under `key`: in the key's place where it
/// is present, at the end where it is new.
pub open spec fn upsert<I, V>(entries: Seq<(I, V)>, key: I, value: V) -> Seq<(I, V)> {
    let at = key_position(entries, key);
    if at < entries.len() {
        entries.update(at, (key, value))
    } else {
        entries.push((key, value))
    }
}

/// `base` with every entry of `over` stored into it, first entry first.
pub open spec fn merged<I, V>(base: Seq<(I, V)>, over: Seq<(I, V)>) -> Seq<(I, V)>
    decreases over.len(),
{
    if over.len() == 0 {
        base
    } else {
        merged(upsert(base, over[0].0, over[0].1), over.drop_first())
    }
}

/// Where `key_position` points: inside the sequence exactly when the key is
/// present, and then at its first occurrence.
pub proof fn lemma_key_position<I, V>(entries: Seq<(I, V)>, key: I)
    ensures
        0 <= key_position(entries, key) <= entries.len(),
        key_position(entries, key) < entries.len() <==> has_key(entries, key),
        key_position(entries, key) < entries.len() ==> entries[key_position(entries, key)].0
            == key,
        forall|j: int| 0 <= j < key_position(entries, key) ==> (#[trigger] entries[j]).0 != key,
    decreases entries.len(),
{
    if entries.len() > 0 && entries[0].0 != key {
        let rest = entries.drop_first();
        lemma_key_position(rest, key);
        assert forall|j: int| 0 <= j < 1 + key_position(rest, key) implies (
        #[trigger] entries[j]).0 != key by {
            if j > 0 {
                assert(rest[j - 1] == entries[j]);
            }
        }
    }
}

/// Storing a value keeps the keys distinct, keeps every other key's value and
/// place, and makes the stored value the one that a lookup finds.
pub proof fn lemma_upsert_distinct<I, V>(entries: Seq<(I, V)>, key: I, value: V)
    requires
        distinct_keys(entries),
    ensures
        distinct_keys(upsert(entries, key, value)),
        lookup(upsert(entries, key, value), key) == Some(value),
        forall|other: I|
            other != key ==> lookup(upsert(entries, key, value), other) == lookup(entries, other),
        forall|other: I|
            has_key(upsert(entries, key, value), other) <==> (other == key || has_key(
                entries,
                other,
            )),
{
    let after = upsert(entries, key, value);
    let at = key_position(entries, key);
    lemma_key_position(entries, key);
    lemma_key_position(after, key);
    let w = if at < entries.len() {
        at
    } else {
        entries.len() as int
    };
    assert(after[w].0 == key);
    assert forall|other: I| other != key implies lookup(after, other) == lookup(
        entries,
        other,
    ) by {
        lemma_key_position(entries, other);
        lemma_key_position(after, other);
        let p = key_position(entries, other);
        if p < entries.len() {
            assert(after[p].0 == other);
        }
    }
    assert forall|other: I| has_key(after, other) <==> (other == key || has_key(
        entries,
        other,
    )) by {
        lemma_key_position(entries, other);
        lemma_key_position(after, other);
        if has_key(entries, other) {
            let p = key_position(entries, other);
            assert(after[p].0 == other || other == key);
        }
    }
}

/// An insertion-ordered table. Its view is the sequence of its entries,
/// each key taken by its view.
#[derive(Debug, Clone)]
pub struct Table<K: Key, V> {
    entries: Vec<(K, V)>,
}

impl<K: Key, V> View for Table<K, V> {
    type V = Seq<(K::V, V)>;

    closed spec fn view(&self) -> Seq<(K::V, V)> {
        Seq::new(self.entries@.len(), |i: int| (self.entries@[i].0@, self.entries@[i].1))
    }
}

impl<K: Key, V> Table<K, V> {
    /// No key is stored twice.
    pub open spec fn wf(&self) -> bool {
        distinct_keys(self@)
    }

    pub fn new() -> (table: Self)
        ensures
            table@ == Seq::<(K::V, V)>::empty(),
            table.wf(),
    {
        let table = Table { entries: Vec::new() };
        table
    }

    pub fn len(&self) -> (n: usize)
        ensures
            n == self@.len(),
    {
        self.entries.len()
    }

    pub fn is_empty(&self) -> (empty: bool)
        ensures
            empty == (self@.len() == 0),
    {
        self.entries.len() == 0
    }

    /// The key of the entry at `index`, in insertion order.
    pub fn key_at(&self, index: usize) -> (key: &K)
        requires
            index < self@.len(),
        ensures
            key@ == self@[index as int].0,
    {
        &self.entries[index].0
    }

    /// The value of the entry at `index`, in insertion order.
    pub fn value_at(&self, index: usize) -> (value: &V)
        requires
            index < self@.len(),
        ensures
            *value == self@[index as int].1,
    {
        &self.entries[index].1
    }

    /// Index of the entry stored under `key`, or the number of entries where
    /// there is none.
    pub fn position(&self, key: &K) -> (at: usize)
        ensures
            at == key_position(self@, key@),
            at <= self@.len(),
    {
        proof {
            lemma_key_position(self@, key@);
        }
        let mut i: usize = 0;
        while i < self.entries.len()
            invariant
                i <= self.entries.len(),
                forall|j: int| 0 <= j < i ==> (#[trigger] self@[j]).0 != key@,
            ensures
                i <= self.entries.len(),
                forall|j: int| 0 <= j < i ==> (#[trigger] self@[j]).0 != key@,
                i < self.entries.len() ==> self@[i as int].0 == key@,
            decreases self.entries.len() - i,
        {
            if self.entries[i].0.same_key(key) {
                break;
            }
            i += 1;
        }
        i
    }

    pub fn contains_key(&self, key: &K) -> (present: bool)
        ensures
            present == has_key(self@, key@),
    {
        proof {
            lemma_key_position(self@, key@);
        }
        self.position(key) < self.entries.len()
    }

    pub fn get(&self, key: &K) -> (found: Option<&V>)
        ensures
            found == match lookup(self@, key@) {
                Some(v) => Some(&v),
                None => None,
            },
    {
        let at = self.position(key);
        if at < self.entries.len() {
            Some(&self.entries[at].1)
        } else {
            None
        }
    }

    /// Appends an entry as it stands, without looking for its key. Meant for
    /// copying a table entry by entry; the caller answers for the keys.
    pub(crate) fn push_entry(&mut self, key: K, value: V)
        ensures
            final(self)@ == old(self)@.push((key@, value)),
    {
        self.entries.push((key, value));
    }

    /// Puts `value` in the place of the value at `index` and hands the old
    /// value out. The key stays.
    pub fn replace_value_at(&mut self, index: usize, value: V) -> (previous: V)
        requires
            old(self).wf(),
            index < old(self)@.len(),
        ensures
            previous == old(self)@[index as int].1,
            final(self)@ == old(self)@.update(index as int, (old(self)@[index as int].0, value)),
            final(self).wf(),
    {
        let ghost before = self@;
        let mut previous = value;
        std::mem::swap(&mut self.entries[index].1, &mut previous);
        assert(self@ =~= before.update(index as int, (before[index as int].0, value)));
        assert forall|i: int, j: int|
            0 <= i < self@.len() && 0 <= j < self@.len() && i != j implies (#[trigger] self@[i]).0
            != (#[trigger] self@[j]).0 by {}
        previous
    }

    /// Stores every entry of `other`, first entry first: an entry of `other`
    /// replaces the value of a key that is present and is appended
    /// otherwise.
    pub fn extend(&mut self, other: Table<K, V>)
        requires
            old(self).wf(),
        ensures
            final(self).wf(),
            final(self)@ == merged(old(self)@, other@),
    {
        let ghost all = other@;
        let ghost raw = other.entries@;
        proof {
            assert(all.subrange(0, all.len() as int) =~= all);
        }
        for entry in it: other.entries
            invariant
                it.seq() == raw,
                all.len() == raw.len(),
                forall|i: int| 0 <= i < raw.len() ==> all[i] == ((#[trigger] raw[i]).0@, raw[i].1),
                self.wf(),
                merged(self@, all.subrange(it.index() as int, all.len() as int)) == merged(
                    old(self)@,
                    all,
                ),
        {
            let ghost rest = all.subrange(it.index() as int, all.len() as int);
            proof {
                assert(rest.drop_first() =~= all.subrange(it.index() + 1, all.len() as int));
            }
            self.insert(entry.0, entry.1);
        }
    }

    /// Stores `value` under `key`. A key that is present keeps its place; a
    /// new key goes to the end.
    pub fn insert(&mut self, key: K, value: V)
        requires
            old(self).wf(),
        ensures
            final(self)@ == upsert(old(self)@, key@, value),
            final(self).wf(),
    {
        let at = self.position(&key);
        let ghost before = self@;
        proof {
            lemma_key_position(before, key@);
        }
        if at < self.entries.len() {
            self.entries.set(at, (key, value));
        } else {
            self.entries.push((key, value));
        }
        proof {
            lemma_upsert_distinct(before, key@, value);
        }
    }
}

} // verus!
