//! A small store of values under text keys, each key held once.

use crate::text::texts;
use vstd::prelude::*;
use vstd::string::*;

verus! {

/// A value with the key it is held under.
#[derive(Debug, PartialEq, Eq)]
pub struct Entry<A> {
    pub key: String,
    pub value: A,
}

/// The position of the first entry under `key`, or the length of
/// `entries` where there is none.
pub open spec fn position_of<A>(entries: Seq<Entry<A>>, key: Seq<char>) -> int
    decreases entries.len(),
{
    if entries.len() == 0 {
        0
    } else if entries[0].key@ == key {
        0
    } else {
        1 + position_of(entries.drop_first(), key)
    }
}

/// The map from keys to values that `entries` stand for.
pub open spec fn contents<A>(entries: Seq<Entry<A>>) -> Map<Seq<char>, A> {
    Map::new(
        |key: Seq<char>| position_of(entries, key) < entries.len(),
        |key: Seq<char>| entries[position_of(entries, key)].value,
    )
}

/// No two entries carry the same key.
pub open spec fn distinct_keys<A>(entries: Seq<Entry<A>>) -> bool {
    forall|i: int, j: int|
        0 <= i < j < entries.len() ==> (#[trigger] entries[i]).key@ != (#[trigger] entries[j]).key@
}

/// `position_of` finds the first entry with the key, if there is one.
pub proof fn position_of_finds_first<A>(entries: Seq<Entry<A>>, key: Seq<char>)
    ensures
        0 <= position_of(entries, key) <= entries.len(),
        position_of(entries, key) < entries.len() ==> entries[position_of(entries, key)].key@
            == key,
        forall|j: int| 0 <= j < position_of(entries, key) ==> (#[trigger] entries[j]).key@ != key,
    decreases entries.len(),
{
    if entries.len() > 0 && entries[0].key@ != key {
        let rest = entries.drop_first();
        position_of_finds_first(rest, key);
        assert forall|j: int| 0 <= j < position_of(entries, key) implies (#[trigger] entries[j]).key@
            != key by {
            if j > 0 {
                assert(entries[j] == rest[j - 1]);
            }
        }
    }
}

/// A position before which no entry has the key, and at which `entries`
/// end or an entry has it, is the position that `position_of` finds.
pub proof fn position_of_is<A>(entries: Seq<Entry<A>>, key: Seq<char>, at: int)
    requires
        0 <= at <= entries.len(),
        forall|j: int| 0 <= j < at ==> (#[trigger] entries[j]).key@ != key,
        at < entries.len() ==> entries[at].key@ == key,
    ensures
        position_of(entries, key) == at,
    decreases entries.len(),
{
    if entries.len() > 0 && at > 0 {
        let rest = entries.drop_first();
        position_of_is(rest, key, at - 1);
    }
}

/// The keys of `entries`, in order.
pub open spec fn keys_of<A>(entries: Seq<Entry<A>>) -> Seq<Seq<char>> {
    Seq::new(entries.len(), |i: int| entries[i].key@)
}

/// Values under text keys. A key holds one value at a time.
#[derive(Debug, PartialEq, Eq)]
pub struct Keyed<A> {
    entries: Vec<Entry<A>>,
}

impl<A> View for Keyed<A> {
    type V = Map<Seq<char>, A>;

    closed spec fn view(&self) -> Map<Seq<char>, A> {
        contents(self.entries@)
    }
}

impl<A> Keyed<A> {
    /// Each key is held once.
    #[verifier::type_invariant]
    closed spec fn distinct(&self) -> bool {
        distinct_keys(self.entries@)
    }

    /// A store that holds nothing.
    pub fn new() -> (store: Keyed<A>)
        ensures
            store@ == Map::<Seq<char>, A>::empty(),
    {
        let store = Keyed { entries: Vec::new() };
        store
    }

    /// Hands the entries out for a change, leaving none behind.
    fn take_entries(&mut self) -> (entries: Vec<Entry<A>>)
        ensures
            entries@ == old(self).entries@,
            final(self).entries@ == Seq::<Entry<A>>::empty(),
    {
        let mut entries: Vec<Entry<A>> = Vec::new();
        core::mem::swap(&mut self.entries, &mut entries);
        entries
    }

    fn find(&self, key: &String) -> (at: usize)
        ensures
            at == position_of(self.entries@, key@),
            at <= self.entries@.len(),
            at < self.entries@.len() ==> self.entries@[at as int].key@ == key@,
    {
        let mut at: usize = 0;
        while at < self.entries.len()
            invariant
                at <= self.entries@.len(),
                forall|j: int| 0 <= j < at ==> (#[trigger] self.entries@[j]).key@ != key@,
            decreases self.entries.len() - at,
        {
            if self.entries[at].key == *key {
                proof {
                    position_of_is(self.entries@, key@, at as int);
                }
                return at;
            }
            at = at + 1;
        }
        proof {
            position_of_is(self.entries@, key@, at as int);
        }
        at
    }

    /// The value under `key`, if there is one.
    pub fn get(&self, key: &String) -> (found: Option<&A>)
        ensures
            self@.dom().contains(key@) ==> found is Some && *found->Some_0 == self@[key@],
            !self@.dom().contains(key@) ==> found is None,
    {
        let at = self.find(key);
        if at < self.entries.len() {
            Some(&self.entries[at].value)
        } else {
            None
        }
    }

    /// Puts `value` under `key`, in place of what was there, if anything.
    pub fn insert(&mut self, key: String, value: A)
        ensures
            final(self)@ == old(self)@.insert(key@, value),
    {
        let at = self.find(&key);
        let entry = Entry { key, value };
        proof {
            use_type_invariant(&*self);
            contents_after_set(self.entries@, entry);
        }
        let mut entries = self.take_entries();
        if at < entries.len() {
            entries.set(at, entry);
        } else {
            entries.push(entry);
        }
        self.entries = entries;
    }

    /// Takes out what is under `key`. Where nothing is, the store stays as
    /// it is.
    pub fn remove(&mut self, key: &String) -> (removed: Option<A>)
        ensures
            old(self)@.dom().contains(key@) ==> removed == Some(old(self)@[key@]) && final(self)@
                == old(self)@.remove(key@),
            !old(self)@.dom().contains(key@) ==> removed is None && final(self)@ == old(self)@,
    {
        let at = self.find(key);
        if at >= self.entries.len() {
            return None;
        }
        proof {
            use_type_invariant(&*self);
            contents_after_remove(self.entries@, key@);
        }
        let mut entries = self.take_entries();
        let entry = entries.remove(at);
        self.entries = entries;
        Some(entry.value)
    }

    /// The keys that hold a value, in the order in which they first got one.
    pub closed spec fn spec_keys(&self) -> Seq<Seq<char>> {
        keys_of(self.entries@)
    }

    /// Lists the keys that hold a value, each once, in the order in which
    /// they first got one.
    pub fn keys(&self) -> (keys: Vec<String>)
        ensures
            texts(keys@) == self.spec_keys(),
            texts(keys@).no_duplicates(),
            forall|key: Seq<char>| texts(keys@).contains(key) <==> self@.dom().contains(key),
    {
        let mut keys: Vec<String> = Vec::new();
        let mut at: usize = 0;
        while at < self.entries.len()
            invariant
                at <= self.entries@.len(),
                keys@.len() == at,
                forall|j: int| 0 <= j < at ==> (#[trigger] keys@[j])@ == self.entries@[j].key@,
            decreases self.entries.len() - at,
        {
            keys.push(self.entries[at].key.clone());
            at = at + 1;
        }
        proof {
            use_type_invariant(self);
            assert(texts(keys@) =~= keys_of(self.entries@));
            keys_are_the_domain(self.entries@);
        }
        keys
    }

    /// Hands out what the store holds: each key once with its value, in the
    /// order in which the keys first got one.
    pub fn into_entries(self) -> (entries: Vec<Entry<A>>)
        ensures
            keys_of(entries@) == self.spec_keys(),
            contents(entries@) == self@,
            distinct_keys(entries@),
    {
        proof {
            use_type_invariant(&self);
        }
        self.entries
    }

    /// The number of keys that hold a value.
    pub fn len(&self) -> (count: usize)
        ensures
            count == self@.dom().len(),
            self@.dom().finite(),
    {
        proof {
            use_type_invariant(self);
            contents_count(self.entries@);
        }
        self.entries.len()
    }
}

/// Whether an entry under `key` is among `entries`.
pub open spec fn holds<A>(entries: Seq<Entry<A>>, key: Seq<char>) -> bool {
    position_of(entries, key) < entries.len()
}

/// `entries` with `entry` in place of the entry that carries its key, or
/// at the end where there is none.
pub open spec fn with_entry<A>(entries: Seq<Entry<A>>, entry: Entry<A>) -> Seq<Entry<A>> {
    if holds(entries, entry.key@) {
        entries.update(position_of(entries, entry.key@), entry)
    } else {
        entries.push(entry)
    }
}

/// Putting an entry in puts its value under its key and leaves every other
/// key as it was.
pub proof fn contents_after_set<A>(before: Seq<Entry<A>>, entry: Entry<A>)
    requires
        distinct_keys(before),
    ensures
        distinct_keys(with_entry(before, entry)),
        contents(with_entry(before, entry)) == contents(before).insert(entry.key@, entry.value),
{
    let key = entry.key@;
    let after = with_entry(before, entry);
    let at = position_of(before, key);
    position_of_finds_first(before, key);
    position_of_is(after, key, at);
    assert forall|other: Seq<char>| other != key implies ((#[trigger] position_of(after, other))
        < after.len() <==> position_of(before, other) < before.len()) && (position_of(before, other)
        < before.len() ==> after[position_of(after, other)].value == before[position_of(
        before,
        other,
    )].value) by {
        position_of_finds_first(before, other);
        let was = position_of(before, other);
        if was < before.len() {
            position_of_is(after, other, was);
        } else {
            position_of_is(after, other, after.len() as int);
        }
    }
}

/// Taking the entry under `key` out empties that key and leaves every
/// other key as it was.
pub proof fn contents_after_remove<A>(before: Seq<Entry<A>>, key: Seq<char>)
    requires
        distinct_keys(before),
        holds(before, key),
    ensures
        distinct_keys(before.remove(position_of(before, key))),
        contents(before.remove(position_of(before, key))) == contents(before).remove(key),
{
    let at = position_of(before, key);
    let after = before.remove(at);
    position_of_finds_first(before, key);
    position_of_is(after, key, after.len() as int);
    assert forall|other: Seq<char>| other != key implies ((#[trigger] position_of(after, other))
        < after.len() <==> position_of(before, other) < before.len()) && (position_of(before, other)
        < before.len() ==> after[position_of(after, other)].value == before[position_of(
        before,
        other,
    )].value) by {
        position_of_finds_first(before, other);
        let was = position_of(before, other);
        let now = if was < at {
            was
        } else if was < before.len() {
            was - 1
        } else {
            after.len() as int
        };
        position_of_is(after, other, now);
    }
}

/// The keys of entries with distinct keys are distinct, and they are the
/// keys under which the entries' contents hold a value.
pub proof fn keys_are_the_domain<A>(entries: Seq<Entry<A>>)
    requires
        distinct_keys(entries),
    ensures
        keys_of(entries).no_duplicates(),
        forall|key: Seq<char>| keys_of(entries).contains(key) <==> contents(entries).dom().contains(key),
{
    assert forall|i: int, j: int|
        0 <= i < keys_of(entries).len() && 0 <= j < keys_of(entries).len() && i != j implies keys_of(
        entries,
    )[i] != keys_of(entries)[j] by {
        if i < j {
            assert(entries[i].key@ != entries[j].key@);
        } else {
            assert(entries[j].key@ != entries[i].key@);
        }
    }
    assert forall|key: Seq<char>| keys_of(entries).contains(key) <==> contents(
        entries,
    ).dom().contains(key) by {
        position_of_finds_first(entries, key);
        if keys_of(entries).contains(key) {
            let i = choose|i: int| 0 <= i < keys_of(entries).len() && keys_of(entries)[i] == key;
            assert(entries[i].key@ == key);
        }
        if contents(entries).dom().contains(key) {
            assert(keys_of(entries)[position_of(entries, key)] == key);
        }
    }
}

/// Entries with distinct keys stand for as many contents as they are.
pub proof fn contents_count<A>(entries: Seq<Entry<A>>)
    requires
        distinct_keys(entries),
    ensures
        contents(entries).dom().finite(),
        contents(entries).dom().len() == entries.len(),
    decreases entries.len(),
{
    if entries.len() == 0 {
        assert(contents(entries).dom() =~= Set::<Seq<char>>::empty());
    } else {
        let front = entries.drop_last();
        let last = entries.last();
        contents_count(front);
        assert forall|key: Seq<char>| contents(entries).dom().contains(key) == contents(
            front,
        ).dom().insert(last.key@).contains(key) by {
            position_of_finds_first(front, key);
            let was = position_of(front, key);
            if was < front.len() {
                position_of_is(entries, key, was);
            } else if key == last.key@ {
                position_of_is(entries, key, front.len() as int);
            } else {
                assert forall|j: int| 0 <= j < entries.len() implies (#[trigger] entries[j]).key@
                    != key by {
                    if j < front.len() {
                        assert(front[j] == entries[j]);
                    }
                }
                position_of_is(entries, key, entries.len() as int);
            }
        }
        assert(contents(entries).dom() =~= contents(front).dom().insert(last.key@));
        position_of_finds_first(front, last.key@);
    }
}

} // verus!
