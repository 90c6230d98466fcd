//! Maps whose keys can only be told apart.
use std::any::TypeId;

use vstd::prelude::*;

use crate::event::same_type_id;
use crate::message::{RequestId, RequestIdView};

verus! {

/// What can be told apart by name.
pub trait Key: Sized {
    /// What tells one from another.
    type Name;

    /// What tells this one from others.
    spec fn name(self) -> Self::Name;

    /// Whether this one and another have one name.
    fn same(&self, other: &Self) -> (same: bool)
        ensures
            same == (self.name() == other.name()),
    ;
}

impl Key for RequestId {
    type Name = RequestIdView;

    open spec fn name(self) -> RequestIdView {
        self@
    }

    fn same(&self, other: &Self) -> (same: bool) {
        self.says_same(other)
    }
}

impl Key for TypeId {
    type Name = TypeId;

    open spec fn name(self) -> TypeId {
        self
    }

    fn same(&self, other: &Self) -> (same: bool) {
        same_type_id(self, other)
    }
}

/// The map that holds these entries, later ones taking the place of earlier ones.
pub open spec fn map_of<K: Key, V>(entries: Seq<(K, V)>) -> Map<K::Name, V>
    decreases entries.len(),
{
    if entries.len() == 0 {
        Map::empty()
    } else {
        map_of(entries.drop_last()).insert(entries.last().0.name(), entries.last().1)
    }
}

/// No two entries have one key.
pub open spec fn distinct<K: Key, V>(entries: Seq<(K, V)>) -> bool {
    forall|i: int, j: int|
        #![trigger entries[i], entries[j]]
        0 <= i < j < entries.len() ==> entries[i].0.name() != entries[j].0.name()
}

/// A key of the map is that of some entry.
proof fn lemma_key<K: Key, V>(entries: Seq<(K, V)>, key: K::Name) -> (i: int)
    requires
        map_of(entries).contains_key(key),
    ensures
        0 <= i < entries.len(),
        entries[i].0.name() == key,
    decreases entries.len(),
{
    if entries.last().0.name() == key {
        entries.len() - 1
    } else {
        lemma_key(entries.drop_last(), key)
    }
}

/// Each entry is in the map.
proof fn lemma_entry<K: Key, V>(entries: Seq<(K, V)>, i: int)
    requires
        distinct(entries),
        0 <= i < entries.len(),
    ensures
        map_of(entries).contains_key(entries[i].0.name()),
        map_of(entries)[entries[i].0.name()] == entries[i].1,
    decreases entries.len(),
{
    if i < entries.len() - 1 {
        assert(distinct(entries.drop_last()));
        assert(entries.drop_last()[i] == entries[i]);
        lemma_entry(entries.drop_last(), i);
    }
}

/// The map is as large as there are entries.
proof fn lemma_size<K: Key, V>(entries: Seq<(K, V)>)
    requires
        distinct(entries),
    ensures
        map_of(entries).dom().finite(),
        map_of(entries).dom().len() == entries.len(),
    decreases entries.len(),
{
    if entries.len() > 0 {
        let rest = entries.drop_last();
        assert(distinct(rest));
        lemma_size(rest);
        if map_of(rest).contains_key(entries.last().0.name()) {
            let i = lemma_key(rest, entries.last().0.name());
            assert(entries[i] == rest[i]);
        }
        assert(map_of(entries).dom() =~= map_of(rest).dom().insert(entries.last().0.name()));
    }
}

/// Without an entry, the map is without its key.
proof fn lemma_remove<K: Key, V>(entries: Seq<(K, V)>, i: int)
    requires
        distinct(entries),
        0 <= i < entries.len(),
    ensures
        distinct(entries.remove(i)),
        map_of(entries.remove(i)) == map_of(entries).remove(entries[i].0.name()),
{
    let rest = entries.remove(i);
    assert forall|a: int, b: int|
        #![trigger rest[a], rest[b]]
        0 <= a < b < rest.len() implies rest[a].0.name() != rest[b].0.name() by {
        assert(rest[a] == entries[if a < i {
            a
        } else {
            a + 1
        }]);
        assert(rest[b] == entries[if b < i {
            b
        } else {
            b + 1
        }]);
    }
    let without = map_of(entries).remove(entries[i].0.name());
    assert forall|key: K::Name| #[trigger] map_of(rest).contains_key(key) implies {
        &&& without.contains_key(key)
        &&& map_of(rest)[key] == without[key]
    } by {
        let a = lemma_key(rest, key);
        let b = if a < i {
            a
        } else {
            a + 1
        };
        lemma_entry(rest, a);
        lemma_entry(entries, b);
        assert(entries[b].0.name() != entries[i].0.name());
    }
    assert forall|key: K::Name| #[trigger] without.contains_key(key) implies map_of(
        rest,
    ).contains_key(key) by {
        let a = lemma_key(entries, key);
        lemma_entry(rest, if a < i {
            a
        } else {
            a - 1
        });
    }
    assert(map_of(rest) =~= without);
}

/// A map from keys to values.
pub struct KeyMap<K: Key, V> {
    entries: Vec<(K, V)>,
}

impl<K: Key, V> View for KeyMap<K, V> {
    type V = Map<K::Name, V>;

    closed spec fn view(&self) -> Map<K::Name, V> {
        map_of(self.entries@)
    }
}

impl<K: Key, V> KeyMap<K, V> {
    #[verifier::type_invariant]
    closed spec fn well_formed(self) -> bool {
        distinct(self.entries@)
    }

    /// Creates an empty map.
    pub fn new() -> (map: Self)
        ensures
            map@ == Map::<K::Name, V>::empty(),
    {
        KeyMap { entries: Vec::new() }
    }

    /// The number of keys.
    pub fn len(&self) -> (len: usize)
        ensures
            self@.dom().finite(),
            len == self@.dom().len(),
    {
        proof {
            use_type_invariant(self);
            lemma_size(self.entries@);
        }
        self.entries.len()
    }

    /// Takes the entries out and leaves the map empty.
    fn take(&mut self) -> (entries: Vec<(K, V)>)
        ensures
            entries@ == old(self).entries@,
            distinct(entries@),
            final(self)@ == Map::<K::Name, V>::empty(),
    {
        let mut taken = KeyMap::new();
        core::mem::swap(self, &mut taken);
        proof {
            use_type_invariant(&taken);
        }
        taken.entries
    }

    /// The place of a key among the entries, or else their number.
    fn position(&self, id: &K) -> (at: usize)
        ensures
            at <= self.entries@.len(),
            forall|i: int| 0 <= i < at ==> (#[trigger] self.entries@[i]).0.name() != id.name(),
            at < self.entries@.len() ==> self.entries@[at as int].0.name() == id.name(),
    {
        let mut at: usize = 0;
        while at < self.entries.len()
            invariant
                at <= self.entries@.len(),
                forall|i: int| 0 <= i < at ==> (#[trigger] self.entries@[i]).0.name() != id.name(),
            decreases self.entries@.len() - at,
        {
            if self.entries[at].0.same(id) {
                return at;
            }
            at = at + 1;
        }
        at
    }

    /// The value under a key, if there is one.
    pub fn get(&self, id: &K) -> (value: Option<&V>)
        ensures
            match value {
                Some(value) => self@.contains_key(id.name()) && *value == self@[id.name()],
                None => !self@.contains_key(id.name()),
            },
    {
        proof {
            use_type_invariant(self);
        }
        let at = self.position(id);
        if at < self.entries.len() {
            proof {
                lemma_entry(self.entries@, at as int);
            }
            Some(&self.entries[at].1)
        } else {
            proof {
                if self@.contains_key(id.name()) {
                    let i = lemma_key(self.entries@, id.name());
                    assert(self.entries@[i].0.name() != id.name());
                }
            }
            None
        }
    }

    /// Takes a key out of the map, and gives its value if it had one.
    pub fn remove(&mut self, id: &K) -> (value: Option<V>)
        ensures
            final(self)@ == old(self)@.remove(id.name()),
            value == if old(self)@.contains_key(id.name()) {
                Some(old(self)@[id.name()])
            } else {
                None
            },
    {
        proof {
            use_type_invariant(&*self);
        }
        let at = self.position(id);
        if at < self.entries.len() {
            proof {
                lemma_entry(self.entries@, at as int);
                lemma_remove(self.entries@, at as int);
            }
            let mut entries = self.take();
            let (_, value) = entries.remove(at);
            *self = KeyMap { entries };
            Some(value)
        } else {
            proof {
                if self@.contains_key(id.name()) {
                    let i = lemma_key(self.entries@, id.name());
                    assert(self.entries@[i].0.name() != id.name());
                }
                assert(self@.remove(id.name()) =~= self@);
            }
            None
        }
    }

    /// Puts a value under a key, and gives the one that it replaces.
    pub fn insert(&mut self, id: K, value: V) -> (replaced: Option<V>)
        ensures
            final(self)@ == old(self)@.insert(id.name(), value),
            replaced == if old(self)@.contains_key(id.name()) {
                Some(old(self)@[id.name()])
            } else {
                None
            },
    {
        let replaced = self.remove(&id);
        let ghost without = self@;
        let mut entries = self.take();
        proof {
            assert forall|i: int| 0 <= i < entries@.len() implies (#[trigger] entries@[i]).0.name()
                != id.name() by {
                lemma_entry(entries@, i);
            }
            assert(entries@.push((id, value)).drop_last() =~= entries@);
            assert(old(self)@.remove(id.name()).insert(id.name(), value) =~= old(self)@.insert(id.name(), value));
        }
        entries.push((id, value));
        *self = KeyMap { entries };
        replaced
    }

    /// `kept` is what is left of a map after each value was asked whether it stays.
    pub open spec fn retains<F: Fn(&V) -> bool>(
        all: Map<K::Name, V>,
        keep: F,
        kept: Map<K::Name, V>,
    ) -> bool {
        &&& kept.submap_of(all)
        &&& forall|key: K::Name| #[trigger]
            all.contains_key(key) ==> call_ensures(keep, (&all[key],), kept.contains_key(key))
    }

    /// Takes out the keys whose values do not stay. Each value is asked once.
    pub fn retain<F: Fn(&V) -> bool>(&mut self, keep: F)
        requires
            forall|value: &V| #[trigger] call_requires(keep, (value,)),
        ensures
            Self::retains(old(self)@, keep, final(self)@),
    {
        let mut entries = self.take();
        let ghost all = map_of(entries@);
        let mut at: usize = 0;
        while at < entries.len()
            invariant
                forall|value: &V| #[trigger] call_requires(keep, (value,)),
                at <= entries@.len(),
                distinct(entries@),
                map_of(entries@).submap_of(all),
                forall|key: K::Name| #[trigger]
                    all.contains_key(key) && !map_of(entries@).contains_key(key) ==> call_ensures(
                        keep,
                        (&all[key],),
                        false,
                    ),
                forall|i: int|
                    0 <= i < at ==> call_ensures(keep, (&(#[trigger] entries@[i]).1,), true),
            decreases entries@.len() - at,
        {
            proof {
                lemma_entry(entries@, at as int);
            }
            if keep(&entries[at].1) {
                at = at + 1;
            } else {
                proof {
                    lemma_remove(entries@, at as int);
                }
                entries.remove(at);
            }
        }
        proof {
            assert forall|key: K::Name| #[trigger] all.contains_key(key) implies call_ensures(
                keep,
                (&all[key],),
                map_of(entries@).contains_key(key),
            ) by {
                if map_of(entries@).contains_key(key) {
                    let i = lemma_key(entries@, key);
                    lemma_entry(entries@, i);
                }
            }
        }
        *self = KeyMap { entries };
    }
}

/// A value that is put under a key is found under it, and what is under other keys stays. A key
/// that is taken out has no value any more, and other keys keep theirs; its value is handed out.
pub proof fn law_keys_keep_their_values<K: Key, V>(id: K, value: V, other: K::Name)
    ensures
        forall|map: &mut KeyMap<K, V>, replaced: Option<V>| #[trigger]
            call_ensures(KeyMap::<K, V>::insert, (map, id, value), replaced) ==> {
                &&& final(map)@.contains_key(id.name())
                &&& final(map)@[id.name()] == value
                &&& other != id.name() ==> (final(map)@.contains_key(other) <==> map@.contains_key(
                    other,
                ))
                &&& other != id.name() && map@.contains_key(other) ==> final(map)@[other]
                    == map@[other]
                &&& replaced is Some <==> map@.contains_key(id.name())
            },
        forall|map: &mut KeyMap<K, V>, taken: Option<V>| #[trigger]
            call_ensures(KeyMap::<K, V>::remove, (map, &id), taken) ==> {
                &&& !final(map)@.contains_key(id.name())
                &&& other != id.name() ==> (final(map)@.contains_key(other) <==> map@.contains_key(
                    other,
                ))
                &&& other != id.name() && map@.contains_key(other) ==> final(map)@[other]
                    == map@[other]
                &&& map@.contains_key(id.name()) ==> taken == Some(map@[id.name()])
                &&& !map@.contains_key(id.name()) ==> taken is None
            },
        forall|map: &KeyMap<K, V>, found: Option<&V>| #[trigger]
            call_ensures(KeyMap::<K, V>::get, (map, &id), found) ==> {
                &&& found is Some <==> map@.contains_key(id.name())
                &&& found matches Some(v) ==> *v == map@[id.name()]
            },
{
}

/// Keeping some values leaves just those of which it was said that they stay, under their keys.
pub proof fn law_kept_values<K: Key, V, F: Fn(&V) -> bool>(keep: F, key: K::Name)
    ensures
        forall|map: &mut KeyMap<K, V>| #[trigger]
            call_ensures(KeyMap::<K, V>::retain::<F>, (map, keep), ()) ==> {
                &&& final(map)@.contains_key(key) ==> {
                    &&& map@.contains_key(key)
                    &&& final(map)@[key] == map@[key]
                    &&& call_ensures(keep, (&map@[key],), true)
                }
                &&& map@.contains_key(key) && !final(map)@.contains_key(key) ==> call_ensures(
                    keep,
                    (&map@[key],),
                    false,
                )
            },
{
}

} // verus!
