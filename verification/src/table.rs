//! One table of the cache: a finite map from queries to what was fetched for
//! them, kept as a list in which no query occurs twice.

use vstd::prelude::*;
use crate::chain::Payload;
use crate::query::Key;

verus! {

/// No two places of the list hold the same query.
pub open spec fn distinct_keys<K: Key, V>(entries: Seq<(K, V)>) -> bool {
    forall|i: int, j: int|
        0 <= i < j < entries.len() ==> (#[trigger] entries[i]).0@ != (#[trigger] entries[j]).0@
}

/// Some place of the list holds the query `key`.
pub open spec fn has_key<K: Key, V>(entries: Seq<(K, V)>, key: K::V) -> bool {
    exists|i: int| 0 <= i < entries.len() && (#[trigger] entries[i]).0@ == key
}

/// The map that a list of entries stands for.
pub open spec fn as_map<K: Key, V: Payload>(entries: Seq<(K, V)>) -> Map<K::V, V::Content> {
    Map::new(
        |key: K::V| has_key(entries, key),
        |key: K::V|
            {
                let at = choose|i: int| 0 <= i < entries.len() && (#[trigger] entries[i]).0@ == key;
                entries[at].1.content()
            },
    )
}

/// In a list without repetition, each place is the one that the map reads.
pub proof fn lemma_entry_is_read<K: Key, V: Payload>(entries: Seq<(K, V)>, i: int)
    requires
        distinct_keys(entries),
        0 <= i < entries.len(),
    ensures
        as_map(entries).contains_key(entries[i].0@),
        as_map(entries)[entries[i].0@] == entries[i].1.content(),
{
    let key = entries[i].0@;
    assert(has_key(entries, key));
    let j = choose|j: int| 0 <= j < entries.len() && (#[trigger] entries[j]).0@ == key;
    assert(j == i) by {
        if j < i {
            assert(entries[j].0@ != entries[i].0@);
        } else if i < j {
            assert(entries[i].0@ != entries[j].0@);
        }
    }
}

/// Appending an entry under a query that the list lacks inserts it into the map.
pub proof fn lemma_push_inserts<K: Key, V: Payload>(entries: Seq<(K, V)>, key: K, value: V)
    requires
        distinct_keys(entries),
        !has_key(entries, key@),
    ensures
        distinct_keys(entries.push((key, value))),
        as_map(entries.push((key, value))) == as_map(entries).insert(key@, value.content()),
{
    let longer = entries.push((key, value));
    assert(distinct_keys(longer)) by {
        assert forall|i: int, j: int| 0 <= i < j < longer.len() implies (#[trigger] longer[i]).0@
            != (#[trigger] longer[j]).0@ by {
            if j < entries.len() {
                assert(entries[i].0@ != entries[j].0@);
            } else {
                assert(longer[i] == entries[i]);
            }
        }
    }
    assert forall|k: K::V| has_key(longer, k) <==> (k == key@ || has_key(entries, k)) by {
        if has_key(longer, k) {
            let i = choose|i: int| 0 <= i < longer.len() && (#[trigger] longer[i]).0@ == k;
            if i < entries.len() {
                assert(entries[i] == longer[i]);
            }
        }
        if has_key(entries, k) {
            let i = choose|i: int| 0 <= i < entries.len() && (#[trigger] entries[i]).0@ == k;
            assert(longer[i] == entries[i]);
        }
        if k == key@ {
            assert(longer[entries.len() as int].0@ == k);
        }
    }
    assert forall|k: K::V| has_key(longer, k) implies #[trigger] as_map(longer)[k] == as_map(
        entries,
    ).insert(key@, value.content())[k] by {
        let i = choose|i: int| 0 <= i < longer.len() && (#[trigger] longer[i]).0@ == k;
        lemma_entry_is_read(longer, i);
        if i < entries.len() {
            assert(longer[i] == entries[i]);
            lemma_entry_is_read(entries, i);
        }
    }
    assert(as_map(longer) =~= as_map(entries).insert(key@, value.content()));
}

/// Replacing the entry of a query by another entry of the same query overwrites
/// it in the map.
pub proof fn lemma_update_inserts<K: Key, V: Payload>(
    entries: Seq<(K, V)>,
    at: int,
    key: K,
    value: V,
)
    requires
        distinct_keys(entries),
        0 <= at < entries.len(),
        entries[at].0@ == key@,
    ensures
        distinct_keys(entries.update(at, (key, value))),
        as_map(entries.update(at, (key, value))) == as_map(entries).insert(key@, value.content()),
{
    let changed = entries.update(at, (key, value));
    assert(distinct_keys(changed)) by {
        assert forall|i: int, j: int| 0 <= i < j < changed.len() implies (#[trigger] changed[i]).0@
            != (#[trigger] changed[j]).0@ by {
            assert(entries[i].0@ != entries[j].0@);
            assert(changed[i].0@ == entries[i].0@);
            assert(changed[j].0@ == entries[j].0@);
        }
    }
    assert forall|k: K::V| has_key(changed, k) <==> has_key(entries, k) by {
        if has_key(changed, k) {
            let i = choose|i: int| 0 <= i < changed.len() && (#[trigger] changed[i]).0@ == k;
            assert(entries[i].0@ == k);
        }
        if has_key(entries, k) {
            let i = choose|i: int| 0 <= i < entries.len() && (#[trigger] entries[i]).0@ == k;
            assert(changed[i].0@ == k);
        }
    }
    assert(has_key(entries, key@)) by {
        assert(entries[at].0@ == key@);
    }
    assert forall|k: K::V| has_key(changed, k) implies #[trigger] as_map(changed)[k] == as_map(
        entries,
    ).insert(key@, value.content())[k] by {
        let i = choose|i: int| 0 <= i < changed.len() && (#[trigger] changed[i]).0@ == k;
        lemma_entry_is_read(changed, i);
        if i != at {
            assert(changed[i] == entries[i]);
            lemma_entry_is_read(entries, i);
            assert(k != key@) by {
                if i < at {
                    assert(entries[i].0@ != entries[at].0@);
                } else {
                    assert(entries[at].0@ != entries[i].0@);
                }
            }
        }
    }
    assert(as_map(changed) =~= as_map(entries).insert(key@, value.content()));
}

/// The map that a list of entries is read as when it comes from outside: where
/// a query comes more than once, its first entry counts.
pub open spec fn collected<K: Key, V: Payload>(entries: Seq<(K, V)>) -> Map<K::V, V::Content>
    decreases entries.len(),
{
    if entries.len() == 0 {
        Map::empty()
    } else {
        collected(entries.drop_first()).insert(entries[0].0@, entries[0].1.content())
    }
}

/// A list without repetition is read as the map that it stands for: a table
/// that is rebuilt from the entries of another holds what the other held.
pub proof fn lemma_collected_without_repetition<K: Key, V: Payload>(entries: Seq<(K, V)>)
    requires
        distinct_keys(entries),
    ensures
        collected(entries) == as_map(entries),
    decreases entries.len(),
{
    if entries.len() == 0 {
        assert(as_map(entries) =~= Map::<K::V, V::Content>::empty());
    } else {
        let rest = entries.drop_first();
        assert(distinct_keys(rest)) by {
            assert forall|i: int, j: int| 0 <= i < j < rest.len() implies (#[trigger] rest[i]).0@
                != (#[trigger] rest[j]).0@ by {
                assert(entries[i + 1].0@ != entries[j + 1].0@);
            }
        }
        lemma_collected_without_repetition(rest);
        let first = entries[0].0@;
        assert forall|k: K::V| has_key(entries, k) <==> (k == first || has_key(rest, k)) by {
            if has_key(entries, k) {
                let i = choose|i: int| 0 <= i < entries.len() && (#[trigger] entries[i]).0@ == k;
                if i > 0 {
                    assert(rest[i - 1].0@ == k);
                }
            }
            if has_key(rest, k) {
                let i = choose|i: int| 0 <= i < rest.len() && (#[trigger] rest[i]).0@ == k;
                assert(entries[i + 1].0@ == k);
            }
            if k == first {
                assert(entries[0].0@ == k);
            }
        }
        assert forall|k: K::V| has_key(entries, k) implies #[trigger] as_map(entries)[k] == as_map(
            rest,
        ).insert(first, entries[0].1.content())[k] by {
            let i = choose|i: int| 0 <= i < entries.len() && (#[trigger] entries[i]).0@ == k;
            lemma_entry_is_read(entries, i);
            if i > 0 {
                assert(entries[0].0@ != entries[i].0@);
                assert(rest[i - 1] == entries[i]);
                lemma_entry_is_read(rest, i - 1);
            }
        }
        assert(as_map(entries) =~= as_map(rest).insert(first, entries[0].1.content()));
    }
}

/// A table of the cache.
pub struct Table<K: Key, V: Payload> {
    entries: Vec<(K, V)>,
}

impl<K: Key, V: Payload> View for Table<K, V> {
    type V = Map<K::V, V::Content>;

    closed spec fn view(&self) -> Map<K::V, V::Content> {
        as_map(self.entries@)
    }
}

impl<K: Key, V: Payload> Table<K, V> {
    #[verifier::type_invariant]
    spec fn no_query_twice(self) -> bool {
        distinct_keys(self.entries@)
    }

    /// A table that holds nothing.
    pub fn new() -> (table: Self)
        ensures
            table@ == Map::<K::V, V::Content>::empty(),
    {
        let table = Table { entries: Vec::new() };
        assert(table@ =~= Map::<K::V, V::Content>::empty());
        table
    }

    /// The table that a list of entries is read as.
    pub fn from_entries(entries: Vec<(K, V)>) -> (table: Self)
        ensures
            table@ == collected(entries@),
    {
        let ghost all = entries@;
        let mut entries = entries;
        let mut table = Table::new();
        assert(all.skip(all.len() as int) =~= Seq::<(K, V)>::empty());
        while entries.len() > 0
            invariant
                entries@.len() <= all.len(),
                entries@ == all.take(entries@.len() as int),
                table@ == collected(all.skip(entries@.len() as int)),
            decreases entries@.len(),
        {
            let ghost left = entries@.len() - 1;
            match entries.pop() {
                Some((key, value)) => {
                    proof {
                        let tail = all.skip(left);
                        assert(tail[0] == all[left]);
                        assert(tail.drop_first() =~= all.skip(left + 1));
                        assert(entries@ =~= all.take(left));
                    }
                    table.insert(key, value);
                },
                None => {},
            }
        }
        assert(all.skip(0) =~= all);
        table
    }

    /// The place of `key` in the list, or the list's length where it has none.
    fn position(&self, key: &K) -> (at: usize)
        ensures
            at <= self.entries@.len(),
            at < self.entries@.len() ==> self.entries@[at as int].0@ == key@,
            at == self.entries@.len() ==> !has_key(self.entries@, key@),
    {
        let mut i: usize = 0;
        while i < self.entries.len()
            invariant
                i <= self.entries@.len(),
                forall|j: int| 0 <= j < i ==> (#[trigger] self.entries@[j]).0@ != key@,
            decreases self.entries@.len() - i,
        {
            if self.entries[i].0.same(key) {
                return i;
            }
            i += 1;
        }
        i
    }

    /// The value held for `key`, borrowed.
    pub fn get_ref(&self, key: &K) -> (hit: Option<&V>)
        ensures
            match hit {
                Some(value) => self@.get(key@) == Some(value.content()),
                None => !self@.contains_key(key@),
            },
    {
        proof {
            use_type_invariant(self);
        }
        let at = self.position(key);
        if at < self.entries.len() {
            proof {
                lemma_entry_is_read(self.entries@, at as int);
            }
            Some(&self.entries[at].1)
        } else {
            None
        }
    }

    /// A copy of the value held for `key`.
    pub fn get(&self, key: &K) -> (hit: Option<V>)
        ensures
            match hit {
                Some(value) => self@.get(key@) == Some(value.content()),
                None => !self@.contains_key(key@),
            },
    {
        match self.get_ref(key) {
            Some(value) => Some(value.duplicate()),
            None => None,
        }
    }

    /// Puts `value` under `key`, in place of what the table held for it.
    pub fn insert(&mut self, key: K, value: V)
        ensures
            final(self)@ == old(self)@.insert(key@, value.content()),
    {
        proof {
            use_type_invariant(&*self);
        }
        let at = self.position(&key);
        proof {
            if at < self.entries@.len() {
                lemma_update_inserts(self.entries@, at as int, key, value);
            } else {
                lemma_push_inserts(self.entries@, key, value);
            }
        }
        // The list leaves the table while it changes and comes back whole.
        let mut entries: Vec<(K, V)> = Vec::new();
        core::mem::swap(&mut self.entries, &mut entries);
        if at < entries.len() {
            entries[at] = (key, value);
        } else {
            entries.push((key, value));
        }
        core::mem::swap(&mut self.entries, &mut entries);
    }

    /// The entries one by one, for whoever writes the table out: every entry is
    /// what the table answers for its query, no query comes twice, and no query
    /// that the table answers is left out.
    pub fn entries(&self) -> (all: &Vec<(K, V)>)
        ensures
            distinct_keys(all@),
            self@ == as_map(all@),
    {
        proof {
            use_type_invariant(self);
        }
        &self.entries
    }
}

} // verus!
