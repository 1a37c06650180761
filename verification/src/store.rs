use vstd::prelude::*;
use crate::text::same_text;

verus! {

/// A table from text keys to values, kept as a list in which no key occurs twice.
pub struct Store<V> {
    entries: Vec<(String, V)>,
}

/// The table that a list of entries stands for: each key with the value of its
/// last entry.
pub open spec fn table<V>(entries: Seq<(String, V)>) -> Map<Seq<char>, V>
    decreases entries.len(),
{
    if entries.len() == 0 {
        Map::empty()
    } else {
        table(entries.drop_last()).insert(entries.last().0@, entries.last().1)
    }
}

/// Whether no key occurs twice among the entries.
pub open spec fn distinct_names<V>(entries: Seq<(String, V)>) -> bool {
    forall|i: int, j: int| 0 <= i < j < entries.len() ==> entries[i].0@ != entries[j].0@
}

/// A key is in the table exactly when an entry has it.
proof fn lemma_table_domain<V>(entries: Seq<(String, V)>, key: Seq<char>)
    ensures
        table(entries).dom().contains(key) <==> exists|i: int| 0 <= i < entries.len() && entries[i].0@ == key,
    decreases entries.len(),
{
    if entries.len() > 0 {
        let rest = entries.drop_last();
        lemma_table_domain(rest, key);
        if table(entries).dom().contains(key) {
            if entries.last().0@ == key {
                assert(entries[entries.len() - 1].0@ == key);
            } else {
                let i = choose|i: int| 0 <= i < rest.len() && rest[i].0@ == key;
                assert(entries[i].0@ == key);
            }
        }
        if exists|i: int| 0 <= i < entries.len() && entries[i].0@ == key {
            let i = choose|i: int| 0 <= i < entries.len() && entries[i].0@ == key;
            if i < rest.len() {
                assert(rest[i].0@ == key);
            }
        }
    }
}

/// Where no key occurs twice, the table gives each entry's key that entry's value.
proof fn lemma_table_value<V>(entries: Seq<(String, V)>, at: int)
    requires
        distinct_names(entries),
        0 <= at < entries.len(),
    ensures
        table(entries).dom().contains(entries[at].0@),
        table(entries)[entries[at].0@] == entries[at].1,
    decreases entries.len(),
{
    let rest = entries.drop_last();
    if at < entries.len() - 1 {
        assert(distinct_names(rest));
        lemma_table_value(rest, at);
    }
}

/// Where no key occurs twice, a new value for an entry is a new value for its
/// key in the table.
proof fn lemma_table_update<V>(entries: Seq<(String, V)>, at: int, key: String, value: V)
    requires
        distinct_names(entries),
        0 <= at < entries.len(),
        key@ == entries[at].0@,
    ensures
        table(entries.update(at, (key, value))) == table(entries).insert(key@, value),
        distinct_names(entries.update(at, (key, value))),
    decreases entries.len(),
{
    let rest = entries.drop_last();
    let updated = entries.update(at, (key, value));
    if at < entries.len() - 1 {
        assert(distinct_names(rest));
        lemma_table_update(rest, at, key, value);
        assert(updated.drop_last() =~= rest.update(at, (key, value)));
        assert(updated.last() == entries.last());
        assert(table(updated) =~= table(entries).insert(key@, value));
    } else {
        assert(updated.drop_last() =~= rest);
        assert(table(updated) =~= table(entries).insert(key@, value));
    }
}

/// Where no key occurs twice, taking an entry away takes its key from the table.
proof fn lemma_table_remove<V>(entries: Seq<(String, V)>, at: int)
    requires
        distinct_names(entries),
        0 <= at < entries.len(),
    ensures
        table(entries.remove(at)) == table(entries).remove(entries[at].0@),
        distinct_names(entries.remove(at)),
    decreases entries.len(),
{
    let rest = entries.drop_last();
    let removed = entries.remove(at);
    let key = entries[at].0@;
    if at < entries.len() - 1 {
        assert(distinct_names(rest));
        lemma_table_remove(rest, at);
        assert(removed.drop_last() =~= rest.remove(at));
        assert(removed.last() == entries.last());
        assert(table(removed) =~= table(entries).remove(key));
    } else {
        assert(removed =~= rest);
        lemma_table_domain(rest, key);
        assert(table(removed) =~= table(entries).remove(key));
    }
    assert forall|i: int, j: int| 0 <= i < j < removed.len() implies removed[i].0@ != removed[j].0@ by {
        let i0 = if i < at { i } else { i + 1 };
        let j0 = if j < at { j } else { j + 1 };
        assert(removed[i] == entries[i0] && removed[j] == entries[j0]);
    }
}

impl<V> Store<V> {
    /// The invariant of the type: no key occurs twice.
    #[verifier::type_invariant]
    pub closed spec fn keys_are_distinct(self) -> bool {
        distinct_names(self.entries@)
    }

    /// The table that the store holds.
    pub closed spec fn model(&self) -> Map<Seq<char>, V> {
        table(self.entries@)
    }

    /// Makes an empty store.
    pub fn new() -> (store: Store<V>)
        ensures
            store.model() == Map::<Seq<char>, V>::empty(),
    {
        Store { entries: Vec::new() }
    }

    fn position(&self, key: &str) -> (found: Option<usize>)
        ensures
            match found {
                Some(i) => i < self.entries@.len() && self.entries@[i as int].0@ == key@,
                None => forall|i: int| 0 <= i < self.entries@.len() ==> self.entries@[i].0@ != key@,
            },
    {
        let mut i: usize = 0;
        while i < self.entries.len()
            invariant
                i <= self.entries.len(),
                forall|k: int| 0 <= k < i ==> self.entries@[k].0@ != key@,
            decreases self.entries.len() - i,
        {
            if same_text(self.entries[i].0.as_str(), key) {
                return Some(i);
            }
            i += 1;
        }
        None
    }

    /// The value under the key, if the store has the key.
    pub fn get(&self, key: &str) -> (value: Option<&V>)
        ensures
            match value {
                Some(v) => self.model().dom().contains(key@) && self.model()[key@] == *v,
                None => !self.model().dom().contains(key@),
            },
    {
        proof {
            use_type_invariant(self);
            lemma_table_domain(self.entries@, key@);
        }
        match self.position(key) {
            Some(i) => {
                proof {
                    lemma_table_value(self.entries@, i as int);
                }
                Some(&self.entries[i].1)
            },
            None => None,
        }
    }

    /// Puts the value under the key, in place of an earlier value if there was one.
    pub fn insert(&mut self, key: &str, value: V)
        ensures
            final(self).model() == old(self).model().insert(key@, value),
    {
        proof {
            use_type_invariant(&*self);
        }
        let found = self.position(key);
        let mut entries: Vec<(String, V)> = Vec::new();
        std::mem::swap(&mut entries, &mut self.entries);
        let ghost before = entries@;
        let name = key.to_owned();
        match found {
            Some(i) => {
                proof {
                    lemma_table_update(before, i as int, name, value);
                }
                entries.set(i, (name, value));
            },
            None => {
                entries.push((name, value));
                assert(entries@.drop_last() =~= before);
            },
        }
        *self = Store { entries };
    }

    /// Takes the key out of the store, if it is there.
    pub fn remove(&mut self, key: &str)
        ensures
            final(self).model() == old(self).model().remove(key@),
    {
        proof {
            use_type_invariant(&*self);
            lemma_table_domain(self.entries@, key@);
        }
        let found = self.position(key);
        let mut entries: Vec<(String, V)> = Vec::new();
        std::mem::swap(&mut entries, &mut self.entries);
        let ghost before = entries@;
        match found {
            Some(i) => {
                proof {
                    lemma_table_remove(before, i as int);
                }
                let _ = entries.remove(i);
            },
            None => {
                assert(table(before).remove(key@) =~= table(before));
            },
        }
        *self = Store { entries };
    }

    /// Takes every key out of the store.
    pub fn clear(&mut self)
        ensures
            final(self).model() == Map::<Seq<char>, V>::empty(),
    {
        *self = Store { entries: Vec::new() };
    }
}

} // verus!
