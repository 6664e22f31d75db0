//! Values found by name: an association list in which no name occurs twice.
use crate::text::same;
use vstd::prelude::*;
use vstd::string::*;

verus! {

/// A map from names to values that keeps the order in which names were added.
#[derive(Debug)]
pub struct NameMap<V> {
    entries: Vec<(String, V)>,
}

/// The names of a sequence of entries.
pub open spec fn entry_names<V>(entries: Seq<(String, V)>) -> Seq<Seq<char>> {
    entries.map_values(|e: (String, V)| e.0@)
}

/// The map that a sequence of entries with distinct names stands for.
pub open spec fn entry_map<V>(entries: Seq<(String, V)>) -> Map<Seq<char>, V> {
    Map::new(
        |n: Seq<char>| entry_names(entries).contains(n),
        |n: Seq<char>| entries[entry_names(entries).index_of(n)].1,
    )
}

proof fn lemma_entry<V>(entries: Seq<(String, V)>, i: int)
    requires
        entry_names(entries).no_duplicates(),
        0 <= i < entries.len(),
    ensures
        entry_names(entries)[i] == entries[i].0@,
        entry_names(entries).contains(entries[i].0@),
        entry_names(entries).index_of(entries[i].0@) == i,
        entry_map(entries)[entries[i].0@] == entries[i].1,
{
    let names = entry_names(entries);
    assert(names[i] == entries[i].0@);
    assert(names.contains(names[i]));
    let k = names.index_of(names[i]);
    assert(names[k] == names[i]);
}

proof fn lemma_push<V>(entries: Seq<(String, V)>, e: (String, V))
    requires
        entry_names(entries).no_duplicates(),
        !entry_names(entries).contains(e.0@),
    ensures
        entry_names(entries.push(e)) == entry_names(entries).push(e.0@),
        entry_names(entries.push(e)).no_duplicates(),
        entry_map(entries.push(e)) == entry_map(entries).insert(e.0@, e.1),
{
    let next = entries.push(e);
    assert(entry_names(next) =~= entry_names(entries).push(e.0@));
    assert forall|n: Seq<char>|
        entry_map(next).dom().contains(n) <==> entry_map(entries).insert(
            e.0@,
            e.1,
        ).dom().contains(n) by {
        if entry_names(next).contains(n) {
            let k = entry_names(next).index_of(n);
            if k < entries.len() {
                assert(entry_names(entries)[k] == n);
            }
        }
        if entry_names(entries).contains(n) {
            let k = entry_names(entries).index_of(n);
            assert(entry_names(next)[k] == n);
        }
        assert(entry_names(next)[entries.len() as int] == e.0@);
    }
    assert forall|n: Seq<char>| #[trigger] entry_map(next).dom().contains(n) implies entry_map(
        next,
    )[n] == entry_map(entries).insert(e.0@, e.1)[n] by {
        let k = entry_names(next).index_of(n);
        lemma_entry(next, k);
        if k < entries.len() {
            lemma_entry(entries, k);
        }
    }
    assert(entry_map(next) =~= entry_map(entries).insert(e.0@, e.1));
}

proof fn lemma_replace<V>(entries: Seq<(String, V)>, i: int, e: (String, V))
    requires
        entry_names(entries).no_duplicates(),
        0 <= i < entries.len(),
        entries[i].0@ == e.0@,
    ensures
        entry_names(entries.update(i, e)) == entry_names(entries),
        entry_map(entries.update(i, e)) == entry_map(entries).insert(e.0@, e.1),
{
    let next = entries.update(i, e);
    assert(entry_names(next) =~= entry_names(entries));
    lemma_entry(entries, i);
    assert forall|n: Seq<char>| #[trigger] entry_map(next).dom().contains(n) implies entry_map(
        next,
    )[n] == entry_map(entries).insert(e.0@, e.1)[n] by {
        let k = entry_names(next).index_of(n);
        lemma_entry(next, k);
        lemma_entry(entries, k);
    }
    assert(entry_map(next) =~= entry_map(entries).insert(e.0@, e.1));
}

proof fn lemma_remove<V>(entries: Seq<(String, V)>, i: int)
    requires
        entry_names(entries).no_duplicates(),
        0 <= i < entries.len(),
    ensures
        entry_names(entries.remove(i)) == entry_names(entries).remove(i),
        entry_names(entries.remove(i)).no_duplicates(),
        entry_map(entries.remove(i)) == entry_map(entries).remove(entries[i].0@),
{
    let next = entries.remove(i);
    let names = entry_names(entries);
    assert(entry_names(next) =~= names.remove(i));
    assert forall|a: int, b: int|
        0 <= a < next.len() && 0 <= b < next.len() && a != b implies entry_names(next)[a]
        != entry_names(next)[b] by {
        let a2 = if a < i { a } else { a + 1 };
        let b2 = if b < i { b } else { b + 1 };
        assert(entry_names(next)[a] == names[a2]);
        assert(entry_names(next)[b] == names[b2]);
    }
    lemma_entry(entries, i);
    assert forall|n: Seq<char>|
        entry_map(next).dom().contains(n) <==> entry_map(entries).remove(
            entries[i].0@,
        ).dom().contains(n) by {
        if entry_names(next).contains(n) {
            let k = entry_names(next).index_of(n);
            let k2 = if k < i { k } else { k + 1 };
            assert(names[k2] == n);
            assert(names[i] == entries[i].0@);
        }
        if names.contains(n) && n != entries[i].0@ {
            let k = names.index_of(n);
            let k2 = if k < i { k } else { k - 1 };
            assert(entry_names(next)[k2] == n);
        }
    }
    assert forall|n: Seq<char>| #[trigger] entry_map(next).dom().contains(n) implies entry_map(
        next,
    )[n] == entry_map(entries).remove(entries[i].0@)[n] by {
        let k = entry_names(next).index_of(n);
        let k2 = if k < i { k } else { k + 1 };
        lemma_entry(next, k);
        lemma_entry(entries, k2);
    }
    assert(entry_map(next) =~= entry_map(entries).remove(entries[i].0@));
}

impl<V> View for NameMap<V> {
    type V = Map<Seq<char>, V>;

    closed spec fn view(&self) -> Map<Seq<char>, V> {
        entry_map(self.entries@)
    }
}

impl<V> NameMap<V> {
    /// The names in the order in which they were added.
    pub closed spec fn names(self) -> Seq<Seq<char>> {
        entry_names(self.entries@)
    }

    #[verifier::type_invariant]
    closed spec fn distinct(self) -> bool {
        entry_names(self.entries@).no_duplicates()
    }

    /// A map without names.
    pub fn new() -> (m: Self)
        ensures
            m@ == Map::<Seq<char>, V>::empty(),
            m.names() == Seq::<Seq<char>>::empty(),
    {
        let m = NameMap { entries: Vec::new() };
        assert(entry_names(m.entries@) =~= Seq::<Seq<char>>::empty());
        assert(entry_map(m.entries@) =~= Map::<Seq<char>, V>::empty());
        m
    }

    /// The names are exactly those that the map holds.
    pub proof fn lemma_names(self)
        ensures
            self.names().to_set() == self@.dom(),
            self@.dom().finite(),
            forall|n: Seq<char>| #[trigger] self@.contains_key(n) <==> self.names().contains(n),
    {
        assert(self.names().to_set() =~= self@.dom());
        vstd::seq_lib::seq_to_set_is_finite(self.names());
    }

    fn position(&self, name: &str) -> (r: Option<usize>)
        ensures
            match r {
                Some(i) => i < self.entries.len() && self.entries[i as int].0@ == name@,
                None => !entry_names(self.entries@).contains(name@),
            },
    {
        let mut i: usize = 0;
        while i < self.entries.len()
            invariant
                i <= self.entries.len(),
                forall|k: int| 0 <= k < i ==> (#[trigger] self.entries[k]).0@ != name@,
            decreases self.entries.len() - i,
        {
            if same(self.entries[i].0.as_str(), name) {
                return Some(i);
            }
            i = i + 1;
        }
        proof {
            if entry_names(self.entries@).contains(name@) {
                let k = entry_names(self.entries@).index_of(name@);
                assert(self.entries[k].0@ == name@);
            }
        }
        None
    }

    /// How many names there are; no name occurs twice.
    pub fn len(&self) -> (n: usize)
        ensures
            n == self.names().len(),
            self.names().no_duplicates(),
    {
        proof {
            use_type_invariant(self);
        }
        self.entries.len()
    }

    /// Whether a name is there.
    pub fn contains(&self, name: &str) -> (b: bool)
        ensures
            b == self@.contains_key(name@),
    {
        let r = self.position(name);
        proof {
            use_type_invariant(self);
            if let Some(i) = r {
                lemma_entry(self.entries@, i as int);
            }
        }
        r.is_some()
    }

    /// The value of a name.
    pub fn get(&self, name: &str) -> (r: Option<&V>)
        ensures
            match r {
                Some(v) => self@.contains_key(name@) && *v == self@[name@],
                None => !self@.contains_key(name@),
            },
    {
        match self.position(name) {
            Some(i) => {
                proof {
                    use_type_invariant(self);
                    lemma_entry(self.entries@, i as int);
                }
                Some(&self.entries[i].1)
            },
            None => None,
        }
    }

    /// The `i`-th name.
    pub fn name_at(&self, i: usize) -> (name: &String)
        requires
            i < self.names().len(),
        ensures
            name@ == self.names()[i as int],
            self@.contains_key(name@),
    {
        proof {
            use_type_invariant(self);
            lemma_entry(self.entries@, i as int);
        }
        &self.entries[i].0
    }

    /// The value of the `i`-th name.
    pub fn value_at(&self, i: usize) -> (v: &V)
        requires
            i < self.names().len(),
        ensures
            *v == self@[self.names()[i as int]],
            self@.contains_key(self.names()[i as int]),
    {
        proof {
            use_type_invariant(self);
            lemma_entry(self.entries@, i as int);
        }
        &self.entries[i].1
    }

    /// The values in the order of their names.
    pub fn values(&self) -> (list: Vec<&V>)
        ensures
            list@ == self.names().map_values(|n: Seq<char>| &self@[n]),
            self.names().no_duplicates(),
            self.names().to_set() == self@.dom(),
    {
        let mut list: Vec<&V> = Vec::new();
        let mut i: usize = 0;
        let n: usize = self.len();
        while i < n
            invariant
                n == self.names().len(),
                i <= n,
                list@ == self.names().take(i as int).map_values(|n: Seq<char>| &self@[n]),
            decreases n - i,
        {
            list.push(self.value_at(i));
            i = i + 1;
            assert(list@ =~= self.names().take(i as int).map_values(|n: Seq<char>| &self@[n]));
        }
        proof {
            self.lemma_names();
            assert(self.names().take(n as int) == self.names());
        }
        list
    }

    /// Gives `name` the value `value`, in place of any earlier value.
    pub fn insert(&mut self, name: String, value: V)
        ensures
            final(self)@ == old(self)@.insert(name@, value),
            final(self).names() == (if old(self)@.contains_key(name@) {
                old(self).names()
            } else {
                old(self).names().push(name@)
            }),
    {
        match self.position(name.as_str()) {
            Some(i) => {
                proof {
                    use_type_invariant(&*self);
                    lemma_replace(self.entries@, i as int, (name, value));
                    lemma_entry(self.entries@, i as int);
                }
                let mut entries: Vec<(String, V)> = Vec::new();
                core::mem::swap(&mut entries, &mut self.entries);
                entries.set(i, (name, value));
                core::mem::swap(&mut entries, &mut self.entries);
            },
            None => {
                proof {
                    use_type_invariant(&*self);
                    lemma_push(self.entries@, (name, value));
                }
                let mut entries: Vec<(String, V)> = Vec::new();
                core::mem::swap(&mut entries, &mut self.entries);
                entries.push((name, value));
                core::mem::swap(&mut entries, &mut self.entries);
            },
        }
    }

    /// Takes the `i`-th name out.
    pub fn remove_at(&mut self, i: usize) -> (e: (String, V))
        requires
            i < old(self).names().len(),
        ensures
            e.0@ == old(self).names()[i as int],
            e.1 == old(self)@[e.0@],
            old(self)@.contains_key(e.0@),
            final(self)@ == old(self)@.remove(e.0@),
            final(self).names() == old(self).names().remove(i as int),
    {
        proof {
            use_type_invariant(&*self);
            lemma_remove(self.entries@, i as int);
            lemma_entry(self.entries@, i as int);
        }
        let mut entries: Vec<(String, V)> = Vec::new();
        core::mem::swap(&mut entries, &mut self.entries);
        let e = entries.remove(i);
        core::mem::swap(&mut entries, &mut self.entries);
        e
    }

    /// Takes a name out, if it is there.
    pub fn remove(&mut self, name: &str) -> (r: Option<V>)
        ensures
            match r {
                Some(v) => old(self)@.contains_key(name@) && v == old(self)@[name@],
                None => !old(self)@.contains_key(name@),
            },
            final(self)@ == old(self)@.remove(name@),
            final(self).names() == (if old(self)@.contains_key(name@) {
                old(self).names().remove(old(self).names().index_of(name@))
            } else {
                old(self).names()
            }),
    {
        match self.position(name) {
            Some(i) => {
                proof {
                    use_type_invariant(&*self);
                    lemma_entry(self.entries@, i as int);
                }
                let e = self.remove_at(i);
                Some(e.1)
            },
            None => {
                assert(self@.remove(name@) =~= self@);
                None
            },
        }
    }

    /// Takes every name out.
    pub fn clear(&mut self)
        ensures
            final(self)@ == Map::<Seq<char>, V>::empty(),
            final(self).names() == Seq::<Seq<char>>::empty(),
    {
        *self = NameMap::new();
    }
}

} // verus!
