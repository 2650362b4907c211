//! A map from names to values, for the few names that a manager holds.

use crate::text::same_text;
use vstd::prelude::*;

verus! {

/// A finite map from names to values. No name occurs twice.
pub struct Registry<V> {
    entries: Vec<(String, V)>,
}

/// The names of the entries.
pub open spec fn names_of<V>(entries: Seq<(String, V)>) -> Seq<Seq<char>> {
    entries.map_values(|e: (String, V)| e.0@)
}

/// The map that a sequence of entries stands for: later entries win.
pub open spec fn map_of<V>(entries: Seq<(String, V)>) -> Map<Seq<char>, V>
    decreases entries.len(),
{
    if entries.len() == 0 {
        Map::empty()
    } else {
        map_of(entries.drop_last()).insert(entries.last().0@, entries.last().1)
    }
}

/// Whether no name occurs twice.
pub open spec fn distinct_names<V>(entries: Seq<(String, V)>) -> bool {
    forall|i: int, j: int|
        0 <= i < j < entries.len() ==> (#[trigger] entries[i]).0@ != (#[trigger] entries[j]).0@
}

/// The map of a sequence of entries holds a name exactly if an entry has
/// it, and is finite.
proof fn lemma_map_of_domain<V>(entries: Seq<(String, V)>)
    ensures
        map_of(entries).dom().finite(),
        forall|k: Seq<char>|
            map_of(entries).contains_key(k) <==> exists|i: int|
                0 <= i < entries.len() && (#[trigger] entries[i]).0@ == k,
    decreases entries.len(),
{
    if entries.len() > 0 {
        let front = entries.drop_last();
        lemma_map_of_domain(front);
        assert forall|k: Seq<char>|
            map_of(entries).contains_key(k) <==> exists|i: int|
                0 <= i < entries.len() && (#[trigger] entries[i]).0@ == k by {
            if map_of(entries).contains_key(k) {
                if k == entries.last().0@ {
                    assert(entries[entries.len() - 1].0@ == k);
                } else {
                    assert(map_of(front).contains_key(k));
                    let i = choose|i: int| 0 <= i < front.len() && (#[trigger] front[i]).0@ == k;
                    assert(entries[i].0@ == k);
                }
            }
            if exists|i: int| 0 <= i < entries.len() && (#[trigger] entries[i]).0@ == k {
                let i = choose|i: int| 0 <= i < entries.len() && (#[trigger] entries[i]).0@ == k;
                if i < entries.len() - 1 {
                    assert(front[i].0@ == k);
                }
            }
        }
    }
}

/// With distinct names, the map holds for each entry its value, and as many
/// names as there are entries.
proof fn lemma_map_of_entries<V>(entries: Seq<(String, V)>)
    requires
        distinct_names(entries),
    ensures
        forall|i: int|
            0 <= i < entries.len() ==> map_of(entries).contains_key((#[trigger] entries[i]).0@)
                && map_of(entries)[entries[i].0@] == entries[i].1,
        map_of(entries).dom().len() == entries.len(),
        map_of(entries).dom().finite(),
    decreases entries.len(),
{
    lemma_map_of_domain(entries);
    if entries.len() > 0 {
        let front = entries.drop_last();
        assert(distinct_names(front)) by {
            assert forall|i: int, j: int| 0 <= i < j < front.len() implies (#[trigger] front[i]).0@
                != (#[trigger] front[j]).0@ by {
                assert(front[i] == entries[i] && front[j] == entries[j]);
            }
        }
        lemma_map_of_entries(front);
        lemma_map_of_domain(front);
        let last = entries.last();
        assert(!map_of(front).contains_key(last.0@)) by {
            if map_of(front).contains_key(last.0@) {
                let i = choose|i: int| 0 <= i < front.len() && (#[trigger] front[i]).0@ == last.0@;
                assert(entries[i].0@ == entries[entries.len() - 1].0@);
            }
        }
        assert forall|i: int| 0 <= i < entries.len() implies map_of(entries).contains_key(
            (#[trigger] entries[i]).0@,
        ) && map_of(entries)[entries[i].0@] == entries[i].1 by {
            if i < entries.len() - 1 {
                assert(front[i] == entries[i]);
                assert(entries[i].0@ != entries[entries.len() - 1].0@);
            }
        }
    }
}

/// Taking the entry at `at` out of distinct entries takes its name out of
/// the map and leaves the rest as it is.
proof fn lemma_map_of_remove<V>(entries: Seq<(String, V)>, at: int)
    requires
        distinct_names(entries),
        0 <= at < entries.len(),
    ensures
        distinct_names(entries.remove(at)),
        map_of(entries.remove(at)) == map_of(entries).remove(entries[at].0@),
{
    let rest = entries.remove(at);
    assert(distinct_names(rest)) by {
        assert forall|i: int, j: int| 0 <= i < j < rest.len() implies (#[trigger] rest[i]).0@ != (
        #[trigger] rest[j]).0@ by {
            let a = if i < at {
                i
            } else {
                i + 1
            };
            let b = if j < at {
                j
            } else {
                j + 1
            };
            assert(rest[i] == entries[a] && rest[j] == entries[b]);
        }
    }
    lemma_map_of_entries(entries);
    lemma_map_of_entries(rest);
    lemma_map_of_domain(entries);
    lemma_map_of_domain(rest);
    let left = map_of(rest);
    let right = map_of(entries).remove(entries[at].0@);
    assert forall|k: Seq<char>| left.contains_key(k) <==> right.contains_key(k) by {
        if left.contains_key(k) {
            let i = choose|i: int| 0 <= i < rest.len() && (#[trigger] rest[i]).0@ == k;
            let a = if i < at {
                i
            } else {
                i + 1
            };
            assert(rest[i] == entries[a]);
            assert(entries[a].0@ != entries[at].0@);
        }
        if right.contains_key(k) {
            let a = choose|a: int| 0 <= a < entries.len() && (#[trigger] entries[a]).0@ == k;
            let i = if a < at {
                a
            } else {
                a - 1
            };
            assert(rest[i] == entries[a]);
        }
    }
    assert forall|k: Seq<char>| left.contains_key(k) implies left[k] == right[k] by {
        let i = choose|i: int| 0 <= i < rest.len() && (#[trigger] rest[i]).0@ == k;
        let a = if i < at {
            i
        } else {
            i + 1
        };
        assert(rest[i] == entries[a]);
    }
    assert(left =~= right);
}

impl<V> Registry<V> {
    /// Whether no name occurs twice among the entries.
    pub closed spec fn wf(&self) -> bool {
        distinct_names(self.entries@)
    }

    /// The map that the registry holds.
    pub closed spec fn map(&self) -> Map<Seq<char>, V> {
        map_of(self.entries@)
    }

    /// A registry is a finite map.
    pub proof fn lemma_finite(&self)
        ensures
            self.map().dom().finite(),
    {
        lemma_map_of_domain(self.entries@);
    }

    /// An empty registry.
    pub fn new() -> (r: Registry<V>)
        ensures
            r.wf(),
            r.map() == Map::<Seq<char>, V>::empty(),
    {
        Registry { entries: Vec::new() }
    }

    /// The number of names.
    pub fn len(&self) -> (n: usize)
        requires
            self.wf(),
        ensures
            n == self.map().dom().len(),
            self.map().dom().finite(),
    {
        proof {
            lemma_map_of_entries(self.entries@);
        }
        self.entries.len()
    }

    /// Where the entry for `name` stands.
    fn position(&self, name: &str) -> (r: Option<usize>)
        requires
            self.wf(),
        ensures
            r is Some <==> self.map().contains_key(name@),
            r matches Some(i) ==> i < self.entries.len() && self.entries[i as int].0@ == name@
                && self.map()[name@] == self.entries[i as int].1,
    {
        proof {
            lemma_map_of_entries(self.entries@);
            lemma_map_of_domain(self.entries@);
        }
        let mut found: Option<usize> = None;
        let mut i: usize = 0;
        while i < self.entries.len() && found.is_none()
            invariant
                i <= self.entries.len(),
                found is None ==> forall|k: int|
                    0 <= k < i ==> (#[trigger] self.entries[k]).0@ != name@,
                found matches Some(at) ==> at < self.entries.len() && self.entries[at as int].0@
                    == name@,
            decreases self.entries.len() - i + (if found is None { 1int } else { 0int }),
        {
            if same_text(self.entries[i].0.as_str(), name) {
                found = Some(i);
            } else {
                i += 1;
            }
        }
        proof {
            match found {
                Some(at) => {
                    assert(self.entries@[at as int].0@ == name@);
                },
                None => {},
            }
        }
        found
    }

    /// Whether there is an entry for `name`.
    pub fn contains(&self, name: &str) -> (r: bool)
        requires
            self.wf(),
        ensures
            r == self.map().contains_key(name@),
    {
        self.position(name).is_some()
    }

    /// The value for `name`.
    pub fn get(&self, name: &str) -> (r: Option<&V>)
        requires
            self.wf(),
        ensures
            r is Some <==> self.map().contains_key(name@),
            r matches Some(v) ==> *v == self.map()[name@],
    {
        match self.position(name) {
            Some(i) => Some(&self.entries[i].1),
            None => None,
        }
    }

    /// Takes the entry for `name` out, and returns its value.
    pub fn remove(&mut self, name: &str) -> (r: Option<V>)
        requires
            old(self).wf(),
        ensures
            final(self).wf(),
            final(self).map() == old(self).map().remove(name@),
            r is Some <==> old(self).map().contains_key(name@),
            r matches Some(v) ==> v == old(self).map()[name@],
    {
        match self.position(name) {
            Some(i) => {
                proof {
                    lemma_map_of_remove(self.entries@, i as int);
                }
                let entry = self.entries.remove(i);
                Some(entry.1)
            },
            None => {
                assert(old(self).map().remove(name@) =~= old(self).map());
                None
            },
        }
    }

    /// Sets the value for `name`, in place of the one that it had if it had
    /// one.
    pub fn insert(&mut self, name: String, value: V)
        requires
            old(self).wf(),
        ensures
            final(self).wf(),
            final(self).map() == old(self).map().insert(name@, value),
    {
        let _ = self.remove(name.as_str());
        let ghost before = self.entries@;
        proof {
            lemma_map_of_domain(before);
        }
        self.entries.push((name, value));
        proof {
            assert(self.entries@.drop_last() == before);
            assert(distinct_names(self.entries@)) by {
                assert forall|i: int, j: int| 0 <= i < j < self.entries@.len() implies (
                #[trigger] self.entries@[i]).0@ != (#[trigger] self.entries@[j]).0@ by {
                    assert(self.entries@[i] == before[i]);
                    if j < before.len() {
                        assert(self.entries@[j] == before[j]);
                    } else {
                        assert(!map_of(before).contains_key(name@));
                        if before[i].0@ == name@ {
                            assert(map_of(before).contains_key(before[i].0@));
                        }
                    }
                }
            }
            assert(old(self).map().remove(name@).insert(name@, value) =~= old(self).map().insert(
                name@,
                value,
            ));
        }
    }

    /// Takes some entry out: none if the registry is empty.
    pub fn take_any(&mut self) -> (r: Option<(String, V)>)
        requires
            old(self).wf(),
        ensures
            final(self).wf(),
            r is None <==> old(self).map().dom().len() == 0,
            r is None ==> final(self).map() == old(self).map(),
            r matches Some(e) ==> old(self).map().contains_key(e.0@) && old(self).map()[e.0@] == e.1
                && final(self).map() == old(self).map().remove(e.0@),
            final(self).map().dom().finite(),
    {
        proof {
            lemma_map_of_entries(self.entries@);
        }
        let n = self.entries.len();
        if n == 0 {
            return None;
        }
        proof {
            lemma_map_of_remove(self.entries@, n - 1);
            assert(self.entries@.remove(n - 1) == self.entries@.drop_last());
        }
        let entry = self.entries.pop();
        proof {
            lemma_map_of_domain(self.entries@);
        }
        entry
    }
}

} // verus!
