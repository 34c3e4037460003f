//! A map from names to values.
use vstd::prelude::*;

verus! {

/// A finite map keyed by strings.
///
/// The entries are kept in a vector. Binding a key that is bound already
/// overwrites its entry in place, so no earlier value is kept.
#[derive(Debug)]
pub struct Dict<V> {
    entries: Vec<(String, V)>,
}

/// The map that a sequence of entries stands for: a later entry wins.
pub open spec fn as_map<V>(entries: Seq<(String, V)>) -> Map<Seq<char>, V>
    decreases entries.len(),
{
    if entries.len() == 0 {
        Map::empty()
    } else {
        as_map(entries.drop_last()).insert(entries.last().0@, entries.last().1)
    }
}

/// Whether `i` is the last place in `entries` that holds `key`.
pub open spec fn last_at<V>(entries: Seq<(String, V)>, key: Seq<char>, i: int) -> bool {
    &&& 0 <= i < entries.len()
    &&& entries[i].0@ == key
    &&& forall|j: int| i < j < entries.len() ==> entries[j].0@ != key
}

/// Whether no place in `entries` holds `key`.
pub open spec fn nowhere<V>(entries: Seq<(String, V)>, key: Seq<char>) -> bool {
    forall|j: int| 0 <= j < entries.len() ==> entries[j].0@ != key
}

proof fn lemma_found<V>(entries: Seq<(String, V)>, key: Seq<char>, i: int)
    requires
        last_at(entries, key, i),
    ensures
        as_map(entries).contains_key(key),
        as_map(entries)[key] == entries[i].1,
    decreases entries.len(),
{
    if i < entries.len() - 1 {
        let front = entries.drop_last();
        assert(last_at(front, key, i)) by {
            assert forall|j: int| i < j < front.len() implies front[j].0@ != key by {
                assert(entries[j].0@ != key);
            }
        }
        lemma_found(front, key, i);
        assert(entries.last().0@ != key);
    }
}

proof fn lemma_absent<V>(entries: Seq<(String, V)>, key: Seq<char>)
    requires
        nowhere(entries, key),
    ensures
        !as_map(entries).contains_key(key),
    decreases entries.len(),
{
    if entries.len() > 0 {
        let front = entries.drop_last();
        assert(nowhere(front, key)) by {
            assert forall|j: int| 0 <= j < front.len() implies front[j].0@ != key by {
                assert(entries[j].0@ != key);
            }
        }
        lemma_absent(front, key);
        assert(entries.last().0@ != key);
    }
}

proof fn lemma_replaced<V>(entries: Seq<(String, V)>, i: int, k: String, v: V)
    requires
        last_at(entries, k@, i),
    ensures
        as_map(entries.update(i, (k, v))) == as_map(entries).insert(k@, v),
    decreases entries.len(),
{
    let after = entries.update(i, (k, v));
    if i == entries.len() - 1 {
        assert(after.drop_last() =~= entries.drop_last());
        assert(as_map(after) =~= as_map(entries).insert(k@, v));
    } else {
        let front = entries.drop_last();
        assert(last_at(front, k@, i)) by {
            assert forall|j: int| i < j < front.len() implies front[j].0@ != k@ by {
                assert(entries[j].0@ != k@);
            }
        }
        lemma_replaced(front, i, k, v);
        assert(after.drop_last() =~= front.update(i, (k, v)));
        assert(after.last() == entries.last());
        assert(entries.last().0@ != k@);
        assert(as_map(after) =~= as_map(entries).insert(k@, v));
    }
}

impl<V> View for Dict<V> {
    type V = Map<Seq<char>, V>;

    closed spec fn view(&self) -> Map<Seq<char>, V> {
        as_map(self.entries@)
    }
}

impl<V> Dict<V> {
    /// How many entries are stored.
    pub closed spec fn stored(&self) -> nat {
        self.entries@.len()
    }

    /// The map without any key.
    pub fn new() -> (r: Dict<V>)
        ensures
            r@ == Map::<Seq<char>, V>::empty(),
            r.stored() == 0,
    {
        Dict { entries: Vec::new() }
    }

    /// The last place among the entries that holds `key`, if any does.
    fn position(&self, key: &str) -> (r: Option<usize>)
        ensures
            match r {
                Some(i) => last_at(self.entries@, key@, i as int),
                None => nowhere(self.entries@, key@),
            },
    {
        let wanted = String::from_str(key);
        let n = self.entries.len();
        let mut i: usize = n;
        while i > 0
            invariant
                n == self.entries@.len(),
                i <= n,
                wanted@ == key@,
                forall|j: int| i <= j < n ==> self.entries@[j].0@ != key@,
            decreases i,
        {
            i -= 1;
            if self.entries[i].0 == wanted {
                return Some(i);
            }
        }
        None
    }

    /// The value bound to `key`, if there is one.
    pub fn get(&self, key: &str) -> (r: Option<&V>)
        ensures
            match r {
                Some(v) => self@.contains_key(key@) && *v == self@[key@],
                None => !self@.contains_key(key@),
            },
    {
        match self.position(key) {
            Some(i) => {
                proof {
                    lemma_found(self.entries@, key@, i as int);
                }
                Some(&self.entries[i].1)
            },
            None => {
                proof {
                    lemma_absent(self.entries@, key@);
                }
                None
            },
        }
    }

    /// Whether `key` is bound.
    pub fn contains_key(&self, key: &str) -> (r: bool)
        ensures
            r == self@.contains_key(key@),
    {
        self.get(key).is_some()
    }

    /// Binds `key` to `value`. What was bound to `key` before is gone: a key
    /// that was bound takes no new entry.
    pub fn insert(&mut self, key: String, value: V)
        ensures
            final(self)@ == old(self)@.insert(key@, value),
            final(self).stored() == if old(self)@.contains_key(key@) {
                old(self).stored()
            } else {
                old(self).stored() + 1
            },
    {
        match self.position(key.as_str()) {
            Some(i) => {
                proof {
                    lemma_replaced(self.entries@, i as int, key, value);
                    lemma_found(self.entries@, key@, i as int);
                }
                self.entries.set(i, (key, value));
            },
            None => {
                proof {
                    lemma_absent(self.entries@, key@);
                }
                let ghost before = self.entries@;
                self.entries.push((key, value));
                assert(self.entries@.drop_last() =~= before);
            },
        }
    }

    /// Forgets every binding.
    pub fn clear(&mut self)
        ensures
            final(self)@ == Map::<Seq<char>, V>::empty(),
            final(self).stored() == 0,
    {
        self.entries.clear();
    }

    /// Binds every key of `other` to the value it has there.
    pub fn extend(&mut self, other: Dict<V>)
        ensures
            final(self)@ == old(self)@.union_prefer_right(other@),
    {
        let ghost all = other.entries@;
        let mut rest = other.entries;
        let ghost mut done: int = 0;
        assert(all.subrange(0, 0) =~= Seq::<(String, V)>::empty());
        assert(self@ =~= old(self)@.union_prefer_right(as_map(all.subrange(0, 0))));
        while rest.len() > 0
            invariant
                0 <= done <= all.len(),
                rest@ == all.subrange(done, all.len() as int),
                self@ == old(self)@.union_prefer_right(as_map(all.subrange(0, done))),
            decreases rest@.len(),
        {
            let entry = rest.remove(0);
            assert(entry == all[done]);
            self.insert(entry.0, entry.1);
            proof {
                let next = all.subrange(0, done + 1);
                assert(next.drop_last() =~= all.subrange(0, done));
                assert(next.last() == all[done]);
                assert(self@ =~= old(self)@.union_prefer_right(as_map(next)));
                assert(rest@ =~= all.subrange(done + 1, all.len() as int));
                done = done + 1;
            }
        }
        assert(all.subrange(0, done) =~= all);
    }
}

} // verus!
