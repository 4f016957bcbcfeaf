//! A verified map from names to values, backed by an association list.

use vstd::prelude::*;

verus! {

/// A cache of values keyed by name.
///
/// At most one entry exists per name: storing a value under a name that is
/// already present replaces the old value. The abstract view is the
/// corresponding finite map from the name, as a sequence of characters, to
/// the value stored under it.
pub struct NameCache<V> {
    entries: Vec<(String, V)>,
}

impl<V> View for NameCache<V> {
    type V = Map<Seq<char>, V>;

    closed spec fn view(&self) -> Map<Seq<char>, V> {
        NameCache::<V>::map_of(self.entries@)
    }
}

impl<V> NameCache<V> {
    /// The finite map described by an entry list; a later entry would win,
    /// though a well-formed cache never repeats a name.
    spec fn map_of(s: Seq<(String, V)>) -> Map<Seq<char>, V>
        decreases s.len(),
    {
        if s.len() == 0 {
            Map::empty()
        } else {
            NameCache::<V>::map_of(s.drop_last()).insert(s.last().0@, s.last().1)
        }
    }

    /// No name occurs twice in an entry list.
    spec fn unique_names(s: Seq<(String, V)>) -> bool {
        forall|p: int, q: int|
            0 <= p < q < s.len() ==> (#[trigger] s[p].0@) != (#[trigger] s[q].0@)
    }

    /// Key uniqueness: each name is stored at most once.
    pub closed spec fn wf(self) -> bool {
        Self::unique_names(self.entries@)
    }

    /// A name absent from every entry is absent from the map.
    proof fn lemma_absent(s: Seq<(String, V)>, k: Seq<char>)
        requires
            forall|j: int| 0 <= j < s.len() ==> (#[trigger] s[j].0@) != k,
        ensures
            !Self::map_of(s).contains_key(k),
        decreases s.len(),
    {
        if s.len() > 0 {
            assert forall|j: int| 0 <= j < s.drop_last().len() implies (#[trigger] s
                .drop_last()[j].0@) != k by {
                assert(s.drop_last()[j] == s[j]);
            }
            Self::lemma_absent(s.drop_last(), k);
            assert(s[s.len() - 1].0@ != k);
        }
    }

    /// Under unique names, the entry at position `i` is what the map stores
    /// under its name.
    proof fn lemma_present(s: Seq<(String, V)>, i: int)
        requires
            0 <= i < s.len(),
            Self::unique_names(s),
        ensures
            Self::map_of(s).contains_key(s[i].0@),
            Self::map_of(s)[s[i].0@] == s[i].1,
        decreases s.len(),
    {
        if i == s.len() - 1 {
            assert(s.last() == s[i]);
        } else {
            assert forall|p: int, q: int|
                0 <= p < q < s.drop_last().len() implies (#[trigger] s.drop_last()[p].0@) != (
            #[trigger] s.drop_last()[q].0@) by {
                assert(s.drop_last()[p] == s[p]);
                assert(s.drop_last()[q] == s[q]);
            }
            Self::lemma_present(s.drop_last(), i);
            assert(s.drop_last()[i] == s[i]);
            assert(s[i].0@ != s[s.len() - 1].0@);
        }
    }

    /// Replacing the value at position `i`, keeping its name, updates the map
    /// at that name.
    proof fn lemma_update(s: Seq<(String, V)>, i: int, e: (String, V))
        requires
            0 <= i < s.len(),
            e.0@ == s[i].0@,
            Self::unique_names(s),
        ensures
            Self::map_of(s.update(i, e)) == Self::map_of(s).insert(s[i].0@, e.1),
        decreases s.len(),
    {
        let t = s.update(i, e);
        if i == s.len() - 1 {
            assert(t.drop_last() =~= s.drop_last());
            assert(t.last() == e);
            assert(Self::map_of(t) =~= Self::map_of(s).insert(s[i].0@, e.1));
        } else {
            assert(t.drop_last() =~= s.drop_last().update(i, e));
            assert(t.last() == s.last());
            assert(s.drop_last()[i] == s[i]);
            assert forall|p: int, q: int|
                0 <= p < q < s.drop_last().len() implies (#[trigger] s.drop_last()[p].0@) != (
            #[trigger] s.drop_last()[q].0@) by {
                assert(s.drop_last()[p] == s[p]);
                assert(s.drop_last()[q] == s[q]);
            }
            Self::lemma_update(s.drop_last(), i, e);
            assert(s[i].0@ != s[s.len() - 1].0@);
            assert(Self::map_of(t) == Self::map_of(s.drop_last()).insert(s[i].0@, e.1).insert(
                s.last().0@,
                s.last().1,
            ));
            assert(Self::map_of(t) =~= Self::map_of(s).insert(s[i].0@, e.1));
        }
    }

    /// An empty cache.
    pub fn new() -> (r: Self)
        ensures
            r.wf(),
            r@ == Map::<Seq<char>, V>::empty(),
    {
        NameCache { entries: Vec::new() }
    }

    /// The position of `key` in the entry list, if any.
    fn position_of(entries: &Vec<(String, V)>, key: &String) -> (r: Option<usize>)
        ensures
            match r {
                Some(i) => i < entries@.len() && entries@[i as int].0@ == key@,
                None => forall|j: int| 0 <= j < entries@.len() ==> (#[trigger] entries@[j].0@) != key@,
            },
    {
        let mut i: usize = 0;
        while i < entries.len()
            invariant
                i <= entries@.len(),
                forall|j: int| 0 <= j < i ==> (#[trigger] entries@[j].0@) != key@,
            decreases entries@.len() - i,
        {
            if entries[i].0 == *key {
                return Some(i);
            }
            i = i + 1;
        }
        None
    }

    /// Store `value` under `name`, replacing any value already stored there.
    pub fn insert(&mut self, name: &str, value: V)
        requires
            old(self).wf(),
        ensures
            final(self).wf(),
            final(self)@ == old(self)@.insert(name@, value),
    {
        let key: String = name.to_owned();
        match Self::position_of(&self.entries, &key) {
            Some(i) => {
                let kept: String = self.entries[i].0.clone();
                self.entries.set(i, (kept, value));
                proof {
                    Self::lemma_update(old(self).entries@, i as int, (kept, value));
                    assert(self.entries@ =~= old(self).entries@.update(i as int, (kept, value)));
                    assert forall|p: int, q: int|
                        0 <= p < q < self.entries@.len() implies (#[trigger] self.entries@[p].0@)
                        != (#[trigger] self.entries@[q].0@) by {
                        assert(old(self).entries@[p].0@ != old(self).entries@[q].0@);
                    }
                }
            },
            None => {
                self.entries.push((key, value));
                proof {
                    let t = self.entries@;
                    assert(t.drop_last() =~= old(self).entries@);
                    assert(t.last() == (key, value));
                    assert(self@ =~= old(self)@.insert(name@, value));
                    assert forall|p: int, q: int|
                        0 <= p < q < t.len() implies (#[trigger] t[p].0@) != (#[trigger] t[q].0@) by {
                        if q < t.len() - 1 {
                            assert(t[p] == old(self).entries@[p]);
                            assert(t[q] == old(self).entries@[q]);
                        } else {
                            assert(t[p] == old(self).entries@[p]);
                            assert(t[q].0@ == key@);
                        }
                    }
                }
            },
        }
    }

    /// Look up the value stored under `name`.
    pub fn get<'a>(&'a self, name: &str) -> (r: Option<&'a V>)
        requires
            self.wf(),
        ensures
            match r {
                Some(v) => self@.contains_key(name@) && *v == self@[name@],
                None => !self@.contains_key(name@),
            },
    {
        let key: String = name.to_owned();
        match Self::position_of(&self.entries, &key) {
            Some(i) => {
                proof {
                    Self::lemma_present(self.entries@, i as int);
                }
                Some(&self.entries[i].1)
            },
            None => {
                proof {
                    Self::lemma_absent(self.entries@, name@);
                }
                None
            },
        }
    }
}

} // verus!
