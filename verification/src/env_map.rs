//! A map from variable names to values, kept as a list of pairs in which no
//! name occurs twice. It stands for a set of environment variables: the ones
//! a process was started with, or the ones handed to a new sandbox.
//!
//! A `HashMap<String, String>` would not do here: vstd says what a hash map
//! holds only for keys whose hashing it knows, and `String` is none of them.

use vstd::prelude::*;

verus! {

/// The mapping that a list of pairs spells out, a later pair winning over an
/// earlier one of the same name.
pub open spec fn pairs_map(pairs: Seq<(String, String)>) -> Map<Seq<char>, Seq<char>>
    decreases pairs.len(),
{
    if pairs.len() == 0 {
        Map::empty()
    } else {
        pairs_map(pairs.drop_last()).insert(pairs.last().0@, pairs.last().1@)
    }
}

/// No name occurs in two pairs.
pub open spec fn distinct_names(pairs: Seq<(String, String)>) -> bool {
    forall|i: int, j: int|
        0 <= i < j < pairs.len() ==> (#[trigger] pairs[i]).0@ != (#[trigger] pairs[j]).0@
}

/// Whether some pair carries the name `name`.
pub open spec fn names(pairs: Seq<(String, String)>, name: Seq<char>) -> bool {
    exists|i: int| 0 <= i < pairs.len() && (#[trigger] pairs[i]).0@ == name
}

/// The names of `pairs_map` are the names of the pairs.
pub proof fn lemma_pairs_map_names(pairs: Seq<(String, String)>, name: Seq<char>)
    ensures
        pairs_map(pairs).contains_key(name) <==> names(pairs, name),
    decreases pairs.len(),
{
    if pairs.len() > 0 {
        let front = pairs.drop_last();
        lemma_pairs_map_names(front, name);
        if names(pairs, name) {
            let i = choose|i: int| 0 <= i < pairs.len() && (#[trigger] pairs[i]).0@ == name;
            if i < pairs.len() - 1 {
                assert(front[i] == pairs[i]);
            }
        }
        if names(front, name) {
            let i = choose|i: int| 0 <= i < front.len() && (#[trigger] front[i]).0@ == name;
            assert(pairs[i] == front[i]);
        }
        if pairs.last().0@ == name {
            assert(pairs[pairs.len() - 1].0@ == name);
        }
    }
}

/// Where no name occurs twice, each pair's name maps to that pair's value.
pub proof fn lemma_pairs_map_value(pairs: Seq<(String, String)>, i: int)
    requires
        distinct_names(pairs),
        0 <= i < pairs.len(),
    ensures
        pairs_map(pairs).contains_key(pairs[i].0@),
        pairs_map(pairs)[pairs[i].0@] == pairs[i].1@,
    decreases pairs.len(),
{
    if i < pairs.len() - 1 {
        let front = pairs.drop_last();
        assert(front[i] == pairs[i]);
        assert(pairs[i].0@ != pairs[pairs.len() - 1].0@);
        lemma_pairs_map_value(front, i);
    }
}

/// Replacing the value of a pair is an insertion under that pair's name.
pub proof fn lemma_pairs_map_update(pairs: Seq<(String, String)>, i: int, pair: (String, String))
    requires
        distinct_names(pairs),
        0 <= i < pairs.len(),
        pair.0@ == pairs[i].0@,
    ensures
        distinct_names(pairs.update(i, pair)),
        pairs_map(pairs.update(i, pair)) == pairs_map(pairs).insert(pair.0@, pair.1@),
    decreases pairs.len(),
{
    let after = pairs.update(i, pair);
    assert forall|a: int, b: int| 0 <= a < b < after.len() implies (#[trigger] after[a]).0@ != (
    #[trigger] after[b]).0@ by {
        assert(pairs[a].0@ != pairs[b].0@);
    }
    let front = pairs.drop_last();
    if i == pairs.len() - 1 {
        assert(after.drop_last() =~= front);
        assert(pairs_map(after) =~= pairs_map(pairs).insert(pair.0@, pair.1@));
    } else {
        assert(front[i] == pairs[i]);
        lemma_pairs_map_update(front, i, pair);
        assert(after.drop_last() =~= front.update(i, pair));
        assert(after.last() == pairs.last());
        assert(pairs[i].0@ != pairs[pairs.len() - 1].0@);
        assert(pairs_map(after) =~= pairs_map(pairs).insert(pair.0@, pair.1@));
    }
}

/// Where no name occurs twice, the map has as many names as there are pairs.
pub proof fn lemma_pairs_map_len(pairs: Seq<(String, String)>)
    requires
        distinct_names(pairs),
    ensures
        pairs_map(pairs).dom().finite(),
        pairs_map(pairs).dom().len() == pairs.len(),
    decreases pairs.len(),
{
    if pairs.len() > 0 {
        let front = pairs.drop_last();
        assert forall|a: int, b: int| 0 <= a < b < front.len() implies (#[trigger] front[a]).0@ != (
        #[trigger] front[b]).0@ by {
            assert(front[a] == pairs[a]);
            assert(front[b] == pairs[b]);
        }
        lemma_pairs_map_len(front);
        lemma_pairs_map_names(front, pairs.last().0@);
        if names(front, pairs.last().0@) {
            let i = choose|i: int|
                0 <= i < front.len() && (#[trigger] front[i]).0@ == pairs.last().0@;
            assert(front[i] == pairs[i]);
            assert(pairs[i].0@ != pairs[pairs.len() - 1].0@);
        }
        assert(pairs_map(pairs).dom() =~= pairs_map(front).dom().insert(pairs.last().0@));
    }
}

/// A finite mapping from names to values.
#[derive(Debug)]
pub struct EnvMap {
    entries: Vec<(String, String)>,
}

impl View for EnvMap {
    type V = Map<Seq<char>, Seq<char>>;

    closed spec fn view(&self) -> Map<Seq<char>, Seq<char>> {
        pairs_map(self.entries@)
    }
}

impl EnvMap {
    #[verifier::type_invariant]
    spec fn no_name_twice(self) -> bool {
        distinct_names(self.entries@)
    }

    /// The empty mapping.
    pub fn new() -> (r: EnvMap)
        ensures
            r@ == Map::<Seq<char>, Seq<char>>::empty(),
    {
        EnvMap { entries: Vec::new() }
    }

    /// Position of the pair named `name`, if there is one.
    fn position(&self, name: &str) -> (r: Option<usize>)
        ensures
            match r {
                Some(i) => i < self.entries@.len() && self.entries@[i as int].0@ == name@,
                None => !names(self.entries@, name@),
            },
    {
        let mut i: usize = 0;
        while i < self.entries.len()
            invariant
                i <= self.entries@.len(),
                forall|j: int| 0 <= j < i ==> (#[trigger] self.entries@[j]).0@ != name@,
            decreases self.entries@.len() - i,
        {
            if self.entries[i].0.as_str().eq(name) {
                return Some(i);
            }
            i += 1;
        }
        None
    }

    /// Binds `name` to `value` and returns the value that `name` had before.
    pub fn insert(&mut self, name: String, value: String) -> (r: Option<String>)
        ensures
            final(self)@ == old(self)@.insert(name@, value@),
            match r {
                Some(before) => old(self)@.contains_key(name@) && before@ == old(self)@[name@],
                None => !old(self)@.contains_key(name@),
            },
    {
        proof {
            use_type_invariant(&*self);
            lemma_pairs_map_names(self.entries@, name@);
        }
        let found = self.position(name.as_str());
        let mut entries: Vec<(String, String)> = Vec::new();
        core::mem::swap(&mut self.entries, &mut entries);
        let ghost before = entries@;
        match found {
            Some(i) => {
                proof {
                    lemma_pairs_map_value(before, i as int);
                    lemma_pairs_map_update(before, i as int, (name, value));
                }
                let replaced = entries.remove(i);
                entries.insert(i, (name, value));
                assert(entries@ =~= before.update(i as int, (name, value)));
                self.entries = entries;
                Some(replaced.1)
            },
            None => {
                entries.push((name, value));
                proof {
                    assert(entries@.drop_last() =~= before);
                    assert forall|a: int, b: int| 0 <= a < b < entries@.len() implies (
                    #[trigger] entries@[a]).0@ != (#[trigger] entries@[b]).0@ by {
                        assert(before[a].0@ == entries@[a].0@);
                        if b < before.len() {
                            assert(before[b].0@ == entries@[b].0@);
                        }
                    }
                }
                self.entries = entries;
                None
            },
        }
    }

    /// The value bound to `name`, if any.
    pub fn get(&self, name: &str) -> (r: Option<&String>)
        ensures
            match r {
                Some(value) => self@.contains_key(name@) && value@ == self@[name@],
                None => !self@.contains_key(name@),
            },
    {
        proof {
            use_type_invariant(self);
            lemma_pairs_map_names(self.entries@, name@);
        }
        match self.position(name) {
            Some(i) => {
                proof {
                    lemma_pairs_map_value(self.entries@, i as int);
                }
                Some(&self.entries[i].1)
            },
            None => None,
        }
    }

    /// Whether `name` is bound.
    pub fn contains_key(&self, name: &str) -> (r: bool)
        ensures
            r == self@.contains_key(name@),
    {
        self.get(name).is_some()
    }

    /// Number of names that are bound.
    pub fn len(&self) -> (r: usize)
        ensures
            self@.dom().finite(),
            r == self@.dom().len(),
    {
        proof {
            use_type_invariant(self);
            lemma_pairs_map_len(self.entries@);
        }
        self.entries.len()
    }

    /// Whether no name is bound.
    pub fn is_empty(&self) -> (r: bool)
        ensures
            r == (self@ == Map::<Seq<char>, Seq<char>>::empty()),
    {
        proof {
            use_type_invariant(self);
            lemma_pairs_map_len(self.entries@);
            if self.entries@.len() == 0 {
                assert(self@ =~= Map::<Seq<char>, Seq<char>>::empty());
            } else {
                assert(self@.dom().len() > 0);
            }
        }
        self.entries.len() == 0
    }

    /// The bindings as pairs of a name and its value, each name once.
    pub fn pairs(&self) -> (r: &Vec<(String, String)>)
        ensures
            distinct_names(r@),
            pairs_map(r@) == self@,
    {
        proof {
            use_type_invariant(self);
        }
        &self.entries
    }
}

} // verus!
