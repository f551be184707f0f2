//! Lists of key and value pairs, and the map that such a list stands for.

use crate::text::same_text;
use vstd::prelude::*;
use vstd::string::*;

verus! {

/// A list of keys with their values, as the host hands it over. A key may
/// occur more than once; the last occurrence then counts.
pub type Dict = Vec<(String, String)>;

/// The characters of each key and value of a list of pairs.
pub type Pairs = Seq<(Seq<char>, Seq<char>)>;

/// The value of the last pair of `pairs` whose key is `key`.
pub open spec fn lookup(pairs: Pairs, key: Seq<char>) -> Option<Seq<char>>
    decreases pairs.len(),
{
    if pairs.len() == 0 {
        None
    } else if pairs.last().0 == key {
        Some(pairs.last().1)
    } else {
        lookup(pairs.drop_last(), key)
    }
}

/// The map that a list of pairs stands for: each key with its last value.
pub open spec fn map_of(pairs: Pairs) -> Map<Seq<char>, Seq<char>> {
    Map::new(|k: Seq<char>| lookup(pairs, k) is Some, |k: Seq<char>| lookup(pairs, k).unwrap())
}

/// Whether no key occurs twice in `pairs`.
pub open spec fn distinct_keys(pairs: Pairs) -> bool {
    forall|i: int, j: int| 0 <= i < j < pairs.len() ==> pairs[i].0 != pairs[j].0
}

/// A key that no pair holds has no value.
pub proof fn lemma_lookup_absent(pairs: Pairs, key: Seq<char>)
    requires
        forall|j: int| 0 <= j < pairs.len() ==> (#[trigger] pairs[j]).0 != key,
    ensures
        lookup(pairs, key) is None,
    decreases pairs.len(),
{
    if pairs.len() > 0 {
        let front = pairs.drop_last();
        assert(pairs[pairs.len() - 1].0 != key);
        assert forall|j: int| 0 <= j < front.len() implies (#[trigger] front[j]).0 != key by {
            assert(pairs[j].0 != key);
        }
        lemma_lookup_absent(front, key);
    }
}

/// The value of a key is that of the pair that holds it, where no later pair
/// holds it too.
pub proof fn lemma_lookup_at(pairs: Pairs, key: Seq<char>, i: int)
    requires
        0 <= i < pairs.len(),
        pairs[i].0 == key,
        forall|j: int| i < j < pairs.len() ==> (#[trigger] pairs[j]).0 != key,
    ensures
        lookup(pairs, key) == Some(pairs[i].1),
    decreases pairs.len(),
{
    if i < pairs.len() - 1 {
        let front = pairs.drop_last();
        assert(pairs[pairs.len() - 1].0 != key);
        assert forall|j: int| i < j < front.len() implies (#[trigger] front[j]).0 != key by {
            assert(pairs[j].0 != key);
        }
        lemma_lookup_at(front, key, i);
    }
}

/// A key that some pair holds has a value.
pub proof fn lemma_lookup_held(pairs: Pairs, key: Seq<char>, i: int)
    requires
        0 <= i < pairs.len(),
        pairs[i].0 == key,
    ensures
        lookup(pairs, key) is Some,
    decreases pairs.len(),
{
    if pairs.last().0 != key {
        lemma_lookup_held(pairs.drop_last(), key, i);
    }
}

/// A key that has a value is held by some pair: the last of them is given.
pub proof fn lemma_lookup_present(pairs: Pairs, key: Seq<char>) -> (i: int)
    requires
        lookup(pairs, key) is Some,
    ensures
        0 <= i < pairs.len(),
        pairs[i].0 == key,
        lookup(pairs, key) == Some(pairs[i].1),
        forall|j: int| i < j < pairs.len() ==> (#[trigger] pairs[j]).0 != key,
    decreases pairs.len(),
{
    if pairs.last().0 == key {
        pairs.len() - 1
    } else {
        let front = pairs.drop_last();
        let i = lemma_lookup_present(front, key);
        assert forall|j: int| i < j < pairs.len() implies (#[trigger] pairs[j]).0 != key by {
            if j < front.len() {
                assert(front[j].0 != key);
            }
        }
        i
    }
}

/// Finds the last pair of `dict` whose key is `key`.
pub fn find_last(dict: &Dict, key: &str) -> (r: Option<usize>)
    ensures
        match r {
            Some(i) => i < dict.len() && dict[i as int].0@ == key@ && lookup(
                dict.deep_view(),
                key@,
            ) == Some(dict[i as int].1@),
            None => lookup(dict.deep_view(), key@) is None,
        },
{
    let ghost pairs = dict.deep_view();
    let mut i: usize = dict.len();
    while i > 0
        invariant
            i <= dict.len(),
            pairs == dict.deep_view(),
            forall|j: int| i <= j < dict.len() ==> (#[trigger] pairs[j]).0 != key@,
        decreases i,
    {
        i -= 1;
        if same_text(dict[i].0.as_str(), key) {
            proof {
                lemma_lookup_at(pairs, key@, i as int);
            }
            return Some(i);
        }
    }
    proof {
        lemma_lookup_absent(pairs, key@);
    }
    None
}

/// A map from text to text that keeps its entries in the order in which
/// their keys first came.
#[derive(Debug)]
pub struct StringMap {
    entries: Dict,
}

impl StringMap {
    /// The entries as pairs of characters, in their order.
    pub closed spec fn pairs(&self) -> Pairs {
        self.entries.deep_view()
    }

    #[verifier::type_invariant]
    spec fn keys_distinct(&self) -> bool {
        distinct_keys(self.entries.deep_view())
    }
}

impl Default for StringMap {
    /// A map without entries.
    fn default() -> (m: Self)
        ensures
            m@ == Map::<Seq<char>, Seq<char>>::empty(),
    {
        StringMap::new()
    }
}

impl View for StringMap {
    type V = Map<Seq<char>, Seq<char>>;

    open spec fn view(&self) -> Map<Seq<char>, Seq<char>> {
        map_of(self.pairs())
    }
}

/// Adding a pair at the end gives its key that value and leaves the others.
pub proof fn lemma_map_of_push(pairs: Pairs, key: Seq<char>, value: Seq<char>)
    ensures
        map_of(pairs.push((key, value))) == map_of(pairs).insert(key, value),
{
    let longer = pairs.push((key, value));
    assert(longer.drop_last() == pairs);
    assert(map_of(longer) =~= map_of(pairs).insert(key, value));
}

/// Changing the value of the one pair that holds a key gives the key that
/// value and leaves the others.
pub proof fn lemma_map_of_update(pairs: Pairs, i: int, value: Seq<char>)
    requires
        0 <= i < pairs.len(),
        distinct_keys(pairs),
    ensures
        distinct_keys(pairs.update(i, (pairs[i].0, value))),
        map_of(pairs.update(i, (pairs[i].0, value))) == map_of(pairs).insert(pairs[i].0, value),
{
    let key = pairs[i].0;
    let changed = pairs.update(i, (key, value));
    assert forall|k: Seq<char>| lookup(changed, k) == (if k == key {
        Some(value)
    } else {
        lookup(pairs, k)
    }) by {
        if k == key {
            lemma_lookup_at(changed, k, i);
        } else if lookup(pairs, k) is Some {
            let j = lemma_lookup_present(pairs, k);
            assert forall|l: int| j < l < changed.len() implies (#[trigger] changed[l]).0 != k by {
                assert(pairs[l].0 != k);
            }
            lemma_lookup_at(changed, k, j);
        } else if lookup(changed, k) is Some {
            let j = lemma_lookup_present(changed, k);
            assert forall|l: int| j < l < pairs.len() implies (#[trigger] pairs[l]).0 != k by {
                assert(changed[l].0 != k);
            }
            lemma_lookup_at(pairs, k, j);
        }
    }
    assert(map_of(changed) =~= map_of(pairs).insert(key, value));
}

/// A list without a repeated key stands for a map of as many entries.
pub proof fn lemma_map_of_len(pairs: Pairs)
    requires
        distinct_keys(pairs),
    ensures
        map_of(pairs).dom().finite(),
        map_of(pairs).dom().len() == pairs.len(),
    decreases pairs.len(),
{
    if pairs.len() == 0 {
        assert(map_of(pairs).dom() =~= Set::<Seq<char>>::empty());
    } else {
        let front = pairs.drop_last();
        let last = pairs.last();
        lemma_map_of_len(front);
        assert(pairs == front.push(last));
        lemma_map_of_push(front, last.0, last.1);
        if lookup(front, last.0) is Some {
            let i = lemma_lookup_present(front, last.0);
            assert(pairs[i].0 == pairs[pairs.len() - 1].0);
        }
        assert(map_of(pairs).dom() =~= map_of(front).dom().insert(last.0));
    }
}

impl StringMap {
    /// Makes a map without entries.
    pub fn new() -> (m: Self)
        ensures
            m@ == Map::<Seq<char>, Seq<char>>::empty(),
            m.pairs().len() == 0,
    {
        let m = StringMap { entries: Vec::new() };
        assert(m@ =~= Map::<Seq<char>, Seq<char>>::empty());
        m
    }

    /// Gives `key` the value `value`, in place of the one it had, if any.
    pub fn insert(&mut self, key: String, value: String)
        ensures
            final(self)@ == old(self)@.insert(key@, value@),
    {
        proof {
            use_type_invariant(&*self);
        }
        let mut entries: Dict = Vec::new();
        std::mem::swap(&mut entries, &mut self.entries);
        let ghost before = entries.deep_view();
        match find_last(&entries, key.as_str()) {
            Some(i) => {
                proof {
                    lemma_map_of_update(before, i as int, value@);
                }
                entries.set(i, (key, value));
                assert(entries.deep_view() =~= before.update(i as int, (key@, value@)));
            },
            None => {
                proof {
                    lemma_map_of_push(before, key@, value@);
                    assert forall|j: int| 0 <= j < before.len() implies (#[trigger] before[j]).0
                        != key@ by {
                        if before[j].0 == key@ {
                            lemma_lookup_held(before, key@, j);
                        }
                    }
                }
                entries.push((key, value));
                assert(entries.deep_view() =~= before.push((key@, value@)));
            },
        }
        self.entries = entries;
    }

    /// The value of `key`, if it has one.
    pub fn get(&self, key: &str) -> (r: Option<&String>)
        ensures
            match r {
                Some(value) => self@.contains_key(key@) && value@ == self@[key@],
                None => !self@.contains_key(key@),
            },
    {
        match find_last(&self.entries, key) {
            Some(i) => Some(&self.entries[i].1),
            None => None,
        }
    }

    /// Tells whether `key` has a value.
    pub fn contains_key(&self, key: &str) -> (r: bool)
        ensures
            r == self@.contains_key(key@),
    {
        find_last(&self.entries, key).is_some()
    }

    /// The number of entries.
    pub fn len(&self) -> (r: usize)
        ensures
            r == self@.dom().len(),
            r == self.pairs().len(),
    {
        proof {
            use_type_invariant(self);
            lemma_map_of_len(self.entries.deep_view());
        }
        self.entries.len()
    }

    /// Tells whether the map has no entry.
    pub fn is_empty(&self) -> (r: bool)
        ensures
            r == (self@ == Map::<Seq<char>, Seq<char>>::empty()),
    {
        proof {
            use_type_invariant(self);
            lemma_map_of_len(self.entries.deep_view());
            if self.entries.len() == 0 {
                assert(self@ =~= Map::<Seq<char>, Seq<char>>::empty());
            }
        }
        self.entries.len() == 0
    }

    /// The entries in their order, each key once.
    pub fn entries(&self) -> (r: &Dict)
        ensures
            r.deep_view() == self.pairs(),
            distinct_keys(r.deep_view()),
    {
        proof {
            use_type_invariant(self);
        }
        &self.entries
    }
}

} // verus!
