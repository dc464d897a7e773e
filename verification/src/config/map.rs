//! A map from strings to strings in which each key has one value.
//!
//! This is the form in which options are held outside a dictionary. Turning
//! a dictionary into a map keeps one value for each key, the one that was
//! added last; turning a map into a dictionary gives one entry for each key
//! of the map.

use vstd::prelude::*;
use crate::config::dict::{
    key_matches, spec_added, spec_exact, spec_find, spec_get, spec_get_all, spec_key_matches,
    AddFlags, Dictionary, Entries, GetFlags,
};
use crate::error::{Error, ErrorView};
use crate::util::text::NUL;

verus! {

/// The pairs after a value was set for a key: in the place of the old value
/// if the key is present, at the end otherwise.
pub open spec fn spec_inserted(pairs: Entries, key: Seq<char>, value: Seq<char>) -> Entries {
    match spec_find(pairs, key, spec_exact(), 0) {
        Some(i) => pairs.update(i, (pairs[i].0, value)),
        None => pairs.push((key, value)),
    }
}

/// Whether no key occurs twice.
pub open spec fn spec_distinct_keys(pairs: Entries) -> bool {
    forall|i: int, j: int|
        0 <= i < j < pairs.len() ==> !spec_key_matches(
            (#[trigger] pairs[i]).0,
            (#[trigger] pairs[j]).0,
            spec_exact(),
        )
}

/// The map that the entries of a dictionary give: for each key the value
/// that was added last.
pub open spec fn spec_to_map(entries: Entries) -> Entries
    decreases entries.len(),
{
    if entries.len() == 0 {
        Entries::empty()
    } else {
        spec_inserted(spec_to_map(entries.drop_last()), entries.last().0, entries.last().1)
    }
}

/// The entries of the dictionary that the pairs give when they are added one
/// by one.
pub open spec fn spec_from_pairs(pairs: Entries) -> Entries
    decreases pairs.len(),
{
    if pairs.len() == 0 {
        Entries::empty()
    } else {
        spec_added(
            spec_from_pairs(pairs.drop_last()),
            pairs.last().0,
            pairs.last().1,
            AddFlags { append: false, multiple: false },
        )
    }
}

/// Whether some key or value holds a NUL.
pub open spec fn spec_any_nul(pairs: Entries) -> bool {
    exists|i: int|
        0 <= i < pairs.len() && ((#[trigger] pairs[i]).0.contains(NUL) || pairs[i].1.contains(NUL))
}

/// One pair of a map.
#[derive(Debug)]
struct Pair {
    key: String,
    value: String,
}

/// A map from strings to strings.
#[derive(Debug)]
pub struct StringMap {
    pairs: Vec<Pair>,
}

impl View for StringMap {
    type V = Entries;

    /// The pairs, in the order in which their keys were first set.
    closed spec fn view(&self) -> Entries {
        Seq::new(self.pairs@.len(), |i: int| (self.pairs@[i].key@, self.pairs@[i].value@))
    }
}

impl StringMap {
    /// No key occurs twice.
    #[verifier::type_invariant]
    pub closed spec fn wf(self) -> bool {
        spec_distinct_keys(self@)
    }

    /// An empty map.
    pub fn new() -> (map: StringMap)
        ensures
            map@ == Entries::empty(),
    {
        let map = StringMap { pairs: Vec::new() };
        assert(map@ =~= Entries::empty());
        map
    }

    /// The number of keys.
    pub fn len(&self) -> (n: usize)
        ensures
            n == self@.len(),
            spec_distinct_keys(self@),
    {
        proof {
            use_type_invariant(self);
        }
        self.pairs.len()
    }

    /// The place of the key.
    fn find(&self, key: &str) -> (place: Option<usize>)
        ensures
            place is Some <==> spec_find(self@, key@, spec_exact(), 0) is Some,
            place matches Some(i) ==> spec_find(self@, key@, spec_exact(), 0) == Some(i as int)
                && i < self@.len(),
    {
        let mut i: usize = 0;
        while i < self.pairs.len()
            invariant
                spec_find(self@, key@, spec_exact(), 0) == spec_find(
                    self@,
                    key@,
                    spec_exact(),
                    i as int,
                ),
            decreases self.pairs.len() - i,
        {
            if key_matches(self.pairs[i].key.as_str(), key, GetFlags::match_case()) {
                return Some(i);
            }
            i += 1;
        }
        None
    }

    /// Sets the value of a key. A value that the key had is replaced.
    pub fn insert(&mut self, key: &str, value: &str)
        ensures
            final(self)@ == spec_inserted(old(self)@, key@, value@),
    {
        proof {
            use_type_invariant(&*self);
            lemma_inserted_distinct(self@, key@, value@);
        }
        let found = self.find(key);
        let ghost before = self@;
        let mut pairs: Vec<Pair> = Vec::new();
        core::mem::swap(&mut self.pairs, &mut pairs);
        let ghost held = Seq::new(pairs@.len(), |i: int| (pairs@[i].key@, pairs@[i].value@));
        assert(held =~= before);
        match found {
            Some(i) => {
                let stored = pairs[i].key.clone();
                pairs.set(i, Pair { key: stored, value: String::from_str(value) });
            },
            None => {
                pairs.push(Pair { key: String::from_str(key), value: String::from_str(value) });
            },
        }
        let ghost after = Seq::new(pairs@.len(), |i: int| (pairs@[i].key@, pairs@[i].value@));
        assert(after =~= spec_inserted(before, key@, value@));
        core::mem::swap(&mut self.pairs, &mut pairs);
        assert(self@ =~= after);
    }

    /// The value of a key.
    pub fn get(&self, key: &str) -> (value: Option<&str>)
        ensures
            match spec_find(self@, key@, spec_exact(), 0) {
                Some(i) => value matches Some(v) && v@ == self@[i].1,
                None => value is None,
            },
    {
        match self.find(key) {
            Some(i) => Some(self.pairs[i].value.as_str()),
            None => None,
        }
    }

    /// The key at a place, in the order in which the keys were first set.
    pub fn key_at(&self, i: usize) -> (key: &str)
        requires
            i < self@.len(),
        ensures
            key@ == self@[i as int].0,
    {
        self.pairs[i].key.as_str()
    }

    /// The value at a place.
    pub fn value_at(&self, i: usize) -> (value: &str)
        requires
            i < self@.len(),
        ensures
            value@ == self@[i as int].1,
    {
        self.pairs[i].value.as_str()
    }
}

impl Dictionary {
    /// The map that holds, for each key of the dictionary, the value that
    /// was added last. Where a key has several entries, all but that one are
    /// dropped.
    pub fn to_map(&self) -> (map: StringMap)
        ensures
            map@ == spec_to_map(self@),
    {
        let mut map = StringMap::new();
        let mut items = self.items();
        let ghost mut done: int = 0;
        assert(self@.take(0) =~= Entries::empty());
        loop
            invariant
                0 <= done <= self@.len(),
                items@ == self@.skip(done),
                map@ == spec_to_map(self@.take(done)),
            decreases self@.len() - done,
        {
            match items.next() {
                Some((key, value)) => {
                    assert(self@.skip(done)[0] == self@[done]);
                    assert(self@.take(done + 1).drop_last() =~= self@.take(done));
                    assert(self@.take(done + 1).last() == self@[done]);
                    assert(self@.skip(done).drop_first() =~= self@.skip(done + 1));
                    map.insert(key, value);
                    proof {
                        done = done + 1;
                    }
                },
                None => {
                    assert(self@.take(done) =~= self@);
                    return map;
                },
            }
        }
    }

    /// The dictionary that holds the pairs of a map: one entry for each key,
    /// in the order of the map. Fails if a key or a value holds a NUL.
    pub fn from_map(map: &StringMap) -> (result: Result<Dictionary, Error>)
        ensures
            result is Err <==> spec_any_nul(map@),
            result matches Err(e) ==> e@ == ErrorView::FFIString,
            result matches Ok(dict) ==> dict@ == map@ && dict@ == spec_from_pairs(map@),
    {
        let mut dict = Dictionary::new();
        let n = map.len();
        proof {
            lemma_from_pairs_of_distinct(map@);
        }
        let mut i: usize = 0;
        assert(map@.take(0) =~= Entries::empty());
        while i < n
            invariant
                i <= n == map@.len(),
                !spec_any_nul(map@.take(i as int)),
                dict@ == spec_from_pairs(map@.take(i as int)),
            decreases n - i,
        {
            assert(map@.take(i + 1).drop_last() =~= map@.take(i as int));
            assert(map@.take(i + 1).last() == map@[i as int]);
            match dict.add(map.key_at(i), map.value_at(i)) {
                Ok(()) => {},
                Err(e) => {
                    assert(map@[i as int].0.contains(NUL) || map@[i as int].1.contains(NUL));
                    return Err(e);
                },
            }
            assert(!spec_any_nul(map@.take(i + 1))) by {
                let longer = map@.take(i + 1);
                if spec_any_nul(longer) {
                    let j = choose|j: int|
                        0 <= j < longer.len() && ((#[trigger] longer[j]).0.contains(NUL)
                            || longer[j].1.contains(NUL));
                    if j < i {
                        assert(map@.take(i as int)[j] == longer[j]);
                    }
                }
            }
            i += 1;
        }
        assert(map@.take(i as int) =~= map@);
        Ok(dict)
    }
}

/// Setting a value keeps the keys distinct.
pub proof fn lemma_inserted_distinct(pairs: Entries, key: Seq<char>, value: Seq<char>)
    requires
        spec_distinct_keys(pairs),
    ensures
        spec_distinct_keys(spec_inserted(pairs, key, value)),
{
    let after = spec_inserted(pairs, key, value);
    lemma_find(pairs, key, spec_exact(), 0);
    assert forall|i: int, j: int| 0 <= i < j < after.len() implies !spec_key_matches(
        (#[trigger] after[i]).0,
        (#[trigger] after[j]).0,
        spec_exact(),
    ) by {
        match spec_find(pairs, key, spec_exact(), 0) {
            Some(at) => {
                assert(after[i].0 == pairs[i].0);
                assert(after[j].0 == pairs[j].0);
            },
            None => {
                if j == pairs.len() {
                    assert(!spec_matches_at(pairs, i, key, spec_exact()));
                    lemma_exact_is_equal(pairs[i].0, key);
                    lemma_exact_is_equal(pairs[i].0, after[j].0);
                } else {
                    assert(after[i] == pairs[i]);
                    assert(after[j] == pairs[j]);
                }
            },
        }
    }
}

/// Whether the key matches the entry at a place.
pub open spec fn spec_matches_at(entries: Entries, i: int, key: Seq<char>, flags: GetFlags)
    -> bool {
    spec_key_matches(entries[i].0, key, flags)
}

/// What a lookup finds: the first place at or after `from` that the key
/// matches, or nothing if it matches none.
pub proof fn lemma_find(entries: Entries, key: Seq<char>, flags: GetFlags, from: int)
    requires
        0 <= from,
    ensures
        match spec_find(entries, key, flags, from) {
            Some(i) => {
                &&& from <= i < entries.len()
                &&& spec_matches_at(entries, i, key, flags)
                &&& forall|j: int| from <= j < i ==> !#[trigger] spec_matches_at(entries, j, key, flags)
            },
            None => forall|j: int|
                from <= j < entries.len() ==> !#[trigger] spec_matches_at(entries, j, key, flags),
        },
    decreases entries.len() - from,
{
    if from < entries.len() {
        if !spec_key_matches(entries[from].0, key, flags) {
            lemma_find(entries, key, flags, from + 1);
            assert(!spec_matches_at(entries, from, key, flags));
        }
    }
}

/// Under exact comparison a key matches another exactly if the two are the
/// same.
pub proof fn lemma_exact_is_equal(a: Seq<char>, b: Seq<char>)
    ensures
        spec_key_matches(a, b, spec_exact()) <==> a == b,
{
    if spec_key_matches(a, b, spec_exact()) {
        assert(a =~= b);
    }
}


/// Whether the entry at `i` is `(key, value)` and no other entry has the
/// key.
pub open spec fn spec_is_only_at(entries: Entries, i: int, key: Seq<char>, value: Seq<char>)
    -> bool {
    &&& 0 <= i < entries.len()
    &&& entries[i] == (key, value)
    &&& forall|j: int|
        0 <= j < entries.len() && j != i ==> !#[trigger] spec_matches_at(
            entries,
            j,
            key,
            spec_exact(),
        )
}

/// Whether the key has one entry, with the value.
pub open spec fn spec_only_entry(entries: Entries, key: Seq<char>, value: Seq<char>) -> bool {
    exists|i: int| #[trigger] spec_is_only_at(entries, i, key, value)
}

/// Whether some entry has exactly this key.
pub open spec fn spec_has_key(entries: Entries, key: Seq<char>) -> bool {
    exists|i: int| 0 <= i < entries.len() && (#[trigger] entries[i]).0 == key
}

/// Whether every key of `inner` is a key of `outer`.
pub open spec fn spec_keys_within(inner: Entries, outer: Entries) -> bool {
    forall|j: int| 0 <= j < inner.len() ==> spec_has_key(outer, (#[trigger] inner[j]).0)
}

/// The value of the last entry with exactly this key.
pub open spec fn spec_last_value(entries: Entries, key: Seq<char>) -> Option<Seq<char>>
    decreases entries.len(),
{
    if entries.len() == 0 {
        None
    } else if entries.last().0 == key {
        Some(entries.last().1)
    } else {
        spec_last_value(entries.drop_last(), key)
    }
}

/// A key matches itself.
pub proof fn lemma_matches_itself(a: Seq<char>, flags: GetFlags)
    ensures
        spec_key_matches(a, a, flags),
{
}

/// The keys of the map of a dictionary are distinct and are keys of the
/// dictionary, and the map holds the last value of each key.
pub proof fn lemma_to_map(entries: Entries, key: Seq<char>)
    ensures
        spec_distinct_keys(spec_to_map(entries)),
        spec_keys_within(spec_to_map(entries), entries),
        match spec_last_value(entries, key) {
            Some(value) => exists|i: int|
                0 <= i < spec_to_map(entries).len() && #[trigger] spec_to_map(entries)[i] == (
                    key,
                    value,
                ),
            None => !spec_has_key(spec_to_map(entries), key),
        },
    decreases entries.len(),
{
    let map = spec_to_map(entries);
    if entries.len() == 0 {
    } else {
        let rest = entries.drop_last();
        let before = spec_to_map(rest);
        let (k, v) = entries.last();
        lemma_to_map(rest, key);
        lemma_inserted_distinct(before, k, v);
        lemma_find(before, k, spec_exact(), 0);
        let found = spec_find(before, k, spec_exact(), 0);
        if let Some(at) = found {
            assert(spec_matches_at(before, at, k, spec_exact()));
            lemma_exact_is_equal(before[at].0, k);
        }
        assert forall|j: int| 0 <= j < map.len() implies spec_has_key(
            entries,
            (#[trigger] map[j]).0,
        ) by {
            if j < before.len() {
                assert(map[j].0 == before[j].0);
                assert(spec_has_key(rest, before[j].0));
                let i = choose|i: int| 0 <= i < rest.len() && (#[trigger] rest[i]).0 == before[j].0;
                assert(entries[i] == rest[i]);
            } else {
                assert(entries[entries.len() - 1].0 == k);
            }
        }
        if k == key {
            match found {
                Some(at) => {
                    assert(map[at] == (key, v));
                },
                None => {
                    assert(map[before.len() as int] == (key, v));
                },
            }
        } else {
            match spec_last_value(rest, key) {
                Some(value) => {
                    let i = choose|i: int| 0 <= i < before.len() && #[trigger] before[i] == (
                        key,
                        value,
                    );
                    assert(map[i] == (key, value));
                },
                None => {
                    if spec_has_key(map, key) {
                        let i = choose|i: int| 0 <= i < map.len() && (#[trigger] map[i]).0 == key;
                        if i < before.len() {
                            assert(before[i].0 == key);
                        }
                    }
                },
            }
        }
    }
}

/// Pairs with distinct keys give, added one by one, a dictionary with
/// exactly these pairs in their order: no pair takes the place of another.
pub proof fn lemma_from_pairs_of_distinct(pairs: Entries)
    requires
        spec_distinct_keys(pairs),
    ensures
        spec_from_pairs(pairs) == pairs,
    decreases pairs.len(),
{
    if pairs.len() == 0 {
        assert(pairs =~= Entries::empty());
    } else {
        let rest = pairs.drop_last();
        let (k, v) = pairs.last();
        assert(spec_distinct_keys(rest)) by {
            assert forall|i: int, j: int| 0 <= i < j < rest.len() implies !spec_key_matches(
                (#[trigger] rest[i]).0,
                (#[trigger] rest[j]).0,
                spec_exact(),
            ) by {
                assert(rest[i] == pairs[i]);
                assert(rest[j] == pairs[j]);
            }
        }
        lemma_from_pairs_of_distinct(rest);
        lemma_find(rest, k, spec_exact(), 0);
        if let Some(at) = spec_find(rest, k, spec_exact(), 0) {
            assert(spec_matches_at(rest, at, k, spec_exact()));
            assert(rest[at] == pairs[at]);
            assert(pairs[pairs.len() - 1].0 == k);
            assert(!spec_key_matches(pairs[at].0, pairs[pairs.len() - 1].0, spec_exact()));
        }
        assert(rest.push((k, v)) =~= pairs);
    }
}

/// Turning a dictionary into a map and the map back into a dictionary keeps
/// every key: the dictionary that comes back has one entry for the key, with
/// the value that was added last. A key with one value keeps that value; a
/// key with several entries is left with the last of them. Keys that differ
/// in the case of a letter are kept apart.
pub proof fn lemma_round_trip(entries: Entries, key: Seq<char>, value: Seq<char>)
    requires
        spec_last_value(entries, key) == Some(value),
    ensures
        spec_from_pairs(spec_to_map(entries)) == spec_to_map(entries),
        spec_only_entry(spec_from_pairs(spec_to_map(entries)), key, value),
        spec_get(spec_from_pairs(spec_to_map(entries)), key, spec_exact()) == Some(value),
        spec_get_all(spec_from_pairs(spec_to_map(entries)), key, spec_exact()) == seq![value],
{
    let map = spec_to_map(entries);
    lemma_to_map(entries, key);
    lemma_from_pairs_of_distinct(map);
    let at = choose|i: int| 0 <= i < map.len() && #[trigger] map[i] == (key, value);
    assert(spec_is_only_at(map, at, key, value)) by {
        assert forall|j: int| 0 <= j < map.len() && j != at implies !#[trigger] spec_matches_at(
            map,
            j,
            key,
            spec_exact(),
        ) by {
            if spec_matches_at(map, j, key, spec_exact()) {
                lemma_exact_is_equal(map[j].0, key);
                lemma_matches_itself(key, spec_exact());
                if j < at {
                    assert(spec_key_matches(map[j].0, map[at].0, spec_exact()));
                } else {
                    assert(spec_key_matches(map[at].0, map[j].0, spec_exact()));
                }
            }
        }
    }
    lemma_only_entry_is_found(map, key, value);
}

/// A key that the dictionary does not have is not in the dictionary that
/// comes back from the map either: the round trip makes up no key.
pub proof fn lemma_round_trip_adds_no_key(entries: Entries, key: Seq<char>)
    requires
        spec_last_value(entries, key) is None,
    ensures
        !spec_has_key(spec_from_pairs(spec_to_map(entries)), key),
{
    lemma_to_map(entries, key);
    lemma_from_pairs_of_distinct(spec_to_map(entries));
}

/// The only entry for a key is what a lookup of the key finds, and all that
/// it finds.
pub proof fn lemma_only_entry_is_found(entries: Entries, key: Seq<char>, value: Seq<char>)
    requires
        spec_only_entry(entries, key, value),
    ensures
        spec_get(entries, key, spec_exact()) == Some(value),
        spec_get_all(entries, key, spec_exact()) == seq![value],
{
    let at = choose|i: int| #[trigger] spec_is_only_at(entries, i, key, value);
    lemma_find(entries, key, spec_exact(), 0);
    lemma_matches_itself(key, spec_exact());
    assert(spec_matches_at(entries, at, key, spec_exact()));
    lemma_get_all_of_only(entries, entries.len() as int, at, key, value);
    assert(entries.take(entries.len() as int) =~= entries);
}

/// The values that a lookup finds among the first `n` entries, where one
/// entry alone has the key.
proof fn lemma_get_all_of_only(entries: Entries, n: int, at: int, key: Seq<char>, value: Seq<char>)
    requires
        0 <= n <= entries.len(),
        0 <= at < entries.len(),
        entries[at] == (key, value),
        spec_matches_at(entries, at, key, spec_exact()),
        forall|j: int|
            0 <= j < entries.len() && j != at ==> !#[trigger] spec_matches_at(
                entries,
                j,
                key,
                spec_exact(),
            ),
    ensures
        spec_get_all(entries.take(n), key, spec_exact()) == (if at < n {
            seq![value]
        } else {
            Seq::<Seq<char>>::empty()
        }),
    decreases n,
{
    let prefix = entries.take(n);
    if n > 0 {
        assert(prefix.drop_last() =~= entries.take(n - 1));
        assert(prefix.last() == entries[n - 1]);
        lemma_get_all_of_only(entries, n - 1, at, key, value);
        if n - 1 == at {
            assert(Seq::<Seq<char>>::empty().push(value) =~= seq![value]);
        } else {
            assert(!spec_matches_at(entries, n - 1, key, spec_exact()));
        }
    }
}

/// What is added to a copy of a dictionary is added to the copy alone: the
/// source holds afterwards what it held before, and the copy holds what the
/// source would hold had the pair been added to it instead.
pub proof fn lemma_copy_is_independent(
    source: Dictionary,
    copy: Dictionary,
    changed: Dictionary,
    key: Seq<char>,
    value: Seq<char>,
    flags: AddFlags,
)
    requires
        copy@ == source@,
        changed@ == spec_added(copy@, key, value, flags),
    ensures
        source@ == copy@,
        changed@ == spec_added(source@, key, value, flags),
{
}

} // verus!
