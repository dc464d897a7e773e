//! The option dictionary: an ordered list of string pairs in which a key may
//! occur more than once.
//!
//! A key is a string in exact case: two keys that differ in the case of a
//! letter are two keys. A new value for a key that is present takes the place
//! of the old entry and moves to the end, and the entry that was last fills
//! the gap. A lookup compares in exact case unless its flags ask for
//! comparison without regard to ASCII case, or for keys that start with the
//! one that is given.

use vstd::prelude::*;
use vstd::std_specs::iter::IteratorSpec;
use crate::error::{Error, ErrorView};
use crate::util::text::{has_nul, lemma_concat_nul_free, NUL};

verus! {

/// The entries of a dictionary as pairs of key and value.
pub type Entries = Seq<(Seq<char>, Seq<char>)>;

/// How a key is compared when an entry is looked up.
#[derive(Debug, Clone, Copy, PartialEq, Eq, Structural, Hash)]
pub struct GetFlags {
    /// Letters match only in the same case.
    pub match_case: bool,
    /// The key matches every entry that starts with it.
    pub ignore_suffix: bool,
}

/// What happens when an entry is added for a key that is present.
#[derive(Debug, Clone, Copy, PartialEq, Eq, Structural, Hash)]
pub struct AddFlags {
    /// The new value is appended to the old one, with nothing in between.
    pub append: bool,
    /// The key gets one more entry and the present ones stay.
    pub multiple: bool,
}

impl GetFlags {
    /// The number that the native library reads for these flags.
    pub open spec fn spec_bits(self) -> int {
        (if self.match_case {
            1int
        } else {
            0int
        }) + (if self.ignore_suffix {
            2int
        } else {
            0int
        })
    }

    /// No flag: the whole key, without regard to ASCII case.
    pub fn empty() -> (flags: GetFlags)
        ensures
            flags == (GetFlags { match_case: false, ignore_suffix: false }),
    {
        GetFlags { match_case: false, ignore_suffix: false }
    }

    /// The whole key in exact case.
    pub fn match_case() -> (flags: GetFlags)
        ensures
            flags == (GetFlags { match_case: true, ignore_suffix: false }),
    {
        GetFlags { match_case: true, ignore_suffix: false }
    }

    /// Every entry that starts with the key, without regard to ASCII case.
    pub fn ignore_suffix() -> (flags: GetFlags)
        ensures
            flags == (GetFlags { match_case: false, ignore_suffix: true }),
    {
        GetFlags { match_case: false, ignore_suffix: true }
    }

    /// The number that the native library reads for these flags.
    pub fn bits(self) -> (bits: i32)
        ensures
            bits == self.spec_bits(),
    {
        let case: i32 = if self.match_case {
            1
        } else {
            0
        };
        let suffix: i32 = if self.ignore_suffix {
            2
        } else {
            0
        };
        case + suffix
    }
}

impl AddFlags {
    /// The number that the native library reads for these flags.
    pub open spec fn spec_bits(self) -> int {
        (if self.append {
            32int
        } else {
            0int
        }) + (if self.multiple {
            64int
        } else {
            0int
        })
    }

    /// No flag: the new value takes the place of the old one.
    pub fn empty() -> (flags: AddFlags)
        ensures
            flags == (AddFlags { append: false, multiple: false }),
    {
        AddFlags { append: false, multiple: false }
    }

    /// The new value is appended to the old one.
    pub fn append() -> (flags: AddFlags)
        ensures
            flags == (AddFlags { append: true, multiple: false }),
    {
        AddFlags { append: true, multiple: false }
    }

    /// The key gets one more entry.
    pub fn multiple() -> (flags: AddFlags)
        ensures
            flags == (AddFlags { append: false, multiple: true }),
    {
        AddFlags { append: false, multiple: true }
    }

    /// The number that the native library reads for these flags.
    pub fn bits(self) -> (bits: i32)
        ensures
            bits == self.spec_bits(),
    {
        let append: i32 = if self.append {
            32
        } else {
            0
        };
        let multiple: i32 = if self.multiple {
            64
        } else {
            0
        };
        append + multiple
    }
}

/// The code of a character with the ASCII lower case letters turned into
/// upper case.
pub open spec fn spec_fold_case(c: char) -> u32 {
    if 'a' <= c <= 'z' {
        (c as u32 - 32) as u32
    } else {
        c as u32
    }
}

/// Whether two characters are the same for a lookup.
pub open spec fn spec_chars_match(a: char, b: char, match_case: bool) -> bool {
    if match_case {
        a == b
    } else {
        spec_fold_case(a) == spec_fold_case(b)
    }
}

/// Whether the key of an entry is matched by the key that is looked up.
pub open spec fn spec_key_matches(stored: Seq<char>, key: Seq<char>, flags: GetFlags) -> bool {
    &&& key.len() <= stored.len()
    &&& flags.ignore_suffix || key.len() == stored.len()
    &&& forall|i: int|
        0 <= i < key.len() ==> spec_chars_match(#[trigger] stored[i], key[i], flags.match_case)
}

/// The place of the first entry at or after `from` that the key matches.
pub open spec fn spec_find(entries: Entries, key: Seq<char>, flags: GetFlags, from: int) -> Option<
    int,
>
    decreases entries.len() - from,
{
    if from < 0 || from >= entries.len() {
        None
    } else if spec_key_matches(entries[from].0, key, flags) {
        Some(from)
    } else {
        spec_find(entries, key, flags, from + 1)
    }
}

/// The value of the first entry that the key matches.
pub open spec fn spec_get(entries: Entries, key: Seq<char>, flags: GetFlags) -> Option<Seq<char>> {
    match spec_find(entries, key, flags, 0) {
        Some(i) => Some(entries[i].1),
        None => None,
    }
}

/// The values of all entries that the key matches, in the order of the
/// entries.
pub open spec fn spec_get_all(entries: Entries, key: Seq<char>, flags: GetFlags) -> Seq<Seq<char>>
    decreases entries.len(),
{
    if entries.len() == 0 {
        Seq::empty()
    } else if spec_key_matches(entries.last().0, key, flags) {
        spec_get_all(entries.drop_last(), key, flags).push(entries.last().1)
    } else {
        spec_get_all(entries.drop_last(), key, flags)
    }
}

/// The entries without the one at `i`: the last entry takes its place.
pub open spec fn spec_swap_removed(entries: Entries, i: int) -> Entries {
    entries.update(i, entries.last()).drop_last()
}

/// The flags under which a key matches only itself.
pub open spec fn spec_exact() -> GetFlags {
    GetFlags { match_case: true, ignore_suffix: false }
}

/// The entries after a pair was added. Unless the key may have several
/// entries, the first entry with exactly this key is taken out, the last
/// entry takes its place, and the new entry goes to the end.
pub open spec fn spec_added(entries: Entries, key: Seq<char>, value: Seq<char>, flags: AddFlags)
    -> Entries {
    if flags.multiple {
        entries.push((key, value))
    } else {
        match spec_find(entries, key, spec_exact(), 0) {
            None => entries.push((key, value)),
            Some(i) => spec_swap_removed(entries, i).push(
                (
                    key,
                    if flags.append {
                        entries[i].1 + value
                    } else {
                        value
                    },
                ),
            ),
        }
    }
}

/// Whether no key and no value holds a NUL.
pub open spec fn spec_nul_free(entries: Entries) -> bool {
    forall|i: int|
        0 <= i < entries.len() ==> !(#[trigger] entries[i]).0.contains(NUL) && !entries[i].1.contains(
            NUL,
        )
}

/// The keys of the entries, in their order.
pub open spec fn spec_keys(entries: Entries) -> Seq<Seq<char>> {
    Seq::new(entries.len(), |i: int| entries[i].0)
}

/// The values of the entries, in their order.
pub open spec fn spec_values(entries: Entries) -> Seq<Seq<char>> {
    Seq::new(entries.len(), |i: int| entries[i].1)
}

/// Compares two characters for a lookup.
fn chars_match(a: char, b: char, match_case: bool) -> (same: bool)
    ensures
        same == spec_chars_match(a, b, match_case),
{
    if match_case {
        a == b
    } else {
        let x: u32 = if 'a' <= a && a <= 'z' {
            a as u32 - 32
        } else {
            a as u32
        };
        let y: u32 = if 'a' <= b && b <= 'z' {
            b as u32 - 32
        } else {
            b as u32
        };
        x == y
    }
}

/// Tells whether the key of an entry is matched by the key that is looked
/// up.
pub fn key_matches(stored: &str, key: &str, flags: GetFlags) -> (matched: bool)
    ensures
        matched == spec_key_matches(stored@, key@, flags),
{
    broadcast use vstd::string::group_string_axioms;

    let mut stored_chars = stored.chars();
    let mut key_chars = key.chars();
    let ghost mut n: int = 0;
    loop
        invariant
            0 <= n <= stored@.len(),
            n <= key@.len(),
            stored_chars.remaining() == stored@.skip(n),
            key_chars.remaining() == key@.skip(n),
            forall|i: int| 0 <= i < n ==> spec_chars_match(#[trigger] stored@[i], key@[i], flags.match_case),
            stored_chars.decrease() is Some,
            key_chars.decrease() is Some,
        decreases key_chars.decrease()->0,
    {
        match key_chars.next() {
            None => {
                assert(key@.len() == n);
                if flags.ignore_suffix {
                    return true;
                }
                match stored_chars.next() {
                    None => {
                        assert(stored@.len() == n);
                        return true;
                    },
                    Some(_) => {
                        assert(stored@.len() > n);
                        return false;
                    },
                }
            },
            Some(k) => {
                assert(key@.skip(n)[0] == k);
                assert(key@.skip(n).drop_first() =~= key@.skip(n + 1));
                match stored_chars.next() {
                    None => {
                        assert(stored@.len() == n);
                        return false;
                    },
                    Some(s) => {
                        assert(stored@.skip(n)[0] == s);
                        assert(stored@.skip(n).drop_first() =~= stored@.skip(n + 1));
                        if !chars_match(s, k, flags.match_case) {
                            assert(!spec_chars_match(stored@[n], key@[n], flags.match_case));
                            return false;
                        }
                        proof {
                            n = n + 1;
                        }
                    },
                }
            },
        }
    }
}

/// One pair of a dictionary.
#[derive(Debug)]
struct Entry {
    key: String,
    value: String,
}

/// An option dictionary.
#[derive(Debug)]
pub struct Dictionary {
    entries: Vec<Entry>,
}

impl View for Dictionary {
    type V = Entries;

    closed spec fn view(&self) -> Entries {
        Seq::new(self.entries@.len(), |i: int| (self.entries@[i].key@, self.entries@[i].value@))
    }
}

impl Dictionary {
    /// No entry holds a NUL, so every entry can be handed to the native
    /// layer.
    #[verifier::type_invariant]
    pub closed spec fn wf(self) -> bool {
        spec_nul_free(self@)
    }

    /// An empty dictionary.
    pub fn new() -> (dict: Dictionary)
        ensures
            dict@ == Entries::empty(),
    {
        let dict = Dictionary { entries: Vec::new() };
        assert(dict@ =~= Entries::empty());
        dict
    }

    /// The number of entries. No entry holds a NUL.
    pub fn len(&self) -> (n: usize)
        ensures
            n == self@.len(),
            spec_nul_free(self@),
    {
        proof {
            use_type_invariant(self);
        }
        self.entries.len()
    }

    /// Whether there is no entry.
    pub fn is_empty(&self) -> (empty: bool)
        ensures
            empty == (self@.len() == 0),
    {
        self.entries.len() == 0
    }

    /// The place of the first entry at or after `from` that the key matches.
    fn find(&self, key: &str, flags: GetFlags, from: usize) -> (place: Option<usize>)
        ensures
            place is Some <==> spec_find(self@, key@, flags, from as int) is Some,
            place matches Some(i) ==> spec_find(self@, key@, flags, from as int) == Some(i as int)
                && from <= i < self@.len(),
    {
        let mut i: usize = from;
        while i < self.entries.len()
            invariant
                from <= i,
                spec_find(self@, key@, flags, from as int) == spec_find(self@, key@, flags, i as int),
            decreases self.entries.len() - i,
        {
            if key_matches(self.entries[i].key.as_str(), key, flags) {
                return Some(i);
            }
            i += 1;
        }
        None
    }

    /// Adds a value for a key. A value that exactly this key already has is
    /// replaced; a key that differs in the case of a letter is another key.
    ///
    /// Fails, and leaves the dictionary as it is, if the key or the value
    /// holds a NUL.
    pub fn add(&mut self, key: &str, value: &str) -> (result: Result<(), Error>)
        ensures
            result is Err <==> key@.contains(NUL) || value@.contains(NUL),
            result matches Err(e) ==> e@ == ErrorView::FFIString && final(self)@ == old(self)@,
            result is Ok ==> final(self)@ == spec_added(
                old(self)@,
                key@,
                value@,
                AddFlags { append: false, multiple: false },
            ),
    {
        self.add_with_flags(key, value, AddFlags::empty())
    }

    /// Adds a value for a key in the way that the flags ask for.
    ///
    /// Fails, and leaves the dictionary as it is, if the key or the value
    /// holds a NUL.
    pub fn add_with_flags(&mut self, key: &str, value: &str, flags: AddFlags) -> (result: Result<
        (),
        Error,
    >)
        ensures
            result is Err <==> key@.contains(NUL) || value@.contains(NUL),
            result matches Err(e) ==> e@ == ErrorView::FFIString && final(self)@ == old(self)@,
            result is Ok ==> final(self)@ == spec_added(old(self)@, key@, value@, flags),
    {
        proof {
            use_type_invariant(&*self);
        }
        if has_nul(key) || has_nul(value) {
            return Err(Error::FFIString);
        }
        let found = if flags.multiple {
            None
        } else {
            self.find(key, GetFlags::match_case(), 0)
        };
        let ghost before = self@;
        let mut entries: Vec<Entry> = Vec::new();
        core::mem::swap(&mut self.entries, &mut entries);
        let ghost held = Seq::new(entries@.len(), |i: int| (entries@[i].key@, entries@[i].value@));
        assert(held =~= before);
        let new_value = match found {
            None => String::from_str(value),
            Some(i) => {
                let old_entry = entries.swap_remove(i);
                if flags.append {
                    proof {
                        lemma_concat_nul_free(old_entry.value@, value@);
                    }
                    old_entry.value.concat(value)
                } else {
                    String::from_str(value)
                }
            },
        };
        assert(!new_value@.contains(NUL));
        let entry = Entry { key: String::from_str(key), value: new_value };
        entries.push(entry);
        let ghost after = Seq::new(entries@.len(), |i: int| (entries@[i].key@, entries@[i].value@));
        assert(after =~= spec_added(before, key@, value@, flags));
        assert(spec_nul_free(after)) by {
            assert forall|j: int| 0 <= j < after.len() implies !(#[trigger] after[j]).0.contains(NUL)
                && !after[j].1.contains(NUL) by {
                if j < after.len() - 1 {
                    if found is Some && j == found->0 {
                        assert(after[j] == before[before.len() - 1]);
                    } else {
                        assert(after[j] == before[j]);
                    }
                }
            }
        }
        core::mem::swap(&mut self.entries, &mut entries);
        assert(self@ =~= after);
        Ok(())
    }

    /// The value of the first entry with exactly this key.
    pub fn get(&self, key: &str) -> (value: Option<&str>)
        ensures
            value is Some <==> spec_get(
                self@,
                key@,
                GetFlags { match_case: true, ignore_suffix: false },
            ) is Some,
            value matches Some(v) ==> spec_get(
                self@,
                key@,
                GetFlags { match_case: true, ignore_suffix: false },
            ) == Some(v@),
    {
        self.get_with_flags(key, GetFlags::match_case())
    }

    /// The value of the first entry that the key matches under the flags.
    pub fn get_with_flags(&self, key: &str, flags: GetFlags) -> (value: Option<&str>)
        ensures
            value is Some <==> spec_get(self@, key@, flags) is Some,
            value matches Some(v) ==> spec_get(self@, key@, flags) == Some(v@),
    {
        match self.find(key, flags, 0) {
            Some(i) => Some(self.entries[i].value.as_str()),
            None => None,
        }
    }

    /// The values of all entries with exactly this key, in their order.
    pub fn get_all(&self, key: &str) -> (values: Vec<&str>)
        ensures
            values@.len() == spec_get_all(
                self@,
                key@,
                GetFlags { match_case: true, ignore_suffix: false },
            ).len(),
            forall|i: int|
                0 <= i < values@.len() ==> (#[trigger] values@[i])@ == spec_get_all(
                    self@,
                    key@,
                    GetFlags { match_case: true, ignore_suffix: false },
                )[i],
    {
        self.get_all_with_flags(key, GetFlags::match_case())
    }

    /// The values of all entries that the key matches under the flags, in
    /// their order.
    pub fn get_all_with_flags(&self, key: &str, flags: GetFlags) -> (values: Vec<&str>)
        ensures
            values@.len() == spec_get_all(self@, key@, flags).len(),
            forall|i: int|
                0 <= i < values@.len() ==> (#[trigger] values@[i])@ == spec_get_all(
                    self@,
                    key@,
                    flags,
                )[i],
    {
        let mut values: Vec<&str> = Vec::new();
        let mut i: usize = 0;
        assert(self@.take(0) =~= Entries::empty());
        while i < self.entries.len()
            invariant
                i <= self.entries.len(),
                values@.len() == spec_get_all(self@.take(i as int), key@, flags).len(),
                forall|j: int|
                    0 <= j < values@.len() ==> (#[trigger] values@[j])@ == spec_get_all(
                        self@.take(i as int),
                        key@,
                        flags,
                    )[j],
            decreases self.entries.len() - i,
        {
            assert(self@.take(i + 1).drop_last() =~= self@.take(i as int));
            assert(self@.take(i + 1).last() == self@[i as int]);
            if key_matches(self.entries[i].key.as_str(), key, flags) {
                values.push(self.entries[i].value.as_str());
            }
            i += 1;
        }
        assert(self@.take(i as int) =~= self@);
        values
    }

    /// A cursor over the keys, in the order of the entries.
    pub fn keys(&self) -> (keys: Keys<'_>)
        ensures
            keys@ == spec_keys(self@),
    {
        let keys = Keys { dict: self, next: 0 };
        assert(keys@ =~= spec_keys(self@));
        keys
    }

    /// A cursor over the values, in the order of the entries.
    pub fn values(&self) -> (values: Values<'_>)
        ensures
            values@ == spec_values(self@),
    {
        let values = Values { dict: self, next: 0 };
        assert(values@ =~= spec_values(self@));
        values
    }

    /// A cursor over the pairs, in the order of the entries. No pair holds a
    /// NUL.
    pub fn items(&self) -> (items: Items<'_>)
        ensures
            items@ == self@,
            spec_nul_free(self@),
    {
        proof {
            use_type_invariant(self);
        }
        let items = Items { dict: self, next: 0 };
        assert(items@ =~= self@);
        items
    }
}

impl Clone for Dictionary {
    /// A copy that holds the same entries and shares nothing with the
    /// dictionary that it was made from.
    fn clone(&self) -> (copy: Dictionary)
        ensures
            copy@ == self@,
    {
        proof {
            use_type_invariant(self);
        }
        let mut entries: Vec<Entry> = Vec::new();
        let mut i: usize = 0;
        while i < self.entries.len()
            invariant
                i <= self.entries.len(),
                entries@.len() == i,
                forall|j: int|
                    0 <= j < i ==> (#[trigger] entries@[j]).key@ == self.entries@[j].key@
                        && entries@[j].value@ == self.entries@[j].value@,
            decreases self.entries.len() - i,
        {
            let entry = Entry {
                key: self.entries[i].key.clone(),
                value: self.entries[i].value.clone(),
            };
            entries.push(entry);
            i += 1;
        }
        let ghost view = Seq::new(entries@.len(), |i: int| (entries@[i].key@, entries@[i].value@));
        assert(view =~= self@);
        Dictionary { entries }
    }
}

impl Default for Dictionary {
    fn default() -> (dict: Dictionary)
        ensures
            dict@ == Entries::empty(),
    {
        Dictionary::new()
    }
}

/// A key that is as long as no key of the dictionary is new to it: adding
/// it puts one more entry at the end.
pub proof fn lemma_add_new_key(entries: Entries, key: Seq<char>, value: Seq<char>)
    requires
        forall|i: int| 0 <= i < entries.len() ==> (#[trigger] entries[i]).0.len() != key.len(),
    ensures
        spec_added(entries, key, value, AddFlags { append: false, multiple: false })
            == entries.push((key, value)),
{
    lemma_find_none(entries, key, spec_exact(), 0);
}

/// A lookup that compares whole keys finds nothing among keys of other
/// lengths.
proof fn lemma_find_none(entries: Entries, key: Seq<char>, flags: GetFlags, from: int)
    requires
        !flags.ignore_suffix,
        0 <= from,
        forall|i: int| 0 <= i < entries.len() ==> (#[trigger] entries[i]).0.len() != key.len(),
    ensures
        spec_find(entries, key, flags, from) is None,
    decreases entries.len() - from,
{
    if from < entries.len() {
        assert(entries[from].0.len() != key.len());
        lemma_find_none(entries, key, flags, from + 1);
    }
}

/// Puts an option into a dictionary none of whose keys is as long as the
/// new one.
pub(crate) fn set_option(dict: &mut Dictionary, key: &str, value: &str)
    requires
        !key@.contains(NUL),
        !value@.contains(NUL),
        forall|i: int| 0 <= i < old(dict)@.len() ==> (#[trigger] old(dict)@[i]).0.len() != key@.len(),
    ensures
        final(dict)@ == old(dict)@.push((key@, value@)),
{
    proof {
        lemma_add_new_key(dict@, key@, value@);
    }
    let _ = dict.add(key, value);
}

/// A cursor over the keys of a dictionary. It can be made again at any time
/// and then starts from the first entry.
pub struct Keys<'dict> {
    dict: &'dict Dictionary,
    next: usize,
}

impl<'dict> View for Keys<'dict> {
    type V = Seq<Seq<char>>;

    /// The keys that are still to come.
    closed spec fn view(&self) -> Seq<Seq<char>> {
        spec_keys(self.dict@).skip(self.next as int)
    }
}

impl<'dict> Keys<'dict> {
    #[verifier::type_invariant]
    closed spec fn wf(self) -> bool {
        self.next <= self.dict@.len()
    }

    /// The next key, or nothing after the last one.
    pub fn next(&mut self) -> (key: Option<&'dict str>)
        ensures
            old(self)@.len() == 0 ==> key is None && final(self)@ == old(self)@,
            old(self)@.len() > 0 ==> (key matches Some(k) && k@ == old(self)@[0] && final(self)@
                == old(self)@.drop_first()),
    {
        proof {
            use_type_invariant(&*self);
        }
        if self.next < self.dict.entries.len() {
            let i = self.next;
            self.next = i + 1;
            assert(spec_keys(self.dict@).skip(i + 1) =~= spec_keys(self.dict@).skip(
                i as int,
            ).drop_first());
            Some(self.dict.entries[i].key.as_str())
        } else {
            None
        }
    }
}

/// A cursor over the values of a dictionary.
pub struct Values<'dict> {
    dict: &'dict Dictionary,
    next: usize,
}

impl<'dict> View for Values<'dict> {
    type V = Seq<Seq<char>>;

    /// The values that are still to come.
    closed spec fn view(&self) -> Seq<Seq<char>> {
        spec_values(self.dict@).skip(self.next as int)
    }
}

impl<'dict> Values<'dict> {
    #[verifier::type_invariant]
    closed spec fn wf(self) -> bool {
        self.next <= self.dict@.len()
    }

    /// The next value, or nothing after the last one.
    pub fn next(&mut self) -> (value: Option<&'dict str>)
        ensures
            old(self)@.len() == 0 ==> value is None && final(self)@ == old(self)@,
            old(self)@.len() > 0 ==> (value matches Some(v) && v@ == old(self)@[0]
                && final(self)@ == old(self)@.drop_first()),
    {
        proof {
            use_type_invariant(&*self);
        }
        if self.next < self.dict.entries.len() {
            let i = self.next;
            self.next = i + 1;
            assert(spec_values(self.dict@).skip(i + 1) =~= spec_values(self.dict@).skip(
                i as int,
            ).drop_first());
            Some(self.dict.entries[i].value.as_str())
        } else {
            None
        }
    }
}

/// A cursor over the pairs of a dictionary.
pub struct Items<'dict> {
    dict: &'dict Dictionary,
    next: usize,
}

impl<'dict> View for Items<'dict> {
    type V = Entries;

    /// The pairs that are still to come.
    closed spec fn view(&self) -> Entries {
        self.dict@.skip(self.next as int)
    }
}

impl<'dict> Items<'dict> {
    #[verifier::type_invariant]
    closed spec fn wf(self) -> bool {
        self.next <= self.dict@.len()
    }

    /// The next pair, or nothing after the last one.
    pub fn next(&mut self) -> (item: Option<(&'dict str, &'dict str)>)
        ensures
            old(self)@.len() == 0 ==> item is None && final(self)@ == old(self)@,
            old(self)@.len() > 0 ==> (item matches Some(pair) && (pair.0@, pair.1@) == old(
                self,
            )@[0] && final(self)@ == old(self)@.drop_first()),
    {
        proof {
            use_type_invariant(&*self);
        }
        if self.next < self.dict.entries.len() {
            let i = self.next;
            self.next = i + 1;
            assert(self.dict@.skip(i + 1) =~= self.dict@.skip(i as int).drop_first());
            Some((self.dict.entries[i].key.as_str(), self.dict.entries[i].value.as_str()))
        } else {
            None
        }
    }
}

} // verus!
