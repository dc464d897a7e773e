use ffav::config::{AddFlags, Dictionary, GetFlags, StringMap};
use ffav::config::dict::key_matches;
use ffav::error::Error;

fn items(dict: &Dictionary) -> Vec<(String, String)> {
    let mut out = Vec::new();
    let mut cursor = dict.items();
    while let Some((k, v)) = cursor.next() {
        out.push((k.to_string(), v.to_string()));
    }
    out
}

fn pairs(list: &[(&str, &str)]) -> Vec<(String, String)> {
    list.iter().map(|(k, v)| (k.to_string(), v.to_string())).collect()
}

#[test]
fn new_dictionary_is_empty() {
    let dict = Dictionary::new();
    assert_eq!(dict.len(), 0);
    assert!(dict.is_empty());
    assert_eq!(dict.get("anything"), None);
    assert!(dict.get_all("anything").is_empty());
    assert!(Dictionary::default().is_empty());
}

#[test]
fn add_then_get_gives_the_value() {
    let mut dict = Dictionary::new();
    assert_eq!(dict.add("sample_rate", "44100"), Ok(()));
    assert_eq!(dict.add("channels", "2"), Ok(()));
    assert_eq!(dict.get("sample_rate"), Some("44100"));
    assert_eq!(dict.get("channels"), Some("2"));
    assert_eq!(dict.get("missing"), None);
    assert_eq!(dict.len(), 2);
}

#[test]
fn add_refuses_a_nul_in_key_or_value() {
    let mut dict = Dictionary::new();
    dict.add("a", "1").unwrap();
    assert_eq!(dict.add("k\0", "v"), Err(Error::FFIString));
    assert_eq!(dict.add("k", "v\0w"), Err(Error::FFIString));
    assert_eq!(dict.add_with_flags("\0", "v", AddFlags::multiple()), Err(Error::FFIString));
    assert_eq!(items(&dict), pairs(&[("a", "1")]));
}

#[test]
fn add_replaces_only_the_entry_of_the_very_key() {
    let mut dict = Dictionary::new();
    dict.add("Key", "1").unwrap();
    dict.add("other", "x").unwrap();
    dict.add("KEY", "2").unwrap();
    assert_eq!(items(&dict), pairs(&[("Key", "1"), ("other", "x"), ("KEY", "2")]));
    assert_eq!(dict.get("Key"), Some("1"));
    assert_eq!(dict.get("KEY"), Some("2"));
    dict.add("Key", "3").unwrap();
    assert_eq!(items(&dict), pairs(&[("KEY", "2"), ("other", "x"), ("Key", "3")]));
    assert_eq!(dict.get_all_with_flags("key", GetFlags::empty()), vec!["2", "3"]);
}

#[test]
fn replaced_entry_moves_to_the_end_and_last_fills_the_gap() {
    let mut dict = Dictionary::new();
    dict.add("a", "1").unwrap();
    dict.add("b", "2").unwrap();
    dict.add("c", "3").unwrap();
    dict.add("a", "9").unwrap();
    assert_eq!(items(&dict), pairs(&[("c", "3"), ("b", "2"), ("a", "9")]));
    dict.add("a", "10").unwrap();
    assert_eq!(items(&dict), pairs(&[("c", "3"), ("b", "2"), ("a", "10")]));
}

#[test]
fn append_joins_the_values() {
    let mut dict = Dictionary::new();
    dict.add("list", "a").unwrap();
    dict.add_with_flags("list", "b", AddFlags::append()).unwrap();
    assert_eq!(dict.get("list"), Some("ab"));
    dict.add_with_flags("fresh", "x", AddFlags::append()).unwrap();
    assert_eq!(dict.get("fresh"), Some("x"));
    assert_eq!(dict.len(), 2);
}

#[test]
fn multiple_keeps_every_entry() {
    let mut dict = Dictionary::new();
    dict.add_with_flags("k", "1", AddFlags::multiple()).unwrap();
    dict.add_with_flags("k", "2", AddFlags::multiple()).unwrap();
    dict.add_with_flags("K", "3", AddFlags::multiple()).unwrap();
    assert_eq!(dict.len(), 3);
    assert_eq!(dict.get("k"), Some("1"));
    assert_eq!(dict.get_all("k"), vec!["1", "2"]);
    assert_eq!(dict.get_all_with_flags("k", GetFlags::empty()), vec!["1", "2", "3"]);
}

#[test]
fn lookup_can_ignore_case_and_suffix() {
    let mut dict = Dictionary::new();
    dict.add("Title", "t").unwrap();
    dict.add("title-eng", "e").unwrap();
    assert_eq!(dict.get("title"), None);
    assert_eq!(dict.get_with_flags("title", GetFlags::empty()), Some("t"));
    assert_eq!(dict.get_with_flags("title", GetFlags::ignore_suffix()), Some("t"));
    assert_eq!(
        dict.get_with_flags("title-", GetFlags { match_case: true, ignore_suffix: true }),
        Some("e")
    );
    assert_eq!(
        dict.get_all_with_flags("TIT", GetFlags::ignore_suffix()),
        vec!["t", "e"]
    );
    assert_eq!(dict.get_all_with_flags("", GetFlags::ignore_suffix()), vec!["t", "e"]);
    assert_eq!(dict.get_with_flags("titles", GetFlags::ignore_suffix()), None);
}

#[test]
fn key_matching_rules() {
    assert!(key_matches("abc", "abc", GetFlags::match_case()));
    assert!(!key_matches("abc", "ABC", GetFlags::match_case()));
    assert!(key_matches("abc", "ABC", GetFlags::empty()));
    assert!(!key_matches("abc", "ab", GetFlags::empty()));
    assert!(key_matches("abc", "ab", GetFlags::ignore_suffix()));
    assert!(!key_matches("ab", "abc", GetFlags::ignore_suffix()));
    assert!(key_matches("", "", GetFlags::match_case()));
    assert!(!key_matches("é", "É", GetFlags::empty()));
    assert!(!key_matches("[", "{", GetFlags::empty()));
    assert!(!key_matches("@", "`", GetFlags::empty()));
}

#[test]
fn flags_have_the_native_numbers() {
    assert_eq!(GetFlags::empty().bits(), 0);
    assert_eq!(GetFlags::match_case().bits(), 1);
    assert_eq!(GetFlags::ignore_suffix().bits(), 2);
    assert_eq!(GetFlags { match_case: true, ignore_suffix: true }.bits(), 3);
    assert_eq!(AddFlags::empty().bits(), 0);
    assert_eq!(AddFlags::append().bits(), 32);
    assert_eq!(AddFlags::multiple().bits(), 64);
    assert_eq!(AddFlags { append: true, multiple: true }.bits(), 96);
}

#[test]
fn cursors_walk_the_entries_in_order() {
    let mut dict = Dictionary::new();
    dict.add("a", "1").unwrap();
    dict.add("b", "2").unwrap();
    let mut keys = dict.keys();
    assert_eq!(keys.next(), Some("a"));
    assert_eq!(keys.next(), Some("b"));
    assert_eq!(keys.next(), None);
    assert_eq!(keys.next(), None);
    let mut values = dict.values();
    assert_eq!(values.next(), Some("1"));
    assert_eq!(values.next(), Some("2"));
    assert_eq!(values.next(), None);
    let mut again = dict.keys();
    assert_eq!(again.next(), Some("a"));
    let mut all = dict.items();
    assert_eq!(all.next(), Some(("a", "1")));
    assert_eq!(all.next(), Some(("b", "2")));
    assert_eq!(all.next(), None);
}

#[test]
fn clone_then_mutate_leaves_the_source() {
    let mut source = Dictionary::new();
    source.add("a", "1").unwrap();
    source.add("b", "2").unwrap();
    let mut copy = source.clone();
    assert_eq!(items(&copy), items(&source));
    copy.add("a", "changed").unwrap();
    copy.add("c", "3").unwrap();
    copy.add_with_flags("b", "+", AddFlags::append()).unwrap();
    assert_eq!(items(&source), pairs(&[("a", "1"), ("b", "2")]));
    assert_eq!(copy.get("a"), Some("changed"));
    assert_eq!(copy.get("b"), Some("2+"));
    assert_eq!(copy.get("c"), Some("3"));
    source.add("d", "4").unwrap();
    assert_eq!(copy.get("d"), None);
}

#[test]
fn map_round_trip_keeps_single_values() {
    let mut dict = Dictionary::new();
    dict.add("time_base", "1/44100").unwrap();
    dict.add("sample_fmt", "s16").unwrap();
    dict.add("channel_layout", "0x3").unwrap();
    let map = dict.to_map();
    assert_eq!(map.len(), 3);
    assert_eq!(map.get("sample_fmt"), Some("s16"));
    let back = Dictionary::from_map(&map).unwrap();
    assert_eq!(back.len(), 3);
    assert_eq!(back.get("time_base"), Some("1/44100"));
    assert_eq!(back.get("sample_fmt"), Some("s16"));
    assert_eq!(back.get("channel_layout"), Some("0x3"));
    assert_eq!(back.get_all("sample_fmt"), vec!["s16"]);
}

#[test]
fn map_round_trip_collapses_duplicate_keys() {
    let mut dict = Dictionary::new();
    dict.add_with_flags("k", "first", AddFlags::multiple()).unwrap();
    dict.add("other", "x").unwrap();
    dict.add_with_flags("k", "second", AddFlags::multiple()).unwrap();
    assert_eq!(dict.get_all("k"), vec!["first", "second"]);
    let map = dict.to_map();
    assert_eq!(map.len(), 2);
    assert_eq!(map.get("k"), Some("second"));
    let back = Dictionary::from_map(&map).unwrap();
    assert_eq!(back.len(), 2);
    assert_eq!(back.get_all("k"), vec!["second"]);
    assert_eq!(back.get("other"), Some("x"));
}

#[test]
fn keys_that_differ_in_case_both_come_back() {
    let mut dict = Dictionary::new();
    dict.add("a", "1").unwrap();
    dict.add("A", "2").unwrap();
    let map = dict.to_map();
    assert_eq!(map.len(), 2);
    let back = Dictionary::from_map(&map).unwrap();
    assert_eq!(back.len(), 2);
    assert_eq!(back.get("a"), Some("1"));
    assert_eq!(back.get("A"), Some("2"));
    assert_eq!(back.get_all("a"), vec!["1"]);
    assert_eq!(items(&back), pairs(&[("a", "1"), ("A", "2")]));
}

#[test]
fn a_map_gives_a_dictionary_with_one_entry_for_each_key() {
    let mut map = StringMap::new();
    map.insert("a", "1");
    map.insert("A", "2");
    map.insert("b", "3");
    let dict = Dictionary::from_map(&map).unwrap();
    assert_eq!(items(&dict), pairs(&[("a", "1"), ("A", "2"), ("b", "3")]));
}

#[test]
fn string_map_keeps_one_value_for_each_key() {
    let mut map = StringMap::new();
    map.insert("a", "1");
    map.insert("b", "2");
    map.insert("a", "3");
    map.insert("A", "4");
    assert_eq!(map.len(), 3);
    assert_eq!(map.get("a"), Some("3"));
    assert_eq!(map.get("A"), Some("4"));
    assert_eq!(map.get("c"), None);
    assert_eq!(map.key_at(0), "a");
    assert_eq!(map.value_at(0), "3");
    assert_eq!(map.key_at(1), "b");
}

#[test]
fn map_with_a_nul_gives_no_dictionary() {
    let mut map = StringMap::new();
    map.insert("ok", "fine");
    map.insert("bad", "a\0b");
    assert_eq!(Dictionary::from_map(&map).err(), Some(Error::FFIString));
    let mut map = StringMap::new();
    map.insert("\0", "x");
    assert_eq!(Dictionary::from_map(&map).err(), Some(Error::FFIString));
}
