use std::collections::HashMap;
use therock_metrics::metadata::{
    accepts_attributes, get_metadata, is_metadata_key, is_metadata_value, metadata_from_pairs,
    MAX_CAPACITY, MAX_KEY_LEN, SURE_ATTRIBUTES,
};
use tonic::metadata::MetadataMap;

fn attributes(pairs: &[(&str, &str)]) -> HashMap<String, String> {
    let mut map = HashMap::new();
    for (key, value) in pairs {
        map.insert(key.to_string(), value.to_string());
    }
    map
}

fn text(map: &MetadataMap, key: &str) -> String {
    let bytes = map.get(key).unwrap().as_encoded_bytes();
    std::str::from_utf8(bytes).unwrap().to_string()
}

#[test]
fn no_attributes_give_no_metadata() {
    assert!(accepts_attributes(None));
    assert!(get_metadata(None).unwrap().is_empty());
    let none = attributes(&[]);
    assert!(accepts_attributes(Some(&none)));
    assert!(get_metadata(Some(&none)).unwrap().is_empty());
}

#[test]
fn lower_case_attributes_stay_as_they_are() {
    let given = attributes(&[("x-tenant", "rock"), ("authorization", "Bearer a.b")]);
    assert!(accepts_attributes(Some(&given)));
    let map = get_metadata(Some(&given)).unwrap();
    assert_eq!(map.len(), 2);
    assert_eq!(text(&map, "x-tenant"), "rock");
    assert_eq!(text(&map, "authorization"), "Bearer a.b");
}

#[test]
fn keys_are_kept_in_lower_case() {
    let given = attributes(&[("X-Tenant", "Rock")]);
    let map = get_metadata(Some(&given)).unwrap();
    let keys: Vec<String> = map
        .keys()
        .map(|key| match key {
            tonic::metadata::KeyRef::Ascii(key) => key.as_str().to_string(),
            tonic::metadata::KeyRef::Binary(key) => key.as_str().to_string(),
        })
        .collect();
    assert_eq!(keys, vec!["x-tenant".to_string()]);
    assert_eq!(text(&map, "x-tenant"), "Rock");
}

#[test]
fn one_of_two_keys_that_differ_in_case_counts() {
    let given = attributes(&[("Host", "a"), ("host", "b")]);
    assert!(accepts_attributes(Some(&given)));
    let map = get_metadata(Some(&given)).unwrap();
    assert_eq!(map.len(), 1);
    let value = text(&map, "host");
    assert!(value == "a" || value == "b");
}

#[test]
fn the_first_pair_counts() {
    let keys = [String::from("Host"), String::from("x"), String::from("HOST")];
    let values = [String::from("1"), String::from("2"), String::from("3")];
    let forth = vec![(&keys[0], &values[0]), (&keys[1], &values[1]), (&keys[2], &values[2])];
    let back = vec![(&keys[2], &values[2]), (&keys[1], &values[1]), (&keys[0], &values[0])];
    let map = metadata_from_pairs(&forth).unwrap();
    assert_eq!(map.len(), 2);
    assert_eq!(text(&map, "host"), "1");
    assert_eq!(text(&map, "x"), "2");
    assert_eq!(text(&metadata_from_pairs(&back).unwrap(), "host"), "3");
}

#[test]
fn key_characters() {
    assert!(is_metadata_key("abcdefghijklmnopqrstuvwxyz0123456789"));
    assert!(is_metadata_key("ABCDEFGHIJKLMNOPQRSTUVWXYZ"));
    assert!(is_metadata_key("!\"#$%&'*+-.^_`|~"));
    for bad in ["", "a b", "a\tb", "a(b", "a,b", "a/b", "a:b", "a@b", "a[b", "a{b", "a\u{7f}", "\u{e9}"] {
        assert!(!is_metadata_key(bad), "{bad:?}");
    }
}

#[test]
fn every_accepted_key_character_is_taken() {
    for code in 0u32..256 {
        let key = char::from_u32(code).unwrap().to_string();
        let mut map = MetadataMap::new();
        assert_eq!(is_metadata_key(&key), map.entry(&key).is_ok(), "{key:?}");
    }
}

#[test]
fn every_accepted_value_character_is_taken() {
    for code in 0u32..0x300 {
        let value = char::from_u32(code).unwrap().to_string();
        let parsed = value.parse::<tonic::metadata::AsciiMetadataValue>();
        assert_eq!(is_metadata_value(&value), parsed.is_ok(), "{value:?}");
    }
}

#[test]
fn binary_keys_are_refused() {
    assert!(!is_metadata_key("trace-bin"));
    assert!(!is_metadata_key("-bin"));
    assert!(is_metadata_key("trace-BIN"));
    assert!(is_metadata_key("bin"));
    let keys = [String::from("trace-BIN")];
    let values = [String::from("v")];
    let map = metadata_from_pairs(&vec![(&keys[0], &values[0])]).unwrap();
    assert_eq!(map.len(), 1);
}

#[test]
fn key_lengths() {
    assert_eq!(MAX_KEY_LEN, 65535);
    let longest = "k".repeat(MAX_KEY_LEN);
    assert!(is_metadata_key(&longest));
    assert!(!is_metadata_key(&"k".repeat(MAX_KEY_LEN + 1)));
    let given = attributes(&[(&longest, "v")]);
    assert_eq!(text(&get_metadata(Some(&given)).unwrap(), &longest), "v");
}

#[test]
fn value_characters() {
    assert!(is_metadata_value(""));
    assert!(is_metadata_value("a b\tc~"));
    assert!(!is_metadata_value("a\nb"));
    assert!(!is_metadata_value("\u{7f}"));
    let given = attributes(&[("city", "Z\u{fc}rich")]);
    assert!(accepts_attributes(Some(&given)));
    assert_eq!(text(&get_metadata(Some(&given)).unwrap(), "city"), "Z\u{fc}rich");
}

#[test]
fn attributes_that_are_no_metadata() {
    assert!(!accepts_attributes(Some(&attributes(&[("a b", "v")]))));
    assert!(!accepts_attributes(Some(&attributes(&[("a", "v\n")]))));
    assert!(!accepts_attributes(Some(&attributes(&[("ok", "v"), ("x-bin", "v")]))));
}

fn numbered(count: usize) -> HashMap<String, String> {
    let mut map = HashMap::new();
    for i in 0..count {
        map.insert(format!("key-{i}"), format!("{i}"));
    }
    map
}

#[test]
fn as_many_attributes_as_always_fit() {
    let given = numbered(SURE_ATTRIBUTES);
    assert!(accepts_attributes(Some(&given)));
    let map = get_metadata(Some(&given)).unwrap();
    assert_eq!(map.len(), SURE_ATTRIBUTES);
    assert_eq!(text(&map, "key-6553"), "6553");
}

#[test]
fn ordinary_keys_fit_beyond_that() {
    let given = numbered(10000);
    assert!(accepts_attributes(Some(&given)));
    let map = get_metadata(Some(&given)).unwrap();
    assert_eq!(map.len(), 10000);
    for i in 0..10000 {
        assert_eq!(text(&map, &format!("key-{i}")), format!("{i}"));
    }
}

#[test]
fn more_attributes_than_a_map_can_be_made_for() {
    let given = numbered(MAX_CAPACITY + 1);
    assert!(accepts_attributes(Some(&given)));
    assert!(get_metadata(Some(&given)).is_none());
}

#[test]
fn metadata_is_what_entry_by_entry_makes() {
    let given = numbered(9000);
    let mut expected = MetadataMap::with_capacity(given.len());
    for (key, value) in &given {
        expected.entry(key).unwrap().or_insert_with(|| value.parse().unwrap());
    }
    let map = get_metadata(Some(&given)).unwrap();
    assert_eq!(map.into_headers(), expected.into_headers());
}

#[test]
fn kept_keys_are_kept_again() {
    let first = get_metadata(Some(&attributes(&[("X-Tenant-ID", "7")]))).unwrap();
    assert_eq!(text(&first, "x-tenant-id"), "7");
    let second = get_metadata(Some(&attributes(&[("x-tenant-id", "7")]))).unwrap();
    assert_eq!(first.into_headers(), second.into_headers());
}

#[test]
fn each_key_has_one_value() {
    let map = get_metadata(Some(&attributes(&[("Host", "a"), ("host", "b"), ("x", "c")]))).unwrap();
    assert_eq!(map.keys_len(), 2);
    assert_eq!(map.get_all("host").iter().count(), 1);
    assert_eq!(map.get_all("x").iter().count(), 1);
}

#[test]
fn distinct_attributes_are_carried_alike_twice() {
    let given = attributes(&[("A", "1"), ("b", "2"), ("C-d", "3")]);
    let first = get_metadata(Some(&given)).unwrap().into_headers();
    assert_eq!(first, get_metadata(Some(&given)).unwrap().into_headers());
    assert_eq!(first.len(), 3);
}
