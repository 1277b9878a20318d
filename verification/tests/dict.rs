use cocoa_utils::cocoa_type::CocoaType;
use cocoa_utils::dict::{collect, last_index_of, Dict, DictEntry};
use cocoa_utils::object::{Id, Reply};

fn dict() -> Dict {
    Dict::from_ptr(Id::from_addr(0x100)).unwrap()
}

fn entry(key_at: usize, key: &str, value: Reply) -> DictEntry {
    DictEntry::new(Reply::string(Id::from_addr(key_at), key.as_bytes().to_vec()), value).unwrap()
}

fn abc() -> Vec<DictEntry> {
    vec![
        entry(0x10, "b", Reply::object(Id::from_addr(0x20))),
        entry(0x11, "a", Reply::string(Id::from_addr(0x21), b"one".to_vec())),
        entry(0x12, "c", Reply::nil()),
    ]
}

#[test]
fn entry_needs_a_key() {
    assert!(DictEntry::new(Reply::nil(), Reply::object(Id::from_addr(1))).is_none());
    let e = DictEntry::new(Reply::string(Id::from_addr(2), b"k".to_vec()), Reply::object(Id::from_addr(3))).unwrap();
    assert_eq!(e.key_ptr(), Id::from_addr(2));
    assert_eq!(e.value_ptr(), Id::from_addr(3));
    assert_eq!(e.decode_key(), "k");
    assert_eq!(e.value_text(), Some(String::new()));
}

#[test]
fn get_keys_is_a_permutation_of_the_keys() {
    let keys = dict().get_keys(&abc());
    assert_eq!(keys.len(), 3);
    for wanted in ["a", "b", "c"] {
        assert_eq!(keys.iter().filter(|k| k.as_str() == wanted).count(), 1);
    }
}

#[test]
fn get_keys_keeps_the_order_of_the_enumeration() {
    assert_eq!(dict().get_keys(&abc()), vec!["b".to_string(), "a".to_string(), "c".to_string()]);
    assert_eq!(dict().get_keys(&Vec::new()), Vec::<String>::new());
}

#[test]
fn into_hashmap_has_the_keys_of_get_keys() {
    let entries = abc();
    let keys = dict().get_keys(&entries);
    let map = dict().into_hashmap(&entries);
    assert_eq!(map.len(), 3);
    for key in keys.iter() {
        assert!(map.contains_key(key));
    }
    for other in ["", "d", "ab", "A"] {
        assert!(!map.contains_key(other));
    }
}

#[test]
fn into_hashmap_maps_keys_to_handles() {
    let map = dict().into_hashmap(&abc());
    assert_eq!(map.get("b"), Some(&Id::from_addr(0x20)));
    assert_eq!(map.get("a"), Some(&Id::from_addr(0x21)));
    assert_eq!(map.get("c"), Some(&Id::nil()));
    assert_eq!(map.get("z"), None);
    assert!(dict().into_hashmap(&Vec::new()).is_empty());
}

#[test]
fn into_hashmap_last_write_wins() {
    let entries = vec![
        entry(0x10, "k", Reply::object(Id::from_addr(1))),
        entry(0x11, "other", Reply::object(Id::from_addr(2))),
        entry(0x12, "k", Reply::object(Id::from_addr(3))),
    ];
    let map = dict().into_hashmap(&entries);
    assert_eq!(map.len(), 2);
    assert_eq!(map.get("k"), Some(&Id::from_addr(3)));
    assert_eq!(dict().get_id(&entries, "k"), Some(Id::from_addr(3)));
    assert_eq!(dict().find_entry(&entries, "k"), Some(2));
    assert_eq!(dict().find_entry(&entries, "other"), Some(1));
    assert_eq!(dict().find_entry(&entries, "none"), None);
}

#[test]
fn get_id_is_absent_for_a_missing_key_and_for_null() {
    let entries = abc();
    assert_eq!(dict().get_id(&entries, "b"), Some(Id::from_addr(0x20)));
    assert_eq!(dict().get_id(&entries, "c"), None);
    assert_eq!(dict().get_id(&entries, "missing"), None);
    assert_eq!(dict().get_id(&Vec::new(), "b"), None);
}

#[test]
fn get_string_decodes_the_value() {
    let entries = abc();
    assert_eq!(dict().get_string(&entries, "a"), Some("one".to_string()));
    assert_eq!(dict().get_string(&entries, "c"), None);
    assert_eq!(dict().get_string(&entries, "missing"), None);
}

#[test]
fn map_projects_in_enumeration_order() {
    let sums = dict().map(&abc(), |key: Id, value: Id| key.addr() + value.addr());
    assert_eq!(sums, vec![0x30, 0x32, 0x12]);
    let pairs = dict().map(&abc(), |key: Id, value: Id| (key, value.is_null()));
    assert_eq!(
        pairs,
        vec![(Id::from_addr(0x10), false), (Id::from_addr(0x11), false), (Id::from_addr(0x12), true)]
    );
    let nothing: Vec<u8> = dict().map(&Vec::new(), |_key: Id, _value: Id| 0u8);
    assert!(nothing.is_empty());
}

#[test]
fn keys_that_are_not_utf8_are_replaced() {
    let entries = vec![DictEntry::new(Reply::string(Id::from_addr(1), vec![0x66, 0xfe]), Reply::nil()).unwrap()];
    assert_eq!(dict().get_keys(&entries), vec!["f\u{fffd}".to_string()]);
    assert!(dict().into_hashmap(&entries).contains_key("f\u{fffd}"));
}

#[test]
fn last_index_of_finds_the_last_place() {
    let keys = vec!["k".to_string(), "other".to_string(), "k".to_string(), "".to_string()];
    assert_eq!(last_index_of(&keys, "k"), Some(2));
    assert_eq!(last_index_of(&keys, "other"), Some(1));
    assert_eq!(last_index_of(&keys, ""), Some(3));
    assert_eq!(last_index_of(&keys, "K"), None);
    assert_eq!(last_index_of(&keys, "ot"), None);
    assert_eq!(last_index_of(&Vec::new(), "k"), None);
}

#[test]
fn collect_keeps_the_later_pair() {
    let map = collect(vec![
        ("a".to_string(), Id::from_addr(1)),
        ("b".to_string(), Id::from_addr(2)),
        ("a".to_string(), Id::from_addr(3)),
    ]);
    assert_eq!(map.len(), 2);
    assert_eq!(map.get("a"), Some(&Id::from_addr(3)));
    assert_eq!(map.get("b"), Some(&Id::from_addr(2)));
    assert!(collect(Vec::new()).is_empty());
}

#[test]
fn get_pairs_decodes_keys_and_keeps_handles() {
    assert_eq!(
        dict().get_pairs(&abc()),
        vec![
            ("b".to_string(), Id::from_addr(0x20)),
            ("a".to_string(), Id::from_addr(0x21)),
            ("c".to_string(), Id::nil()),
        ]
    );
}

#[test]
fn get_value_passes_the_answer_on() {
    assert_eq!(dict().get_value("NSApplicationProcessIdentifier", 4242i32), 4242);
    assert_eq!(dict().get_value("anything", Id::from_addr(9)), Id::from_addr(9));
}
