use std::collections::HashMap;
use zeroconf::prelude::TTxtRecord;
use zeroconf::txt_record::TxtRecord;

fn pairs_of(map: HashMap<&str, &str>) -> Vec<(String, String)> {
    map.into_iter()
        .map(|(key, value)| (key.to_string(), value.to_string()))
        .collect()
}

#[test]
fn txt_record_insert_get_success() {
    let mut record = TxtRecord::new();
    record.insert("foo", "bar").unwrap();
    assert_eq!(record.get("foo").unwrap(), "bar");
    assert_eq!(record.get("baz"), None);
}

#[test]
fn txt_record_test_insert_get_success() {
    let mut record = TxtRecord::new();
    record.insert("foo", "bar").unwrap();
    assert_eq!(&record.get("foo").unwrap(), "bar");
    assert_eq!(record.get("baz"), None);
}

#[test]
fn get_miss_returns_none() {
    let record = TxtRecord::new();
    assert_eq!(record.get("foo"), None);
}

#[test]
fn txt_record_remove_success() {
    let mut record = TxtRecord::new();
    record.insert("foo", "bar").unwrap();
    record.remove("foo").unwrap();
    assert!(record.get("foo").is_none());
}

#[test]
fn txt_record_test_remove_success() {
    let mut record = TxtRecord::new();
    record.insert("foo", "bar").unwrap();
    record.remove("foo").unwrap();
    assert!(record.get("foo").is_none());
}

#[test]
fn remove_returns_previous_value() {
    let mut record = TxtRecord::new();
    record.insert("foo", "bar").unwrap();
    assert_eq!(record.remove("foo").unwrap(), "bar");
}

#[test]
fn remove_returns_none_if_missing() {
    let mut record = TxtRecord::new();
    assert!(record.remove("foo").is_none());
}

#[test]
fn txt_record_contains_key_success() {
    let mut record = TxtRecord::new();
    record.insert("foo", "bar").unwrap();
    assert!(record.contains_key("foo"));
    assert!(!record.contains_key("baz"));
}

#[test]
fn txt_record_test_contains_key_success() {
    let mut record = TxtRecord::new();
    record.insert("foo", "bar").unwrap();
    assert!(record.contains_key("foo"));
    assert!(!record.contains_key("baz"));
}

#[test]
fn txt_record_len_success() {
    let mut record = TxtRecord::new();
    record.insert("foo", "bar").unwrap();
    assert_eq!(record.len(), 1);
}

#[test]
fn txt_record_test_len_success() {
    let mut record = TxtRecord::new();
    record.insert("foo", "bar").unwrap();
    assert_eq!(record.len(), 1);
}

#[test]
fn len_returns_zero_if_empty() {
    let record = TxtRecord::new();
    assert_eq!(record.len(), 0);
}

#[test]
fn txt_record_iter_success() {
    let mut record = TxtRecord::new();
    record.insert("foo", "bar").unwrap();
    record.insert("baz", "qux").unwrap();
    record.insert("hello", "world").unwrap();

    let mut seen = Vec::new();
    for (key, value) in record.iter() {
        seen.push((key, value));
    }
    assert_eq!(
        seen,
        vec![
            ("foo".to_string(), "bar".to_string()),
            ("baz".to_string(), "qux".to_string()),
            ("hello".to_string(), "world".to_string()),
        ]
    );
}

#[test]
fn txt_record_test_iter_success() {
    let mut record = TxtRecord::new();
    record.insert("foo", "bar").unwrap();
    record.insert("baz", "qux").unwrap();
    record.insert("hello", "world").unwrap();

    assert_eq!(record.iter().len(), 3);
}

#[test]
fn iter_works_if_empty() {
    let record = TxtRecord::new();

    #[allow(clippy::never_loop)]
    for (key, value) in record.iter() {
        panic!("({:?}, {:?})", key, value);
    }
}

#[test]
fn txt_record_keys_success() {
    let mut record = TxtRecord::new();
    record.insert("foo", "bar").unwrap();
    record.insert("baz", "qux").unwrap();
    record.insert("hello", "world").unwrap();

    assert_eq!(record.keys(), vec!["foo", "baz", "hello"]);
}

#[test]
fn txt_record_test_keys_success() {
    let mut record = TxtRecord::new();
    record.insert("foo", "bar").unwrap();
    record.insert("baz", "qux").unwrap();
    record.insert("hello", "world").unwrap();

    assert_eq!(record.keys().len(), 3);
}

#[test]
fn txt_record_values_success() {
    let mut record = TxtRecord::new();
    record.insert("foo", "bar").unwrap();
    record.insert("baz", "qux").unwrap();
    record.insert("hello", "world").unwrap();

    assert_eq!(record.values(), vec!["bar", "qux", "world"]);
}

#[test]
fn txt_record_test_values_success() {
    let mut record = TxtRecord::new();
    record.insert("foo", "bar").unwrap();
    record.insert("baz", "qux").unwrap();
    record.insert("hello", "world").unwrap();

    assert_eq!(record.values().len(), 3);
}

#[test]
fn is_empty_success() {
    let mut record = TxtRecord::new();
    assert!(record.is_empty());

    record.insert("foo", "bar").unwrap();
    assert!(!record.is_empty());
}

#[test]
fn txt_record_from_hashmap_success() {
    let mut map = HashMap::new();
    map.insert("foo", "bar");

    let record = TxtRecord::from_pairs(pairs_of(map));

    assert_eq!(record.get("foo").unwrap(), "bar");
}

#[test]
fn txt_record_test_from_hashmap_success() {
    let mut map = HashMap::new();
    map.insert("foo", "bar");

    let record = TxtRecord::from_pairs(pairs_of(map));

    assert_eq!(&record.get("foo").unwrap(), "bar");
}

#[test]
fn txt_record_clone_success() {
    let mut record = TxtRecord::new();
    record.insert("foo", "bar").unwrap();

    assert_eq!(record.clone(), record);
}

#[test]
fn txt_record_test_clone_success() {
    let mut record = TxtRecord::new();
    record.insert("foo", "bar").unwrap();

    assert_eq!(record.clone(), record);
}

#[test]
fn insert_replaces_in_place() {
    let mut record = TxtRecord::new();
    record.insert("foo", "bar").unwrap();
    record.insert("baz", "qux").unwrap();
    record.insert("foo", "again").unwrap();
    assert_eq!(record.len(), 2);
    assert_eq!(record.get("foo").unwrap(), "again");
    assert_eq!(record.keys(), vec!["foo", "baz"]);
    assert_eq!(record.values(), vec!["again", "qux"]);
}

#[test]
fn remove_keeps_the_order_of_the_rest() {
    let mut record = TxtRecord::new();
    record.insert("a", "1").unwrap();
    record.insert("b", "2").unwrap();
    record.insert("c", "3").unwrap();
    assert_eq!(record.remove("b").unwrap(), "2");
    assert_eq!(record.keys(), vec!["a", "c"]);
    assert_eq!(record.len(), 2);
    assert!(!record.contains_key("b"));
    assert_eq!(record.get("c").unwrap(), "3");
}

#[test]
fn len_counts_distinct_keys() {
    let mut record = TxtRecord::new();
    for (key, value) in [("a", "1"), ("b", "2"), ("a", "3"), ("c", ""), ("b", "4"), ("", "x")] {
        record.insert(key, value).unwrap();
    }
    assert_eq!(record.len(), 4);
    assert_eq!(record.get("a").unwrap(), "3");
    assert_eq!(record.get("b").unwrap(), "4");
    assert_eq!(record.get("c").unwrap(), "");
    assert_eq!(record.get("").unwrap(), "x");
}

#[test]
fn from_pairs_is_insert_in_order() {
    let record = TxtRecord::from_pairs(vec![
        ("a".to_string(), "1".to_string()),
        ("b".to_string(), "2".to_string()),
        ("a".to_string(), "3".to_string()),
    ]);
    assert_eq!(
        record.iter(),
        vec![
            ("a".to_string(), "3".to_string()),
            ("b".to_string(), "2".to_string()),
        ]
    );
}

#[test]
fn keys_are_compared_exactly() {
    let mut record = TxtRecord::new();
    record.insert("Foo", "1").unwrap();
    assert!(!record.contains_key("foo"));
    assert!(!record.contains_key("Fo"));
    assert!(!record.contains_key("Foo "));
    assert!(record.contains_key("Foo"));
}

#[test]
fn default_is_empty() {
    let record = TxtRecord::default();
    assert!(record.is_empty());
    assert_eq!(record, TxtRecord::new());
}

#[test]
fn printable_ascii_round_trip() {
    let mut record = TxtRecord::new();
    let mut expected = 0;
    for byte in 0x20u8..0x7f {
        let c = byte as char;
        if c == '=' {
            continue;
        }
        let key = format!("k{}", c);
        let value = format!("{}v{}", c, c);
        record.insert(&key, &value).unwrap();
        expected += 1;
        assert_eq!(record.get(&key), Some(value));
        assert_eq!(record.len(), expected);
    }
    for byte in 0x20u8..0x7f {
        let c = byte as char;
        if c == '=' {
            continue;
        }
        let key = format!("k{}", c);
        assert!(record.remove(&key).is_some());
        assert_eq!(record.get(&key), None);
    }
    assert!(record.is_empty());
}
