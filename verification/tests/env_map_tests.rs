use askrepo_service::env_map::EnvMap;

#[test]
fn new_map_binds_nothing() {
    let map = EnvMap::new();
    assert!(map.is_empty());
    assert_eq!(map.len(), 0);
    assert_eq!(map.get("A"), None);
    assert!(!map.contains_key("A"));
    assert!(map.pairs().is_empty());
}

#[test]
fn insert_binds_and_returns_what_was_bound() {
    let mut map = EnvMap::new();
    assert_eq!(map.insert("A".to_string(), "1".to_string()), None);
    assert_eq!(map.insert("B".to_string(), "2".to_string()), None);
    assert_eq!(map.insert("A".to_string(), "3".to_string()), Some("1".to_string()));
    assert_eq!(map.len(), 2);
    assert!(!map.is_empty());
    assert_eq!(map.get("A"), Some(&"3".to_string()));
    assert_eq!(map.get("B"), Some(&"2".to_string()));
    assert_eq!(map.get("a"), None);
    assert!(map.contains_key("B"));
}

#[test]
fn pairs_hold_each_name_once_with_its_last_value() {
    let mut map = EnvMap::new();
    map.insert("B".to_string(), "1".to_string());
    map.insert("A".to_string(), "2".to_string());
    map.insert("B".to_string(), "3".to_string());
    let mut pairs = map.pairs().clone();
    pairs.sort();
    let expected =
        vec![("A".to_string(), "2".to_string()), ("B".to_string(), "3".to_string())];
    assert_eq!(pairs, expected);
}

#[test]
fn names_are_compared_exactly() {
    let mut map = EnvMap::new();
    map.insert("".to_string(), "empty".to_string());
    map.insert("caf\u{e9}".to_string(), "composed".to_string());
    map.insert("cafe\u{301}".to_string(), "decomposed".to_string());
    assert_eq!(map.len(), 3);
    assert_eq!(map.get(""), Some(&"empty".to_string()));
    assert_eq!(map.get("caf\u{e9}"), Some(&"composed".to_string()));
    assert_eq!(map.get("cafe\u{301}"), Some(&"decomposed".to_string()));
}
