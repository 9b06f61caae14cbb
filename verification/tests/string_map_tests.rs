use dstreams::string_map::StringMap;

#[test]
fn new_map_is_empty() {
    let map: StringMap<u32> = StringMap::new();
    assert_eq!(map.len(), 0);
    assert!(map.is_empty());
    assert!(map.get("a").is_none());
    assert!(!map.contains_key("a"));
    assert!(map.keys().is_empty());
}

#[test]
fn insert_then_get_returns_the_value() {
    let mut map: StringMap<u32> = StringMap::new();
    map.insert("a".to_string(), 1);
    map.insert("b".to_string(), 2);
    assert_eq!(map.len(), 2);
    assert!(!map.is_empty());
    assert_eq!(map.get("a"), Some(&1));
    assert_eq!(map.get("b"), Some(&2));
    assert_eq!(map.get("c"), None);
    assert!(map.contains_key("b"));
    assert!(!map.contains_key("c"));
}

#[test]
fn insert_under_a_held_key_replaces_the_value_in_place() {
    let mut map: StringMap<u32> = StringMap::new();
    map.insert("a".to_string(), 1);
    map.insert("b".to_string(), 2);
    map.insert("a".to_string(), 3);
    assert_eq!(map.len(), 2);
    assert_eq!(map.get("a"), Some(&3));
    assert_eq!(map.get("b"), Some(&2));
    assert_eq!(map.keys(), vec!["a".to_string(), "b".to_string()]);
}

#[test]
fn keys_are_distinguished_by_every_character() {
    let mut map: StringMap<u32> = StringMap::new();
    map.insert("stream".to_string(), 1);
    map.insert("Stream".to_string(), 2);
    map.insert("stream ".to_string(), 3);
    map.insert("".to_string(), 4);
    assert_eq!(map.len(), 4);
    assert_eq!(map.get("stream"), Some(&1));
    assert_eq!(map.get("Stream"), Some(&2));
    assert_eq!(map.get("stream "), Some(&3));
    assert_eq!(map.get(""), Some(&4));
}

#[test]
fn pop_takes_the_entry_that_arrived_last() {
    let mut map: StringMap<u32> = StringMap::new();
    map.insert("a".to_string(), 1);
    map.insert("b".to_string(), 2);
    map.insert("a".to_string(), 5);
    assert_eq!(map.pop(), Some(("b".to_string(), 2)));
    assert_eq!(map.len(), 1);
    assert!(!map.contains_key("b"));
    assert_eq!(map.pop(), Some(("a".to_string(), 5)));
    assert_eq!(map.pop(), None);
    assert_eq!(map.pop(), None);
    assert!(map.is_empty());
}

#[test]
fn clone_holds_the_same_entries() {
    let mut map: StringMap<String> = StringMap::new();
    map.insert("a".to_string(), "x".to_string());
    map.insert("b".to_string(), "y".to_string());
    let mut copy = map.clone();
    assert_eq!(copy.len(), 2);
    assert_eq!(copy.keys(), map.keys());
    assert_eq!(copy.get("a"), Some(&"x".to_string()));
    assert_eq!(copy.get("b"), Some(&"y".to_string()));
    copy.insert("c".to_string(), "z".to_string());
    assert_eq!(map.len(), 2);
    assert!(!map.contains_key("c"));
}
