use scrybe::table::TextMap;

#[test]
fn text_map_insert_get_remove() {
    let mut map: TextMap<u32> = TextMap::new();
    assert_eq!(map.get("a"), None);
    map.insert("a", 1);
    map.insert("b", 2);
    assert_eq!(map.get("a"), Some(1));
    assert_eq!(map.get("b"), Some(2));
    assert_eq!(map.get("c"), None);
    map.insert("a", 3);
    assert_eq!(map.get("a"), Some(3));
    assert_eq!(map.get("b"), Some(2));
    map.remove("a");
    assert_eq!(map.get("a"), None);
    assert_eq!(map.get("b"), Some(2));
    map.remove("a");
    map.remove("zzz");
    assert_eq!(map.get("b"), Some(2));
    map.insert("a", 4);
    assert_eq!(map.get("a"), Some(4));
}

#[test]
fn text_map_keys_are_exact() {
    let mut map: TextMap<u8> = TextMap::new();
    map.insert("", 0);
    map.insert("k", 1);
    map.insert("K", 2);
    map.insert("k ", 3);
    assert_eq!(map.get(""), Some(0));
    assert_eq!(map.get("k"), Some(1));
    assert_eq!(map.get("K"), Some(2));
    assert_eq!(map.get("k "), Some(3));
    assert_eq!(map.get(" k"), None);
}

#[test]
fn text_map_lists_its_keys() {
    let mut map: TextMap<u8> = TextMap::new();
    assert!(map.keys().is_empty());
    map.insert("b", 1);
    map.insert("a", 2);
    map.insert("b", 3);
    let mut keys = map.keys();
    keys.sort();
    assert_eq!(keys, vec!["a".to_string(), "b".to_string()]);
    map.remove("a");
    assert_eq!(map.keys(), vec!["b".to_string()]);
}
