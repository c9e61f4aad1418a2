use llm_provider::node_map::NodeMap;

fn s(text: &str) -> String {
    text.to_string()
}

#[test]
fn new_map_is_empty() {
    let m: NodeMap<u64> = NodeMap::new();
    assert_eq!(m.len(), 0);
    assert!(m.is_empty());
    assert!(!m.contains_key(&s("a")));
    assert_eq!(m.get(&s("a")), None);
}

#[test]
fn insert_then_get() {
    let mut m: NodeMap<u64> = NodeMap::new();
    m.insert(s("a"), 1);
    m.insert(s("b"), 2);
    assert_eq!(m.len(), 2);
    assert!(!m.is_empty());
    assert_eq!(m.get(&s("a")), Some(&1));
    assert_eq!(m.get(&s("b")), Some(&2));
    assert_eq!(m.get(&s("c")), None);
    assert_eq!(m.key_at(0), "a");
    assert_eq!(m.key_at(1), "b");
    assert_eq!(m.value_at(1), &2);
}

#[test]
fn insert_replaces_and_keeps_one_entry_per_name() {
    let mut m: NodeMap<u64> = NodeMap::new();
    m.insert(s("a"), 1);
    m.insert(s("a"), 5);
    assert_eq!(m.len(), 1);
    assert_eq!(m.get(&s("a")), Some(&5));
}

#[test]
fn remove_returns_the_value() {
    let mut m: NodeMap<u64> = NodeMap::new();
    m.insert(s("a"), 1);
    m.insert(s("b"), 2);
    m.insert(s("c"), 3);
    assert_eq!(m.remove(&s("b")), Some(2));
    assert_eq!(m.remove(&s("b")), None);
    assert_eq!(m.len(), 2);
    assert_eq!(m.get(&s("a")), Some(&1));
    assert_eq!(m.get(&s("c")), Some(&3));
    assert_eq!(m.key_at(1), "c");
}

#[test]
fn names_are_compared_by_content() {
    let mut m: NodeMap<u64> = NodeMap::new();
    m.insert(s("node"), 1);
    assert!(!m.contains_key(&s("Node")));
    assert!(!m.contains_key(&s("node ")));
    assert!(m.contains_key(&(String::from("no") + "de")));
}

#[test]
fn names_with_picks_every_match_once_in_order() {
    let mut m: NodeMap<String> = NodeMap::new();
    m.insert(s("d1"), s("m1"));
    m.insert(s("d2"), s("m2"));
    m.insert(s("d3"), s("m1"));
    m.insert(s("d2"), s("m1"));
    assert_eq!(m.names_with(&s("m1")), vec![s("d1"), s("d2"), s("d3")]);
    assert_eq!(m.names_with(&s("m2")), Vec::<String>::new());
    assert_eq!(m.names_with(&s("")), Vec::<String>::new());
}
