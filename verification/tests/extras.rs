use lv2_smoketest::extras::RawExtras;

fn s(v: &[&str]) -> Vec<String> {
    v.iter().map(|x| x.to_string()).collect()
}

fn listing(e: &RawExtras) -> Vec<(String, Vec<String>)> {
    e.entries().iter().map(|x| (x.key.clone(), x.values.clone())).collect()
}

#[test]
fn names_come_out_in_order() {
    let mut e = RawExtras::new();
    e.insert("properties".to_string(), s(&["p"]));
    e.insert("classes".to_string(), s(&["c1", "c2"]));
    e.insert("port_node".to_string(), s(&["_:n"]));
    assert_eq!(e.len(), 3);
    assert_eq!(
        listing(&e),
        vec![
            ("classes".to_string(), s(&["c1", "c2"])),
            ("port_node".to_string(), s(&["_:n"])),
            ("properties".to_string(), s(&["p"])),
        ]
    );
}

#[test]
fn insert_replaces() {
    let mut e = RawExtras::new();
    e.insert("a".to_string(), s(&["1"]));
    e.insert("a".to_string(), s(&["2", "3"]));
    assert_eq!(e.len(), 1);
    assert_eq!(e.get(&"a".to_string()), Some(&s(&["2", "3"])));
    assert_eq!(e.get(&"b".to_string()), None);
}

#[test]
fn empty_lists_are_dropped() {
    let mut e = RawExtras::new();
    e.insert("data_uris".to_string(), s(&[]));
    e.insert("is_replaced".to_string(), s(&["false"]));
    e.insert("required_features".to_string(), s(&[]));
    e.retain_nonempty();
    assert_eq!(listing(&e), vec![("is_replaced".to_string(), s(&["false"]))]);
}
