use lv2_smoketest::model::{PluginClassFacts, PluginIdentity};
use lv2_smoketest::node::NodeValue;
use lv2_smoketest::summaries::extract_plugin_summaries;

fn uri(u: &str) -> NodeValue {
    NodeValue {
        uri: Some(u.to_string()),
        text: Some(u.to_string()),
        int_value: None,
        float_text: None,
        bool_value: None,
        turtle: format!("<{u}>"),
    }
}

fn literal(t: &str) -> NodeValue {
    NodeValue {
        uri: None,
        text: Some(t.to_string()),
        int_value: None,
        float_text: None,
        bool_value: None,
        turtle: format!("\"{t}\""),
    }
}

fn identity(u: &str, name: &str) -> PluginIdentity {
    PluginIdentity {
        uri: uri(u),
        name: literal(name),
        class: PluginClassFacts { uri: None, label: literal("Plugin"), parent_uri: None },
        bundle_uri: uri("file:///lv2/b.lv2/"),
        bundle_path: None,
    }
}

#[test]
fn summaries_sorted_by_uri() {
    let plugins = vec![
        identity("urn:c", "C"),
        identity("urn:a", "A"),
        identity("urn:b", "B"),
        identity("urn:B", "upper B"),
    ];
    let out = extract_plugin_summaries(&plugins);
    let uris: Vec<&str> = out.iter().map(|s| s.uri.as_str()).collect();
    assert_eq!(uris, vec!["urn:B", "urn:a", "urn:b", "urn:c"]);
    assert_eq!(out[1].name, Some("A".to_string()));
    assert_eq!(out[0].classes.len(), 1);
    assert_eq!(out[0].classes[0].label, Some("Plugin".to_string()));
    assert_eq!(out[0].bundle_uri, Some("file:///lv2/b.lv2/".to_string()));
    assert_eq!(out[0].bundle_path, None);
}

#[test]
fn equal_uris_keep_their_order() {
    let plugins = vec![
        identity("urn:x", "first"),
        identity("urn:a", "a"),
        identity("urn:x", "second"),
        identity("urn:x", "third"),
    ];
    let out = extract_plugin_summaries(&plugins);
    let names: Vec<String> = out.iter().map(|s| s.name.clone().unwrap()).collect();
    assert_eq!(names, vec!["a", "first", "second", "third"]);
}

#[test]
fn no_plugins_no_summaries() {
    assert!(extract_plugin_summaries(&vec![]).is_empty());
}
