use lv2_smoketest::node::{node_to_string, nodes_to_strings, NodeValue};

fn blank(turtle: &str) -> NodeValue {
    NodeValue {
        uri: None,
        text: None,
        int_value: None,
        float_text: None,
        bool_value: None,
        turtle: turtle.to_string(),
    }
}

#[test]
fn uri_comes_first() {
    let mut n = blank("<http://example.org/a>");
    n.uri = Some("http://example.org/a".to_string());
    n.text = Some("http://example.org/a-text".to_string());
    assert_eq!(node_to_string(&n), Some("http://example.org/a".to_string()));
}

#[test]
fn string_form_before_numbers() {
    let mut n = blank("\"7\"^^xsd:integer");
    n.text = Some("7".to_string());
    n.int_value = Some(8);
    assert_eq!(node_to_string(&n), Some("7".to_string()));
}

#[test]
fn integer_then_decimal_then_boolean() {
    let mut n = blank("t");
    n.int_value = Some(-12);
    n.float_text = Some("3.5".to_string());
    n.bool_value = Some(true);
    assert_eq!(node_to_string(&n), Some("-12".to_string()));
    n.int_value = None;
    assert_eq!(node_to_string(&n), Some("3.5".to_string()));
    n.float_text = None;
    assert_eq!(node_to_string(&n), Some("true".to_string()));
    n.bool_value = Some(false);
    assert_eq!(node_to_string(&n), Some("false".to_string()));
}

#[test]
fn turtle_token_last() {
    let n = blank("_:b0");
    assert_eq!(node_to_string(&n), Some("_:b0".to_string()));
}

#[test]
fn every_node_is_rendered_in_order() {
    let mut a = blank("a");
    a.uri = Some("urn:a".to_string());
    let b = blank("_:b");
    let mut c = blank("c");
    c.int_value = Some(3);
    let out = nodes_to_strings(&vec![a, b, c]);
    assert_eq!(out, vec!["urn:a".to_string(), "_:b".to_string(), "3".to_string()]);
    assert!(nodes_to_strings(&vec![]).is_empty());
}
