use lv2_smoketest::error::SmokeError;
use lv2_smoketest::extract::{
    build_plugin_raw_extras, build_port_raw_extras, extract_plugin_metadata,
    extract_port_metadata, plugin_classes, plugin_metadata_or_not_found,
};
use lv2_smoketest::extras::RawExtras;
use lv2_smoketest::model::{
    PluginClassFacts, PluginExtrasFacts, PluginFacts, PluginIdentity, PortDirection, PortFacts,
    PortType,
};
use lv2_smoketest::node::NodeValue;

fn uri(u: &str) -> NodeValue {
    NodeValue {
        uri: Some(u.to_string()),
        text: Some(u.to_string()),
        int_value: None,
        float_text: None,
        bool_value: None,
        turtle: format!("<{u}>"),
    }
}

fn literal(t: &str) -> NodeValue {
    NodeValue {
        uri: None,
        text: Some(t.to_string()),
        int_value: None,
        float_text: None,
        bool_value: None,
        turtle: format!("\"{t}\""),
    }
}

fn s(v: &[&str]) -> Vec<String> {
    v.iter().map(|x| x.to_string()).collect()
}

fn listing(e: &RawExtras) -> Vec<(String, Vec<String>)> {
    e.entries().iter().map(|x| (x.key.clone(), x.values.clone())).collect()
}

const LV2: &str = "http://lv2plug.in/ns/lv2core#";

fn port(index: usize) -> PortFacts {
    PortFacts {
        index,
        is_input: false,
        is_output: false,
        is_audio: false,
        is_control: false,
        is_cv: false,
        is_atom: false,
        is_event: false,
        connection_optional: false,
        classes: vec![],
        properties: vec![],
        symbol: None,
        name: None,
        node_turtle: format!("_:port{index}"),
    }
}

fn identity(u: &str) -> PluginIdentity {
    PluginIdentity {
        uri: uri(u),
        name: literal("Amp"),
        class: PluginClassFacts {
            uri: Some(uri(&format!("{LV2}AmplifierPlugin"))),
            label: literal("Amplifier"),
            parent_uri: Some(uri(&format!("{LV2}DynamicsPlugin"))),
        },
        bundle_uri: uri("file:///usr/lib/lv2/amp.lv2/"),
        bundle_path: Some("/usr/lib/lv2/amp.lv2/".to_string()),
    }
}

fn no_extras() -> PluginExtrasFacts {
    PluginExtrasFacts {
        data_uris: vec![],
        supported_features: vec![],
        required_features: vec![],
        optional_features: vec![],
        extension_data: None,
        project: None,
        is_replaced: false,
    }
}

#[test]
fn port_direction_and_type() {
    let mut p = port(3);
    p.is_input = true;
    p.is_output = true;
    p.is_control = true;
    p.is_atom = true;
    let m = extract_port_metadata(&p);
    assert_eq!(m.index, 3);
    assert_eq!(m.direction, PortDirection::Input);
    assert_eq!(m.port_type, PortType::Control);

    let mut q = port(4);
    q.is_output = true;
    q.is_cv = true;
    let m = extract_port_metadata(&q);
    assert_eq!(m.direction, PortDirection::Output);
    assert_eq!(m.port_type, PortType::Cv);

    let mut r = port(5);
    r.is_event = true;
    let m = extract_port_metadata(&r);
    assert_eq!(m.direction, PortDirection::Unknown);
    assert_eq!(m.port_type, PortType::Event);

    let m = extract_port_metadata(&port(6));
    assert_eq!(m.port_type, PortType::Unknown);
    let mut a = port(7);
    a.is_audio = true;
    a.is_control = true;
    assert_eq!(extract_port_metadata(&a).port_type, PortType::Audio);
    let mut t = port(8);
    t.is_atom = true;
    t.is_event = true;
    assert_eq!(extract_port_metadata(&t).port_type, PortType::Atom);
}

#[test]
fn port_fields_and_extras() {
    let mut p = port(0);
    p.is_input = true;
    p.is_audio = true;
    p.classes = vec![uri(&format!("{LV2}InputPort")), uri(&format!("{LV2}AudioPort"))];
    p.symbol = Some(literal("in"));
    p.name = Some(literal("Input"));
    let m = extract_port_metadata(&p);
    assert_eq!(m.symbol, Some("in".to_string()));
    assert_eq!(m.name, Some("Input".to_string()));
    assert_eq!(m.classes, s(&["http://lv2plug.in/ns/lv2core#InputPort", "http://lv2plug.in/ns/lv2core#AudioPort"]));
    assert!(m.properties.is_empty());
    assert_eq!(
        listing(&m.raw_extras),
        vec![
            ("classes".to_string(), m.classes.clone()),
            ("port_node".to_string(), s(&["_:port0"])),
        ]
    );
}

#[test]
fn port_extras_only_node_when_bare() {
    let e = build_port_raw_extras(&vec![], &vec![], &"_:p".to_string());
    assert_eq!(listing(&e), vec![("port_node".to_string(), s(&["_:p"]))]);
    let e = build_port_raw_extras(&vec![], &s(&["urn:prop"]), &"_:p".to_string());
    assert_eq!(
        listing(&e),
        vec![("port_node".to_string(), s(&["_:p"])), ("properties".to_string(), s(&["urn:prop"]))]
    );
}

#[test]
fn plugin_extras_keep_nonempty() {
    let mut f = no_extras();
    assert_eq!(listing(&build_plugin_raw_extras(&f)), vec![("is_replaced".to_string(), s(&["false"]))]);
    f.required_features = vec![uri("urn:feat:a")];
    f.extension_data = Some(vec![]);
    f.project = Some(uri("urn:proj"));
    f.is_replaced = true;
    assert_eq!(
        listing(&build_plugin_raw_extras(&f)),
        vec![
            ("is_replaced".to_string(), s(&["true"])),
            ("project".to_string(), s(&["urn:proj"])),
            ("required_features".to_string(), s(&["urn:feat:a"])),
        ]
    );
}

#[test]
fn one_class_per_plugin() {
    let id = identity("urn:amp");
    let c = plugin_classes(&id.class);
    assert_eq!(c.len(), 1);
    assert_eq!(c[0].uri, Some(format!("{LV2}AmplifierPlugin")));
    assert_eq!(c[0].label, Some("Amplifier".to_string()));
    assert_eq!(c[0].parent_uri, Some(format!("{LV2}DynamicsPlugin")));
}

#[test]
fn plugin_report() {
    let f = PluginFacts {
        identity: identity("http://example.org/amp"),
        license: vec![uri("http://opensource.org/licenses/isc")],
        author_name: Some(literal("Someone")),
        author_email: None,
        author_homepage: Some(uri("http://example.org/")),
        library_uri: Some(uri("file:///usr/lib/lv2/amp.lv2/amp.so")),
        ports: vec![port(0), port(1)],
        extras: no_extras(),
    };
    let m = match extract_plugin_metadata(&f) {
        Ok(m) => m,
        Err(e) => panic!("{}", e.message()),
    };
    assert_eq!(m.uri, "http://example.org/amp");
    assert_eq!(m.name, Some("Amp".to_string()));
    assert_eq!(m.license, s(&["http://opensource.org/licenses/isc"]));
    assert_eq!(m.author.name, Some("Someone".to_string()));
    assert_eq!(m.author.email, None);
    assert_eq!(m.author.homepage, Some("http://example.org/".to_string()));
    assert_eq!(m.bundle_uri, Some("file:///usr/lib/lv2/amp.lv2/".to_string()));
    assert_eq!(m.bundle_path, Some("/usr/lib/lv2/amp.lv2/".to_string()));
    assert_eq!(m.library_uri, Some("file:///usr/lib/lv2/amp.lv2/amp.so".to_string()));
    assert_eq!(m.ports.len(), 2);
    assert_eq!(m.ports[1].index, 1);
    assert_eq!(m.classes.len(), 1);
    assert_eq!(listing(&m.raw_extras), vec![("is_replaced".to_string(), s(&["false"]))]);
}

#[test]
fn missing_plugin_is_refused_by_name() {
    let r = plugin_metadata_or_not_found("http://example.invalid/plugins/this-plugin-should-not-exist", None);
    match r {
        Err(e) => {
            assert!(matches!(e, SmokeError::PluginNotFound { .. }));
            let msg = e.message();
            assert!(msg.contains("Plugin not found"));
            assert_eq!(msg, "Plugin not found for URI: http://example.invalid/plugins/this-plugin-should-not-exist");
        }
        Ok(_) => panic!("an unknown plugin was reported"),
    }
}

#[test]
fn summary_agrees_with_report() {
    let f = PluginFacts {
        identity: identity("http://example.org/amp"),
        license: vec![],
        author_name: None,
        author_email: None,
        author_homepage: None,
        library_uri: None,
        ports: vec![],
        extras: no_extras(),
    };
    let summary = lv2_smoketest::summaries::summarize_plugin(&f.identity);
    let m = match extract_plugin_metadata(&f) {
        Ok(m) => m,
        Err(e) => panic!("{}", e.message()),
    };
    assert_eq!(summary.uri, m.uri);
    assert_eq!(summary.name, m.name);
    assert_eq!(summary.bundle_uri, m.bundle_uri);
    assert_eq!(summary.bundle_path, m.bundle_path);
    assert_eq!(summary.classes.len(), m.classes.len());
    assert_eq!(summary.classes[0].uri, m.classes[0].uri);
    assert_eq!(summary.classes[0].label, m.classes[0].label);
    assert_eq!(summary.classes[0].parent_uri, m.classes[0].parent_uri);
}
