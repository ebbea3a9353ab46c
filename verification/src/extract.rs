//! Building the reports of plugins and ports from what their descriptions
//! give.
use vstd::prelude::*;
use crate::error::SmokeError;
use crate::extras::RawExtras;
use crate::model::{
    AuthorMetadata, PluginClass, PluginClassFacts, PluginExtrasFacts, PluginFacts,
    PluginMetadata, PortDirection, PortFacts, PortMetadata, PortType,
};
use crate::node::{
    copy_string, node_string, node_text, nodes_text, nodes_to_strings, opt_node_string, opt_node_text,
    opt_text,
};
use crate::text::{bool_string, bool_text, strings_view};

verus! {

/// The direction of a port: input if it is an input port, else output if it
/// is an output port, else unknown.
pub open spec fn direction_of(p: PortFacts) -> PortDirection {
    if p.is_input {
        PortDirection::Input
    } else if p.is_output {
        PortDirection::Output
    } else {
        PortDirection::Unknown
    }
}

/// The type of a port: the first of audio, control, CV, atom and event that
/// it is, else unknown.
pub open spec fn type_of(p: PortFacts) -> PortType {
    if p.is_audio {
        PortType::Audio
    } else if p.is_control {
        PortType::Control
    } else if p.is_cv {
        PortType::Cv
    } else if p.is_atom {
        PortType::Atom
    } else if p.is_event {
        PortType::Event
    } else {
        PortType::Unknown
    }
}

/// The entries of a map whose lists are not empty.
pub open spec fn nonempty_entries(m: Map<Seq<char>, Seq<Seq<char>>>) -> Map<Seq<char>, Seq<Seq<char>>> {
    Map::new(|k: Seq<char>| m.contains_key(k) && m[k].len() > 0, |k: Seq<char>| m[k])
}

/// The extra details of a port: its classes and properties when there are
/// any, and always the Turtle token of its node.
pub open spec fn port_extras_view(
    classes: Seq<Seq<char>>,
    properties: Seq<Seq<char>>,
    node_turtle: Seq<char>,
) -> Map<Seq<char>, Seq<Seq<char>>> {
    let m0 = Map::<Seq<char>, Seq<Seq<char>>>::empty();
    let m1 = if classes.len() > 0 {
        m0.insert("classes"@, classes)
    } else {
        m0
    };
    let m2 = if properties.len() > 0 {
        m1.insert("properties"@, properties)
    } else {
        m1
    };
    m2.insert("port_node"@, seq![node_turtle])
}

/// The extra details of a plugin: data URIs, supported, required and
/// optional features, extension data and project when present, and whether
/// it is replaced; of these, only those with at least one string.
pub open spec fn plugin_extras_view(e: PluginExtrasFacts) -> Map<Seq<char>, Seq<Seq<char>>> {
    let m = Map::<Seq<char>, Seq<Seq<char>>>::empty().insert(
        "data_uris"@,
        nodes_text(e.data_uris@),
    ).insert("supported_features"@, nodes_text(e.supported_features@)).insert(
        "required_features"@,
        nodes_text(e.required_features@),
    ).insert("optional_features"@, nodes_text(e.optional_features@));
    let m = match e.extension_data {
        Some(ns) => m.insert("extension_data"@, nodes_text(ns@)),
        None => m,
    };
    let m = match e.project {
        Some(n) => m.insert("project"@, seq![node_text(n)]),
        None => m,
    };
    nonempty_entries(m.insert("is_replaced"@, seq![bool_text(e.is_replaced)]))
}

/// A reported class is the rendering of the class's URI, label and parent.
pub open spec fn class_matches(c: PluginClass, f: PluginClassFacts) -> bool {
    &&& opt_text(c.uri) == opt_node_text(f.uri)
    &&& opt_text(c.label) == Some(node_text(f.label))
    &&& opt_text(c.parent_uri) == opt_node_text(f.parent_uri)
}

/// The classes reported of a plugin: its one class.
pub open spec fn classes_match(cs: Seq<PluginClass>, f: PluginClassFacts) -> bool {
    cs.len() == 1 && class_matches(cs[0], f)
}

/// A reported port is the rendering of what the port's description gives.
pub open spec fn port_matches(m: PortMetadata, p: PortFacts) -> bool {
    &&& m.index == p.index
    &&& opt_text(m.symbol) == opt_node_text(p.symbol)
    &&& opt_text(m.name) == opt_node_text(p.name)
    &&& m.direction == direction_of(p)
    &&& m.port_type == type_of(p)
    &&& strings_view(m.classes@) == nodes_text(p.classes@)
    &&& strings_view(m.properties@) == nodes_text(p.properties@)
    &&& m.raw_extras.view() == port_extras_view(
        nodes_text(p.classes@),
        nodes_text(p.properties@),
        p.node_turtle@,
    )
}

/// A reported plugin is the rendering of what the plugin's description gives.
pub open spec fn metadata_matches(m: PluginMetadata, f: PluginFacts) -> bool {
    &&& m.uri@ == node_text(f.identity.uri)
    &&& opt_text(m.name) == Some(node_text(f.identity.name))
    &&& classes_match(m.classes@, f.identity.class)
    &&& strings_view(m.license@) == nodes_text(f.license@)
    &&& opt_text(m.author.name) == opt_node_text(f.author_name)
    &&& opt_text(m.author.email) == opt_node_text(f.author_email)
    &&& opt_text(m.author.homepage) == opt_node_text(f.author_homepage)
    &&& opt_text(m.bundle_uri) == Some(node_text(f.identity.bundle_uri))
    &&& opt_text(m.bundle_path) == opt_text(f.identity.bundle_path)
    &&& opt_text(m.library_uri) == opt_node_text(f.library_uri)
    &&& m.ports@.len() == f.ports@.len()
    &&& forall|i: int| 0 <= i < m.ports@.len() ==> #[trigger] port_matches(m.ports@[i], f.ports@[i])
    &&& m.raw_extras.view() == plugin_extras_view(f.extras)
}

fn copy_opt_string(s: &Option<String>) -> (r: Option<String>)
    ensures
        opt_text(r) == opt_text(*s),
{
    match s {
        Some(t) => Some(copy_string(t)),
        None => None,
    }
}

fn copy_strings(v: &Vec<String>) -> (r: Vec<String>)
    ensures
        strings_view(r@) == strings_view(v@),
{
    let mut r: Vec<String> = Vec::new();
    let mut i: usize = 0;
    while i < v.len()
        invariant
            i <= v@.len(),
            r@.len() == i,
            forall|k: int| 0 <= k < i ==> #[trigger] r@[k]@ == v@[k]@,
        decreases v@.len() - i,
    {
        r.push(copy_string(&v[i]));
        i = i + 1;
    }
    assert(strings_view(r@) =~= strings_view(v@));
    r
}

/// The direction of a port.
pub fn port_direction(port: &PortFacts) -> (d: PortDirection)
    ensures
        d == direction_of(*port),
{
    if port.is_input {
        PortDirection::Input
    } else if port.is_output {
        PortDirection::Output
    } else {
        PortDirection::Unknown
    }
}

/// The type of a port.
pub fn port_type(port: &PortFacts) -> (t: PortType)
    ensures
        t == type_of(*port),
{
    if port.is_audio {
        PortType::Audio
    } else if port.is_control {
        PortType::Control
    } else if port.is_cv {
        PortType::Cv
    } else if port.is_atom {
        PortType::Atom
    } else if port.is_event {
        PortType::Event
    } else {
        PortType::Unknown
    }
}

/// The classes reported of a plugin: a list holding its one class.
pub fn plugin_classes(class: &PluginClassFacts) -> (r: Vec<PluginClass>)
    ensures
        classes_match(r@, *class),
{
    let c = PluginClass {
        uri: opt_node_string(&class.uri),
        label: Some(node_string(&class.label)),
        parent_uri: opt_node_string(&class.parent_uri),
    };
    let mut r: Vec<PluginClass> = Vec::new();
    r.push(c);
    r
}

/// The extra details of a port: `classes` and `properties` when they are not
/// empty, and `port_node`, the Turtle token of the port's node, so that
/// callers can cross-reference the RDF description.
pub fn build_port_raw_extras(classes: &Vec<String>, properties: &Vec<String>, node_turtle: &String) -> (r: RawExtras)
    ensures
        r.view() == port_extras_view(strings_view(classes@), strings_view(properties@), node_turtle@),
{
    let mut extras = RawExtras::new();
    if classes.len() > 0 {
        extras.insert(String::from_str("classes"), copy_strings(classes));
    }
    if properties.len() > 0 {
        extras.insert(String::from_str("properties"), copy_strings(properties));
    }
    let mut token: Vec<String> = Vec::new();
    token.push(copy_string(node_turtle));
    assert(strings_view(token@) =~= seq![node_turtle@]);
    extras.insert(String::from_str("port_node"), token);
    extras
}

fn one_string(s: String) -> (r: Vec<String>)
    ensures
        strings_view(r@) == seq![s@],
{
    let mut r: Vec<String> = Vec::new();
    r.push(s);
    assert(strings_view(r@) =~= seq![s@]);
    r
}

/// The extra details of a plugin, keeping only the names with at least one
/// string.
pub fn build_plugin_raw_extras(facts: &PluginExtrasFacts) -> (r: RawExtras)
    ensures
        r.view() == plugin_extras_view(*facts),
{
    let mut extras = RawExtras::new();
    extras.insert(String::from_str("data_uris"), nodes_to_strings(&facts.data_uris));
    extras.insert(String::from_str("supported_features"), nodes_to_strings(&facts.supported_features));
    extras.insert(String::from_str("required_features"), nodes_to_strings(&facts.required_features));
    extras.insert(String::from_str("optional_features"), nodes_to_strings(&facts.optional_features));
    if let Some(extension_data) = &facts.extension_data {
        extras.insert(String::from_str("extension_data"), nodes_to_strings(extension_data));
    }
    if let Some(project) = &facts.project {
        extras.insert(String::from_str("project"), one_string(node_string(project)));
    }
    extras.insert(String::from_str("is_replaced"), one_string(bool_string(facts.is_replaced)));
    let ghost before = extras.view();
    extras.retain_nonempty();
    assert(extras.view() =~= nonempty_entries(before));
    extras
}

/// The report of one port.
pub fn extract_port_metadata(port: &PortFacts) -> (m: PortMetadata)
    ensures
        port_matches(m, *port),
{
    let direction = port_direction(port);
    let port_type = port_type(port);
    let classes = nodes_to_strings(&port.classes);
    let properties = nodes_to_strings(&port.properties);
    let raw_extras = build_port_raw_extras(&classes, &properties, &port.node_turtle);
    PortMetadata {
        index: port.index,
        symbol: opt_node_string(&port.symbol),
        name: opt_node_string(&port.name),
        direction,
        port_type,
        classes,
        properties,
        raw_extras,
    }
}

/// The report of one plugin. Every description can be reported, so the
/// result is always `Ok`.
pub fn extract_plugin_metadata(plugin: &PluginFacts) -> (r: Result<PluginMetadata, SmokeError>)
    ensures
        r is Ok,
        metadata_matches(r->Ok_0, *plugin),
{
    let id = &plugin.identity;
    let uri = node_string(&id.uri);
    let name = Some(node_string(&id.name));
    let classes = plugin_classes(&id.class);
    let license = nodes_to_strings(&plugin.license);
    let author = AuthorMetadata {
        name: opt_node_string(&plugin.author_name),
        email: opt_node_string(&plugin.author_email),
        homepage: opt_node_string(&plugin.author_homepage),
    };
    let bundle_uri = Some(node_string(&id.bundle_uri));
    let bundle_path = copy_opt_string(&id.bundle_path);
    let library_uri = opt_node_string(&plugin.library_uri);
    let mut ports: Vec<PortMetadata> = Vec::new();
    let mut i: usize = 0;
    while i < plugin.ports.len()
        invariant
            i <= plugin.ports@.len(),
            ports@.len() == i,
            forall|k: int| 0 <= k < i ==> #[trigger] port_matches(ports@[k], plugin.ports@[k]),
        decreases plugin.ports@.len() - i,
    {
        ports.push(extract_port_metadata(&plugin.ports[i]));
        i = i + 1;
    }
    let raw_extras = build_plugin_raw_extras(&plugin.extras);
    Ok(
        PluginMetadata {
            uri,
            name,
            classes,
            license,
            author,
            bundle_uri,
            bundle_path,
            library_uri,
            ports,
            raw_extras,
        },
    )
}

/// The report of the plugin that was looked up by `plugin_uri`, or, when no
/// installed plugin has that URI, the refusal that names it.
pub fn plugin_metadata_or_not_found(plugin_uri: &str, found: Option<PluginFacts>) -> (r: Result<PluginMetadata, SmokeError>)
    ensures
        found is None ==> (match r {
            Err(SmokeError::PluginNotFound { uri }) => uri@ == plugin_uri@,
            _ => false,
        }),
        found is Some ==> r is Ok && metadata_matches(r->Ok_0, found->0),
{
    match found {
        Some(plugin) => extract_plugin_metadata(&plugin),
        None => Err(SmokeError::PluginNotFound { uri: String::from_str(plugin_uri) }),
    }
}

} // verus!
