//! What is reported of a plugin, and what is read from its description to
//! report it.
use vstd::prelude::*;
use crate::extras::RawExtras;
use crate::node::NodeValue;

verus! {

/// The class of a plugin.
pub struct PluginClass {
    pub uri: Option<String>,
    pub label: Option<String>,
    pub parent_uri: Option<String>,
}

/// Who made a plugin.
pub struct AuthorMetadata {
    pub name: Option<String>,
    pub email: Option<String>,
    pub homepage: Option<String>,
}

/// One line of the list of installed plugins.
pub struct PluginSummary {
    pub uri: String,
    pub name: Option<String>,
    pub classes: Vec<PluginClass>,
    pub bundle_uri: Option<String>,
    pub bundle_path: Option<String>,
}

/// Whether a port takes data in or gives it out.
#[derive(Debug, Clone, Copy, PartialEq, Eq, Structural)]
pub enum PortDirection {
    Input,
    Output,
    Unknown,
}

/// The kind of data a port carries.
#[derive(Debug, Clone, Copy, PartialEq, Eq, Structural)]
pub enum PortType {
    Audio,
    Control,
    Cv,
    Atom,
    Event,
    Unknown,
}

/// What is reported of one port. The port's value range holds decimal
/// numbers and is reported beside this record.
pub struct PortMetadata {
    pub index: usize,
    pub symbol: Option<String>,
    pub name: Option<String>,
    pub direction: PortDirection,
    pub port_type: PortType,
    pub classes: Vec<String>,
    pub properties: Vec<String>,
    pub raw_extras: RawExtras,
}

/// Everything reported of one plugin.
pub struct PluginMetadata {
    pub uri: String,
    pub name: Option<String>,
    pub classes: Vec<PluginClass>,
    pub license: Vec<String>,
    pub author: AuthorMetadata,
    pub bundle_uri: Option<String>,
    pub bundle_path: Option<String>,
    pub library_uri: Option<String>,
    pub ports: Vec<PortMetadata>,
    pub raw_extras: RawExtras,
}

/// The class of a plugin as its description gives it.
pub struct PluginClassFacts {
    pub uri: Option<NodeValue>,
    pub label: NodeValue,
    pub parent_uri: Option<NodeValue>,
}

/// What identifies a plugin and where it lives.
pub struct PluginIdentity {
    pub uri: NodeValue,
    pub name: NodeValue,
    pub class: PluginClassFacts,
    pub bundle_uri: NodeValue,
    /// The local path of the bundle, when its URI is a file URI.
    pub bundle_path: Option<String>,
}

/// What a port's description gives: its index, whether it is of each class
/// that matters here, its classes and properties, its symbol and name, and
/// the Turtle token of the port's node.
pub struct PortFacts {
    pub index: usize,
    pub is_input: bool,
    pub is_output: bool,
    pub is_audio: bool,
    pub is_control: bool,
    pub is_cv: bool,
    pub is_atom: bool,
    pub is_event: bool,
    /// The port has the `lv2:connectionOptional` property.
    pub connection_optional: bool,
    pub classes: Vec<NodeValue>,
    pub properties: Vec<NodeValue>,
    pub symbol: Option<NodeValue>,
    pub name: Option<NodeValue>,
    pub node_turtle: String,
}

/// The details of a plugin that have no field of their own.
pub struct PluginExtrasFacts {
    pub data_uris: Vec<NodeValue>,
    pub supported_features: Vec<NodeValue>,
    pub required_features: Vec<NodeValue>,
    pub optional_features: Vec<NodeValue>,
    pub extension_data: Option<Vec<NodeValue>>,
    pub project: Option<NodeValue>,
    pub is_replaced: bool,
}

/// What a plugin's description gives.
pub struct PluginFacts {
    pub identity: PluginIdentity,
    /// The objects of the plugin's `doap:license` statements.
    pub license: Vec<NodeValue>,
    pub author_name: Option<NodeValue>,
    pub author_email: Option<NodeValue>,
    pub author_homepage: Option<NodeValue>,
    pub library_uri: Option<NodeValue>,
    pub ports: Vec<PortFacts>,
    pub extras: PluginExtrasFacts,
}

} // verus!
