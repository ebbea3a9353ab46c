//! RDF nodes of a plugin description, held as the plain values that the
//! node's accessors give, and their rendering as text.
use vstd::prelude::*;
use crate::text::{bool_string, bool_text, int_string, int_text, strings_view};

verus! {

/// What the accessors of one RDF node report.
///
/// Each field is what the accessor of the same name answers for the node:
/// `uri` for a URI node, `text` for its string form, `int_value`,
/// `float_text` (a decimal literal, already rendered as text) and
/// `bool_value` for literals of those kinds, and `turtle` for its
/// Turtle/SPARQL token, which every node has.
pub struct NodeValue {
    pub uri: Option<String>,
    pub text: Option<String>,
    pub int_value: Option<i32>,
    pub float_text: Option<String>,
    pub bool_value: Option<bool>,
    pub turtle: String,
}

/// The text by which a node is reported: its URI, else its string form,
/// else its integer, decimal or boolean value, else its Turtle token.
pub open spec fn node_text(n: NodeValue) -> Seq<char> {
    if n.uri is Some {
        n.uri->0@
    } else if n.text is Some {
        n.text->0@
    } else if n.int_value is Some {
        int_text(n.int_value->0 as int)
    } else if n.float_text is Some {
        n.float_text->0@
    } else if n.bool_value is Some {
        bool_text(n.bool_value->0)
    } else {
        n.turtle@
    }
}

/// The texts of a sequence of nodes, in order.
pub open spec fn nodes_text(nodes: Seq<NodeValue>) -> Seq<Seq<char>> {
    nodes.map_values(|n: NodeValue| node_text(n))
}

/// The view of an optional string.
pub open spec fn opt_text(o: Option<String>) -> Option<Seq<char>> {
    match o {
        Some(s) => Some(s@),
        None => None,
    }
}

/// The text of an optional node.
pub open spec fn opt_node_text(o: Option<NodeValue>) -> Option<Seq<char>> {
    match o {
        Some(n) => Some(node_text(n)),
        None => None,
    }
}

/// A copy of a string.
pub(crate) fn copy_string(s: &String) -> (r: String)
    ensures
        r@ == s@,
{
    s.clone()
}

/// Renders a node as text. Every node has a rendering, so the result is
/// always `Some`.
pub fn node_to_string(node: &NodeValue) -> (r: Option<String>)
    ensures
        r is Some,
        r->0@ == node_text(*node),
{
    if let Some(uri) = &node.uri {
        return Some(copy_string(uri));
    }
    if let Some(text) = &node.text {
        return Some(copy_string(text));
    }
    if let Some(int_value) = node.int_value {
        return Some(int_string(int_value));
    }
    if let Some(float_text) = &node.float_text {
        return Some(copy_string(float_text));
    }
    if let Some(bool_value) = node.bool_value {
        return Some(bool_string(bool_value));
    }
    Some(copy_string(&node.turtle))
}

/// The text of a node that is always rendered.
pub fn node_string(node: &NodeValue) -> (r: String)
    ensures
        r@ == node_text(*node),
{
    match node_to_string(node) {
        Some(s) => s,
        None => String::new(),
    }
}

/// Renders an optional node.
pub fn opt_node_string(node: &Option<NodeValue>) -> (r: Option<String>)
    ensures
        opt_text(r) == opt_node_text(*node),
{
    match node {
        Some(n) => Some(node_string(n)),
        None => None,
    }
}

/// Renders each node of a collection, keeping those that have a rendering
/// (all of them), in order.
pub fn nodes_to_strings(nodes: &Vec<NodeValue>) -> (r: Vec<String>)
    ensures
        r@.len() == nodes@.len(),
        forall|i: int| 0 <= i < r@.len() ==> #[trigger] r@[i]@ == node_text(nodes@[i]),
        strings_view(r@) == nodes_text(nodes@),
{
    let mut r: Vec<String> = Vec::new();
    let mut i: usize = 0;
    while i < nodes.len()
        invariant
            i <= nodes@.len(),
            r@.len() == i,
            forall|k: int| 0 <= k < i ==> #[trigger] r@[k]@ == node_text(nodes@[k]),
        decreases nodes@.len() - i,
    {
        if let Some(s) = node_to_string(&nodes[i]) {
            r.push(s);
        }
        i = i + 1;
    }
    assert(strings_view(r@) =~= nodes_text(nodes@));
    r
}

} // verus!
