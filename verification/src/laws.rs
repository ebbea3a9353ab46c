//! Properties that hold across the reports and the runs.
use vstd::prelude::*;
use crate::error::{cause_text, error_text, headline_text, SmokeError};
use crate::extract::{
    classes_match, direction_of, metadata_matches, plugin_extras_view, port_extras_view,
    port_matches, type_of,
};
use crate::model::{
    PluginExtrasFacts, PluginFacts, PluginIdentity, PluginMetadata, PluginSummary, PortDirection,
    PortFacts, PortMetadata, PortType,
};
use crate::node::{node_text, nodes_text, opt_text, NodeValue};
use crate::run::{
    accepts, phase_after, plan_matches, port_runnable, step_matches, PortPlan, PortStorage, trace_accepted, uris_of, RunAction, RunEvent,
    RunPhase,
};
use crate::summaries::{stable_under, summary_matches, uri_sorted};
use crate::text::{bool_text, decimal_text, digit_char, int_text, lex_le, strings_view};

verus! {

/// The extra details of a plugin never hold a name with no strings.
pub proof fn law_plugin_extras_lists_nonempty(e: PluginExtrasFacts)
    ensures
        forall|k: Seq<char>|
            #[trigger] plugin_extras_view(e).contains_key(k) ==> plugin_extras_view(e)[k].len() > 0,
{
}

/// The extra details of a plugin always say whether it is replaced.
pub proof fn law_plugin_extras_say_if_replaced(e: PluginExtrasFacts)
    ensures
        plugin_extras_view(e).contains_key("is_replaced"@),
        plugin_extras_view(e)["is_replaced"@] == seq![bool_text(e.is_replaced)],
{
}

/// The extra details of a port always give the Turtle token of its node, and
/// give its classes and its properties exactly when it has some.
pub proof fn law_port_extras_entries(
    classes: Seq<Seq<char>>,
    properties: Seq<Seq<char>>,
    node_turtle: Seq<char>,
)
    ensures
        port_extras_view(classes, properties, node_turtle).contains_key("port_node"@),
        port_extras_view(classes, properties, node_turtle)["port_node"@] == seq![node_turtle],
        port_extras_view(classes, properties, node_turtle).contains_key("classes"@) <==> classes.len() > 0,
        classes.len() > 0 ==> port_extras_view(classes, properties, node_turtle)["classes"@] == classes,
        port_extras_view(classes, properties, node_turtle).contains_key("properties"@) <==> properties.len()
            > 0,
        properties.len() > 0 ==> port_extras_view(classes, properties, node_turtle)["properties"@]
            == properties,
        port_extras_view(classes, properties, node_turtle).dom().len() == 1 + (if classes.len() > 0 {
            1int
        } else {
            0
        }) + (if properties.len() > 0 {
            1int
        } else {
            0
        }),
{
    reveal_strlit("port_node");
    reveal_strlit("classes");
    reveal_strlit("properties");
    assert("port_node"@ != "classes"@) by {
        assert("port_node"@.len() != "classes"@.len());
    }
    assert("port_node"@ != "properties"@) by {
        assert("port_node"@[1] != "properties"@[1]);
    }
    assert("classes"@ != "properties"@) by {
        assert("classes"@[0] != "properties"@[0]);
    }
    let m0 = Map::<Seq<char>, Seq<Seq<char>>>::empty();
    let m1 = if classes.len() > 0 {
        m0.insert("classes"@, classes)
    } else {
        m0
    };
    let m2 = if properties.len() > 0 {
        m1.insert("properties"@, properties)
    } else {
        m1
    };
    assert(m0.dom().len() == 0);
    assert(m1.dom().finite());
    assert(m2.dom().finite());
    assert(m1.dom().len() == if classes.len() > 0 { 1int } else { 0 });
    assert(!m2.contains_key("port_node"@));
    if properties.len() > 0 {
        assert(!m1.contains_key("properties"@));
    }
}

/// The list of installed plugins and the report of one plugin agree on that
/// plugin's URI, name, classes, bundle URI and bundle path.
pub proof fn law_summary_agrees_with_metadata(s: PluginSummary, m: PluginMetadata, f: PluginFacts)
    requires
        summary_matches(s, f.identity),
        metadata_matches(m, f),
    ensures
        s.uri@ == m.uri@,
        opt_text(s.name) == opt_text(m.name),
        s.classes@.len() == m.classes@.len(),
        forall|i: int| 0 <= i < s.classes@.len() ==> opt_text(#[trigger] s.classes@[i].uri) == opt_text(
            m.classes@[i].uri,
        ) && opt_text(s.classes@[i].label) == opt_text(m.classes@[i].label) && opt_text(
            s.classes@[i].parent_uri,
        ) == opt_text(m.classes@[i].parent_uri),
        opt_text(s.bundle_uri) == opt_text(m.bundle_uri),
        opt_text(s.bundle_path) == opt_text(m.bundle_path),
{
    assert(classes_match(s.classes@, f.identity.class));
    assert(classes_match(m.classes@, f.identity.class));
}

/// The refusal of an unknown plugin says that the plugin was not found and
/// names the URI that was asked for.
pub proof fn law_not_found_message(uri: String)
    ensures
        error_text(SmokeError::PluginNotFound { uri }).take(16) == "Plugin not found"@,
        error_text(SmokeError::PluginNotFound { uri }).skip(26) == uri@,
{
    reveal_strlit("Plugin not found for URI: ");
    reveal_strlit("Plugin not found");
    let t = error_text(SmokeError::PluginNotFound { uri });
    assert(t.take(16) =~= "Plugin not found"@);
    assert(t.skip(26) =~= uri@);
}

/// A run that is over takes no further event: nothing can follow its last
/// action.
pub proof fn law_finished_run_is_final(e: RunEvent)
    ensures
        !accepts(RunPhase::Done, e),
{
}

/// The events of a run that has passed every check up to connecting ports:
/// the plugin was found, requires no feature, was instantiated, and each port
/// since then could be connected or left out.
pub open spec fn checks_passed(events: Seq<RunEvent>, ports_end: int) -> bool {
    &&& events.len() >= 3
    &&& events[0] == RunEvent::PluginFound(true)
    &&& events[1] is RequiredFeatures && uris_of(events[1]->RequiredFeatures_0@).len() == 0
    &&& events[2] == RunEvent::Instantiated(true)
    &&& forall|i: int| 3 <= i < ports_end ==> (#[trigger] events[i] is Port) && port_runnable(events[i]->Port_0)
}

/// What the events of a run must have been for it to stand where it stands.
pub open spec fn trace_shape(frames: usize, events: Seq<RunEvent>) -> bool {
    match phase_after(frames, events) {
        RunPhase::FindingPlugin => events.len() == 0 && frames > 0,
        RunPhase::CheckingFeatures => frames > 0 && events.len() == 1 && events[0]
            == RunEvent::PluginFound(true),
        RunPhase::Instantiating => frames > 0 && events.len() == 2 && events[0]
            == RunEvent::PluginFound(true) && events[1] is RequiredFeatures && uris_of(
            events[1]->RequiredFeatures_0@,
        ).len() == 0,
        RunPhase::ConnectingPorts => frames > 0 && checks_passed(events, events.len() as int),
        RunPhase::Running => frames > 0 && events.len() >= 4 && checks_passed(
            events,
            events.len() - 1,
        ) && events.last() == RunEvent::NoMorePorts,
        RunPhase::Done => true,
    }
}

proof fn lemma_trace_shape(frames: usize, events: Seq<RunEvent>)
    requires
        trace_accepted(frames, events),
    ensures
        trace_shape(frames, events),
    decreases events.len(),
{
    if events.len() > 0 {
        let n = events.len() - 1;
        let prefix = events.drop_last();
        assert forall|i: int| 0 <= i < prefix.len() implies accepts(
            phase_after(frames, #[trigger] prefix.take(i)),
            prefix[i],
        ) by {
            assert(prefix.take(i) =~= events.take(i));
            assert(accepts(phase_after(frames, events.take(i)), events[i]));
        }
        lemma_trace_shape(frames, prefix);
        assert(events.take(n) =~= prefix);
        assert(accepts(phase_after(frames, events.take(n)), events[n]));
        let e = events.last();
        match phase_after(frames, prefix) {
            RunPhase::ConnectingPorts => {
                assert(checks_passed(prefix, prefix.len() as int));
                assert forall|i: int| 3 <= i < n implies (#[trigger] events[i] is Port) && port_runnable(
                    events[i]->Port_0,
                ) by {
                    assert(events[i] == prefix[i]);
                    assert(prefix[i] is Port);
                }
                if e is Port && port_runnable(e->Port_0) {
                    assert forall|i: int| 3 <= i < events.len() implies (#[trigger] events[i] is Port)
                        && port_runnable(events[i]->Port_0) by {
                        if i < n {
                            assert(events[i] == prefix[i]);
                            assert(prefix[i] is Port);
                        } else {
                            assert(events[i] == e);
                        }
                    }
                }
            },
            _ => {},
        }
    }
}

/// A run reaches the plugin's `run()` only over a positive number of frames,
/// after the plugin was found, was seen to require no feature and was
/// instantiated, and after every port was connected or, being optional, left
/// out.
pub proof fn law_run_only_after_every_check(frames: usize, events: Seq<RunEvent>)
    requires
        trace_accepted(frames, events),
        phase_after(frames, events) == RunPhase::Running,
    ensures
        frames > 0,
        events.len() >= 4,
        events[0] == RunEvent::PluginFound(true),
        events[1] is RequiredFeatures,
        uris_of(events[1]->RequiredFeatures_0@).len() == 0,
        events[2] == RunEvent::Instantiated(true),
        forall|i: int| 3 <= i < events.len() - 1 ==> (#[trigger] events[i] is Port) && port_runnable(
            events[i]->Port_0,
        ),
        events.last() == RunEvent::NoMorePorts,
{
    lemma_trace_shape(frames, events);
}

/// A run finishes with success only when the plugin's `run()` has returned;
/// every other way a run finishes is a refusal.
pub proof fn law_success_only_after_run(
    uri: Seq<char>,
    frames: usize,
    e: RunEvent,
    next: RunPhase,
    a: RunAction,
)
    requires
        step_matches(uri, frames, e, next, a),
        a == RunAction::Finish(Ok(())),
    ensures
        e is RunReturned,
        next == RunPhase::Done,
{
}

/// The full message of a refusal is its headline, followed by `: ` and its
/// cause when it has one; only a failed instantiation has a cause.
pub proof fn law_message_is_headline_and_cause(e: SmokeError)
    ensures
        cause_text(e) is None ==> error_text(e) == headline_text(e),
        cause_text(e) is Some ==> error_text(e) == headline_text(e) + ": "@ + cause_text(e)->0,
        cause_text(e) is Some <==> e is InstantiateFailed,
{
    reveal_strlit("Plugin instantiate returned null: Failed to instantiate plugin ");
    reveal_strlit("Plugin instantiate returned null");
    reveal_strlit(": ");
    reveal_strlit("Failed to instantiate plugin ");
    if let SmokeError::InstantiateFailed { uri } = e {
        assert("Plugin instantiate returned null: Failed to instantiate plugin "@ =~= "Plugin instantiate returned null"@
            + ": "@ + "Failed to instantiate plugin "@);
        assert(error_text(e) =~= headline_text(e) + ": "@ + cause_text(e)->0);
    }
}

/// A node is reported by its URI when it is one, else by its string form,
/// else by its integer, decimal or boolean value, else by its Turtle token.
pub proof fn law_node_rendering(n: NodeValue)
    ensures
        n.uri is Some ==> node_text(n) == n.uri->0@,
        n.uri is None && n.text is Some ==> node_text(n) == n.text->0@,
        n.uri is None && n.text is None && n.int_value is Some ==> node_text(n) == int_text(
            n.int_value->0 as int,
        ),
        n.uri is None && n.text is None && n.int_value is None && n.float_text is Some ==> node_text(n)
            == n.float_text->0@,
        n.uri is None && n.text is None && n.int_value is None && n.float_text is None
            && n.bool_value is Some ==> node_text(n) == bool_text(n.bool_value->0),
        n.uri is None && n.text is None && n.int_value is None && n.float_text is None
            && n.bool_value is None ==> node_text(n) == n.turtle@,
{
}

/// A port's direction depends only on its input and output classes: input
/// when it is an input port, else output when it is an output port, else
/// unknown; its data type plays no part.
pub proof fn law_direction_from_io_classes(p: PortFacts)
    ensures
        p.is_input ==> direction_of(p) == PortDirection::Input,
        !p.is_input && p.is_output ==> direction_of(p) == PortDirection::Output,
        !p.is_input && !p.is_output ==> direction_of(p) == PortDirection::Unknown,
{
}

/// A port's type is the first of audio, control, CV, atom and event that it
/// is, else unknown; its direction plays no part.
pub proof fn law_type_from_data_classes(p: PortFacts)
    ensures
        p.is_audio ==> type_of(p) == PortType::Audio,
        !p.is_audio && p.is_control ==> type_of(p) == PortType::Control,
        !p.is_audio && !p.is_control && p.is_cv ==> type_of(p) == PortType::Cv,
        !p.is_audio && !p.is_control && !p.is_cv && p.is_atom ==> type_of(p) == PortType::Atom,
        !p.is_audio && !p.is_control && !p.is_cv && !p.is_atom && p.is_event ==> type_of(p)
            == PortType::Event,
        !p.is_audio && !p.is_control && !p.is_cv && !p.is_atom && !p.is_event ==> type_of(p)
            == PortType::Unknown,
{
}

/// What a port's report says, field by field, in terms of the port's
/// description.
pub proof fn law_port_report_fields(m: PortMetadata, p: PortFacts)
    requires
        port_matches(m, p),
    ensures
        m.index == p.index,
        p.symbol is Some ==> m.symbol is Some && m.symbol->0@ == node_text(p.symbol->0),
        p.symbol is None ==> m.symbol is None,
        p.name is Some ==> m.name is Some && m.name->0@ == node_text(p.name->0),
        p.name is None ==> m.name is None,
        p.is_input ==> m.direction == PortDirection::Input,
        !p.is_input && p.is_output ==> m.direction == PortDirection::Output,
        !p.is_input && !p.is_output ==> m.direction == PortDirection::Unknown,
        p.is_audio ==> m.port_type == PortType::Audio,
        !p.is_audio && p.is_control ==> m.port_type == PortType::Control,
        !p.is_audio && !p.is_control && p.is_cv ==> m.port_type == PortType::Cv,
        !p.is_audio && !p.is_control && !p.is_cv && p.is_atom ==> m.port_type == PortType::Atom,
        !p.is_audio && !p.is_control && !p.is_cv && !p.is_atom && p.is_event ==> m.port_type
            == PortType::Event,
        !p.is_audio && !p.is_control && !p.is_cv && !p.is_atom && !p.is_event ==> m.port_type
            == PortType::Unknown,
        m.classes@.len() == p.classes@.len(),
        forall|i: int| 0 <= i < m.classes@.len() ==> #[trigger] m.classes@[i]@ == node_text(p.classes@[i]),
        m.properties@.len() == p.properties@.len(),
        forall|i: int|
            0 <= i < m.properties@.len() ==> #[trigger] m.properties@[i]@ == node_text(p.properties@[i]),
        m.raw_extras.view().contains_key("port_node"@),
        m.raw_extras.view()["port_node"@] == seq![p.node_turtle@],
{
    assert forall|i: int| 0 <= i < m.classes@.len() implies #[trigger] m.classes@[i]@ == node_text(p.classes@[i]) by {
        assert(strings_view(m.classes@)[i] == nodes_text(p.classes@)[i]);
    }
    assert forall|i: int| 0 <= i < m.properties@.len() implies #[trigger] m.properties@[i]@ == node_text(p.properties@[i]) by {
        assert(strings_view(m.properties@)[i] == nodes_text(p.properties@)[i]);
    }
    law_port_extras_entries(nodes_text(p.classes@), nodes_text(p.properties@), p.node_turtle@);
}

/// What a plugin's report says, field by field, in terms of the plugin's
/// description: every optional detail is reported exactly when the
/// description has it, as its rendering.
pub proof fn law_plugin_report_fields(m: PluginMetadata, f: PluginFacts)
    requires
        metadata_matches(m, f),
    ensures
        m.uri@ == node_text(f.identity.uri),
        m.name is Some && m.name->0@ == node_text(f.identity.name),
        m.classes@.len() == 1,
        f.identity.class.uri is Some ==> m.classes@[0].uri is Some && m.classes@[0].uri->0@ == node_text(
            f.identity.class.uri->0,
        ),
        f.identity.class.uri is None ==> m.classes@[0].uri is None,
        m.classes@[0].label is Some && m.classes@[0].label->0@ == node_text(f.identity.class.label),
        f.identity.class.parent_uri is Some ==> m.classes@[0].parent_uri is Some
            && m.classes@[0].parent_uri->0@ == node_text(f.identity.class.parent_uri->0),
        f.identity.class.parent_uri is None ==> m.classes@[0].parent_uri is None,
        m.license@.len() == f.license@.len(),
        forall|i: int| 0 <= i < m.license@.len() ==> #[trigger] m.license@[i]@ == node_text(f.license@[i]),
        f.author_name is Some ==> m.author.name is Some && m.author.name->0@ == node_text(f.author_name->0),
        f.author_name is None ==> m.author.name is None,
        f.author_email is Some ==> m.author.email is Some && m.author.email->0@ == node_text(
            f.author_email->0,
        ),
        f.author_email is None ==> m.author.email is None,
        f.author_homepage is Some ==> m.author.homepage is Some && m.author.homepage->0@ == node_text(
            f.author_homepage->0,
        ),
        f.author_homepage is None ==> m.author.homepage is None,
        m.bundle_uri is Some && m.bundle_uri->0@ == node_text(f.identity.bundle_uri),
        f.identity.bundle_path is Some ==> m.bundle_path is Some && m.bundle_path->0@
            == f.identity.bundle_path->0@,
        f.identity.bundle_path is None ==> m.bundle_path is None,
        f.library_uri is Some ==> m.library_uri is Some && m.library_uri->0@ == node_text(
            f.library_uri->0,
        ),
        f.library_uri is None ==> m.library_uri is None,
        m.ports@.len() == f.ports@.len(),
        forall|i: int| 0 <= i < m.ports@.len() ==> (#[trigger] m.ports@[i]).index == f.ports@[i].index,
{
    assert(strings_view(m.license@).len() == m.license@.len());
    assert(nodes_text(f.license@).len() == f.license@.len());
    assert forall|i: int| 0 <= i < m.license@.len() implies #[trigger] m.license@[i]@ == node_text(f.license@[i]) by {
        assert(strings_view(m.license@)[i] == nodes_text(f.license@)[i]);
    }
    assert forall|i: int| 0 <= i < m.ports@.len() implies (#[trigger] m.ports@[i]).index == f.ports@[i].index by {
        assert(port_matches(m.ports@[i], f.ports@[i]));
    }
}

/// What a line of the plugin list says, field by field, in terms of what
/// identifies the plugin.
pub proof fn law_summary_fields(s: PluginSummary, id: PluginIdentity)
    requires
        summary_matches(s, id),
    ensures
        s.uri@ == node_text(id.uri),
        s.name is Some && s.name->0@ == node_text(id.name),
        s.classes@.len() == 1,
        id.class.uri is Some ==> s.classes@[0].uri is Some && s.classes@[0].uri->0@ == node_text(
            id.class.uri->0,
        ),
        id.class.uri is None ==> s.classes@[0].uri is None,
        s.classes@[0].label is Some && s.classes@[0].label->0@ == node_text(id.class.label),
        id.class.parent_uri is Some ==> s.classes@[0].parent_uri is Some && s.classes@[0].parent_uri->0@
            == node_text(id.class.parent_uri->0),
        id.class.parent_uri is None ==> s.classes@[0].parent_uri is None,
        s.bundle_uri is Some && s.bundle_uri->0@ == node_text(id.bundle_uri),
        id.bundle_path is Some ==> s.bundle_path is Some && s.bundle_path->0@ == id.bundle_path->0@,
        id.bundle_path is None ==> s.bundle_path is None,
{
}

/// Each list of a plugin's extra details appears under its own name exactly
/// when it is not empty, holding the renderings of its nodes in order; the
/// project appears exactly when the plugin names one.
pub proof fn law_plugin_extras_lists(e: PluginExtrasFacts)
    ensures
        plugin_extras_view(e).contains_key("data_uris"@) <==> e.data_uris@.len() > 0,
        e.data_uris@.len() > 0 ==> plugin_extras_view(e)["data_uris"@] == nodes_text(e.data_uris@),
        plugin_extras_view(e).contains_key("supported_features"@) <==> e.supported_features@.len() > 0,
        e.supported_features@.len() > 0 ==> plugin_extras_view(e)["supported_features"@] == nodes_text(
            e.supported_features@,
        ),
        plugin_extras_view(e).contains_key("required_features"@) <==> e.required_features@.len() > 0,
        e.required_features@.len() > 0 ==> plugin_extras_view(e)["required_features"@] == nodes_text(
            e.required_features@,
        ),
        plugin_extras_view(e).contains_key("optional_features"@) <==> e.optional_features@.len() > 0,
        e.optional_features@.len() > 0 ==> plugin_extras_view(e)["optional_features"@] == nodes_text(
            e.optional_features@,
        ),
        plugin_extras_view(e).contains_key("extension_data"@) <==> (e.extension_data is Some
            && e.extension_data->0@.len() > 0),
        e.extension_data is Some && e.extension_data->0@.len() > 0 ==> plugin_extras_view(
            e,
        )["extension_data"@] == nodes_text(e.extension_data->0@),
        plugin_extras_view(e).contains_key("project"@) <==> e.project is Some,
        e.project is Some ==> plugin_extras_view(e)["project"@] == seq![node_text(e.project->0)],
{
    reveal_strlit("data_uris");
    reveal_strlit("supported_features");
    reveal_strlit("required_features");
    reveal_strlit("optional_features");
    reveal_strlit("extension_data");
    reveal_strlit("project");
    reveal_strlit("is_replaced");
    let keys = seq![
        "data_uris"@,
        "supported_features"@,
        "required_features"@,
        "optional_features"@,
        "extension_data"@,
        "project"@,
        "is_replaced"@,
    ];
    assert forall|i: int, j: int| 0 <= i < j < 7 implies keys[i] != keys[j] by {
        assert(keys[i][0] != keys[j][0]);
    }
    assert(nodes_text(e.data_uris@).len() == e.data_uris@.len());
    assert(nodes_text(e.supported_features@).len() == e.supported_features@.len());
    assert(nodes_text(e.required_features@).len() == e.required_features@.len());
    assert(nodes_text(e.optional_features@).len() == e.optional_features@.len());
    if let Some(ns) = e.extension_data {
        assert(nodes_text(ns@).len() == ns@.len());
    }
}

/// The action stops the run, refusing port `p` by its index and naming it by
/// its symbol's string form when it has one, else by `port-` and its index.
pub open spec fn refuses_port(a: RunAction, p: PortFacts) -> bool {
    match a {
        RunAction::Finish(Err(SmokeError::UnsupportedPort { index, symbol })) => index == p.index && (
        if p.symbol is Some && p.symbol->0.text is Some {
            symbol@ == p.symbol->0.text->0@
        } else {
            symbol@ == "port-"@ + decimal_text(p.index as nat)
        }),
        _ => false,
    }
}

/// On each port a run connects audio and CV ports, input or output, to a
/// zero-filled buffer of exactly the run's frame count; control inputs to
/// their default and control outputs to zero; leaves other optional ports
/// unconnected and goes on; and stops at other required ports, naming the
/// port by its symbol's string form, else `port-` and its index.
pub proof fn law_port_step(uri: Seq<char>, frames: usize, p: PortFacts, next: RunPhase, a: RunAction)
    requires
        step_matches(uri, frames, RunEvent::Port(p), next, a),
    ensures
        p.is_audio || p.is_cv ==> (next == RunPhase::ConnectingPorts && a == (RunAction::ConnectPort {
            index: p.index,
            storage: PortStorage::Audio { len: frames },
        })),
        !(p.is_audio || p.is_cv) && p.is_control && p.is_input ==> (next == RunPhase::ConnectingPorts
            && a == (RunAction::ConnectPort { index: p.index, storage: PortStorage::ControlDefault })),
        !(p.is_audio || p.is_cv) && p.is_control && !p.is_input ==> (next == RunPhase::ConnectingPorts
            && a == (RunAction::ConnectPort { index: p.index, storage: PortStorage::ControlZero })),
        !(p.is_audio || p.is_cv || p.is_control) && p.connection_optional ==> (next
            == RunPhase::ConnectingPorts && a == RunAction::NextPort),
        !(p.is_audio || p.is_cv || p.is_control || p.connection_optional) ==> (next == RunPhase::Done
            && refuses_port(a, p)),
{
}

/// The plan for a port, as `plan_port` gives it, follows the same rules as a
/// run's step on that port.
pub proof fn law_port_plan(plan: PortPlan, p: PortFacts, frames: usize)
    requires
        plan_matches(plan, p, frames),
    ensures
        p.is_audio || p.is_cv ==> plan == PortPlan::Connect(PortStorage::Audio { len: frames }),
        !(p.is_audio || p.is_cv) && p.is_control && p.is_input ==> plan == PortPlan::Connect(
            PortStorage::ControlDefault,
        ),
        !(p.is_audio || p.is_cv) && p.is_control && !p.is_input ==> plan == PortPlan::Connect(
            PortStorage::ControlZero,
        ),
        !(p.is_audio || p.is_cv || p.is_control) && p.connection_optional ==> plan == PortPlan::Skip,
        !(p.is_audio || p.is_cv || p.is_control || p.connection_optional) ==> (match plan {
            PortPlan::Refuse(err) => refuses_port(RunAction::Finish(Err(err)), p),
            _ => false,
        }),
{
}

/// The numeric value of a sequence of decimal digits.
pub open spec fn digits_value(s: Seq<char>) -> int
    decreases s.len(),
{
    if s.len() == 0 {
        0
    } else {
        digits_value(s.drop_last()) * 10 + (s.last() as int - '0' as int)
    }
}

proof fn lemma_digit_char_value(d: int)
    requires
        0 <= d < 10,
    ensures
        '0' <= digit_char(d) <= '9',
        digit_char(d) as int - '0' as int == d,
        d != 0 ==> digit_char(d) != '0',
{
}

/// Decimal text is made of digits only, has no leading zero unless it is
/// `0` itself, and reads back as the number it was made from.
pub proof fn law_decimal_reads_back(n: nat)
    ensures
        decimal_text(n).len() > 0,
        forall|i: int| 0 <= i < decimal_text(n).len() ==> '0' <= #[trigger] decimal_text(n)[i] <= '9',
        decimal_text(n).len() > 1 ==> decimal_text(n)[0] != '0',
        digits_value(decimal_text(n)) == n,
    decreases n,
{
    if n >= 10 {
        law_decimal_reads_back(n / 10);
        lemma_digit_char_value((n % 10) as int);
        let t = decimal_text(n);
        let h = decimal_text(n / 10);
        assert(t == h + seq![digit_char((n % 10) as int)]);
        assert(t.drop_last() =~= h);
        assert(t[0] == h[0]);
        if n / 10 < 10 {
            lemma_digit_char_value((n / 10) as int);
            assert(h == seq![digit_char((n / 10) as int)]);
        } else {
            law_decimal_reads_back(n / 100);
            assert(h == decimal_text(n / 10 / 10) + seq![digit_char((n / 10 % 10) as int)]);
            assert(h.len() > 1);
        }
        assert(digits_value(t) == digits_value(h) * 10 + (t.last() as int - '0' as int));
    } else {
        lemma_digit_char_value(n as int);
        let t = decimal_text(n);
        assert(t == seq![digit_char(n as int)]);
        assert(t.drop_last() =~= Seq::<char>::empty());
        assert(digits_value(t) == digits_value(t.drop_last()) * 10 + (t.last() as int - '0' as int));
    }
}

/// The text of a negative integer is `-` and the decimal text of its
/// magnitude; that of any other integer is its decimal text.
pub proof fn law_int_text_sign(i: int)
    ensures
        i < 0 ==> int_text(i)[0] == '-' && int_text(i).drop_first() == decimal_text((-i) as nat),
        i >= 0 ==> int_text(i) == decimal_text(i as nat),
{
    if i < 0 {
        assert(int_text(i).drop_first() =~= decimal_text((-i) as nat));
    }
}

/// The required features that a run refuses are exactly the nodes that are
/// URIs, in order: there are none exactly when no node is a URI.
pub proof fn law_feature_uris(nodes: Seq<NodeValue>)
    ensures
        uris_of(nodes).len() == 0 <==> forall|i: int| 0 <= i < nodes.len() ==> (#[trigger] nodes[i]).uri is None,
        uris_of(nodes).len() <= nodes.len(),
        forall|k: int| #![trigger uris_of(nodes)[k]] 0 <= k < uris_of(nodes).len() ==> exists|i: int| 0 <= i < nodes.len() && (#[trigger] nodes[i]).uri is Some && nodes[i].uri->0@ == uris_of(nodes)[k],
    decreases nodes.len(),
{
    if nodes.len() > 0 {
        let rest = nodes.drop_last();
        law_feature_uris(rest);
        assert forall|i: int| 0 <= i < rest.len() implies rest[i] == nodes[i] by {}
        let n = nodes.len() - 1;
        assert(nodes.last() == nodes[n]);
        assert forall|k: int| #![trigger uris_of(nodes)[k]] 0 <= k < uris_of(nodes).len() implies exists|i: int| 0 <= i < nodes.len() && (#[trigger] nodes[i]).uri is Some && nodes[i].uri->0@ == uris_of(nodes)[k] by {
            if k < uris_of(rest).len() {
                let i = choose|i: int| 0 <= i < rest.len() && (#[trigger] rest[i]).uri is Some && rest[i].uri->0@ == uris_of(rest)[k];
                assert(nodes[i] == rest[i]);
            } else {
                assert(nodes[n].uri is Some);
            }
        }
        if uris_of(rest).len() == 0 && nodes.last().uri is None {
            assert forall|i: int| 0 <= i < nodes.len() implies (#[trigger] nodes[i]).uri is None by {
                if i < n {
                    assert(nodes[i] == rest[i]);
                }
            }
        }
        if uris_of(rest).len() > 0 {
            let i = choose|i: int| 0 <= i < rest.len() && (#[trigger] rest[i]).uri is Some && rest[i].uri->0@ == uris_of(rest)[0];
            assert(nodes[i] == rest[i]);
        }
    }
}

/// A sorted list of summaries is in increasing order of the UTF-8 bytes of
/// the URIs, which is how Rust orders strings.
pub proof fn law_sorted_means_byte_order(s: Seq<PluginSummary>)
    requires
        uri_sorted(s),
    ensures
        forall|a: int, b: int|
            #![trigger s[a], s[b]]
            0 <= a < b < s.len() ==> lex_le(
                vstd::utf8::encode_utf8(s[a].uri@),
                vstd::utf8::encode_utf8(s[b].uri@),
            ),
{
}

/// Of summaries with equal URIs, the one that came first in the input comes
/// first in the output.
pub proof fn law_stable_keeps_input_order(s: Seq<PluginSummary>, p: Seq<int>, a: int, b: int)
    requires
        stable_under(s, p),
        0 <= a < b < s.len(),
        s[a].uri@ == s[b].uri@,
    ensures
        p[a] < p[b],
{
}

} // verus!
