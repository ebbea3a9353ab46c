//! The decisions of a test run: a plugin is looked up, checked for required
//! features, instantiated, has each port connected to zero-filled buffers or
//! default control values, and is run once. The caller performs each action
//! and reports what came of it.
use vstd::prelude::*;
use crate::error::SmokeError;
use crate::model::PortFacts;
use crate::node::NodeValue;
use crate::text::{decimal_string, decimal_text, strings_view};

verus! {

/// What a port is connected to during a test run.
#[derive(Debug, Clone, Copy, PartialEq, Eq, Structural)]
pub enum PortStorage {
    /// A zero-filled buffer of `len` samples (audio and CV ports).
    Audio { len: usize },
    /// A control value: the port's default when there is one, else zero
    /// (control input ports).
    ControlDefault,
    /// A control value of zero (control output ports).
    ControlZero,
}

/// What a test run does with one port.
pub enum PortPlan {
    Connect(PortStorage),
    /// An optional port of no supported type is left unconnected.
    Skip,
    /// A required port of no supported type stops the run.
    Refuse(SmokeError),
}

/// How a refused port is named: its symbol when it has a string form, else
/// `port-` and its index.
pub open spec fn port_label(p: PortFacts) -> Seq<char> {
    match p.symbol {
        Some(n) => match n.text {
            Some(t) => t@,
            None => "port-"@ + decimal_text(p.index as nat),
        },
        None => "port-"@ + decimal_text(p.index as nat),
    }
}

/// The plan for a port in a run of `frames` frames: audio and CV ports get a
/// zero-filled buffer of that length, control inputs their default, control
/// outputs zero; other ports are skipped when optional and refused when
/// required.
pub open spec fn plan_matches(plan: PortPlan, p: PortFacts, frames: usize) -> bool {
    if p.is_audio || p.is_cv {
        plan == PortPlan::Connect(PortStorage::Audio { len: frames })
    } else if p.is_control {
        if p.is_input {
            plan == PortPlan::Connect(PortStorage::ControlDefault)
        } else {
            plan == PortPlan::Connect(PortStorage::ControlZero)
        }
    } else if p.connection_optional {
        plan == PortPlan::Skip
    } else {
        match plan {
            PortPlan::Refuse(SmokeError::UnsupportedPort { index, symbol }) => index == p.index
                && symbol@ == port_label(p),
            _ => false,
        }
    }
}

fn port_label_string(port: &PortFacts) -> (s: String)
    ensures
        s@ == port_label(*port),
{
    if let Some(n) = &port.symbol {
        if let Some(t) = &n.text {
            return t.clone();
        }
    }
    let mut s = String::from_str("port-");
    let digits = decimal_string(port.index as u64);
    s.append(digits.as_str());
    s
}

/// Decides what a test run does with a port.
pub fn plan_port(port: &PortFacts, frames: usize) -> (plan: PortPlan)
    ensures
        plan_matches(plan, *port, frames),
{
    if port.is_audio || port.is_cv {
        PortPlan::Connect(PortStorage::Audio { len: frames })
    } else if port.is_control {
        if port.is_input {
            PortPlan::Connect(PortStorage::ControlDefault)
        } else {
            PortPlan::Connect(PortStorage::ControlZero)
        }
    } else if port.connection_optional {
        PortPlan::Skip
    } else {
        PortPlan::Refuse(SmokeError::UnsupportedPort { index: port.index, symbol: port_label_string(port) })
    }
}

/// The URIs among the nodes, in order; nodes that are not URIs are left out.
pub open spec fn uris_of(nodes: Seq<NodeValue>) -> Seq<Seq<char>>
    decreases nodes.len(),
{
    if nodes.len() == 0 {
        Seq::empty()
    } else {
        let rest = uris_of(nodes.drop_last());
        match nodes.last().uri {
            Some(u) => rest.push(u@),
            None => rest,
        }
    }
}

/// The URIs among the nodes, in order.
pub fn feature_uris(nodes: &Vec<NodeValue>) -> (r: Vec<String>)
    ensures
        strings_view(r@) == uris_of(nodes@),
{
    let mut r: Vec<String> = Vec::new();
    let mut i: usize = 0;
    while i < nodes.len()
        invariant
            i <= nodes@.len(),
            strings_view(r@) == uris_of(nodes@.take(i as int)),
        decreases nodes@.len() - i,
    {
        proof {
            assert(nodes@.take(i + 1).drop_last() =~= nodes@.take(i as int));
            assert(nodes@.take(i + 1).last() == nodes@[i as int]);
        }
        if let Some(u) = &nodes[i].uri {
            r.push(u.clone());
            assert(strings_view(r@) =~= uris_of(nodes@.take(i + 1)));
        }
        i = i + 1;
    }
    assert(nodes@.take(nodes@.len() as int) =~= nodes@);
    r
}

/// Where a test run stands.
#[derive(Debug, Clone, Copy, PartialEq, Eq, Structural)]
pub enum RunPhase {
    /// Waiting to learn whether the plugin is installed.
    FindingPlugin,
    /// Waiting for the plugin's required features.
    CheckingFeatures,
    /// Waiting to learn whether the plugin was instantiated.
    Instantiating,
    /// Waiting for the next port, or to learn there are no more.
    ConnectingPorts,
    /// Waiting for the plugin's run to return.
    Running,
    /// The run is over; nothing more happens.
    Done,
}

/// What the caller reports after performing an action.
pub enum RunEvent {
    /// Whether an installed plugin has the requested URI.
    PluginFound(bool),
    /// The plugin's required features.
    RequiredFeatures(Vec<NodeValue>),
    /// Whether instantiating the plugin gave an instance.
    Instantiated(bool),
    /// The next port of the plugin.
    Port(PortFacts),
    /// The plugin has no more ports.
    NoMorePorts,
    /// The plugin's run returned.
    RunReturned,
}

/// What the caller is to do next.
pub enum RunAction {
    /// Look up the installed plugin with the requested URI.
    FindPlugin,
    /// Read the plugin's required features.
    ReadRequiredFeatures,
    /// Instantiate the plugin.
    Instantiate,
    /// Report the next port, or that there are no more.
    NextPort,
    /// Connect the port with this index to this storage, then report the
    /// next port, or that there are no more.
    ConnectPort { index: usize, storage: PortStorage },
    /// Activate the instance and run it once over this many frames.
    ActivateAndRun { frames: usize },
    /// Stop: the run succeeded, or it was refused for this reason.
    Finish(Result<(), SmokeError>),
}

/// A test run in progress.
pub struct RunState {
    phase: RunPhase,
    plugin_uri: String,
    frame_count: usize,
}

/// The events that a phase waits for.
pub open spec fn accepts(phase: RunPhase, e: RunEvent) -> bool {
    match phase {
        RunPhase::FindingPlugin => e is PluginFound,
        RunPhase::CheckingFeatures => e is RequiredFeatures,
        RunPhase::Instantiating => e is Instantiated,
        RunPhase::ConnectingPorts => e is Port || e is NoMorePorts,
        RunPhase::Running => e is RunReturned,
        RunPhase::Done => false,
    }
}

impl RunState {
    #[verifier::type_invariant]
    spec fn frames_positive(self) -> bool {
        self.phase != RunPhase::Done ==> self.frame_count > 0
    }

    pub closed spec fn spec_phase(self) -> RunPhase {
        self.phase
    }

    pub closed spec fn spec_plugin_uri(self) -> Seq<char> {
        self.plugin_uri@
    }

    pub closed spec fn spec_frame_count(self) -> usize {
        self.frame_count
    }

    /// Where the run stands.
    pub fn phase(&self) -> (p: RunPhase)
        ensures
            p == self.spec_phase(),
    {
        self.phase
    }

    /// The URI of the plugin being run.
    pub fn plugin_uri(&self) -> (u: &String)
        ensures
            u@ == self.spec_plugin_uri(),
    {
        &self.plugin_uri
    }

    /// The number of frames to process.
    pub fn frame_count(&self) -> (n: usize)
        ensures
            n == self.spec_frame_count(),
    {
        self.frame_count
    }

    /// Whether the run waits for this event.
    pub fn accepts(&self, e: &RunEvent) -> (b: bool)
        ensures
            b == accepts(self.spec_phase(), *e),
    {
        match self.phase {
            RunPhase::FindingPlugin => matches!(e, RunEvent::PluginFound(_)),
            RunPhase::CheckingFeatures => matches!(e, RunEvent::RequiredFeatures(_)),
            RunPhase::Instantiating => matches!(e, RunEvent::Instantiated(_)),
            RunPhase::ConnectingPorts => matches!(e, RunEvent::Port(_) | RunEvent::NoMorePorts),
            RunPhase::Running => matches!(e, RunEvent::RunReturned),
            RunPhase::Done => false,
        }
    }

    /// Starts a run of the plugin with this URI over this many frames. A run
    /// of zero frames is refused at once; otherwise the plugin is looked up
    /// first.
    pub fn start(plugin_uri: String, frame_count: usize) -> (r: (RunState, RunAction))
        ensures
            r.0.spec_plugin_uri() == plugin_uri@,
            r.0.spec_frame_count() == frame_count,
            frame_count == 0 ==> r.0.spec_phase() == RunPhase::Done && r.1 == RunAction::Finish(
                Err(SmokeError::ZeroFrames),
            ),
            frame_count > 0 ==> r.0.spec_phase() == RunPhase::FindingPlugin && r.1
                == RunAction::FindPlugin,
    {
        if frame_count == 0 {
            (
                RunState { phase: RunPhase::Done, plugin_uri, frame_count },
                RunAction::Finish(Err(SmokeError::ZeroFrames)),
            )
        } else {
            (RunState { phase: RunPhase::FindingPlugin, plugin_uri, frame_count }, RunAction::FindPlugin)
        }
    }

    /// Takes the run one step further on what the caller reports.
    pub fn step(self, e: RunEvent) -> (r: (RunState, RunAction))
        requires
            accepts(self.spec_phase(), e),
        ensures
            r.0.spec_plugin_uri() == self.spec_plugin_uri(),
            r.0.spec_frame_count() == self.spec_frame_count(),
            step_matches(self.spec_plugin_uri(), self.spec_frame_count(), e, r.0.spec_phase(), r.1),
            r.0.spec_phase() == next_phase(e),
    {
        proof {
            use_type_invariant(&self);
        }
        let RunState { phase, plugin_uri, frame_count } = self;
        match e {
            RunEvent::PluginFound(found) => {
                if found {
                    (RunState { phase: RunPhase::CheckingFeatures, plugin_uri, frame_count }, RunAction::ReadRequiredFeatures)
                } else {
                    let uri = plugin_uri.clone();
                    (
                        RunState { phase: RunPhase::Done, plugin_uri, frame_count },
                        RunAction::Finish(Err(SmokeError::PluginNotFound { uri })),
                    )
                }
            },
            RunEvent::RequiredFeatures(nodes) => {
                let features = feature_uris(&nodes);
                if features.len() > 0 {
                    (
                        RunState { phase: RunPhase::Done, plugin_uri, frame_count },
                        RunAction::Finish(Err(SmokeError::UnsupportedFeatures { features })),
                    )
                } else {
                    (RunState { phase: RunPhase::Instantiating, plugin_uri, frame_count }, RunAction::Instantiate)
                }
            },
            RunEvent::Instantiated(ok) => {
                if ok {
                    (RunState { phase: RunPhase::ConnectingPorts, plugin_uri, frame_count }, RunAction::NextPort)
                } else {
                    let uri = plugin_uri.clone();
                    (
                        RunState { phase: RunPhase::Done, plugin_uri, frame_count },
                        RunAction::Finish(Err(SmokeError::InstantiateFailed { uri })),
                    )
                }
            },
            RunEvent::Port(port) => {
                match plan_port(&port, frame_count) {
                    PortPlan::Connect(storage) => (
                        RunState { phase: RunPhase::ConnectingPorts, plugin_uri, frame_count },
                        RunAction::ConnectPort { index: port.index, storage },
                    ),
                    PortPlan::Skip => (RunState { phase: RunPhase::ConnectingPorts, plugin_uri, frame_count }, RunAction::NextPort),
                    PortPlan::Refuse(err) => (
                        RunState { phase: RunPhase::Done, plugin_uri, frame_count },
                        RunAction::Finish(Err(err)),
                    ),
                }
            },
            RunEvent::NoMorePorts => {
                (RunState { phase: RunPhase::Running, plugin_uri, frame_count }, RunAction::ActivateAndRun { frames: frame_count })
            },
            RunEvent::RunReturned => {
                (RunState { phase: RunPhase::Done, plugin_uri, frame_count }, RunAction::Finish(Ok(())))
            },
        }
    }
}

/// On a port, a run connects audio and CV ports to zero-filled buffers of
/// `frames` samples, control inputs to their default and control outputs to
/// zero, and stays to connect more; it skips other optional ports and stops
/// at other required ports, naming the port.
pub open spec fn port_step_matches(p: PortFacts, frames: usize, next: RunPhase, a: RunAction) -> bool {
    if p.is_audio || p.is_cv {
        next == RunPhase::ConnectingPorts && a == RunAction::ConnectPort {
            index: p.index,
            storage: PortStorage::Audio { len: frames },
        }
    } else if p.is_control {
        next == RunPhase::ConnectingPorts && a == RunAction::ConnectPort {
            index: p.index,
            storage: if p.is_input {
                PortStorage::ControlDefault
            } else {
                PortStorage::ControlZero
            },
        }
    } else if p.connection_optional {
        next == RunPhase::ConnectingPorts && a == RunAction::NextPort
    } else {
        next == RunPhase::Done && match a {
            RunAction::Finish(Err(SmokeError::UnsupportedPort { index, symbol })) => index == p.index
                && symbol@ == port_label(p),
            _ => false,
        }
    }
}

/// One step of a run of the plugin with URI `uri` over `frames` frames: on
/// event `e`, the run moves to `next` and asks for action `a`.
pub open spec fn step_matches(
    uri: Seq<char>,
    frames: usize,
    e: RunEvent,
    next: RunPhase,
    a: RunAction,
) -> bool {
    match e {
        RunEvent::PluginFound(found) => if found {
            next == RunPhase::CheckingFeatures && a == RunAction::ReadRequiredFeatures
        } else {
            next == RunPhase::Done && match a {
                RunAction::Finish(Err(SmokeError::PluginNotFound { uri: u })) => u@ == uri,
                _ => false,
            }
        },
        RunEvent::RequiredFeatures(nodes) => if uris_of(nodes@).len() > 0 {
            next == RunPhase::Done && match a {
                RunAction::Finish(Err(SmokeError::UnsupportedFeatures { features })) =>
                    strings_view(features@) == uris_of(nodes@),
                _ => false,
            }
        } else {
            next == RunPhase::Instantiating && a == RunAction::Instantiate
        },
        RunEvent::Instantiated(ok) => if ok {
            next == RunPhase::ConnectingPorts && a == RunAction::NextPort
        } else {
            next == RunPhase::Done && match a {
                RunAction::Finish(Err(SmokeError::InstantiateFailed { uri: u })) => u@ == uri,
                _ => false,
            }
        },
        RunEvent::Port(p) => port_step_matches(p, frames, next, a),
        RunEvent::NoMorePorts => next == RunPhase::Running && frames > 0 && a
            == RunAction::ActivateAndRun { frames },
        RunEvent::RunReturned => next == RunPhase::Done && a == RunAction::Finish(Ok(())),
    }
}

/// A test run can go on past this port: it is of a type that can be
/// connected, or it is optional.
pub open spec fn port_runnable(p: PortFacts) -> bool {
    p.is_audio || p.is_cv || p.is_control || p.connection_optional
}

/// The phase a run moves to on an event.
pub open spec fn next_phase(e: RunEvent) -> RunPhase {
    match e {
        RunEvent::PluginFound(found) => if found {
            RunPhase::CheckingFeatures
        } else {
            RunPhase::Done
        },
        RunEvent::RequiredFeatures(nodes) => if uris_of(nodes@).len() > 0 {
            RunPhase::Done
        } else {
            RunPhase::Instantiating
        },
        RunEvent::Instantiated(ok) => if ok {
            RunPhase::ConnectingPorts
        } else {
            RunPhase::Done
        },
        RunEvent::Port(p) => if port_runnable(p) {
            RunPhase::ConnectingPorts
        } else {
            RunPhase::Done
        },
        RunEvent::NoMorePorts => RunPhase::Running,
        RunEvent::RunReturned => RunPhase::Done,
    }
}

/// The phase of a run of `frames` frames after these events.
pub open spec fn phase_after(frames: usize, events: Seq<RunEvent>) -> RunPhase
    decreases events.len(),
{
    if events.len() == 0 {
        if frames == 0 {
            RunPhase::Done
        } else {
            RunPhase::FindingPlugin
        }
    } else {
        next_phase(events.last())
    }
}

/// Each event came when the run waited for it.
pub open spec fn trace_accepted(frames: usize, events: Seq<RunEvent>) -> bool {
    forall|i: int| 0 <= i < events.len() ==> accepts(phase_after(frames, #[trigger] events.take(i)), events[i])
}

} // verus!
