use lv2_smoketest::error::SmokeError;
use lv2_smoketest::model::PortFacts;
use lv2_smoketest::node::NodeValue;
use lv2_smoketest::run::{PortStorage, RunAction, RunEvent, RunPhase, RunState};

fn uri(u: &str) -> NodeValue {
    NodeValue {
        uri: Some(u.to_string()),
        text: Some(u.to_string()),
        int_value: None,
        float_text: None,
        bool_value: None,
        turtle: format!("<{u}>"),
    }
}

fn port(index: usize) -> PortFacts {
    PortFacts {
        index,
        is_input: false,
        is_output: false,
        is_audio: false,
        is_control: false,
        is_cv: false,
        is_atom: false,
        is_event: false,
        connection_optional: false,
        classes: vec![],
        properties: vec![],
        symbol: None,
        name: None,
        node_turtle: String::new(),
    }
}

fn refusal(action: RunAction) -> String {
    match action {
        RunAction::Finish(Err(e)) => e.message(),
        _ => panic!("the run was not refused"),
    }
}

fn started(frames: usize) -> RunState {
    let (state, action) = RunState::start("http://example.org/amp".to_string(), frames);
    assert!(matches!(action, RunAction::FindPlugin));
    let (state, action) = state.step(RunEvent::PluginFound(true));
    assert!(matches!(action, RunAction::ReadRequiredFeatures));
    let (state, action) = state.step(RunEvent::RequiredFeatures(vec![]));
    assert!(matches!(action, RunAction::Instantiate));
    let (state, action) = state.step(RunEvent::Instantiated(true));
    assert!(matches!(action, RunAction::NextPort));
    assert_eq!(state.phase(), RunPhase::ConnectingPorts);
    state
}

#[test]
fn zero_frames_is_rejected() {
    let _sample_rate = 44_100.0_f64;
    let (state, action) = RunState::start("http://example.invalid/plugin".to_string(), 0);
    assert_eq!(state.phase(), RunPhase::Done);
    assert!(matches!(action, RunAction::Finish(Err(SmokeError::ZeroFrames))));
    assert_eq!(refusal(action), "--frames must be greater than zero");
}

#[test]
fn missing_plugin_is_refused() {
    let (state, _) = RunState::start("http://example.invalid/plugins/this-plugin-should-not-exist".to_string(), 512);
    let (state, action) = state.step(RunEvent::PluginFound(false));
    assert_eq!(state.phase(), RunPhase::Done);
    let msg = refusal(action);
    assert!(msg.contains("Plugin not found"));
    assert_eq!(msg, "Plugin not found for URI: http://example.invalid/plugins/this-plugin-should-not-exist");
}

#[test]
fn required_features_are_refused() {
    let (state, _) = RunState::start("urn:p".to_string(), 8);
    let (state, _) = state.step(RunEvent::PluginFound(true));
    let mut not_uri = uri("x");
    not_uri.uri = None;
    let (state, action) = state.step(RunEvent::RequiredFeatures(vec![
        uri("http://lv2plug.in/ns/ext/urid#map"),
        not_uri,
        uri("http://lv2plug.in/ns/ext/worker#schedule"),
    ]));
    assert_eq!(state.phase(), RunPhase::Done);
    assert_eq!(
        refusal(action),
        "Plugin requires unsupported LV2 features for test-plugin-run: http://lv2plug.in/ns/ext/urid#map, http://lv2plug.in/ns/ext/worker#schedule"
    );
}

#[test]
fn features_that_are_not_uris_are_ignored() {
    let (state, _) = RunState::start("urn:p".to_string(), 8);
    let (state, _) = state.step(RunEvent::PluginFound(true));
    let mut not_uri = uri("x");
    not_uri.uri = None;
    let (state, action) = state.step(RunEvent::RequiredFeatures(vec![not_uri]));
    assert_eq!(state.phase(), RunPhase::Instantiating);
    assert!(matches!(action, RunAction::Instantiate));
}

#[test]
fn failed_instantiation_is_refused() {
    let (state, _) = RunState::start("urn:p".to_string(), 8);
    let (state, _) = state.step(RunEvent::PluginFound(true));
    let (state, _) = state.step(RunEvent::RequiredFeatures(vec![]));
    let (_, action) = state.step(RunEvent::Instantiated(false));
    assert_eq!(refusal(action), "Plugin instantiate returned null: Failed to instantiate plugin urn:p");
}

#[test]
fn ports_are_connected_then_run() {
    let state = started(256);
    let mut audio = port(0);
    audio.is_audio = true;
    audio.is_input = true;
    let (state, action) = state.step(RunEvent::Port(audio));
    assert!(matches!(action, RunAction::ConnectPort { index: 0, storage: PortStorage::Audio { len: 256 } }));
    let mut cv = port(1);
    cv.is_cv = true;
    let (state, action) = state.step(RunEvent::Port(cv));
    assert!(matches!(action, RunAction::ConnectPort { index: 1, storage: PortStorage::Audio { len: 256 } }));
    let mut gain = port(2);
    gain.is_control = true;
    gain.is_input = true;
    let (state, action) = state.step(RunEvent::Port(gain));
    assert!(matches!(action, RunAction::ConnectPort { index: 2, storage: PortStorage::ControlDefault }));
    let mut level = port(3);
    level.is_control = true;
    level.is_output = true;
    let (state, action) = state.step(RunEvent::Port(level));
    assert!(matches!(action, RunAction::ConnectPort { index: 3, storage: PortStorage::ControlZero }));
    let mut midi = port(4);
    midi.is_atom = true;
    midi.connection_optional = true;
    let (state, action) = state.step(RunEvent::Port(midi));
    assert!(matches!(action, RunAction::NextPort));
    let (state, action) = state.step(RunEvent::NoMorePorts);
    assert!(matches!(action, RunAction::ActivateAndRun { frames: 256 }));
    assert_eq!(state.phase(), RunPhase::Running);
    let (state, action) = state.step(RunEvent::RunReturned);
    assert!(matches!(action, RunAction::Finish(Ok(()))));
    assert_eq!(state.phase(), RunPhase::Done);
    assert!(!state.accepts(&RunEvent::RunReturned));
    assert_eq!(state.plugin_uri(), "http://example.org/amp");
    assert_eq!(state.frame_count(), 256);
}

#[test]
fn required_unsupported_port_is_refused() {
    let state = started(16);
    let mut atom = port(5);
    atom.is_atom = true;
    atom.symbol = Some(NodeValue {
        uri: None,
        text: Some("events".to_string()),
        int_value: None,
        float_text: None,
        bool_value: None,
        turtle: "\"events\"".to_string(),
    });
    let (state, action) = state.step(RunEvent::Port(atom));
    assert_eq!(state.phase(), RunPhase::Done);
    assert_eq!(refusal(action), "Unsupported required port type for test-plugin-run: index=5, symbol=events");

    let state = started(16);
    let (_, action) = state.step(RunEvent::Port(port(12)));
    assert_eq!(refusal(action), "Unsupported required port type for test-plugin-run: index=12, symbol=port-12");
}

#[test]
fn run_accepts_only_expected_events() {
    let (state, _) = RunState::start("urn:p".to_string(), 1);
    assert!(state.accepts(&RunEvent::PluginFound(true)));
    assert!(!state.accepts(&RunEvent::NoMorePorts));
}

#[test]
fn failed_instantiation_has_headline_and_cause() {
    let e = SmokeError::InstantiateFailed { uri: "urn:p".to_string() };
    assert_eq!(e.headline(), "Plugin instantiate returned null");
    assert_eq!(e.cause(), Some("Failed to instantiate plugin urn:p".to_string()));
    assert_eq!(e.message(), format!("{}: {}", e.headline(), e.cause().unwrap()));
    let z = SmokeError::ZeroFrames;
    assert_eq!(z.headline(), z.message());
    assert_eq!(z.cause(), None);
    let n = SmokeError::PluginNotFound { uri: "urn:q".to_string() };
    assert_eq!(n.headline(), "Plugin not found for URI: urn:q");
    assert_eq!(n.cause(), None);
}
