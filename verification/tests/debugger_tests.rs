use canvas_contracts::config::Config;
use canvas_contracts::debugger::{DebugConfig, DebugSession, DebugState, DebuggerUtils};
use canvas_contracts::types::{Graph, PropValue};
use canvas_contracts::wasm::WasmRuntime;

#[test]
fn mod_test_debug_configurations() {
    let default_config = DebuggerUtils::default_config();
    assert!(!default_config.step_through);
    assert!(default_config.log_variables);

    let step_config = DebuggerUtils::step_through_config();
    assert!(step_config.step_through);
    assert!(step_config.log_variables);
}

#[test]
fn test_debug_configurations() {
    let default_config = DebuggerUtils::default_config();
    assert!(!default_config.step_through);
    assert!(default_config.log_variables);
    assert!(default_config.log_gas);
    assert!(!default_config.log_performance);
    assert_eq!(default_config.max_steps, Some(1000));
    assert_eq!(default_config.timeout_ms, Some(30000));

    let step_config = DebuggerUtils::step_through_config();
    assert!(step_config.step_through);
    assert!(step_config.log_variables);
    assert!(step_config.log_gas);
    assert!(step_config.log_performance);
    assert_eq!(step_config.max_steps, None);
    assert_eq!(step_config.timeout_ms, None);
}

#[test]
fn test_debug_session_creation() {
    let graph = Graph::new();
    let config = Config::default();
    let runtime = WasmRuntime::new(&config).unwrap();
    let session = DebugSession::new(graph, runtime);

    assert_eq!(session.get_state(), DebugState::Running);
    assert!(session.get_trace().is_empty());
    assert!(session.get_breakpoints().is_empty());
    assert!(session.get_variables().is_empty());
    assert!(session.get_call_stack().is_empty());
}

#[test]
fn test_breakpoint_management() {
    let graph = Graph::new();
    let config = Config::default();
    let runtime = WasmRuntime::new(&config).unwrap();
    let mut session = DebugSession::new(graph, runtime);

    assert!(session.add_breakpoint("node1".to_string(), None).is_ok());
    assert!(session
        .add_breakpoint("node2".to_string(), Some("gas_consumed > 1000".to_string()))
        .is_ok());

    assert_eq!(session.get_breakpoints().len(), 2);

    assert!(session.toggle_breakpoint(&"node1".to_string(), false).is_ok());
    let breakpoints = session.get_breakpoints();
    assert!(!breakpoints[0].enabled);

    assert!(session.remove_breakpoint(&"node1".to_string()).is_ok());
    assert_eq!(session.get_breakpoints().len(), 1);

    assert!(session.remove_breakpoint(&"nonexistent".to_string()).is_err());
}

#[test]
fn test_debug_variable_management() {
    let graph = Graph::new();
    let config = Config::default();
    let runtime = WasmRuntime::new(&config).unwrap();
    let mut session = DebugSession::new(graph, runtime);

    session.set_variable("x".to_string(), PropValue::Int(42));
    session.set_variable("y".to_string(), PropValue::Text("hello".to_string()));
    session.set_variable("z".to_string(), PropValue::Bool(true));

    let variables = session.get_variables();
    assert_eq!(variables.len(), 3);
    assert_eq!(variables[0], ("x".to_string(), PropValue::Int(42)));
    assert_eq!(variables[1], ("y".to_string(), PropValue::Text("hello".to_string())));
    assert_eq!(variables[2], ("z".to_string(), PropValue::Bool(true)));
}

#[test]
fn test_debug_session_state_transitions() {
    let graph = Graph::new();
    let config = Config::default();
    let runtime = WasmRuntime::new(&config).unwrap();
    let mut session = DebugSession::new(graph, runtime);

    assert_eq!(session.get_state(), DebugState::Running);

    session.set_variable("test".to_string(), PropValue::Text("value".to_string()));
    assert_eq!(session.get_variables().len(), 1);
}

#[test]
fn test_debug_configuration_validation() {
    let config = DebugConfig {
        step_through: true,
        log_variables: true,
        log_gas: true,
        log_performance: true,
        max_steps: Some(100),
        timeout_ms: Some(5000),
    };

    assert!(config.step_through);
    assert!(config.log_variables);
    assert!(config.log_gas);
    assert!(config.log_performance);
    assert_eq!(config.max_steps, Some(100));
    assert_eq!(config.timeout_ms, Some(5000));
}
