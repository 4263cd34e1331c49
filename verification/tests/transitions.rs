//! Single-transition behavior: error classification, the deadline boundary,
//! and the rendered texts.

use agent_conn::config::{AgentConfig, LayerConfig};
use agent_conn::connection::{
    start_session, step, ConnectError, SessionAction, SessionEvent, SessionState,
};
use agent_conn::progress::ProgressLabel;

fn config(operator: bool, startup_timeout: u64) -> LayerConfig {
    LayerConfig { operator, agent: AgentConfig { startup_timeout } }
}

fn direct_err(cfg: &LayerConfig, state: SessionState<u32, u32>, event: SessionEvent<u32, u32>) -> ConnectError {
    let out = step(cfg, state, event);
    assert_eq!(out.action, None);
    match out.state.into_result() {
        Ok(_) => panic!("the transition should have failed"),
        Err(e) => e,
    }
}

#[test]
fn cluster_client_failure_is_fatal() {
    let cfg = config(false, 5);
    let e = direct_err(
        &cfg,
        SessionState::CreatingClusterClient,
        SessionEvent::ClusterClientError { cause: "no kubeconfig".to_string() },
    );
    assert_eq!(e, ConnectError::KubernetesApiFailed { cause: "no kubeconfig".to_string() });
    assert_eq!(e.kind_text(), "cluster API initialization failed");
    assert_eq!(e.cause(), Some(&"no kubeconfig".to_string()));
}

#[test]
fn creation_failure_within_deadline_is_create_agent_failed() {
    let cfg = config(false, 5);
    let e = direct_err(
        &cfg,
        SessionState::CreatingAgent,
        SessionEvent::AgentError { cause: "quota exceeded".to_string(), elapsed_secs: 3 },
    );
    assert_eq!(e, ConnectError::CreateAgentFailed { cause: "quota exceeded".to_string() });
    assert_eq!(e.kind_text(), "failed to create agent");
    assert_eq!(e.cause(), Some(&"quota exceeded".to_string()));
}

#[test]
fn connection_failure_is_fatal() {
    let cfg = config(false, 5);
    let e = direct_err(
        &cfg,
        SessionState::OpeningConnection { name: "agent-3".to_string(), port: 7777 },
        SessionEvent::ConnectionError { cause: "port forward closed".to_string() },
    );
    assert_eq!(e, ConnectError::AgentConnectionFailed { cause: "port forward closed".to_string() });
    assert_eq!(e.kind_text(), "agent connection failed");
    assert_eq!(e.cause(), Some(&"port forward closed".to_string()));
}

#[test]
fn timeout_error_carries_no_cause() {
    let cfg = config(false, 5);
    let e = direct_err(
        &cfg,
        SessionState::CreatingAgent,
        SessionEvent::AgentCreated { name: "agent-9".to_string(), port: 9000, elapsed_secs: 6 },
    );
    assert_eq!(e, ConnectError::AgentReadyTimeout);
    assert_eq!(e.kind_text(), "agent not ready in time");
    assert_eq!(e.cause(), None);
}

#[test]
fn creation_at_exactly_the_deadline_is_in_time() {
    // "longer than startup_timeout" is strict: elapsed equal to the
    // deadline still counts as in time.
    let cfg = config(false, 5);
    let out = step::<u32, u32>(
        &cfg,
        SessionState::CreatingAgent,
        SessionEvent::AgentCreated { name: "agent-5".to_string(), port: 9000, elapsed_secs: 5 },
    );
    assert_eq!(
        out.action,
        Some(SessionAction::OpenConnection { name: "agent-5".to_string(), port: 9000 })
    );
    assert!(!out.state.is_terminal());
}

#[test]
fn zero_deadline_allows_only_instant_creation() {
    let cfg = config(false, 0);
    let out = step::<u32, u32>(
        &cfg,
        SessionState::CreatingAgent,
        SessionEvent::AgentCreated { name: "agent-0".to_string(), port: 1, elapsed_secs: 0 },
    );
    assert!(!out.state.is_terminal());

    let e = direct_err(
        &cfg,
        SessionState::CreatingAgent,
        SessionEvent::AgentCreated { name: "agent-0".to_string(), port: 1, elapsed_secs: 1 },
    );
    assert_eq!(e, ConnectError::AgentReadyTimeout);
}

#[test]
fn terminal_states_are_terminal_and_pending_states_are_not() {
    let cfg = config(true, 5);
    let out = start_session::<u32, u32>(&cfg);
    assert!(!out.state.is_terminal());
    assert!(!SessionState::<u32, u32>::CreatingClusterClient.is_terminal());
    assert!(!SessionState::<u32, u32>::CreatingAgent.is_terminal());
    assert!(
        !SessionState::<u32, u32>::OpeningConnection { name: "a".to_string(), port: 1 }
            .is_terminal()
    );
    assert!(
        SessionState::<u32, u32>::Failed { error: ConnectError::AgentReadyTimeout }.is_terminal()
    );
}

#[test]
fn progress_labels_render_the_fixed_texts() {
    assert_eq!(ProgressLabel::CheckingOperator.text(), "Checking Operator");
    assert_eq!(ProgressLabel::ConnectedToOperator.text(), "Connected to Operator");
    assert_eq!(ProgressLabel::NoOperatorDetected.text(), "No Operator Detected");
    assert_eq!(ProgressLabel::UnableToConnectToOperator.text(), "Unable to connect to Operator");
}
