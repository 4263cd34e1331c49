//! The connection protocol: one live agent endpoint per session.
//!
//! A session prefers the operator path (a managed service that creates or
//! reuses agents on demand) when the configuration permits it, and otherwise
//! provisions an agent workload directly in the cluster, bounded by the
//! configured startup deadline. The protocol is a state machine: each step
//! consumes the outcome of the previously requested collaborator call (a
//! [`SessionEvent`]) and returns the next state, the next call to make (a
//! [`SessionAction`]), and the progress notes to render. The embedding
//! program owns the collaborators and the clock; every decision — which path
//! to take, how to classify an outcome, whether the deadline has passed —
//! is made here.

use vstd::prelude::*;
use vstd::pervasive::unreached;
use crate::config::LayerConfig;
use crate::progress::{ProgressLabel, ProgressNote};

verus! {

/// How the agent was reached. Produced exactly once per successful session;
/// the tag always names the path that actually delivered the channel pair.
#[derive(Debug, PartialEq, Eq)]
pub enum AgentConnectInfo {
    /// No info is needed, the operator creates agents on demand and owns
    /// their lifecycle.
    Operator,
    /// Connect directly to a provisioned agent workload by name and control
    /// port.
    DirectKubernetes(String, u16),
}

/// The duplex channel pair of an established connection: an outbound sender
/// of client-originated messages and an inbound receiver of agent-originated
/// messages. The endpoint types are the embedding program's; the protocol
/// never looks inside them, it only hands the pair through to the caller,
/// which owns it entirely after the session ends.
pub struct AgentConnection<S, R> {
    pub sender: S,
    pub receiver: R,
}

/// The fatal errors of a session. An operator discovery failure is not here:
/// it is absorbed by the fallback and surfaces only as progress notes.
#[derive(Debug, PartialEq, Eq)]
pub enum ConnectError {
    /// Cluster client construction failed.
    KubernetesApiFailed { cause: String },
    /// The startup deadline elapsed before workload creation completed.
    AgentReadyTimeout,
    /// Workload creation itself failed within the deadline.
    CreateAgentFailed { cause: String },
    /// Opening the channel to an already-created workload failed.
    AgentConnectionFailed { cause: String },
}

/// A collaborator call the embedding program must perform next. Each action
/// is answered by feeding the matching [`SessionEvent`] back into [`step`].
#[derive(Debug, PartialEq, Eq)]
pub enum SessionAction {
    /// Run operator discovery and handshake.
    DiscoverOperator,
    /// Construct the cluster client from the configuration.
    CreateClusterClient,
    /// Request creation of a new agent workload, observed for at most
    /// `timeout_secs` seconds.
    CreateAgent { timeout_secs: u64 },
    /// Open the duplex channel to the workload at (`name`, `port`).
    OpenConnection { name: String, port: u16 },
}

/// The outcome of a collaborator call, fed back into [`step`].
pub enum SessionEvent<S, R> {
    /// Discovery yielded a channel pair.
    OperatorFound { sender: S, receiver: R },
    /// Discovery succeeded but no operator is deployed.
    OperatorAbsent,
    /// Discovery failed; `cause` describes the underlying error.
    OperatorError { cause: String },
    /// The cluster client is ready.
    ClusterClientReady,
    /// Cluster client construction failed.
    ClusterClientError { cause: String },
    /// Workload creation completed successfully after `elapsed_secs` logical
    /// seconds, yielding the workload's name and control port.
    AgentCreated { name: String, port: u16, elapsed_secs: u64 },
    /// Workload creation completed with an error after `elapsed_secs`
    /// logical seconds.
    AgentError { cause: String, elapsed_secs: u64 },
    /// The duplex channel to the workload is open.
    ConnectionOpened { sender: S, receiver: R },
    /// Opening the channel failed.
    ConnectionError { cause: String },
}

/// The state of a session between steps.
pub enum SessionState<S, R> {
    /// Operator discovery was requested and is pending.
    CheckingOperator,
    /// Cluster client construction was requested and is pending.
    CreatingClusterClient,
    /// Workload creation was requested and is pending.
    CreatingAgent,
    /// The channel to the workload at (`name`, `port`) was requested and is
    /// pending.
    OpeningConnection { name: String, port: u16 },
    /// Terminal: the session produced a connection.
    Connected { info: AgentConnectInfo, conn: AgentConnection<S, R> },
    /// Terminal: the session failed on the direct path.
    Failed { error: ConnectError },
}

/// What one step of the session returns: the next state, the collaborator
/// call to perform next (none when the state is terminal), and the progress
/// notes to render, in order.
pub struct StepOutput<S, R> {
    pub state: SessionState<S, R>,
    pub action: Option<SessionAction>,
    pub notes: Vec<ProgressNote>,
}

/// Which events answer which pending state. Terminal states accept no event.
pub open spec fn event_fits<S, R>(state: SessionState<S, R>, event: SessionEvent<S, R>) -> bool {
    match state {
        SessionState::CheckingOperator =>
            event is OperatorFound || event is OperatorAbsent || event is OperatorError,
        SessionState::CreatingClusterClient =>
            event is ClusterClientReady || event is ClusterClientError,
        SessionState::CreatingAgent =>
            event is AgentCreated || event is AgentError,
        SessionState::OpeningConnection { .. } =>
            event is ConnectionOpened || event is ConnectionError,
        SessionState::Connected { .. } => false,
        SessionState::Failed { .. } => false,
    }
}

/// A session ends, successfully or not, exactly in these states.
pub open spec fn is_terminal_spec<S, R>(state: SessionState<S, R>) -> bool {
    state is Connected || state is Failed
}

/// How many logical seconds the creation call took, as reported by the
/// embedding program's clock alongside the creation outcome.
pub open spec fn creation_elapsed<S, R>(event: SessionEvent<S, R>) -> u64
    recommends
        event is AgentCreated || event is AgentError,
{
    match event {
        SessionEvent::AgentCreated { elapsed_secs, .. } => elapsed_secs,
        SessionEvent::AgentError { elapsed_secs, .. } => elapsed_secs,
        _ => 0,
    }
}

/// The state a session starts in: checking the operator when the
/// configuration permits that path, otherwise directly on the fallback.
pub open spec fn start_state_spec<S, R>(config: LayerConfig) -> SessionState<S, R> {
    if config.operator {
        SessionState::CheckingOperator
    } else {
        SessionState::CreatingClusterClient
    }
}

/// The first collaborator call of a session.
pub open spec fn start_action_spec(config: LayerConfig) -> SessionAction {
    if config.operator {
        SessionAction::DiscoverOperator
    } else {
        SessionAction::CreateClusterClient
    }
}

/// The notes the session's opening emits: the operator subtask opens only
/// when the operator path is attempted at all.
pub open spec fn start_notes_spec(config: LayerConfig) -> Seq<ProgressNote> {
    if config.operator {
        seq![ProgressNote::SubtaskStarted { label: ProgressLabel::CheckingOperator }]
    } else {
        Seq::<ProgressNote>::empty()
    }
}

/// The transition relation on states. A discovery failure is absorbed: both
/// "no operator" and a discovery error fall back to direct provisioning. On
/// the direct path every error is terminal, and a creation outcome that
/// arrived after the startup deadline counts as a timeout whatever the
/// outcome was.
pub open spec fn next_state_spec<S, R>(
    config: LayerConfig,
    state: SessionState<S, R>,
    event: SessionEvent<S, R>,
) -> SessionState<S, R>
    recommends
        event_fits(state, event),
{
    match state {
        SessionState::CheckingOperator => match event {
            SessionEvent::OperatorFound { sender, receiver } => SessionState::Connected {
                info: AgentConnectInfo::Operator,
                conn: AgentConnection { sender, receiver },
            },
            _ => SessionState::CreatingClusterClient,
        },
        SessionState::CreatingClusterClient => match event {
            SessionEvent::ClusterClientError { cause } => SessionState::Failed {
                error: ConnectError::KubernetesApiFailed { cause },
            },
            _ => SessionState::CreatingAgent,
        },
        SessionState::CreatingAgent => match event {
            SessionEvent::AgentCreated { name, port, elapsed_secs } => if elapsed_secs
                > config.agent.startup_timeout {
                SessionState::Failed { error: ConnectError::AgentReadyTimeout }
            } else {
                SessionState::OpeningConnection { name, port }
            },
            SessionEvent::AgentError { cause, elapsed_secs } => if elapsed_secs
                > config.agent.startup_timeout {
                SessionState::Failed { error: ConnectError::AgentReadyTimeout }
            } else {
                SessionState::Failed { error: ConnectError::CreateAgentFailed { cause } }
            },
            _ => SessionState::CreatingAgent,
        },
        SessionState::OpeningConnection { name, port } => match event {
            SessionEvent::ConnectionOpened { sender, receiver } => SessionState::Connected {
                info: AgentConnectInfo::DirectKubernetes(name, port),
                conn: AgentConnection { sender, receiver },
            },
            SessionEvent::ConnectionError { cause } => SessionState::Failed {
                error: ConnectError::AgentConnectionFailed { cause },
            },
            _ => SessionState::OpeningConnection { name, port },
        },
        SessionState::Connected { info, conn } => SessionState::Connected { info, conn },
        SessionState::Failed { error } => SessionState::Failed { error },
    }
}

/// The collaborator call each transition requests next. Exactly the
/// non-terminal successor states have one.
pub open spec fn action_spec<S, R>(
    config: LayerConfig,
    state: SessionState<S, R>,
    event: SessionEvent<S, R>,
) -> Option<SessionAction>
    recommends
        event_fits(state, event),
{
    match state {
        SessionState::CheckingOperator => match event {
            SessionEvent::OperatorFound { .. } => None,
            _ => Some(SessionAction::CreateClusterClient),
        },
        SessionState::CreatingClusterClient => match event {
            SessionEvent::ClusterClientReady => Some(
                SessionAction::CreateAgent { timeout_secs: config.agent.startup_timeout },
            ),
            _ => None,
        },
        SessionState::CreatingAgent => match event {
            SessionEvent::AgentCreated { name, port, elapsed_secs } => if elapsed_secs
                > config.agent.startup_timeout {
                None
            } else {
                Some(SessionAction::OpenConnection { name, port })
            },
            _ => None,
        },
        _ => None,
    }
}

/// The progress notes each transition emits: only the operator subtask
/// reports, and a discovery error is additionally logged as a warning —
/// never returned as the session's result.
pub open spec fn notes_spec<S, R>(
    state: SessionState<S, R>,
    event: SessionEvent<S, R>,
) -> Seq<ProgressNote> {
    match state {
        SessionState::CheckingOperator => match event {
            SessionEvent::OperatorFound { .. } => seq![
                ProgressNote::SubtaskDone { label: ProgressLabel::ConnectedToOperator },
            ],
            SessionEvent::OperatorAbsent => seq![
                ProgressNote::SubtaskDone { label: ProgressLabel::NoOperatorDetected },
            ],
            SessionEvent::OperatorError { cause } => seq![
                ProgressNote::SubtaskFailed { label: ProgressLabel::UnableToConnectToOperator },
            ].push(ProgressNote::Warning { message: cause }),
            _ => Seq::<ProgressNote>::empty(),
        },
        _ => Seq::<ProgressNote>::empty(),
    }
}

/// Opens a session: returns the initial pending state and the first
/// collaborator call. Discovery is requested if and only if the
/// configuration permits the operator path; otherwise the session begins
/// directly with cluster client construction.
pub fn start_session<S, R>(config: &LayerConfig) -> (out: StepOutput<S, R>)
    ensures
        out.state == start_state_spec::<S, R>(*config),
        out.action == Some(start_action_spec(*config)),
        out.notes@ == start_notes_spec(*config),
{
    if config.operator {
        let mut notes: Vec<ProgressNote> = Vec::new();
        notes.push(ProgressNote::SubtaskStarted { label: ProgressLabel::CheckingOperator });
        StepOutput {
            state: SessionState::CheckingOperator,
            action: Some(SessionAction::DiscoverOperator),
            notes,
        }
    } else {
        StepOutput {
            state: SessionState::CreatingClusterClient,
            action: Some(SessionAction::CreateClusterClient),
            notes: Vec::new(),
        }
    }
}

/// Advances the session by one collaborator outcome. The returned state,
/// action and notes are exactly those of the transition relation; in
/// particular the returned channel pair, when the session connects, is the
/// very pair the event delivered.
pub fn step<S, R>(
    config: &LayerConfig,
    state: SessionState<S, R>,
    event: SessionEvent<S, R>,
) -> (out: StepOutput<S, R>)
    requires
        event_fits(state, event),
    ensures
        out.state == next_state_spec(*config, state, event),
        out.action == action_spec(*config, state, event),
        out.notes@ == notes_spec(state, event),
{
    match state {
        SessionState::CheckingOperator => match event {
            SessionEvent::OperatorFound { sender, receiver } => {
                let mut notes: Vec<ProgressNote> = Vec::new();
                notes.push(ProgressNote::SubtaskDone { label: ProgressLabel::ConnectedToOperator });
                StepOutput {
                    state: SessionState::Connected {
                        info: AgentConnectInfo::Operator,
                        conn: AgentConnection { sender, receiver },
                    },
                    action: None,
                    notes,
                }
            },
            SessionEvent::OperatorAbsent => {
                let mut notes: Vec<ProgressNote> = Vec::new();
                notes.push(ProgressNote::SubtaskDone { label: ProgressLabel::NoOperatorDetected });
                StepOutput {
                    state: SessionState::CreatingClusterClient,
                    action: Some(SessionAction::CreateClusterClient),
                    notes,
                }
            },
            SessionEvent::OperatorError { cause } => {
                let mut notes: Vec<ProgressNote> = Vec::new();
                notes.push(
                    ProgressNote::SubtaskFailed { label: ProgressLabel::UnableToConnectToOperator },
                );
                notes.push(ProgressNote::Warning { message: cause });
                StepOutput {
                    state: SessionState::CreatingClusterClient,
                    action: Some(SessionAction::CreateClusterClient),
                    notes,
                }
            },
            _ => unreached(),
        },
        SessionState::CreatingClusterClient => match event {
            SessionEvent::ClusterClientReady => StepOutput {
                state: SessionState::CreatingAgent,
                action: Some(
                    SessionAction::CreateAgent { timeout_secs: config.agent.startup_timeout },
                ),
                notes: Vec::new(),
            },
            SessionEvent::ClusterClientError { cause } => StepOutput {
                state: SessionState::Failed {
                    error: ConnectError::KubernetesApiFailed { cause },
                },
                action: None,
                notes: Vec::new(),
            },
            _ => unreached(),
        },
        SessionState::CreatingAgent => match event {
            SessionEvent::AgentCreated { name, port, elapsed_secs } => {
                if elapsed_secs > config.agent.startup_timeout {
                    StepOutput {
                        state: SessionState::Failed { error: ConnectError::AgentReadyTimeout },
                        action: None,
                        notes: Vec::new(),
                    }
                } else {
                    StepOutput {
                        state: SessionState::OpeningConnection {
                            name: name.clone(),
                            port,
                        },
                        action: Some(SessionAction::OpenConnection { name, port }),
                        notes: Vec::new(),
                    }
                }
            },
            SessionEvent::AgentError { cause, elapsed_secs } => {
                if elapsed_secs > config.agent.startup_timeout {
                    StepOutput {
                        state: SessionState::Failed { error: ConnectError::AgentReadyTimeout },
                        action: None,
                        notes: Vec::new(),
                    }
                } else {
                    StepOutput {
                        state: SessionState::Failed {
                            error: ConnectError::CreateAgentFailed { cause },
                        },
                        action: None,
                        notes: Vec::new(),
                    }
                }
            },
            _ => unreached(),
        },
        SessionState::OpeningConnection { name, port } => match event {
            SessionEvent::ConnectionOpened { sender, receiver } => StepOutput {
                state: SessionState::Connected {
                    info: AgentConnectInfo::DirectKubernetes(name, port),
                    conn: AgentConnection { sender, receiver },
                },
                action: None,
                notes: Vec::new(),
            },
            SessionEvent::ConnectionError { cause } => StepOutput {
                state: SessionState::Failed {
                    error: ConnectError::AgentConnectionFailed { cause },
                },
                action: None,
                notes: Vec::new(),
            },
            _ => unreached(),
        },
        SessionState::Connected { .. } => unreached(),
        SessionState::Failed { .. } => unreached(),
    }
}

impl<S, R> SessionState<S, R> {
    /// Whether `event` answers the collaborator call this state is waiting
    /// on. [`step`] must only be fed an event its state accepts; a driver
    /// can check that here before stepping.
    pub fn accepts(&self, event: &SessionEvent<S, R>) -> (r: bool)
        ensures
            r == event_fits(*self, *event),
    {
        match self {
            SessionState::CheckingOperator => match event {
                SessionEvent::OperatorFound { .. } => true,
                SessionEvent::OperatorAbsent => true,
                SessionEvent::OperatorError { .. } => true,
                _ => false,
            },
            SessionState::CreatingClusterClient => match event {
                SessionEvent::ClusterClientReady => true,
                SessionEvent::ClusterClientError { .. } => true,
                _ => false,
            },
            SessionState::CreatingAgent => match event {
                SessionEvent::AgentCreated { .. } => true,
                SessionEvent::AgentError { .. } => true,
                _ => false,
            },
            SessionState::OpeningConnection { .. } => match event {
                SessionEvent::ConnectionOpened { .. } => true,
                SessionEvent::ConnectionError { .. } => true,
                _ => false,
            },
            SessionState::Connected { .. } => false,
            SessionState::Failed { .. } => false,
        }
    }

    /// Whether the session has ended, successfully or not.
    pub fn is_terminal(&self) -> (r: bool)
        ensures
            r == is_terminal_spec(*self),
    {
        match self {
            SessionState::Connected { .. } => true,
            SessionState::Failed { .. } => true,
            _ => false,
        }
    }

    /// Extracts the session's result once it has ended: the tagged
    /// descriptor with the channel pair on success, the fatal error
    /// otherwise.
    pub fn into_result(self) -> (r: Result<
        (AgentConnectInfo, AgentConnection<S, R>),
        ConnectError,
    >)
        requires
            is_terminal_spec(self),
        ensures
            self matches SessionState::Connected { info, conn } ==> r == Ok::<
                _,
                ConnectError,
            >((info, conn)),
            self matches SessionState::Failed { error } ==> r == Err::<
                (AgentConnectInfo, AgentConnection<S, R>),
                _,
            >(error),
    {
        match self {
            SessionState::Connected { info, conn } => Ok((info, conn)),
            SessionState::Failed { error } => Err(error),
            _ => unreached(),
        }
    }
}

impl ConnectError {
    /// Short text naming the error kind, for rendering the termination
    /// reason.
    pub fn kind_text(&self) -> (r: &'static str)
        ensures
            *self matches ConnectError::KubernetesApiFailed { .. } ==> r@
                == "cluster API initialization failed"@,
            *self is AgentReadyTimeout ==> r@ == "agent not ready in time"@,
            *self matches ConnectError::CreateAgentFailed { .. } ==> r@
                == "failed to create agent"@,
            *self matches ConnectError::AgentConnectionFailed { .. } ==> r@
                == "agent connection failed"@,
    {
        match self {
            ConnectError::KubernetesApiFailed { .. } => "cluster API initialization failed",
            ConnectError::AgentReadyTimeout => "agent not ready in time",
            ConnectError::CreateAgentFailed { .. } => "failed to create agent",
            ConnectError::AgentConnectionFailed { .. } => "agent connection failed",
        }
    }

    /// The underlying cause carried by the error, where there is one. A
    /// timeout carries none: it is raised without observing the underlying
    /// outcome.
    pub fn cause(&self) -> (r: Option<&String>)
        ensures
            *self matches ConnectError::KubernetesApiFailed { cause } ==> (r matches Some(c)
                && *c == cause),
            *self matches ConnectError::CreateAgentFailed { cause } ==> (r matches Some(c)
                && *c == cause),
            *self matches ConnectError::AgentConnectionFailed { cause } ==> (r matches Some(c)
                && *c == cause),
            *self is AgentReadyTimeout ==> r is None,
    {
        match self {
            ConnectError::KubernetesApiFailed { cause } => Some(cause),
            ConnectError::AgentReadyTimeout => None,
            ConnectError::CreateAgentFailed { cause } => Some(cause),
            ConnectError::AgentConnectionFailed { cause } => Some(cause),
        }
    }
}

} // verus!
