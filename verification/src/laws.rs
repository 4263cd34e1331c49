//! The guarantees of the connection protocol, stated and proved over the
//! transition relation of [`crate::connection`].

use vstd::prelude::*;
use crate::config::LayerConfig;
use crate::connection::{
    action_spec, event_fits, is_terminal_spec, next_state_spec, start_action_spec,
    start_state_spec, creation_elapsed, AgentConnection, AgentConnectInfo, ConnectError,
    SessionAction, SessionEvent, SessionState,
};

verus! {

/// A session is committed to the direct path when the operator check is
/// behind it: it is no longer checking the operator, and if it has
/// connected, the connection is tagged `DirectKubernetes`.
pub open spec fn direct_only<S, R>(state: SessionState<S, R>) -> bool {
    match state {
        SessionState::CheckingOperator => false,
        SessionState::Connected { info, .. } => info is DirectKubernetes,
        _ => true,
    }
}

/// Operator discovery is requested only by the session's opening step, and
/// only when the configuration permits the operator path: no transition ever
/// requests discovery, and a configuration with `operator = false` opens the
/// session with cluster client construction instead. Hence such a
/// configuration never invokes discovery at all.
pub proof fn lemma_discovery_only_at_start<S, R>(
    config: LayerConfig,
    state: SessionState<S, R>,
    event: SessionEvent<S, R>,
)
    ensures
        action_spec(config, state, event) != Some(SessionAction::DiscoverOperator),
        !config.operator ==> start_action_spec(config) == SessionAction::CreateClusterClient,
        config.operator <==> start_action_spec(config) == SessionAction::DiscoverOperator,
{
}

/// A configuration with `operator = false` starts the session already on the
/// direct path, so with [`lemma_direct_path_is_stable`] every result such a
/// session can ever produce is `DirectKubernetes`-tagged or a direct-path
/// error.
pub proof fn lemma_operator_disabled_starts_direct<S, R>(config: LayerConfig)
    requires
        !config.operator,
    ensures
        start_state_spec::<S, R>(config) == SessionState::<S, R>::CreatingClusterClient,
        direct_only(start_state_spec::<S, R>(config)),
{
}

/// Once a session is on the direct path it stays there: no later transition
/// can produce an `Operator`-tagged connection or return to the operator
/// check. This is the inductive step behind the guarantee that fallback, or
/// a configuration that forbids the operator path, always yields a
/// `DirectKubernetes` result or a direct-path error.
pub proof fn lemma_direct_path_is_stable<S, R>(
    config: LayerConfig,
    state: SessionState<S, R>,
    event: SessionEvent<S, R>,
)
    requires
        event_fits(state, event),
        direct_only(state),
    ensures
        direct_only(next_state_spec(config, state, event)),
{
}

/// When discovery yields a channel pair, the session ends at once: the
/// result is tagged `Operator` and carries exactly the delivered pair, no
/// further collaborator call is requested, and no further event is accepted
/// — direct provisioning is never invoked.
pub proof fn lemma_operator_pair_ends_session<S, R>(
    config: LayerConfig,
    event: SessionEvent<S, R>,
)
    requires
        event is OperatorFound,
    ensures
        ({
            let next = next_state_spec(config, SessionState::<S, R>::CheckingOperator, event);
            &&& next matches SessionState::Connected { info, conn }
            &&& info is Operator
            &&& conn.sender == event->OperatorFound_sender
            &&& conn.receiver == event->OperatorFound_receiver
        }),
        action_spec(config, SessionState::<S, R>::CheckingOperator, event) is None,
        forall|e: SessionEvent<S, R>|
            !event_fits(next_state_spec(config, SessionState::<S, R>::CheckingOperator, event), e),
{
}

/// Fallback is unconditional: whether discovery reports that no operator is
/// deployed or fails outright, the session moves on to direct provisioning
/// and requests the cluster client; the discovery error is absorbed, never
/// returned.
pub proof fn lemma_fallback_unconditional<S, R>(config: LayerConfig, event: SessionEvent<S, R>)
    requires
        event is OperatorAbsent || event is OperatorError,
    ensures
        next_state_spec(config, SessionState::<S, R>::CheckingOperator, event)
            == SessionState::<S, R>::CreatingClusterClient,
        action_spec(config, SessionState::<S, R>::CheckingOperator, event)
            == Some(SessionAction::CreateClusterClient),
        direct_only(next_state_spec(config, SessionState::<S, R>::CheckingOperator, event)),
{
}

/// Timeout monotonicity: when workload creation took longer than the
/// configured startup timeout, the session fails with `AgentReadyTimeout` —
/// regardless of whether the creation call itself eventually succeeded or
/// failed, and no further collaborator call is requested.
pub proof fn lemma_timeout_overrides_outcome<S, R>(
    config: LayerConfig,
    event: SessionEvent<S, R>,
)
    requires
        event is AgentCreated || event is AgentError,
        creation_elapsed(event) > config.agent.startup_timeout,
    ensures
        next_state_spec(config, SessionState::<S, R>::CreatingAgent, event)
            == (SessionState::<S, R>::Failed { error: ConnectError::AgentReadyTimeout }),
        action_spec(config, SessionState::<S, R>::CreatingAgent, event) is None,
{
}

/// A session produces its result exactly once: a terminal state accepts no
/// event, so no step can follow the one that connected or failed.
pub proof fn lemma_terminal_is_final<S, R>(state: SessionState<S, R>, event: SessionEvent<S, R>)
    requires
        is_terminal_spec(state),
    ensures
        !event_fits(state, event),
{
}

/// The session requests a next collaborator call exactly while it is not
/// finished: a step returns no action if and only if its successor state is
/// terminal. A driver may therefore loop on the returned action alone.
pub proof fn lemma_action_iff_pending<S, R>(
    config: LayerConfig,
    state: SessionState<S, R>,
    event: SessionEvent<S, R>,
)
    requires
        event_fits(state, event),
    ensures
        action_spec(config, state, event) is None <==> is_terminal_spec(
            next_state_spec(config, state, event),
        ),
{
}

/// Tag/provenance consistency: a transition connects only from the two
/// pending states that await a channel pair, the tag names the path that
/// actually delivered the pair, and the returned pair is the delivered one.
/// A `DirectKubernetes` tag moreover names exactly the workload the channel
/// was opened to.
pub proof fn lemma_tag_matches_path<S, R>(
    config: LayerConfig,
    state: SessionState<S, R>,
    event: SessionEvent<S, R>,
)
    requires
        event_fits(state, event),
        next_state_spec(config, state, event) is Connected,
    ensures
        state is CheckingOperator || state is OpeningConnection,
        state is CheckingOperator ==> ({
            let next = next_state_spec(config, state, event);
            &&& event matches SessionEvent::OperatorFound { sender, receiver }
            &&& next->Connected_info is Operator
            &&& next->Connected_conn == (AgentConnection { sender, receiver })
        }),
        state matches SessionState::OpeningConnection { name, port } ==> ({
            let next = next_state_spec(config, state, event);
            &&& event matches SessionEvent::ConnectionOpened { sender, receiver }
            &&& next->Connected_info == AgentConnectInfo::DirectKubernetes(name, port)
            &&& next->Connected_conn == (AgentConnection { sender, receiver })
        }),
{
}

} // verus!
