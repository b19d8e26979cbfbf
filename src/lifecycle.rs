//! The stages a loopback run goes through, from configuration to teardown.
use vstd::prelude::*;

verus! {

/// The stage of a run.
#[derive(Debug, Clone, Copy, PartialEq, Eq, Structural)]
pub enum StreamState {
    /// Devices and stream parameters are resolved; no channel yet.
    Configured,
    /// The channel is built and primed; no stream is started.
    Primed,
    /// Both streams are started.
    Running,
    /// Both streams are stopped and the channel released. Terminal.
    Stopped,
}

/// What the orchestrator has just done.
#[derive(Debug, Clone, Copy, PartialEq, Eq, Structural)]
pub enum StreamEvent {
    /// The channel was built and primed.
    ChannelPrimed,
    /// Both streams were started, input before output.
    StreamsStarted,
    /// Both streams were stopped.
    StreamsStopped,
}

/// An event that the current stage does not admit.
#[derive(Debug, Clone, Copy, PartialEq, Eq, Structural)]
pub struct InvalidTransition {
    pub from: StreamState,
    pub event: StreamEvent,
}

/// The stage an event leads to, if it is admitted.
pub open spec fn successor(state: StreamState, event: StreamEvent) -> Option<StreamState> {
    match (state, event) {
        (StreamState::Configured, StreamEvent::ChannelPrimed) => Some(StreamState::Primed),
        (StreamState::Primed, StreamEvent::StreamsStarted) => Some(StreamState::Running),
        (StreamState::Running, StreamEvent::StreamsStopped) => Some(StreamState::Stopped),
        _ => None,
    }
}

/// Advances a run by one event: configured, primed, running, stopped, in
/// that order and no other. A stopped run admits nothing.
pub fn advance(state: StreamState, event: StreamEvent) -> (r: Result<StreamState, InvalidTransition>)
    ensures
        successor(state, event) is Some ==> r == Ok::<StreamState, InvalidTransition>(
            successor(state, event)->Some_0,
        ),
        successor(state, event) is None ==> r == Err::<StreamState, InvalidTransition>(
            InvalidTransition { from: state, event },
        ),
{
    match (state, event) {
        (StreamState::Configured, StreamEvent::ChannelPrimed) => Ok(StreamState::Primed),
        (StreamState::Primed, StreamEvent::StreamsStarted) => Ok(StreamState::Running),
        (StreamState::Running, StreamEvent::StreamsStopped) => Ok(StreamState::Stopped),
        _ => Err(InvalidTransition { from: state, event }),
    }
}

} // verus!
