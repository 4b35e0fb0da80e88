//! The zygote: the long-lived process that creates isolated subtrees on
//! request.
//!
//! The zygote serves one request at a time. For each `Spawn` it runs the spawn
//! protocol and answers with its outcome. A spawn that fails is reported and
//! never ends the zygote. The zygote ends when its own channel breaks.
//!
//! This module holds the decisions. `zygote_process` and `spawn` take the state
//! and the event that just happened, and return the next state and the one
//! action to perform. The caller performs the action and comes back with the
//! event that it caused.

use crate::channel::{ChannelError, PendingChannel};
use crate::process::ChildProcess;
use crate::supervisor_process::{SupervisorRequest, SupervisorResponse};
use crate::user_ns::{MappingError, UserNamespaceConfig};
use vstd::prelude::*;

verus! {

// The direction here is from the caller's, the remote's, perspective.
/// What a caller asks of the zygote.
#[derive(Debug, PartialEq, Eq)]
pub enum ZygoteRequest {
    /// Create a supervisor and, below it, a sandbox.
    Spawn {
        /// The identifier mappings of the new user namespace.
        user_namespace_config: UserNamespaceConfig,
        /// The path of the build specification, passed through as it is.
        spec_path: Vec<u8>,
        /// The end of the channel over which the sandbox will talk to the
        /// caller.
        sandbox_peer: PendingChannel,
    },
}

/// What the zygote answers.
#[derive(Clone, Copy, Debug, PartialEq, Eq, Structural)]
pub enum ZygoteResponse {
    /// The supervisor runs and governs itself.
    SpawnSuccess,
    /// No supervisor was left behind.
    SpawnFailure,
}

/// The namespaces that a process is created in.
#[derive(Clone, Copy, Debug, PartialEq, Eq, Structural)]
pub struct Namespaces {
    /// A new process-identifier namespace.
    pub pid: bool,
    /// A new mount namespace.
    pub mount: bool,
    /// A new user namespace.
    pub user: bool,
}

/// All three namespaces, new.
pub open spec fn isolated() -> Namespaces {
    Namespaces { pid: true, mount: true, user: true }
}

/// Why a spawn failed.
#[derive(Clone, Copy, Debug, PartialEq, Eq, Structural)]
pub enum SpawnError {
    /// A channel to the supervisor could not be made or used.
    Channel(ChannelError),
    /// The process could not be created; the error number says why.
    CloneFailed(i32),
    /// The user mapping could not be written.
    Mapping(MappingError),
    /// The supervisor answered `Failed`.
    SupervisorFailed,
    /// The caller came back with an event that the protocol was not waiting
    /// for.
    OutOfTurn,
}

/// Where the spawn protocol stands: what it is waiting for, and what it holds
/// until then.
#[derive(Debug, PartialEq, Eq)]
pub enum SpawnState {
    /// Waiting for the local channel pair.
    AwaitingPair {
        user_namespace_config: UserNamespaceConfig,
        spec_path: Vec<u8>,
        sandbox_peer: PendingChannel,
    },
    /// Waiting for the supervisor process to be created.
    AwaitingClone { user_namespace_config: UserNamespaceConfig, local_peer: PendingChannel },
    /// Waiting for the zygote's end of the pair to be connected.
    AwaitingConnect { user_namespace_config: UserNamespaceConfig, child: ChildProcess },
    /// Waiting for the user mapping to be written.
    AwaitingMappings { child: ChildProcess },
    /// Waiting for `Exit` to be sent, after the mapping failed.
    AwaitingExitSent { child: ChildProcess, error: MappingError },
    /// Waiting for `UserMapped` to be sent.
    AwaitingMappedSent { child: ChildProcess },
    /// Waiting for the supervisor's answer.
    AwaitingResponse { child: ChildProcess },
    /// Waiting for the child to be terminated and reaped.
    Reaping { outcome: Result<(), SpawnError> },
    /// The protocol is over.
    Done,
}

/// What happened since the last action.
#[derive(Debug, PartialEq, Eq)]
pub enum SpawnEvent {
    /// The channel pair was made: the supervisor's end, then the zygote's.
    PairCreated(Result<(PendingChannel, PendingChannel), ChannelError>),
    /// The process was created and has this identifier, or was not, with this
    /// error number.
    Cloned(Result<i32, i32>),
    /// The zygote's end of the pair was connected.
    Connected(Result<(), ChannelError>),
    /// The user mapping was written.
    Mapped(Result<(), MappingError>),
    /// The message to the supervisor was sent.
    Sent(Result<(), ChannelError>),
    /// The supervisor answered.
    Received(Result<SupervisorResponse, ChannelError>),
    /// The child was terminated and reaped, and the channel to it closed.
    Reaped,
}

/// What the caller is to do next.
#[derive(Debug, PartialEq, Eq)]
pub enum SpawnAction {
    /// Make a local channel pair.
    CreatePair,
    /// Create a process in the given namespaces, all at once with its
    /// creation, that runs the supervisor on these values.
    CloneSupervisor {
        namespaces: Namespaces,
        supervisor_peer: PendingChannel,
        sandbox_peer: PendingChannel,
        spec_path: Vec<u8>,
    },
    /// Connect the zygote's end of the pair.
    Connect { local_peer: PendingChannel },
    /// Write the user mapping of the process.
    WriteMappings { pid: i32, user_namespace_config: UserNamespaceConfig },
    /// Send the message to the supervisor.
    Send(SupervisorRequest),
    /// Receive one answer from the supervisor.
    Receive,
    /// Close the channel to the supervisor, then terminate and reap the
    /// process.
    Reap { pid: i32 },
    /// Nothing more: the spawn ended like this.
    Finish(Result<(), SpawnError>),
}

impl SpawnState {
    /// The child that the protocol holds in this state.
    pub open spec fn child(self) -> Option<ChildProcess> {
        match self {
            SpawnState::AwaitingConnect { child, .. } => Some(child),
            SpawnState::AwaitingMappings { child } => Some(child),
            SpawnState::AwaitingExitSent { child, .. } => Some(child),
            SpawnState::AwaitingMappedSent { child } => Some(child),
            SpawnState::AwaitingResponse { child } => Some(child),
            _ => None,
        }
    }

    /// The process that would be left behind if the protocol stopped here.
    pub open spec fn owed(self) -> Option<i32> {
        match self.child() {
            Some(child) => child.owed(),
            None => None,
        }
    }

    /// Every child that the state holds is armed, and a child is reaped only
    /// for a failure. This holds of every state that the protocol reaches.
    pub open spec fn sound(self) -> bool {
        match self {
            SpawnState::Reaping { outcome } => outcome is Err,
            _ => match self.child() {
                Some(child) => !child.detached(),
                None => true,
            },
        }
    }
}

/// The first step of a spawn.
pub open spec fn spawn_begun(
    user_namespace_config: UserNamespaceConfig,
    spec_path: Vec<u8>,
    sandbox_peer: PendingChannel,
) -> (SpawnState, SpawnAction) {
    (
        SpawnState::AwaitingPair { user_namespace_config, spec_path, sandbox_peer },
        SpawnAction::CreatePair,
    )
}

/// How the protocol ends with `outcome` while it holds `child`: an armed child
/// is reaped first, a detached one is left alone.
pub open spec fn spawn_settled(child: ChildProcess, outcome: Result<(), SpawnError>) -> (
    SpawnState,
    SpawnAction,
) {
    match child.owed() {
        Some(pid) => (SpawnState::Reaping { outcome }, SpawnAction::Reap { pid }),
        None => (SpawnState::Done, SpawnAction::Finish(outcome)),
    }
}

/// How the protocol gives up in `state`.
pub open spec fn spawn_aborted(state: SpawnState) -> (SpawnState, SpawnAction) {
    match state.child() {
        Some(child) => spawn_settled(child, Err(SpawnError::OutOfTurn)),
        None => (SpawnState::Done, SpawnAction::Finish(Err(SpawnError::OutOfTurn))),
    }
}

/// The step of the spawn protocol: the next state and the action to perform.
pub open spec fn spawn_next(state: SpawnState, event: SpawnEvent) -> (SpawnState, SpawnAction) {
    match (state, event) {
        (
            SpawnState::AwaitingPair { user_namespace_config, spec_path, sandbox_peer },
            SpawnEvent::PairCreated(Ok((supervisor_peer, local_peer))),
        ) => (
            SpawnState::AwaitingClone { user_namespace_config, local_peer },
            SpawnAction::CloneSupervisor {
                namespaces: isolated(),
                supervisor_peer,
                sandbox_peer,
                spec_path,
            },
        ),
        (SpawnState::AwaitingPair { .. }, SpawnEvent::PairCreated(Err(error))) => (
            SpawnState::Done,
            SpawnAction::Finish(Err(SpawnError::Channel(error))),
        ),
        (
            SpawnState::AwaitingClone { user_namespace_config, local_peer },
            SpawnEvent::Cloned(Ok(pid)),
        ) => (
            SpawnState::AwaitingConnect { user_namespace_config, child: ChildProcess::armed(pid) },
            SpawnAction::Connect { local_peer },
        ),
        (SpawnState::AwaitingClone { .. }, SpawnEvent::Cloned(Err(errno))) => (
            SpawnState::Done,
            SpawnAction::Finish(Err(SpawnError::CloneFailed(errno))),
        ),
        (
            SpawnState::AwaitingConnect { user_namespace_config, child },
            SpawnEvent::Connected(Ok(_)),
        ) => if user_namespace_config.valid() {
            (
                SpawnState::AwaitingMappings { child },
                SpawnAction::WriteMappings { pid: child.pid(), user_namespace_config },
            )
        } else {
            (
                SpawnState::AwaitingExitSent { child, error: MappingError::InvalidRanges },
                SpawnAction::Send(SupervisorRequest::Exit),
            )
        },
        (SpawnState::AwaitingConnect { child, .. }, SpawnEvent::Connected(Err(error))) => {
            spawn_settled(child, Err(SpawnError::Channel(error)))
        },
        (SpawnState::AwaitingMappings { child }, SpawnEvent::Mapped(Ok(_))) => (
            SpawnState::AwaitingMappedSent { child },
            SpawnAction::Send(SupervisorRequest::UserMapped),
        ),
        (SpawnState::AwaitingMappings { child }, SpawnEvent::Mapped(Err(error))) => (
            SpawnState::AwaitingExitSent { child, error },
            SpawnAction::Send(SupervisorRequest::Exit),
        ),
        (SpawnState::AwaitingExitSent { child, error }, SpawnEvent::Sent(_)) => spawn_settled(
            child,
            Err(SpawnError::Mapping(error)),
        ),
        (SpawnState::AwaitingMappedSent { child }, SpawnEvent::Sent(Ok(_))) => (
            SpawnState::AwaitingResponse { child },
            SpawnAction::Receive,
        ),
        (SpawnState::AwaitingMappedSent { child }, SpawnEvent::Sent(Err(error))) => spawn_settled(
            child,
            Err(SpawnError::Channel(error)),
        ),
        (
            SpawnState::AwaitingResponse { child },
            SpawnEvent::Received(Ok(SupervisorResponse::Failed)),
        ) => spawn_settled(child, Err(SpawnError::SupervisorFailed)),
        (SpawnState::AwaitingResponse { child }, SpawnEvent::Received(Ok(_))) => spawn_settled(
            child.forgotten(),
            Ok(()),
        ),
        (SpawnState::AwaitingResponse { child }, SpawnEvent::Received(Err(error))) => {
            spawn_settled(child, Err(SpawnError::Channel(error)))
        },
        (SpawnState::Reaping { outcome }, SpawnEvent::Reaped) => (
            SpawnState::Done,
            SpawnAction::Finish(outcome),
        ),
        (state, _) => spawn_aborted(state),
    }
}

/// Begins the spawn protocol for one request.
pub fn begin_spawn(
    user_namespace_config: UserNamespaceConfig,
    spec_path: Vec<u8>,
    sandbox_peer: PendingChannel,
) -> (step: (SpawnState, SpawnAction))
    ensures
        step == spawn_begun(user_namespace_config, spec_path, sandbox_peer),
{
    (
        SpawnState::AwaitingPair { user_namespace_config, spec_path, sandbox_peer },
        SpawnAction::CreatePair,
    )
}

/// Ends the protocol with `outcome`, giving up `child`: an armed child is
/// reaped before the outcome is reported.
fn settle(child: ChildProcess, outcome: Result<(), SpawnError>) -> (step: (SpawnState, SpawnAction))
    ensures
        step == spawn_settled(child, outcome),
{
    match child.release() {
        Some(pid) => (SpawnState::Reaping { outcome }, SpawnAction::Reap { pid }),
        None => (SpawnState::Done, SpawnAction::Finish(outcome)),
    }
}

/// Gives the protocol up in `state`, after an event that it was not waiting
/// for. A child that the state holds is reaped.
pub fn abort_spawn(state: SpawnState) -> (step: (SpawnState, SpawnAction))
    ensures
        step == spawn_aborted(state),
{
    match state {
        SpawnState::AwaitingConnect { child, .. } => settle(child, Err(SpawnError::OutOfTurn)),
        SpawnState::AwaitingMappings { child } => settle(child, Err(SpawnError::OutOfTurn)),
        SpawnState::AwaitingExitSent { child, .. } => settle(child, Err(SpawnError::OutOfTurn)),
        SpawnState::AwaitingMappedSent { child } => settle(child, Err(SpawnError::OutOfTurn)),
        SpawnState::AwaitingResponse { child } => settle(child, Err(SpawnError::OutOfTurn)),
        _ => (SpawnState::Done, SpawnAction::Finish(Err(SpawnError::OutOfTurn))),
    }
}

/// One step of the spawn protocol.
///
/// The protocol makes a local channel pair, creates the supervisor in its
/// three new namespaces, connects its own end, and writes the user mapping.
/// The mapping is written after the child exists, and the child is told
/// `UserMapped` only after the mapping is written. If the mapping fails, or if
/// the configuration cannot be written at all, the child is told `Exit`,
/// whether or not that message can be sent, and is reaped. A child that
/// answers `Failed` is reaped. After any other answer the child is detached.
/// Whatever fails after the child exists, the child is reaped before the
/// failure is reported.
pub fn spawn(state: SpawnState, event: SpawnEvent) -> (step: (SpawnState, SpawnAction))
    ensures
        step == spawn_next(state, event),
{
    match (state, event) {
        (
            SpawnState::AwaitingPair { user_namespace_config, spec_path, sandbox_peer },
            SpawnEvent::PairCreated(Ok((supervisor_peer, local_peer))),
        ) => (
            SpawnState::AwaitingClone { user_namespace_config, local_peer },
            SpawnAction::CloneSupervisor {
                namespaces: Namespaces { pid: true, mount: true, user: true },
                supervisor_peer,
                sandbox_peer,
                spec_path,
            },
        ),
        (SpawnState::AwaitingPair { .. }, SpawnEvent::PairCreated(Err(error))) => (
            SpawnState::Done,
            SpawnAction::Finish(Err(SpawnError::Channel(error))),
        ),
        (
            SpawnState::AwaitingClone { user_namespace_config, local_peer },
            SpawnEvent::Cloned(Ok(pid)),
        ) => (
            SpawnState::AwaitingConnect { user_namespace_config, child: ChildProcess::new(pid) },
            SpawnAction::Connect { local_peer },
        ),
        (SpawnState::AwaitingClone { .. }, SpawnEvent::Cloned(Err(errno))) => (
            SpawnState::Done,
            SpawnAction::Finish(Err(SpawnError::CloneFailed(errno))),
        ),
        (
            SpawnState::AwaitingConnect { user_namespace_config, child },
            SpawnEvent::Connected(Ok(_)),
        ) => {
            if user_namespace_config.is_valid() {
                let pid = child.inner();
                (
                    SpawnState::AwaitingMappings { child },
                    SpawnAction::WriteMappings { pid, user_namespace_config },
                )
            } else {
                (
                    SpawnState::AwaitingExitSent { child, error: MappingError::InvalidRanges },
                    SpawnAction::Send(SupervisorRequest::Exit),
                )
            }
        },
        (SpawnState::AwaitingConnect { child, .. }, SpawnEvent::Connected(Err(error))) => settle(
            child,
            Err(SpawnError::Channel(error)),
        ),
        (SpawnState::AwaitingMappings { child }, SpawnEvent::Mapped(Ok(_))) => (
            SpawnState::AwaitingMappedSent { child },
            SpawnAction::Send(SupervisorRequest::UserMapped),
        ),
        (SpawnState::AwaitingMappings { child }, SpawnEvent::Mapped(Err(error))) => (
            SpawnState::AwaitingExitSent { child, error },
            SpawnAction::Send(SupervisorRequest::Exit),
        ),
        (SpawnState::AwaitingExitSent { child, error }, SpawnEvent::Sent(_)) => settle(
            child,
            Err(SpawnError::Mapping(error)),
        ),
        (SpawnState::AwaitingMappedSent { child }, SpawnEvent::Sent(Ok(_))) => (
            SpawnState::AwaitingResponse { child },
            SpawnAction::Receive,
        ),
        (SpawnState::AwaitingMappedSent { child }, SpawnEvent::Sent(Err(error))) => settle(
            child,
            Err(SpawnError::Channel(error)),
        ),
        (
            SpawnState::AwaitingResponse { child },
            SpawnEvent::Received(Ok(SupervisorResponse::Failed)),
        ) => settle(child, Err(SpawnError::SupervisorFailed)),
        (SpawnState::AwaitingResponse { child }, SpawnEvent::Received(Ok(_))) => {
            let mut child = child;
            child.forget();
            settle(child, Ok(()))
        },
        (SpawnState::AwaitingResponse { child }, SpawnEvent::Received(Err(error))) => settle(
            child,
            Err(SpawnError::Channel(error)),
        ),
        (SpawnState::Reaping { outcome }, SpawnEvent::Reaped) => (
            SpawnState::Done,
            SpawnAction::Finish(outcome),
        ),
        (state, _) => abort_spawn(state),
    }
}

/// Why the zygote ended other than by the clean end of its session.
#[derive(Clone, Copy, Debug, PartialEq, Eq, Structural)]
pub enum ZygoteError {
    /// The zygote's own channel failed, other than by being closed.
    Channel(ChannelError),
    /// The caller came back with an event that the zygote was not waiting for.
    OutOfTurn,
}

/// Where the zygote stands.
#[derive(Debug, PartialEq, Eq)]
pub enum ZygoteState {
    /// Waiting for its own channel to be connected.
    Connecting,
    /// Waiting for the next request.
    Receiving,
    /// In the spawn protocol.
    Spawning(SpawnState),
    /// Waiting for the answer to be sent.
    Replying,
    /// The zygote has ended.
    Stopped,
}

/// What happened since the last action.
#[derive(Debug, PartialEq, Eq)]
pub enum ZygoteEvent {
    /// The zygote's channel was connected.
    Connected(Result<(), ChannelError>),
    /// A request arrived.
    Received(Result<ZygoteRequest, ChannelError>),
    /// The spawn protocol got on.
    Spawn(SpawnEvent),
    /// The answer was sent.
    Replied(Result<(), ChannelError>),
}

/// What the caller is to do next.
#[derive(Debug, PartialEq, Eq)]
pub enum ZygoteAction {
    /// Connect the zygote's channel.
    Connect { peer: PendingChannel },
    /// Receive the next request.
    Receive,
    /// Perform this action of the spawn protocol.
    Spawn(SpawnAction),
    /// Send this answer. `failure` says why a spawn failed, for the log.
    Reply { response: ZygoteResponse, failure: Option<SpawnError> },
    /// End the process: cleanly, or with this error.
    Exit(Result<(), ZygoteError>),
}

/// The answer that reports the outcome of a spawn.
pub open spec fn response_for(outcome: Result<(), SpawnError>) -> ZygoteResponse {
    match outcome {
        Ok(_) => ZygoteResponse::SpawnSuccess,
        Err(_) => ZygoteResponse::SpawnFailure,
    }
}

/// What the zygote does with a step of the spawn protocol: it performs the
/// step, or, when the protocol is over, answers the request.
pub open spec fn spawn_carried(step: (SpawnState, SpawnAction)) -> (ZygoteState, ZygoteAction) {
    match step.1 {
        SpawnAction::Finish(outcome) => (
            ZygoteState::Replying,
            ZygoteAction::Reply {
                response: response_for(outcome),
                failure: match outcome {
                    Ok(_) => None,
                    Err(error) => Some(error),
                },
            },
        ),
        action => (ZygoteState::Spawning(step.0), ZygoteAction::Spawn(action)),
    }
}

/// The first step of the zygote.
pub open spec fn zygote_begun(peer: PendingChannel) -> (ZygoteState, ZygoteAction) {
    (ZygoteState::Connecting, ZygoteAction::Connect { peer })
}

/// The step of the zygote: the next state and the action to perform.
pub open spec fn zygote_next(state: ZygoteState, event: ZygoteEvent) -> (
    ZygoteState,
    ZygoteAction,
) {
    match (state, event) {
        (ZygoteState::Connecting, ZygoteEvent::Connected(Ok(_))) => (
            ZygoteState::Receiving,
            ZygoteAction::Receive,
        ),
        (ZygoteState::Connecting, ZygoteEvent::Connected(Err(error))) => (
            ZygoteState::Stopped,
            ZygoteAction::Exit(Err(ZygoteError::Channel(error))),
        ),
        (
            ZygoteState::Receiving,
            ZygoteEvent::Received(
                Ok(ZygoteRequest::Spawn { user_namespace_config, spec_path, sandbox_peer }),
            ),
        ) => spawn_carried(spawn_begun(user_namespace_config, spec_path, sandbox_peer)),
        (ZygoteState::Receiving, ZygoteEvent::Received(Err(ChannelError::BrokenChannel))) => (
            ZygoteState::Stopped,
            ZygoteAction::Exit(Ok(())),
        ),
        (ZygoteState::Receiving, ZygoteEvent::Received(Err(error))) => (
            ZygoteState::Stopped,
            ZygoteAction::Exit(Err(ZygoteError::Channel(error))),
        ),
        (ZygoteState::Spawning(spawning), ZygoteEvent::Spawn(event)) => spawn_carried(
            spawn_next(spawning, event),
        ),
        (ZygoteState::Spawning(spawning), _) => spawn_carried(spawn_aborted(spawning)),
        (ZygoteState::Replying, ZygoteEvent::Replied(Ok(_))) => (
            ZygoteState::Receiving,
            ZygoteAction::Receive,
        ),
        (ZygoteState::Replying, ZygoteEvent::Replied(Err(error))) => (
            ZygoteState::Stopped,
            ZygoteAction::Exit(Err(ZygoteError::Channel(error))),
        ),
        _ => (ZygoteState::Stopped, ZygoteAction::Exit(Err(ZygoteError::OutOfTurn))),
    }
}

/// Begins the zygote on the end of its channel.
pub fn begin_zygote(peer: PendingChannel) -> (step: (ZygoteState, ZygoteAction))
    ensures
        step == zygote_begun(peer),
{
    (ZygoteState::Connecting, ZygoteAction::Connect { peer })
}

/// Carries a step of the spawn protocol into the zygote.
fn carry(step: (SpawnState, SpawnAction)) -> (carried: (ZygoteState, ZygoteAction))
    ensures
        carried == spawn_carried(step),
{
    match step.1 {
        SpawnAction::Finish(outcome) => {
            let (response, failure) = match outcome {
                Ok(_) => (ZygoteResponse::SpawnSuccess, None),
                Err(error) => (ZygoteResponse::SpawnFailure, Some(error)),
            };
            (ZygoteState::Replying, ZygoteAction::Reply { response, failure })
        },
        action => (ZygoteState::Spawning(step.0), ZygoteAction::Spawn(action)),
    }
}

/// One step of the zygote.
///
/// The zygote connects its channel, then receives requests one at a time. A
/// `Spawn` request runs the spawn protocol to its end, and the outcome is
/// answered with `SpawnSuccess` or `SpawnFailure`. After the answer is sent
/// the zygote receives again: no failure of a spawn ends it. It ends cleanly
/// when the channel turns out broken on a receive, and with an error when the
/// channel fails in another way.
pub fn zygote_process(state: ZygoteState, event: ZygoteEvent) -> (step: (
    ZygoteState,
    ZygoteAction,
))
    ensures
        step == zygote_next(state, event),
{
    match (state, event) {
        (ZygoteState::Connecting, ZygoteEvent::Connected(Ok(_))) => (
            ZygoteState::Receiving,
            ZygoteAction::Receive,
        ),
        (ZygoteState::Connecting, ZygoteEvent::Connected(Err(error))) => (
            ZygoteState::Stopped,
            ZygoteAction::Exit(Err(ZygoteError::Channel(error))),
        ),
        (
            ZygoteState::Receiving,
            ZygoteEvent::Received(
                Ok(ZygoteRequest::Spawn { user_namespace_config, spec_path, sandbox_peer }),
            ),
        ) => carry(begin_spawn(user_namespace_config, spec_path, sandbox_peer)),
        (ZygoteState::Receiving, ZygoteEvent::Received(Err(ChannelError::BrokenChannel))) => (
            ZygoteState::Stopped,
            ZygoteAction::Exit(Ok(())),
        ),
        (ZygoteState::Receiving, ZygoteEvent::Received(Err(error))) => (
            ZygoteState::Stopped,
            ZygoteAction::Exit(Err(ZygoteError::Channel(error))),
        ),
        (ZygoteState::Spawning(spawning), ZygoteEvent::Spawn(event)) => carry(
            spawn(spawning, event),
        ),
        (ZygoteState::Spawning(spawning), _) => carry(abort_spawn(spawning)),
        (ZygoteState::Replying, ZygoteEvent::Replied(Ok(_))) => (
            ZygoteState::Receiving,
            ZygoteAction::Receive,
        ),
        (ZygoteState::Replying, ZygoteEvent::Replied(Err(error))) => (
            ZygoteState::Stopped,
            ZygoteAction::Exit(Err(ZygoteError::Channel(error))),
        ),
        _ => (ZygoteState::Stopped, ZygoteAction::Exit(Err(ZygoteError::OutOfTurn))),
    }
}

} // verus!
