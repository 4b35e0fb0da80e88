//! What holds of every run of the zygote and of the spawn protocol.

use crate::channel::{ChannelError, PendingChannel};
use crate::process::ChildProcess;
use crate::supervisor_process::{SupervisorRequest, SupervisorResponse};
use crate::user_ns::{MappingError, UserNamespaceConfig};
use crate::zygote_process::{
    isolated, spawn_next, zygote_next, SpawnAction, SpawnError, SpawnEvent, SpawnState,
    ZygoteAction, ZygoteEvent, ZygoteRequest, ZygoteResponse, ZygoteState,
};
use vstd::prelude::*;

verus! {

/// The state and the actions after a history of events: each event is answered
/// by the action at the same position.
pub open spec fn zygote_run(state: ZygoteState, events: Seq<ZygoteEvent>) -> (
    ZygoteState,
    Seq<ZygoteAction>,
)
    decreases events.len(),
{
    if events.len() == 0 {
        (state, Seq::empty())
    } else {
        let before = zygote_run(state, events.drop_last());
        let step = zygote_next(before.0, events.last());
        (step.0, before.1.push(step.1))
    }
}

/// The process that would be left behind if the zygote stopped in this state.
pub open spec fn zygote_owed(state: ZygoteState) -> Option<i32> {
    match state {
        ZygoteState::Spawning(spawning) => spawning.owed(),
        _ => None,
    }
}

/// Every child that the zygote holds in this state is armed.
pub open spec fn zygote_sound(state: ZygoteState) -> bool {
    match state {
        ZygoteState::Spawning(spawning) => spawning.sound(),
        _ => true,
    }
}

/// A run of one more event is the run so far and one more step.
pub proof fn lemma_run_push(state: ZygoteState, events: Seq<ZygoteEvent>, event: ZygoteEvent)
    ensures
        zygote_run(state, events.push(event)) == ({
            let before = zygote_run(state, events);
            let step = zygote_next(before.0, event);
            (step.0, before.1.push(step.1))
        }),
        zygote_run(state, events).1.len() == events.len(),
    decreases events.len(),
{
    assert(events.push(event).drop_last() =~= events);
    if events.len() > 0 {
        lemma_run_push(state, events.drop_last(), events.last());
        assert(events.drop_last().push(events.last()) =~= events);
    }
}

/// A child, once created, is held until it is reaped or detached.
///
/// In a step of the spawn protocol from a state that holds an armed child, one
/// of three things happens: the child is still held afterwards, and the action
/// neither reaps nor finishes; or the action reaps that child; or the
/// supervisor gave an answer other than `Failed`, and the protocol finishes
/// with success and without reaping. A failure is never reported from a state
/// that holds a child, and only a held child is ever reaped.
pub proof fn lemma_spawn_never_leaks(state: SpawnState, event: SpawnEvent)
    requires
        state.sound(),
    ensures
        spawn_next(state, event).0.sound(),
        state.owed() matches Some(pid) ==> {
            let (next, action) = spawn_next(state, event);
            ||| next.owed() == Some(pid) && !(action is Reap) && !(action is Finish)
            ||| action == (SpawnAction::Reap { pid }) && next is Reaping
            ||| action == SpawnAction::Finish(Ok(())) && next is Done && state is AwaitingResponse
                && (event matches SpawnEvent::Received(Ok(response)) && response
                != SupervisorResponse::Failed)
        },
        spawn_next(state, event).1 matches SpawnAction::Finish(Err(_)) ==> state.owed() is None,
        spawn_next(state, event).1 matches SpawnAction::Reap { pid } ==> state.owed() == Some(pid),
{
    match state.child() {
        Some(child) => child.lemma_forgotten(),
        None => {},
    }
    match (state, event) {
        (SpawnState::AwaitingClone { .. }, SpawnEvent::Cloned(Ok(pid))) => {
            ChildProcess::lemma_armed(pid);
        },
        _ => {},
    }
}

/// The user mapping is written only once the child exists, and the child is
/// told `UserMapped` only once the mapping is written.
pub proof fn lemma_mapping_is_ordered(state: SpawnState, event: SpawnEvent)
    ensures
        spawn_next(state, event).1 is WriteMappings ==> state is AwaitingConnect
            && state.child() is Some,
        spawn_next(state, event).1 == SpawnAction::Send(SupervisorRequest::UserMapped) ==> state
            is AwaitingMappings && event matches SpawnEvent::Mapped(Ok(_)),
        spawn_next(state, event).1 matches SpawnAction::CloneSupervisor { namespaces, .. }
            ==> namespaces == isolated(),
{
}

/// No failure of a spawn ends the zygote.
///
/// While a spawn is under way, no event whatever stops the zygote. When the
/// spawn is over the zygote answers, with `SpawnFailure` exactly if the spawn
/// failed, and after the answer is sent it receives again.
pub proof fn lemma_spawn_never_stops_zygote(spawning: SpawnState, event: ZygoteEvent)
    ensures
        !(zygote_next(ZygoteState::Spawning(spawning), event).0 is Stopped),
        !(zygote_next(ZygoteState::Spawning(spawning), event).1 is Exit),
        zygote_next(ZygoteState::Spawning(spawning), event).1 matches ZygoteAction::Reply {
            response,
            failure,
        } ==> zygote_next(ZygoteState::Spawning(spawning), event).0 is Replying && (response
            == ZygoteResponse::SpawnFailure <==> failure is Some) && (response
            == ZygoteResponse::SpawnSuccess <==> failure is None),
        zygote_next(ZygoteState::Replying, ZygoteEvent::Replied(Ok(()))) == (
            ZygoteState::Receiving,
            ZygoteAction::Receive,
        ),
{
}

/// The zygote answers, and ends, empty-handed.
///
/// Whenever the zygote reports a failed spawn or ends, it holds no armed child
/// at that moment: a child that was created has been reaped before. Whenever
/// it reports success, the one child it held is detached by that step. After
/// any answer, and after its end, it holds no child at all.
pub proof fn lemma_zygote_answers_empty_handed(state: ZygoteState, event: ZygoteEvent)
    requires
        zygote_sound(state),
    ensures
        zygote_next(state, event).1 matches ZygoteAction::Reply {
            response: ZygoteResponse::SpawnFailure,
            ..
        } ==> zygote_owed(state) is None,
        zygote_next(state, event).1 is Exit ==> zygote_owed(state) is None,
        zygote_next(state, event).1 matches ZygoteAction::Reply {
            response: ZygoteResponse::SpawnSuccess,
            ..
        } ==> state matches ZygoteState::Spawning(SpawnState::AwaitingResponse { .. }),
        zygote_next(state, event).1 is Reply || zygote_next(state, event).1 is Exit
            || zygote_next(state, event).1 is Receive ==> zygote_owed(zygote_next(state, event).0)
            is None,
{
    match state {
        ZygoteState::Spawning(spawning) => {
            match spawning.child() {
                Some(child) => child.lemma_forgotten(),
                None => {},
            }
        },
        _ => {},
    }
}

/// The zygote ends cleanly exactly when a receive finds its channel broken.
pub proof fn lemma_clean_exit_is_broken_channel(state: ZygoteState, event: ZygoteEvent)
    ensures
        zygote_next(state, event).1 == ZygoteAction::Exit(Ok(())) <==> state is Receiving && event
            == ZygoteEvent::Received(Err(ChannelError::BrokenChannel)),
{
}

/// The action that answers the event at position `at` is the step from the
/// state that the events before it led to.
pub proof fn lemma_run_at(state: ZygoteState, events: Seq<ZygoteEvent>, at: int)
    requires
        0 <= at < events.len(),
    ensures
        zygote_run(state, events).1.len() == events.len(),
        zygote_run(state, events).1[at] == zygote_next(
            zygote_run(state, events.take(at)).0,
            events[at],
        ).1,
    decreases events.len(),
{
    lemma_run_push(state, events.drop_last(), events.last());
    assert(events.drop_last().push(events.last()) =~= events);
    if at == events.len() - 1 {
        assert(events.take(at) =~= events.drop_last());
    } else {
        lemma_run_at(state, events.drop_last(), at);
        assert(events.drop_last().take(at) =~= events.take(at));
    }
}

/// A child is held only from its creation on, and only a held child is reaped.
pub proof fn lemma_zygote_holds_created(state: ZygoteState, event: ZygoteEvent)
    requires
        zygote_sound(state),
    ensures
        zygote_sound(zygote_next(state, event).0),
        zygote_owed(zygote_next(state, event).0) matches Some(pid) ==> zygote_owed(state) == Some(
            pid,
        ) || event == ZygoteEvent::Spawn(SpawnEvent::Cloned(Ok(pid))),
        zygote_next(state, event).1 matches ZygoteAction::Spawn(SpawnAction::Reap { pid })
            ==> zygote_owed(state) == Some(pid),
{
    match state {
        ZygoteState::Spawning(spawning) => {
            match spawning.child() {
                Some(child) => child.lemma_forgotten(),
                None => {},
            }
            match event {
                ZygoteEvent::Spawn(SpawnEvent::Cloned(Ok(pid))) => {
                    ChildProcess::lemma_armed(pid);
                },
                _ => {},
            }
        },
        _ => {},
    }
}

/// Whatever child the zygote holds after a history was created in it.
pub proof fn lemma_held_child_was_created(state: ZygoteState, events: Seq<ZygoteEvent>)
    requires
        zygote_sound(state),
        zygote_owed(state) is None,
    ensures
        zygote_sound(zygote_run(state, events).0),
        zygote_owed(zygote_run(state, events).0) matches Some(pid) ==> exists|created: int|
            0 <= created < events.len() && #[trigger] events[created] == ZygoteEvent::Spawn(
                SpawnEvent::Cloned(Ok(pid)),
            ),
    decreases events.len(),
{
    if events.len() > 0 {
        let prefix = events.drop_last();
        lemma_held_child_was_created(state, prefix);
        let before = zygote_run(state, prefix).0;
        lemma_zygote_holds_created(before, events.last());
        match zygote_owed(zygote_run(state, events).0) {
            Some(pid) => {
                if zygote_owed(before) == Some(pid) {
                    let created = choose|created: int|
                        0 <= created < prefix.len() && #[trigger] prefix[created]
                            == ZygoteEvent::Spawn(SpawnEvent::Cloned(Ok(pid)));
                    assert(events[created] == prefix[created]);
                } else {
                    assert(events[events.len() - 1] == ZygoteEvent::Spawn(
                        SpawnEvent::Cloned(Ok(pid)),
                    ));
                }
            },
            None => {},
        }
    }
}

/// Detachment is permanent: the zygote never reaps a process that it does not
/// hold.
///
/// Take any history that starts where the zygote holds no child, such as the
/// moment after a spawn succeeded and its child was detached. Whenever the
/// zygote then asks for a process to be reaped, that process was created
/// earlier in this same history. So the child of the spawn that succeeded is
/// not reaped, however the zygote goes on and however it ends.
pub proof fn lemma_only_created_children_are_reaped(
    state: ZygoteState,
    events: Seq<ZygoteEvent>,
    at: int,
    pid: i32,
)
    requires
        zygote_sound(state),
        zygote_owed(state) is None,
        0 <= at < events.len(),
        zygote_run(state, events).1[at] == ZygoteAction::Spawn(SpawnAction::Reap { pid }),
    ensures
        exists|created: int|
            0 <= created < at && #[trigger] events[created] == ZygoteEvent::Spawn(
                SpawnEvent::Cloned(Ok(pid)),
            ),
{
    lemma_run_at(state, events, at);
    let prefix = events.take(at);
    lemma_held_child_was_created(state, prefix);
    lemma_zygote_holds_created(zygote_run(state, prefix).0, events[at]);
    let created = choose|created: int|
        0 <= created < prefix.len() && #[trigger] prefix[created] == ZygoteEvent::Spawn(
            SpawnEvent::Cloned(Ok(pid)),
        );
    assert(events[created] == prefix[created]);
}

/// The events up to the moment at which the zygote's end of the pair is
/// connected, for one request.
pub open spec fn events_until_connected(
    user_namespace_config: UserNamespaceConfig,
    spec_path: Vec<u8>,
    sandbox_peer: PendingChannel,
    supervisor_peer: PendingChannel,
    local_peer: PendingChannel,
    pid: i32,
) -> Seq<ZygoteEvent> {
    seq![
        ZygoteEvent::Received(
            Ok(ZygoteRequest::Spawn { user_namespace_config, spec_path, sandbox_peer }),
        ),
        ZygoteEvent::Spawn(SpawnEvent::PairCreated(Ok((supervisor_peer, local_peer)))),
        ZygoteEvent::Spawn(SpawnEvent::Cloned(Ok(pid))),
        ZygoteEvent::Spawn(SpawnEvent::Connected(Ok(()))),
    ]
}

/// The actions that answer `events_until_connected`, but for the last.
pub open spec fn actions_until_connected(
    sandbox_peer: PendingChannel,
    spec_path: Vec<u8>,
    supervisor_peer: PendingChannel,
    local_peer: PendingChannel,
) -> Seq<ZygoteAction> {
    seq![
        ZygoteAction::Spawn(SpawnAction::CreatePair),
        ZygoteAction::Spawn(
            SpawnAction::CloneSupervisor {
                namespaces: isolated(),
                supervisor_peer,
                sandbox_peer,
                spec_path,
            },
        ),
        ZygoteAction::Spawn(SpawnAction::Connect { local_peer }),
    ]
}

/// A request up to the connected channel: the zygote makes the pair, creates
/// the supervisor in its three namespaces, and connects. With a configuration
/// that can be written, it then asks for the mapping to be written, and holds
/// the child.
pub proof fn lemma_run_until_connected(
    user_namespace_config: UserNamespaceConfig,
    spec_path: Vec<u8>,
    sandbox_peer: PendingChannel,
    supervisor_peer: PendingChannel,
    local_peer: PendingChannel,
    pid: i32,
)
    ensures
        zygote_run(
            ZygoteState::Receiving,
            events_until_connected(
                user_namespace_config,
                spec_path,
                sandbox_peer,
                supervisor_peer,
                local_peer,
                pid,
            ),
        ) == (if user_namespace_config.valid() {
            (
                ZygoteState::Spawning(
                    SpawnState::AwaitingMappings { child: ChildProcess::armed(pid) },
                ),
                actions_until_connected(sandbox_peer, spec_path, supervisor_peer, local_peer).push(
                    ZygoteAction::Spawn(SpawnAction::WriteMappings { pid, user_namespace_config }),
                ),
            )
        } else {
            (
                ZygoteState::Spawning(
                    SpawnState::AwaitingExitSent {
                        child: ChildProcess::armed(pid),
                        error: MappingError::InvalidRanges,
                    },
                ),
                actions_until_connected(sandbox_peer, spec_path, supervisor_peer, local_peer).push(
                    ZygoteAction::Spawn(SpawnAction::Send(SupervisorRequest::Exit)),
                ),
            )
        }),
{
    let events = events_until_connected(
        user_namespace_config,
        spec_path,
        sandbox_peer,
        supervisor_peer,
        local_peer,
        pid,
    );
    let none = Seq::<ZygoteEvent>::empty();
    let start = ZygoteState::Receiving;
    ChildProcess::lemma_armed(pid);
    lemma_run_push(start, none, events[0]);
    lemma_run_push(start, none.push(events[0]), events[1]);
    lemma_run_push(start, none.push(events[0]).push(events[1]), events[2]);
    lemma_run_push(start, none.push(events[0]).push(events[1]).push(events[2]), events[3]);
    assert(none.push(events[0]).push(events[1]).push(events[2]).push(events[3]) =~= events);
    let actions = actions_until_connected(sandbox_peer, spec_path, supervisor_peer, local_peer);
    assert(Seq::<ZygoteAction>::empty().push(actions[0]).push(actions[1]).push(actions[2])
        =~= actions);
}

/// A mapping that fails is survived.
///
/// Let the mapping of a request fail with any error, and let the `Exit`
/// message to the supervisor be sent or not. Then the zygote tells the
/// supervisor `Exit`, has the child reaped, answers `SpawnFailure` with the
/// mapping error, and after the answer is sent it receives the next request.
pub proof fn lemma_failed_mapping_is_survived(
    user_namespace_config: UserNamespaceConfig,
    spec_path: Vec<u8>,
    sandbox_peer: PendingChannel,
    supervisor_peer: PendingChannel,
    local_peer: PendingChannel,
    pid: i32,
    error: MappingError,
    sent: Result<(), ChannelError>,
)
    requires
        user_namespace_config.valid(),
    ensures
        zygote_run(
            ZygoteState::Receiving,
            events_until_connected(
                user_namespace_config,
                spec_path,
                sandbox_peer,
                supervisor_peer,
                local_peer,
                pid,
            ).push(ZygoteEvent::Spawn(SpawnEvent::Mapped(Err(error)))).push(
                ZygoteEvent::Spawn(SpawnEvent::Sent(sent)),
            ).push(ZygoteEvent::Spawn(SpawnEvent::Reaped)).push(ZygoteEvent::Replied(Ok(()))),
        ) == (
            ZygoteState::Receiving,
            actions_until_connected(sandbox_peer, spec_path, supervisor_peer, local_peer).push(
                ZygoteAction::Spawn(SpawnAction::WriteMappings { pid, user_namespace_config }),
            ).push(ZygoteAction::Spawn(SpawnAction::Send(SupervisorRequest::Exit))).push(
                ZygoteAction::Spawn(SpawnAction::Reap { pid }),
            ).push(
                ZygoteAction::Reply {
                    response: ZygoteResponse::SpawnFailure,
                    failure: Some(SpawnError::Mapping(error)),
                },
            ).push(ZygoteAction::Receive),
        ),
{
    let start = ZygoteState::Receiving;
    let connected = events_until_connected(
        user_namespace_config,
        spec_path,
        sandbox_peer,
        supervisor_peer,
        local_peer,
        pid,
    );
    let mapped = connected.push(ZygoteEvent::Spawn(SpawnEvent::Mapped(Err(error))));
    let told = mapped.push(ZygoteEvent::Spawn(SpawnEvent::Sent(sent)));
    let reaped = told.push(ZygoteEvent::Spawn(SpawnEvent::Reaped));
    ChildProcess::lemma_armed(pid);
    lemma_run_until_connected(
        user_namespace_config,
        spec_path,
        sandbox_peer,
        supervisor_peer,
        local_peer,
        pid,
    );
    lemma_run_push(start, connected, ZygoteEvent::Spawn(SpawnEvent::Mapped(Err(error))));
    lemma_run_push(start, mapped, ZygoteEvent::Spawn(SpawnEvent::Sent(sent)));
    lemma_run_push(start, told, ZygoteEvent::Spawn(SpawnEvent::Reaped));
    lemma_run_push(start, reaped, ZygoteEvent::Replied(Ok(())));
}

/// A configuration that cannot be written is survived like a mapping that
/// fails: nothing is written, the supervisor is told `Exit`, the child is
/// reaped, and the zygote answers `SpawnFailure` and receives again.
pub proof fn lemma_invalid_mapping_is_survived(
    user_namespace_config: UserNamespaceConfig,
    spec_path: Vec<u8>,
    sandbox_peer: PendingChannel,
    supervisor_peer: PendingChannel,
    local_peer: PendingChannel,
    pid: i32,
    sent: Result<(), ChannelError>,
)
    requires
        !user_namespace_config.valid(),
    ensures
        zygote_run(
            ZygoteState::Receiving,
            events_until_connected(
                user_namespace_config,
                spec_path,
                sandbox_peer,
                supervisor_peer,
                local_peer,
                pid,
            ).push(ZygoteEvent::Spawn(SpawnEvent::Sent(sent))).push(
                ZygoteEvent::Spawn(SpawnEvent::Reaped),
            ).push(ZygoteEvent::Replied(Ok(()))),
        ) == (
            ZygoteState::Receiving,
            actions_until_connected(sandbox_peer, spec_path, supervisor_peer, local_peer).push(
                ZygoteAction::Spawn(SpawnAction::Send(SupervisorRequest::Exit)),
            ).push(ZygoteAction::Spawn(SpawnAction::Reap { pid })).push(
                ZygoteAction::Reply {
                    response: ZygoteResponse::SpawnFailure,
                    failure: Some(SpawnError::Mapping(MappingError::InvalidRanges)),
                },
            ).push(ZygoteAction::Receive),
        ),
{
    let start = ZygoteState::Receiving;
    let connected = events_until_connected(
        user_namespace_config,
        spec_path,
        sandbox_peer,
        supervisor_peer,
        local_peer,
        pid,
    );
    let told = connected.push(ZygoteEvent::Spawn(SpawnEvent::Sent(sent)));
    let reaped = told.push(ZygoteEvent::Spawn(SpawnEvent::Reaped));
    ChildProcess::lemma_armed(pid);
    lemma_run_until_connected(
        user_namespace_config,
        spec_path,
        sandbox_peer,
        supervisor_peer,
        local_peer,
        pid,
    );
    lemma_run_push(start, connected, ZygoteEvent::Spawn(SpawnEvent::Sent(sent)));
    lemma_run_push(start, told, ZygoteEvent::Spawn(SpawnEvent::Reaped));
    lemma_run_push(start, reaped, ZygoteEvent::Replied(Ok(())));
}

/// A supervisor that fails is survived.
///
/// Let the mapping be written and the supervisor answer `Failed`. Then the
/// zygote has the child reaped, answers `SpawnFailure`, and after the answer
/// is sent it receives the next request.
pub proof fn lemma_failed_supervisor_is_survived(
    user_namespace_config: UserNamespaceConfig,
    spec_path: Vec<u8>,
    sandbox_peer: PendingChannel,
    supervisor_peer: PendingChannel,
    local_peer: PendingChannel,
    pid: i32,
)
    requires
        user_namespace_config.valid(),
    ensures
        zygote_run(
            ZygoteState::Receiving,
            events_until_connected(
                user_namespace_config,
                spec_path,
                sandbox_peer,
                supervisor_peer,
                local_peer,
                pid,
            ).push(ZygoteEvent::Spawn(SpawnEvent::Mapped(Ok(())))).push(
                ZygoteEvent::Spawn(SpawnEvent::Sent(Ok(()))),
            ).push(ZygoteEvent::Spawn(SpawnEvent::Received(Ok(SupervisorResponse::Failed)))).push(
                ZygoteEvent::Spawn(SpawnEvent::Reaped),
            ).push(ZygoteEvent::Replied(Ok(()))),
        ) == (
            ZygoteState::Receiving,
            actions_until_connected(sandbox_peer, spec_path, supervisor_peer, local_peer).push(
                ZygoteAction::Spawn(SpawnAction::WriteMappings { pid, user_namespace_config }),
            ).push(ZygoteAction::Spawn(SpawnAction::Send(SupervisorRequest::UserMapped))).push(
                ZygoteAction::Spawn(SpawnAction::Receive),
            ).push(ZygoteAction::Spawn(SpawnAction::Reap { pid })).push(
                ZygoteAction::Reply {
                    response: ZygoteResponse::SpawnFailure,
                    failure: Some(SpawnError::SupervisorFailed),
                },
            ).push(ZygoteAction::Receive),
        ),
{
    let start = ZygoteState::Receiving;
    let connected = events_until_connected(
        user_namespace_config,
        spec_path,
        sandbox_peer,
        supervisor_peer,
        local_peer,
        pid,
    );
    let mapped = connected.push(ZygoteEvent::Spawn(SpawnEvent::Mapped(Ok(()))));
    let told = mapped.push(ZygoteEvent::Spawn(SpawnEvent::Sent(Ok(()))));
    let answered = told.push(
        ZygoteEvent::Spawn(SpawnEvent::Received(Ok(SupervisorResponse::Failed))),
    );
    let reaped = answered.push(ZygoteEvent::Spawn(SpawnEvent::Reaped));
    ChildProcess::lemma_armed(pid);
    lemma_run_until_connected(
        user_namespace_config,
        spec_path,
        sandbox_peer,
        supervisor_peer,
        local_peer,
        pid,
    );
    lemma_run_push(start, connected, ZygoteEvent::Spawn(SpawnEvent::Mapped(Ok(()))));
    lemma_run_push(start, mapped, ZygoteEvent::Spawn(SpawnEvent::Sent(Ok(()))));
    lemma_run_push(
        start,
        told,
        ZygoteEvent::Spawn(SpawnEvent::Received(Ok(SupervisorResponse::Failed))),
    );
    lemma_run_push(start, answered, ZygoteEvent::Spawn(SpawnEvent::Reaped));
    lemma_run_push(start, reaped, ZygoteEvent::Replied(Ok(())));
}

/// A spawn that succeeds detaches its child.
///
/// Let the mapping be written and the supervisor give any answer but `Failed`.
/// Then the zygote answers `SpawnSuccess` without asking for the child to be
/// reaped, and it is left holding no child.
pub proof fn lemma_success_detaches_child(
    user_namespace_config: UserNamespaceConfig,
    spec_path: Vec<u8>,
    sandbox_peer: PendingChannel,
    supervisor_peer: PendingChannel,
    local_peer: PendingChannel,
    pid: i32,
    response: SupervisorResponse,
)
    requires
        user_namespace_config.valid(),
        response != SupervisorResponse::Failed,
    ensures
        zygote_run(
            ZygoteState::Receiving,
            events_until_connected(
                user_namespace_config,
                spec_path,
                sandbox_peer,
                supervisor_peer,
                local_peer,
                pid,
            ).push(ZygoteEvent::Spawn(SpawnEvent::Mapped(Ok(())))).push(
                ZygoteEvent::Spawn(SpawnEvent::Sent(Ok(()))),
            ).push(ZygoteEvent::Spawn(SpawnEvent::Received(Ok(response)))),
        ) == (
            ZygoteState::Replying,
            actions_until_connected(sandbox_peer, spec_path, supervisor_peer, local_peer).push(
                ZygoteAction::Spawn(SpawnAction::WriteMappings { pid, user_namespace_config }),
            ).push(ZygoteAction::Spawn(SpawnAction::Send(SupervisorRequest::UserMapped))).push(
                ZygoteAction::Spawn(SpawnAction::Receive),
            ).push(
                ZygoteAction::Reply {
                    response: ZygoteResponse::SpawnSuccess,
                    failure: None,
                },
            ),
        ),
        zygote_owed(ZygoteState::Replying) is None,
        zygote_sound(ZygoteState::Replying),
{
    let start = ZygoteState::Receiving;
    let connected = events_until_connected(
        user_namespace_config,
        spec_path,
        sandbox_peer,
        supervisor_peer,
        local_peer,
        pid,
    );
    let mapped = connected.push(ZygoteEvent::Spawn(SpawnEvent::Mapped(Ok(()))));
    let told = mapped.push(ZygoteEvent::Spawn(SpawnEvent::Sent(Ok(()))));
    ChildProcess::lemma_armed(pid);
    ChildProcess::armed(pid).lemma_forgotten();
    lemma_run_until_connected(
        user_namespace_config,
        spec_path,
        sandbox_peer,
        supervisor_peer,
        local_peer,
        pid,
    );
    lemma_run_push(start, connected, ZygoteEvent::Spawn(SpawnEvent::Mapped(Ok(()))));
    lemma_run_push(start, mapped, ZygoteEvent::Spawn(SpawnEvent::Sent(Ok(()))));
    lemma_run_push(start, told, ZygoteEvent::Spawn(SpawnEvent::Received(Ok(response))));
}

} // verus!
