//! Lifecycle tests: the worker state machine under the job messages, the
//! reconnect and teardown protocols, and the mode-level facade.

use player_mirror::client::PlayerMirrorClient;
use player_mirror::shared::{MirrorError, PlayerInfo, SerializableVector3, WorkerMessage};
use player_mirror::worker::{
    end_session, session_continues, worker_on_message, SessionEvent, WorkerState,
};
use player_mirror::PlayerMirror;

fn local(x: f32) -> PlayerInfo {
    PlayerInfo::new(
        SerializableVector3 {
            x: x.to_bits(),
            y: 0,
            z: 0,
        },
        SerializableVector3 { x: 0, y: 0, z: 0 },
        player_mirror::shared::Action::Run,
    )
}

#[test]
fn idle_worker_takes_work() {
    let st: WorkerState<u32> = WorkerState::Idle;
    let (st, released) = worker_on_message(st, WorkerMessage::Work(7));
    assert!(matches!(st, WorkerState::Active(7)));
    assert!(released.is_none());
}

#[test]
fn reconnect_leaves_one_session_and_closes_the_old_socket() {
    // The connect command on an already-connected endpoint queues EndJob and
    // then Work(new connection).
    let st: WorkerState<u32> = WorkerState::Active(7);
    let (st, released) = worker_on_message(st, WorkerMessage::EndJob);
    assert_eq!(released, Some(7));
    assert!(matches!(st, WorkerState::Idle));
    let (st, stray) = worker_on_message(st, WorkerMessage::Work(9));
    assert!(matches!(st, WorkerState::Active(9)));
    assert!(stray.is_none());
}

#[test]
fn session_error_returns_the_worker_to_idle() {
    let st: WorkerState<u32> = WorkerState::Active(3);
    let (st, released) = end_session(st);
    assert!(matches!(st, WorkerState::Idle));
    assert_eq!(released, Some(3));
}

#[test]
fn teardown_terminates_a_blocked_worker() {
    // Teardown makes every table access fail (which forces an active worker
    // out of its session) and queues EndJob then Death: the worker must end
    // terminated, from the active state as well as from idle.
    for start in [WorkerState::Active(5u32), WorkerState::Idle] {
        let (st, _) = end_session(start);
        let (st, _) = worker_on_message(st, WorkerMessage::EndJob);
        let (st, _) = worker_on_message(st, WorkerMessage::Death);
        assert!(matches!(st, WorkerState::Terminated));
    }
}

#[test]
fn death_while_idle_terminates() {
    let st: WorkerState<u32> = WorkerState::Idle;
    let (st, _) = worker_on_message(st, WorkerMessage::Death);
    assert!(matches!(st, WorkerState::Terminated));
}

#[test]
fn push_before_connect_is_rejected_and_table_stays_sentinel() {
    let mut mirror = PlayerMirror::new();
    let result = mirror.push_local_state(local(5.0));
    assert_eq!(result, Err(MirrorError::NotConnected));
    for slot in mirror.snapshot() {
        assert_eq!(slot, PlayerInfo::default());
    }
}

#[test]
fn failed_connect_leaves_the_endpoint_inactive() {
    // The transport attempt fails: the commit half never runs, no session
    // exists, and pushes keep being rejected.
    let mut mirror = PlayerMirror::new();
    mirror.connect_prepare();
    assert!(!mirror.is_active());
    assert_eq!(mirror.push_local_state(local(1.0)), Err(MirrorError::NotConnected));

    let mut client = PlayerMirrorClient::new();
    client.connect_begin();
    assert!(!client.is_connected());
    assert_eq!(client.push_position(local(1.0)), Err(MirrorError::NotConnected));
}

#[test]
fn failed_reconnect_deactivates_the_previous_session() {
    // Connecting again first ends the previous session; if the new attempt
    // then fails, no session is active.
    let mut mirror = PlayerMirror::new();
    mirror.connect_prepare();
    mirror.connect_succeeded();
    assert!(mirror.is_active());
    let end_job = mirror.connect_prepare();
    assert!(end_job);
    assert!(!mirror.is_active());
}

#[test]
fn write_failures_are_best_effort_but_read_and_decode_end_the_session() {
    assert!(session_continues(SessionEvent::Completed));
    assert!(session_continues(SessionEvent::WriteFailed));
    assert!(!session_continues(SessionEvent::ReadFailed));
    assert!(!session_continues(SessionEvent::DecodeFailed));
    assert!(!session_continues(SessionEvent::TableUnavailable));
}

#[test]
fn connect_then_push_succeeds() {
    let mut mirror = PlayerMirror::new();
    let end_job = mirror.connect_prepare();
    assert!(!end_job);
    mirror.connect_succeeded();
    assert!(mirror.is_active());
    assert!(!mirror.is_hub());
    assert_eq!(mirror.push_local_state(local(5.0)), Ok(()));
    assert_eq!(mirror.upstream_take_pending(), Some(local(5.0)));
    assert_eq!(mirror.upstream_take_pending(), None);
}

#[test]
fn second_connect_ends_the_previous_job() {
    let mut mirror = PlayerMirror::new();
    mirror.connect_prepare();
    mirror.connect_succeeded();
    // Connecting again while connected must first end the previous session.
    let end_job = mirror.connect_prepare();
    assert!(end_job);
    mirror.connect_succeeded();
    assert!(mirror.is_active());
}

#[test]
fn bind_switches_to_hub_mode() {
    let mut mirror = PlayerMirror::new();
    let end_job = mirror.bind_prepare();
    assert!(!end_job);
    mirror.bind_completed(true);
    assert!(mirror.is_hub());
    assert!(mirror.is_active());
    assert_eq!(mirror.push_local_state(local(3.0)), Ok(()));
    // The hub's own record sits in the reserved slot and is blanked in its
    // driver-facing snapshot.
    assert_eq!(mirror.snapshot()[15], PlayerInfo::default());
}

#[test]
fn failed_bind_leaves_the_mode_inactive() {
    let mut mirror = PlayerMirror::new();
    mirror.bind_prepare();
    mirror.bind_completed(false);
    assert!(!mirror.is_hub());
    assert!(!mirror.is_active());
    assert_eq!(mirror.push_local_state(local(1.0)), Err(MirrorError::NotConnected));
}

#[test]
fn shutdown_deactivates_and_is_safe_when_inactive() {
    let mut mirror = PlayerMirror::new();
    mirror.connect_prepare();
    mirror.connect_succeeded();
    let end_job = mirror.shutdown();
    assert!(end_job);
    assert!(!mirror.is_active());
    // Shutting down again asks for nothing more.
    let end_job = mirror.shutdown();
    assert!(!end_job);
}

#[test]
fn connect_from_hub_mode_replaces_the_mode() {
    let mut mirror = PlayerMirror::new();
    mirror.bind_prepare();
    mirror.bind_completed(true);
    assert!(mirror.is_hub());
    let end_job = mirror.connect_prepare();
    // The hub has no upstream worker job to end; its listener is given up.
    assert!(!end_job);
    assert!(!mirror.is_active());
    mirror.connect_succeeded();
    assert!(!mirror.is_hub());
    assert!(mirror.is_active());
}
