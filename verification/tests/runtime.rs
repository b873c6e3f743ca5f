use std::sync::atomic::{AtomicBool, Ordering};
use std::sync::Arc;
use tacoshell::commands::{disconnect_ssh, register_session, send_ssh_input, SshOutputEvent};
use tacoshell::runtime::{
    read_outcome, Phase, ReadFault, ReadOutcome, Worker, WorkerAction, WorkerEvent, DRAIN_LIMIT,
    IDLE_SLEEP_MS, KEEPALIVE_INTERVAL_MS, READ_BUFFER_SIZE, READ_TIMEOUT_MS,
};
use tacoshell::state::{ActiveSession, AppState, SshInput};
use tacoshell::storage::Storage;
use tokio::sync::mpsc::unbounded_channel;

fn observed(stop: bool, now_ms: u64) -> WorkerEvent {
    WorkerEvent::Observed { stop, now_ms }
}

fn read(bytes: &[u8], eof: bool) -> WorkerEvent {
    WorkerEvent::Read { outcome: ReadOutcome::Data(bytes.to_vec()), eof }
}

fn idle(eof: bool) -> WorkerEvent {
    WorkerEvent::Read { outcome: ReadOutcome::Idle, eof }
}

fn emitted(action: WorkerAction) -> SshOutputEvent {
    match action {
        WorkerAction::Emit(e) => e,
        other => panic!("unexpected action {:?}", other),
    }
}

/// A worker that has just been asked to read.
fn reading(id: &str) -> Worker {
    let (mut w, first) = Worker::start(id.to_string(), 0);
    assert!(matches!(first, WorkerAction::Observe));
    assert!(matches!(w.step(observed(false, 1)), WorkerAction::Poll));
    assert!(matches!(w.step(WorkerEvent::Polled(None)), WorkerAction::Observe));
    assert!(matches!(w.step(observed(false, 2)), WorkerAction::Read));
    assert_eq!(w.phase(), Phase::Reading);
    w
}

fn tear_down(w: &mut Worker, id: &str) {
    assert!(matches!(w.step(WorkerEvent::Unregistered), WorkerAction::Close));
    let last = emitted(w.step(WorkerEvent::Closed));
    assert_eq!((last.session_id.as_str(), last.data.as_str(), last.eof), (id, "", true));
    assert!(!w.is_done());
    assert!(matches!(w.step(WorkerEvent::Emitted), WorkerAction::Exit));
    assert!(w.is_done());
    assert!(matches!(w.step(WorkerEvent::Emitted), WorkerAction::Exit));
    assert!(matches!(w.step(observed(false, 0)), WorkerAction::Exit));
}

#[test]
fn the_constants_are_those_of_the_design() {
    assert_eq!(KEEPALIVE_INTERVAL_MS, 30_000);
    assert_eq!(DRAIN_LIMIT, 50);
    assert_eq!(IDLE_SLEEP_MS, 10);
    assert_eq!(READ_TIMEOUT_MS, 100);
    assert_eq!(READ_BUFFER_SIZE, 8192);
}

#[test]
fn output_is_streamed_and_the_round_starts_over() {
    let mut w = reading("s");
    let e = emitted(w.step(read(b"hello\r\n", false)));
    assert_eq!((e.session_id.as_str(), e.data.as_str(), e.eof), ("s", "hello\r\n", false));
    assert!(matches!(w.step(WorkerEvent::Emitted), WorkerAction::Observe));
    assert_eq!(w.phase(), Phase::Top);
}

#[test]
fn remote_eof_with_data_ends_the_session_after_the_data() {
    let mut w = reading("s");
    let e = emitted(w.step(read(b"bye", true)));
    assert_eq!((e.data.as_str(), e.eof), ("bye", true));
    assert!(matches!(w.step(WorkerEvent::Emitted), WorkerAction::Unregister));
    tear_down(&mut w, "s");
}

#[test]
fn an_idle_worker_sleeps_then_checks_for_eof() {
    let mut w = reading("s");
    assert!(matches!(w.step(idle(false)), WorkerAction::Sleep { ms: 10 }));
    assert!(matches!(w.step(WorkerEvent::Slept), WorkerAction::Observe));
    let mut w = reading("s");
    assert!(matches!(w.step(idle(true)), WorkerAction::Sleep { ms: 10 }));
    assert!(matches!(w.step(WorkerEvent::Slept), WorkerAction::Unregister));
    tear_down(&mut w, "s");
    let mut w = reading("s");
    assert!(matches!(w.step(read(b"", false)), WorkerAction::Sleep { ms: 10 }));
}

#[test]
fn a_worker_that_served_a_command_does_not_sleep() {
    let (mut w, _) = Worker::start("s".to_string(), 0);
    assert!(matches!(w.step(observed(false, 1)), WorkerAction::Poll));
    let write = w.step(WorkerEvent::Polled(Some(SshInput::Data("ls\n".to_string()))));
    assert!(matches!(write, WorkerAction::Write(d) if d == "ls\n"));
    assert!(matches!(w.step(WorkerEvent::Written { ok: true }), WorkerAction::Poll));
    let resize = w.step(WorkerEvent::Polled(Some(SshInput::Resize { cols: 100, rows: 30 })));
    assert!(matches!(resize, WorkerAction::Resize { cols: 100, rows: 30 }));
    assert!(matches!(w.step(WorkerEvent::Resized), WorkerAction::Poll));
    assert!(matches!(w.step(WorkerEvent::Polled(None)), WorkerAction::Observe));
    assert!(matches!(w.step(observed(false, 2)), WorkerAction::Read));
    assert!(matches!(w.step(idle(false)), WorkerAction::Observe));
    assert_eq!(w.phase(), Phase::Top);
}

#[test]
fn a_failed_write_or_read_is_fatal() {
    let (mut w, _) = Worker::start("s".to_string(), 0);
    w.step(observed(false, 1));
    w.step(WorkerEvent::Polled(Some(SshInput::Data("x".to_string()))));
    assert!(matches!(w.step(WorkerEvent::Written { ok: false }), WorkerAction::Unregister));
    tear_down(&mut w, "s");
    let mut w = reading("t");
    let failed = WorkerEvent::Read { outcome: ReadOutcome::Failed, eof: false };
    assert!(matches!(w.step(failed), WorkerAction::Unregister));
    tear_down(&mut w, "t");
}

#[test]
fn the_stop_flag_ends_the_session() {
    let (mut w, _) = Worker::start("s".to_string(), 0);
    assert!(matches!(w.step(observed(true, 1)), WorkerAction::Unregister));
    tear_down(&mut w, "s");
    let (mut w, _) = Worker::start("s".to_string(), 0);
    w.step(observed(false, 1));
    assert!(matches!(w.step(WorkerEvent::Polled(None)), WorkerAction::Observe));
    assert!(matches!(w.step(observed(true, 2)), WorkerAction::Unregister));
    let (mut w, _) = Worker::start("s".to_string(), 0);
    w.step(observed(false, 1));
    assert!(matches!(w.step(WorkerEvent::Polled(Some(SshInput::Disconnect))), WorkerAction::RaiseStop));
    assert!(matches!(w.step(WorkerEvent::StopRaised), WorkerAction::Unregister));
    tear_down(&mut w, "s");
}

#[test]
fn keepalives_go_out_every_thirty_seconds() {
    let (mut w, _) = Worker::start("s".to_string(), 1_000);
    assert!(matches!(w.step(observed(false, 30_999)), WorkerAction::Poll));
    w.step(WorkerEvent::Polled(None));
    w.step(observed(false, 30_999));
    w.step(idle(false));
    assert!(matches!(w.step(WorkerEvent::Slept), WorkerAction::Observe));
    assert!(matches!(w.step(observed(false, 31_000)), WorkerAction::SendKeepalive));
    assert_eq!(w.phase(), Phase::Keepalive);
    assert!(matches!(w.step(WorkerEvent::KeepaliveSent { now_ms: 31_050 }), WorkerAction::Poll));
    w.step(WorkerEvent::Polled(None));
    w.step(observed(false, 31_060));
    w.step(idle(false));
    w.step(WorkerEvent::Slept);
    assert!(matches!(w.step(observed(false, 61_049)), WorkerAction::Poll));
    let (mut w, _) = Worker::start("s".to_string(), 5_000);
    assert!(matches!(w.step(observed(false, 0)), WorkerAction::Poll));
}

#[test]
fn at_most_fifty_commands_are_served_between_two_reads() {
    let (mut w, _) = Worker::start("s".to_string(), 0);
    assert!(matches!(w.step(observed(false, 1)), WorkerAction::Poll));
    for served in 1..=50 {
        let a = w.step(WorkerEvent::Polled(Some(SshInput::Data("x".to_string()))));
        assert!(matches!(a, WorkerAction::Write(_)));
        let next = w.step(WorkerEvent::Written { ok: true });
        if served < 50 {
            assert!(matches!(next, WorkerAction::Poll), "after {} commands", served);
        } else {
            assert!(matches!(next, WorkerAction::Observe));
        }
    }
    assert_eq!(w.phase(), Phase::Recheck);
    assert!(matches!(w.step(observed(false, 2)), WorkerAction::Read));
    assert!(matches!(w.step(idle(false)), WorkerAction::Observe));
    assert!(matches!(w.step(observed(false, 3)), WorkerAction::Poll));
    assert!(matches!(w.step(WorkerEvent::Polled(None)), WorkerAction::Observe));
    assert!(matches!(w.step(observed(false, 4)), WorkerAction::Read));
    assert!(matches!(w.step(idle(false)), WorkerAction::Sleep { ms: 10 }));
}

#[test]
fn an_event_out_of_turn_ends_the_session() {
    let (mut w, _) = Worker::start("s".to_string(), 0);
    assert!(matches!(w.step(WorkerEvent::Emitted), WorkerAction::Unregister));
    let mut w = reading("s");
    assert!(matches!(w.step(WorkerEvent::Polled(None)), WorkerAction::Unregister));
    assert!(matches!(w.step(read(b"late", false)), WorkerAction::Close));
    let last = emitted(w.step(read(b"late", false)));
    assert_eq!((last.data.as_str(), last.eof), ("", true));
    assert!(matches!(w.step(read(b"late", false)), WorkerAction::Exit));
}

#[test]
fn utf8_split_across_two_reads_is_replaced() {
    let whole = "caf\u{e9}".as_bytes();
    assert_eq!(whole, &[0x63, 0x61, 0x66, 0xc3, 0xa9]);
    let mut w = reading("s");
    let first = emitted(w.step(read(&whole[..4], false)));
    assert_eq!(first.data, "caf\u{fffd}");
    w.step(WorkerEvent::Emitted);
    w.step(observed(false, 3));
    w.step(WorkerEvent::Polled(None));
    w.step(observed(false, 4));
    let second = emitted(w.step(read(&whole[4..], false)));
    assert_eq!(second.data, "\u{fffd}");
    let mut w = reading("s");
    assert_eq!(emitted(w.step(read(whole, false))).data, "caf\u{e9}");
}

#[test]
fn disconnect_races_input() {
    let mut st = AppState::new(Storage::in_memory(), "k".to_string());
    let (input_tx, mut rx) = unbounded_channel::<SshInput>();
    let stop = Arc::new(AtomicBool::new(false));
    let id = "550e8400-e29b-41d4-a716-446655440000";
    let value: u128 = 0x550e8400e29b41d4a716446655440000;
    register_session(&mut st, "srv".to_string(), value, ActiveSession { input_tx, stop_flag: stop.clone() })
        .unwrap();
    let (mut worker, mut action) = Worker::start(id.to_string(), 0);

    let mut written = 0;
    let mut finals = 0;
    let mut events_after_final = 0;
    let mut steps = 0;
    let mut queued = 0;
    let mut disconnected = false;
    loop {
        steps += 1;
        assert!(steps < 10_000);
        if queued < 1000 {
            for _ in 0..100 {
                send_ssh_input(&st, id.to_string(), "x".to_string()).unwrap();
                queued += 1;
            }
        } else if !disconnected {
            disconnect_ssh(&mut st, id.to_string()).unwrap();
            disconnected = true;
        }
        let event = match action {
            WorkerAction::Observe => observed(stop.load(Ordering::Relaxed), steps),
            WorkerAction::SendKeepalive => WorkerEvent::KeepaliveSent { now_ms: steps },
            WorkerAction::Poll => WorkerEvent::Polled(rx.try_recv().ok()),
            WorkerAction::Write(d) => {
                assert_eq!(d, "x");
                written += 1;
                WorkerEvent::Written { ok: true }
            }
            WorkerAction::Resize { .. } => WorkerEvent::Resized,
            WorkerAction::RaiseStop => {
                stop.store(true, Ordering::Relaxed);
                WorkerEvent::StopRaised
            }
            WorkerAction::Read => idle(false),
            WorkerAction::Emit(e) => {
                if finals > 0 {
                    events_after_final += 1;
                }
                if e.eof && e.data.is_empty() {
                    finals += 1;
                }
                assert_eq!(e.session_id, id);
                WorkerEvent::Emitted
            }
            WorkerAction::Sleep { .. } => WorkerEvent::Slept,
            WorkerAction::Unregister => {
                st.remove_session(value);
                WorkerEvent::Unregistered
            }
            WorkerAction::Close => WorkerEvent::Closed,
            WorkerAction::Exit => break,
        };
        action = worker.step(event);
    }
    assert!(worker.is_done());
    assert!(disconnected);
    assert_eq!(finals, 1);
    assert_eq!(events_after_final, 0);
    assert!(written <= 1000);
    let e = send_ssh_input(&st, id.to_string(), "x".to_string()).unwrap_err();
    assert_eq!(e.code.as_deref(), Some("NOT_FOUND"));
}

#[test]
fn reads_are_told_apart() {
    assert!(matches!(read_outcome(Ok(vec![1, 2])), ReadOutcome::Data(b) if b == vec![1, 2]));
    assert!(matches!(read_outcome(Ok(Vec::new())), ReadOutcome::Idle));
    assert!(matches!(read_outcome(Err(ReadFault::TimedOut)), ReadOutcome::Idle));
    assert!(matches!(read_outcome(Err(ReadFault::Broken)), ReadOutcome::Failed));
}
