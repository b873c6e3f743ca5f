//! The worker of a session, as a machine. The worker owns the channel of its
//! session: it serves the commands queued for it, streams what the remote
//! side prints, keeps the transport alive and tears the session down. What
//! touches the channel, the queue, the clock or the front-end is done by the
//! caller; this module decides what is done next. The caller starts a worker,
//! performs the action it is handed, reports what came of it as an event and
//! is handed the next action, until the action is `Exit`.

use crate::commands::{OutputView, SshOutputEvent};
use crate::state::{InputView, SshInput};
use crate::text::{string_from_utf8_lossy, utf8_lossy};
use vstd::prelude::*;
use vstd::string::*;

verus! {

/// The transport is kept alive once this many milliseconds have passed since
/// the last keepalive.
pub const KEEPALIVE_INTERVAL_MS: u64 = 30000;

/// At most this many commands are served between two reads, so that a flood
/// of input cannot starve the output.
pub const DRAIN_LIMIT: u32 = 50;

/// How long an idle worker sleeps, in milliseconds.
pub const IDLE_SLEEP_MS: u64 = 10;

/// The bound of one blocking read, in milliseconds.
pub const READ_TIMEOUT_MS: u32 = 100;

/// The size of the buffer of one read, in bytes.
pub const READ_BUFFER_SIZE: usize = 8192;

/// What a read of the channel gave.
#[derive(Debug)]
pub enum ReadOutcome {
    /// Bytes that the remote side printed.
    Data(Vec<u8>),
    /// Nothing within the bound of the read.
    Idle,
    /// The read failed.
    Failed,
}

/// The mathematical value of a `ReadOutcome`.
pub enum ReadView {
    Data(Seq<u8>),
    Idle,
    Failed,
}

impl View for ReadOutcome {
    type V = ReadView;

    open spec fn view(&self) -> ReadView {
        match self {
            ReadOutcome::Data(b) => ReadView::Data(b@),
            ReadOutcome::Idle => ReadView::Idle,
            ReadOutcome::Failed => ReadView::Failed,
        }
    }
}

/// Why a read of the channel gave no bytes.
#[derive(Debug, Clone, Copy, PartialEq, Eq, Structural)]
pub enum ReadFault {
    /// Nothing came within the bound of the read.
    TimedOut,
    /// The read failed.
    Broken,
}

/// What a read of the channel counts as: bytes are data; no bytes, or none
/// within the bound of the read, is an idle read; every other failure is
/// fatal.
pub open spec fn outcome_of(read: Result<Seq<u8>, ReadFault>) -> ReadView {
    match read {
        Ok(bytes) => if bytes.len() == 0 {
            ReadView::Idle
        } else {
            ReadView::Data(bytes)
        },
        Err(ReadFault::TimedOut) => ReadView::Idle,
        Err(ReadFault::Broken) => ReadView::Failed,
    }
}

/// What a read of the channel counts as.
pub fn read_outcome(read: Result<Vec<u8>, ReadFault>) -> (r: ReadOutcome)
    ensures
        r@ == outcome_of(
            match read {
                Ok(bytes) => Ok(bytes@),
                Err(f) => Err(f),
            },
        ),
{
    match read {
        Ok(bytes) => {
            if bytes.len() == 0 {
                ReadOutcome::Idle
            } else {
                ReadOutcome::Data(bytes)
            }
        },
        Err(ReadFault::TimedOut) => ReadOutcome::Idle,
        Err(ReadFault::Broken) => ReadOutcome::Failed,
    }
}

/// What came of the action that the worker was handed last.
#[derive(Debug)]
pub enum WorkerEvent {
    /// The stop flag and the clock were read. The clock counts milliseconds
    /// and never runs backwards.
    Observed { stop: bool, now_ms: u64 },
    /// A keepalive was sent, or failed to be; the clock was read after it.
    KeepaliveSent { now_ms: u64 },
    /// The queue was polled; `None` where it held nothing.
    Polled(Option<SshInput>),
    /// Keystrokes were written and flushed, or either failed.
    Written { ok: bool },
    /// The terminal was resized, or failed to be.
    Resized,
    /// The stop flag was raised.
    StopRaised,
    /// The channel was read and then asked whether the remote side is done.
    Read { outcome: ReadOutcome, eof: bool },
    /// The event went out to the front-end.
    Emitted,
    /// The sleep is over.
    Slept,
    /// The session is out of the registry.
    Unregistered,
    /// The channel is closed, or failed to be.
    Closed,
}

/// The mathematical value of a `WorkerEvent`.
pub enum EventView {
    Observed { stop: bool, now_ms: u64 },
    KeepaliveSent { now_ms: u64 },
    Polled(Option<InputView>),
    Written { ok: bool },
    Resized,
    StopRaised,
    Read { outcome: ReadView, eof: bool },
    Emitted,
    Slept,
    Unregistered,
    Closed,
}

impl View for WorkerEvent {
    type V = EventView;

    open spec fn view(&self) -> EventView {
        match self {
            WorkerEvent::Observed { stop, now_ms } => EventView::Observed {
                stop: *stop,
                now_ms: *now_ms,
            },
            WorkerEvent::KeepaliveSent { now_ms } => EventView::KeepaliveSent { now_ms: *now_ms },
            WorkerEvent::Polled(i) => EventView::Polled(
                match i {
                    Some(x) => Some(x@),
                    None => None,
                },
            ),
            WorkerEvent::Written { ok } => EventView::Written { ok: *ok },
            WorkerEvent::Resized => EventView::Resized,
            WorkerEvent::StopRaised => EventView::StopRaised,
            WorkerEvent::Read { outcome, eof } => EventView::Read { outcome: outcome@, eof: *eof },
            WorkerEvent::Emitted => EventView::Emitted,
            WorkerEvent::Slept => EventView::Slept,
            WorkerEvent::Unregistered => EventView::Unregistered,
            WorkerEvent::Closed => EventView::Closed,
        }
    }
}

/// What the caller is to do next.
#[derive(Debug)]
pub enum WorkerAction {
    /// Read the stop flag and the clock.
    Observe,
    /// Send a keepalive; a failure is logged and ignored.
    SendKeepalive,
    /// Poll the queue, without waiting.
    Poll,
    /// Write the keystrokes to the channel, all of them, and flush.
    Write(String),
    /// Resize the terminal; a failure is logged and ignored.
    Resize { cols: u32, rows: u32 },
    /// Raise the stop flag.
    RaiseStop,
    /// Read the channel once, within the bound of the read, then ask it
    /// whether the remote side is done.
    Read,
    /// Send the event to the front-end.
    Emit(SshOutputEvent),
    /// Sleep.
    Sleep { ms: u64 },
    /// Take the session out of the registry.
    Unregister,
    /// Close the channel; a failure is ignored.
    Close,
    /// Leave: the session is over.
    Exit,
}

/// The mathematical value of a `WorkerAction`.
pub enum ActionView {
    Observe,
    SendKeepalive,
    Poll,
    Write(Seq<char>),
    Resize { cols: u32, rows: u32 },
    RaiseStop,
    Read,
    Emit(OutputView),
    Sleep { ms: u64 },
    Unregister,
    Close,
    Exit,
}

impl View for WorkerAction {
    type V = ActionView;

    open spec fn view(&self) -> ActionView {
        match self {
            WorkerAction::Observe => ActionView::Observe,
            WorkerAction::SendKeepalive => ActionView::SendKeepalive,
            WorkerAction::Poll => ActionView::Poll,
            WorkerAction::Write(d) => ActionView::Write(d@),
            WorkerAction::Resize { cols, rows } => ActionView::Resize { cols: *cols, rows: *rows },
            WorkerAction::RaiseStop => ActionView::RaiseStop,
            WorkerAction::Read => ActionView::Read,
            WorkerAction::Emit(e) => ActionView::Emit(e@),
            WorkerAction::Sleep { ms } => ActionView::Sleep { ms: *ms },
            WorkerAction::Unregister => ActionView::Unregister,
            WorkerAction::Close => ActionView::Close,
            WorkerAction::Exit => ActionView::Exit,
        }
    }
}

/// Where the worker stands: which event it waits for.
#[derive(Debug, Clone, Copy, PartialEq, Eq, Structural)]
pub enum Phase {
    /// At the top of a round, waiting for the stop flag and the clock.
    Top,
    /// Waiting for the keepalive.
    Keepalive,
    /// Serving commands, waiting for the next one.
    Drain,
    /// Waiting for keystrokes to be written.
    Writing,
    /// Waiting for the terminal to be resized.
    Resizing,
    /// Waiting for the stop flag to be raised.
    Stopping,
    /// Done with commands, waiting for the stop flag.
    Recheck,
    /// Waiting for the read.
    Reading,
    /// Waiting for output to go out; `last` where the remote side is done.
    Emitting { last: bool },
    /// Waiting for the sleep to end; `last` where the remote side is done.
    Sleeping { last: bool },
    /// Tearing down: waiting for the registry.
    Unregistering,
    /// Tearing down: waiting for the channel to close.
    Closing,
    /// Tearing down: waiting for the final event to go out.
    Finishing,
    /// Over.
    Done,
}

/// The mathematical value of a `Worker`.
pub struct WorkerModel {
    pub session_id: Seq<char>,
    pub phase: Phase,
    /// The commands served in this round.
    pub drained: u32,
    /// When the last keepalive was sent.
    pub last_keepalive_ms: u64,
}

/// The final event of a session.
pub open spec fn final_output(session_id: Seq<char>) -> OutputView {
    OutputView { session_id, data: Seq::empty(), eof: true }
}

impl WorkerModel {
    /// A worker that starts at time `now_ms`, and the first action.
    pub open spec fn start(session_id: Seq<char>, now_ms: u64) -> (WorkerModel, ActionView) {
        (
            WorkerModel { session_id, phase: Phase::Top, drained: 0, last_keepalive_ms: now_ms },
            ActionView::Observe,
        )
    }

    /// Teardown begins: the session leaves the registry first.
    pub open spec fn teardown(self) -> (WorkerModel, ActionView) {
        (WorkerModel { phase: Phase::Unregistering, ..self }, ActionView::Unregister)
    }

    /// A new round begins.
    pub open spec fn next_round(self) -> (WorkerModel, ActionView) {
        (WorkerModel { phase: Phase::Top, ..self }, ActionView::Observe)
    }

    /// Commands are served from now on, none so far.
    pub open spec fn begin_drain(self) -> (WorkerModel, ActionView) {
        (WorkerModel { phase: Phase::Drain, drained: 0, ..self }, ActionView::Poll)
    }

    /// Whether a keepalive is due at time `now_ms`.
    pub open spec fn keepalive_due(self, now_ms: u64) -> bool {
        now_ms >= self.last_keepalive_ms && now_ms - self.last_keepalive_ms
            >= KEEPALIVE_INTERVAL_MS
    }

    /// One more command is served. At the limit the worker turns to the
    /// channel; below it, to the next command.
    pub open spec fn served(self) -> (WorkerModel, ActionView) {
        let drained: u32 = if self.drained < DRAIN_LIMIT {
            (self.drained + 1) as u32
        } else {
            DRAIN_LIMIT
        };
        if drained >= DRAIN_LIMIT {
            (WorkerModel { phase: Phase::Recheck, drained, ..self }, ActionView::Observe)
        } else {
            (WorkerModel { phase: Phase::Drain, drained, ..self }, ActionView::Poll)
        }
    }

    /// The round ends after a read; the session ends with it where the
    /// remote side is done.
    pub open spec fn end_round(self, last: bool) -> (WorkerModel, ActionView) {
        if last {
            self.teardown()
        } else {
            self.next_round()
        }
    }

    /// Nothing was read. A worker that served no command in this round
    /// sleeps, to bound the load of an idle session.
    pub open spec fn idle(self, eof: bool) -> (WorkerModel, ActionView) {
        if self.drained == 0 {
            (
                WorkerModel { phase: Phase::Sleeping { last: eof }, ..self },
                ActionView::Sleep { ms: IDLE_SLEEP_MS },
            )
        } else {
            self.end_round(eof)
        }
    }

    /// The worker after `event`, and the next action. An event that the
    /// worker does not wait for ends the session. Teardown goes through its
    /// steps whatever the events are. What was read goes out as text: bytes
    /// that are no UTF-8 are replaced by U+FFFD, also where a read has split
    /// a character in two.
    pub open spec fn step(self, event: EventView) -> (WorkerModel, ActionView) {
        match self.phase {
            Phase::Top => match event {
                EventView::Observed { stop, now_ms } => if stop {
                    self.teardown()
                } else if self.keepalive_due(now_ms) {
                    (WorkerModel { phase: Phase::Keepalive, ..self }, ActionView::SendKeepalive)
                } else {
                    self.begin_drain()
                },
                _ => self.teardown(),
            },
            Phase::Keepalive => match event {
                EventView::KeepaliveSent { now_ms } => (WorkerModel {
                    last_keepalive_ms: now_ms,
                    ..self
                }).begin_drain(),
                _ => self.teardown(),
            },
            Phase::Drain => match event {
                EventView::Polled(None) => (
                    WorkerModel { phase: Phase::Recheck, ..self },
                    ActionView::Observe,
                ),
                EventView::Polled(Some(InputView::Data(d))) => (
                    WorkerModel { phase: Phase::Writing, ..self },
                    ActionView::Write(d),
                ),
                EventView::Polled(Some(InputView::Resize { cols, rows })) => (
                    WorkerModel { phase: Phase::Resizing, ..self },
                    ActionView::Resize { cols, rows },
                ),
                EventView::Polled(Some(InputView::Disconnect)) => (
                    WorkerModel { phase: Phase::Stopping, ..self },
                    ActionView::RaiseStop,
                ),
                _ => self.teardown(),
            },
            Phase::Writing => match event {
                EventView::Written { ok } => if ok {
                    self.served()
                } else {
                    self.teardown()
                },
                _ => self.teardown(),
            },
            Phase::Resizing => match event {
                EventView::Resized => self.served(),
                _ => self.teardown(),
            },
            Phase::Stopping => self.teardown(),
            Phase::Recheck => match event {
                EventView::Observed { stop, now_ms } => if stop {
                    self.teardown()
                } else {
                    (WorkerModel { phase: Phase::Reading, ..self }, ActionView::Read)
                },
                _ => self.teardown(),
            },
            Phase::Reading => match event {
                EventView::Read { outcome: ReadView::Data(bytes), eof } => if bytes.len() == 0 {
                    self.idle(eof)
                } else if utf8_lossy(bytes).len() == 0 {
                    self.end_round(eof)
                } else {
                    (
                        WorkerModel { phase: Phase::Emitting { last: eof }, ..self },
                        ActionView::Emit(
                            OutputView {
                                session_id: self.session_id,
                                data: utf8_lossy(bytes),
                                eof,
                            },
                        ),
                    )
                },
                EventView::Read { outcome: ReadView::Idle, eof } => self.idle(eof),
                _ => self.teardown(),
            },
            Phase::Emitting { last } => match event {
                EventView::Emitted => self.end_round(last),
                _ => self.teardown(),
            },
            Phase::Sleeping { last } => match event {
                EventView::Slept => self.end_round(last),
                _ => self.teardown(),
            },
            Phase::Unregistering => (
                WorkerModel { phase: Phase::Closing, ..self },
                ActionView::Close,
            ),
            Phase::Closing => (
                WorkerModel { phase: Phase::Finishing, ..self },
                ActionView::Emit(final_output(self.session_id)),
            ),
            Phase::Finishing => (WorkerModel { phase: Phase::Done, ..self }, ActionView::Exit),
            Phase::Done => (self, ActionView::Exit),
        }
    }

    /// The worker after a run of events, and the actions it handed out on
    /// the way.
    pub open spec fn run(self, events: Seq<EventView>) -> (WorkerModel, Seq<ActionView>)
        decreases events.len(),
    {
        if events.len() == 0 {
            (self, Seq::empty())
        } else {
            let before = self.run(events.drop_last());
            let next = before.0.step(events.last());
            (next.0, before.1.push(next.1))
        }
    }
}

/// The events that went out to the front-end among `actions`, in order.
pub open spec fn outputs(actions: Seq<ActionView>) -> Seq<OutputView>
    decreases actions.len(),
{
    if actions.len() == 0 {
        Seq::empty()
    } else {
        match actions.last() {
            ActionView::Emit(e) => outputs(actions.drop_last()).push(e),
            _ => outputs(actions.drop_last()),
        }
    }
}

/// Output that is not final: it carries data, and only the last event may
/// say that the remote side is done.
pub open spec fn streams(out: Seq<OutputView>, session_id: Seq<char>) -> bool {
    forall|i: int|
        0 <= i < out.len() ==> (#[trigger] out[i]).session_id == session_id && out[i].data.len()
            > 0 && (out[i].eof ==> i == out.len() - 1)
}

/// Output that has not said that the remote side is done.
pub open spec fn streams_on(out: Seq<OutputView>, session_id: Seq<char>) -> bool {
    forall|i: int|
        0 <= i < out.len() ==> (#[trigger] out[i]).session_id == session_id && out[i].data.len()
            > 0 && !out[i].eof
}

/// The output of a session that is over: the final event is there, once and
/// last; before it only the last event may say that the remote side is done.
pub open spec fn closed_stream(out: Seq<OutputView>, session_id: Seq<char>) -> bool {
    out.len() > 0 && out.last() == final_output(session_id) && streams(out.drop_last(), session_id)
}

/// What holds of the output of a session at every moment: every event is the
/// session's; an event without data is the final one, says that the remote
/// side is done and is the last; an event with data that says so is the last
/// with data.
pub open spec fn output_ok(out: Seq<OutputView>, session_id: Seq<char>) -> bool {
    forall|i: int|
        0 <= i < out.len() ==> {
            &&& (#[trigger] out[i]).session_id == session_id
            &&& out[i].data.len() == 0 ==> out[i].eof && i == out.len() - 1
            &&& out[i].eof ==> i == out.len() - 1 || (i == out.len() - 2 && out.last().data.len()
                == 0)
        }
}

/// What the output so far has to be for a worker in a given phase.
pub open spec fn output_fits(w: WorkerModel, out: Seq<OutputView>) -> bool {
    match w.phase {
        Phase::Emitting { last } => streams(out, w.session_id) && out.len() > 0 && out.last().eof
            == last,
        Phase::Unregistering | Phase::Closing => streams(out, w.session_id),
        Phase::Finishing | Phase::Done => closed_stream(out, w.session_id),
        _ => streams_on(out, w.session_id),
    }
}

impl WorkerModel {
    /// A step keeps the output in the shape that the phase asks for.
    pub proof fn lemma_step_output(self, event: EventView, actions: Seq<ActionView>)
        requires
            output_fits(self, outputs(actions)),
        ensures
            output_fits(self.step(event).0, outputs(actions.push(self.step(event).1))),
            self.step(event).0.session_id == self.session_id,
    {
        let next = self.step(event);
        let after = actions.push(next.1);
        let out = outputs(actions);
        assert(after.drop_last() =~= actions);
        assert(after.last() == next.1);
        match next.1 {
            ActionView::Emit(e) => {
                let out2 = out.push(e);
                assert(outputs(after) == out2);
                assert(out2.drop_last() =~= out);
                if self.phase is Closing {
                    assert(closed_stream(out2, self.session_id));
                } else {
                    assert(self.phase is Reading);
                    assert forall|i: int| 0 <= i < out2.len() implies (#[trigger] out2[i]).session_id
                        == self.session_id && out2[i].data.len() > 0 && (out2[i].eof ==> i
                        == out2.len() - 1) by {
                        if i < out.len() {
                            assert(out2[i] == out[i]);
                        }
                    }
                }
            },
            _ => {
                assert(outputs(after) == out);
                match self.phase {
                    Phase::Emitting { last } => {
                        if !last {
                            assert forall|i: int| 0 <= i < out.len() implies (
                            #[trigger] out[i]).session_id == self.session_id && out[i].data.len()
                                > 0 && !out[i].eof by {}
                        }
                    },
                    _ => {},
                }
            },
        }
    }

    /// Whatever the events are, the output of a session is in order: at most
    /// one final event, nothing after it, and before it at most one event
    /// that says that the remote side is done, the last with data. A worker
    /// that is over has sent the final event.
    pub proof fn lemma_output_in_order(session_id: Seq<char>, now_ms: u64, events: Seq<EventView>)
        ensures
            output_ok(
                outputs(WorkerModel::start(session_id, now_ms).0.run(events).1),
                session_id,
            ),
            output_fits(
                WorkerModel::start(session_id, now_ms).0.run(events).0,
                outputs(WorkerModel::start(session_id, now_ms).0.run(events).1),
            ),
            WorkerModel::start(session_id, now_ms).0.run(events).0.session_id == session_id,
            WorkerModel::start(session_id, now_ms).0.run(events).0.phase is Done ==> closed_stream(
                outputs(WorkerModel::start(session_id, now_ms).0.run(events).1),
                session_id,
            ),
        decreases events.len(),
    {
        let w0 = WorkerModel::start(session_id, now_ms).0;
        if events.len() > 0 {
            WorkerModel::lemma_output_in_order(session_id, now_ms, events.drop_last());
            let before = w0.run(events.drop_last());
            before.0.lemma_step_output(events.last(), before.1);
        }
        let end = w0.run(events);
        let out = outputs(end.1);
        assert(output_fits(end.0, out));
        assert forall|i: int| 0 <= i < out.len() implies {
            &&& (#[trigger] out[i]).session_id == session_id
            &&& out[i].data.len() == 0 ==> out[i].eof && i == out.len() - 1
            &&& out[i].eof ==> i == out.len() - 1 || (i == out.len() - 2 && out.last().data.len()
                == 0)
        } by {
            if end.0.phase is Finishing || end.0.phase is Done {
                if i < out.len() - 1 {
                    assert(out.drop_last()[i] == out[i]);
                }
            }
        }
    }

    /// Teardown goes in order, whatever the events are: the session leaves
    /// the registry, the channel is closed, the final event goes out, the
    /// worker leaves; after that it only leaves.
    pub proof fn lemma_teardown_in_order(
        self,
        e1: EventView,
        e2: EventView,
        e3: EventView,
        e4: EventView,
    )
        requires
            self.phase is Unregistering,
        ensures
            self.run(seq![e1, e2, e3, e4]).1 == seq![
                ActionView::Close,
                ActionView::Emit(final_output(self.session_id)),
                ActionView::Exit,
                ActionView::Exit,
            ],
            self.run(seq![e1, e2, e3, e4]).0.phase is Done,
    {
        let s4 = seq![e1, e2, e3, e4];
        let s3 = seq![e1, e2, e3];
        let s2 = seq![e1, e2];
        let s1 = seq![e1];
        assert(s4.drop_last() =~= s3);
        assert(s3.drop_last() =~= s2);
        assert(s2.drop_last() =~= s1);
        assert(s1.drop_last() =~= Seq::<EventView>::empty());
        assert(self.run(Seq::empty()) == (self, Seq::<ActionView>::empty()));
        assert(self.run(s1).1 =~= seq![ActionView::Close]);
        assert(self.run(s2).1 =~= seq![
            ActionView::Close,
            ActionView::Emit(final_output(self.session_id)),
        ]);
        assert(self.run(s3).1 =~= seq![
            ActionView::Close,
            ActionView::Emit(final_output(self.session_id)),
            ActionView::Exit,
        ]);
        assert(self.run(s4).1 =~= seq![
            ActionView::Close,
            ActionView::Emit(final_output(self.session_id)),
            ActionView::Exit,
            ActionView::Exit,
        ]);
    }

    /// Between two reads the worker serves no more commands than the limit.
    pub proof fn lemma_drain_is_bounded(self, event: EventView)
        requires
            self.drained <= DRAIN_LIMIT,
            self.phase is Drain || self.phase is Writing || self.phase is Resizing ==> self.drained
                < DRAIN_LIMIT,
        ensures
            self.step(event).0.drained <= DRAIN_LIMIT,
            self.step(event).0.phase is Drain || self.step(event).0.phase is Writing || self.step(
                event,
            ).0.phase is Resizing ==> self.step(event).0.drained < DRAIN_LIMIT,
    {
    }
}

/// The worker of one session.
#[derive(Debug)]
pub struct Worker {
    session_id: String,
    phase: Phase,
    drained: u32,
    last_keepalive_ms: u64,
}

impl View for Worker {
    type V = WorkerModel;

    closed spec fn view(&self) -> WorkerModel {
        WorkerModel {
            session_id: self.session_id@,
            phase: self.phase,
            drained: self.drained,
            last_keepalive_ms: self.last_keepalive_ms,
        }
    }
}

impl Worker {
    /// A worker for the session `session_id` that starts at time `now_ms`,
    /// and its first action.
    pub fn start(session_id: String, now_ms: u64) -> (r: (Worker, WorkerAction))
        ensures
            (r.0@, r.1@) == WorkerModel::start(session_id@, now_ms),
    {
        (
            Worker { session_id, phase: Phase::Top, drained: 0, last_keepalive_ms: now_ms },
            WorkerAction::Observe,
        )
    }

    /// Where the worker stands.
    pub fn phase(&self) -> (r: Phase)
        ensures
            r == self@.phase,
    {
        self.phase
    }

    /// Whether the session is over.
    pub fn is_done(&self) -> (r: bool)
        ensures
            r == (self@.phase is Done),
    {
        match self.phase {
            Phase::Done => true,
            _ => false,
        }
    }

    fn teardown(&mut self) -> (r: WorkerAction)
        ensures
            (final(self)@, r@) == old(self)@.teardown(),
    {
        self.phase = Phase::Unregistering;
        WorkerAction::Unregister
    }

    fn end_round(&mut self, last: bool) -> (r: WorkerAction)
        ensures
            (final(self)@, r@) == old(self)@.end_round(last),
    {
        if last {
            self.teardown()
        } else {
            self.phase = Phase::Top;
            WorkerAction::Observe
        }
    }

    fn served(&mut self) -> (r: WorkerAction)
        ensures
            (final(self)@, r@) == old(self)@.served(),
    {
        let drained: u32 = if self.drained < DRAIN_LIMIT {
            self.drained + 1
        } else {
            DRAIN_LIMIT
        };
        self.drained = drained;
        if drained >= DRAIN_LIMIT {
            self.phase = Phase::Recheck;
            WorkerAction::Observe
        } else {
            self.phase = Phase::Drain;
            WorkerAction::Poll
        }
    }

    fn idle(&mut self, eof: bool) -> (r: WorkerAction)
        ensures
            (final(self)@, r@) == old(self)@.idle(eof),
    {
        if self.drained == 0 {
            self.phase = Phase::Sleeping { last: eof };
            WorkerAction::Sleep { ms: IDLE_SLEEP_MS }
        } else {
            self.end_round(eof)
        }
    }

    /// Takes in what came of the last action and hands out the next one.
    pub fn step(&mut self, event: WorkerEvent) -> (r: WorkerAction)
        ensures
            (final(self)@, r@) == old(self)@.step(event@),
    {
        match self.phase {
            Phase::Top => match event {
                WorkerEvent::Observed { stop, now_ms } => {
                    if stop {
                        self.teardown()
                    } else if now_ms >= self.last_keepalive_ms && now_ms - self.last_keepalive_ms
                        >= KEEPALIVE_INTERVAL_MS {
                        self.phase = Phase::Keepalive;
                        WorkerAction::SendKeepalive
                    } else {
                        self.phase = Phase::Drain;
                        self.drained = 0;
                        WorkerAction::Poll
                    }
                },
                _ => self.teardown(),
            },
            Phase::Keepalive => match event {
                WorkerEvent::KeepaliveSent { now_ms } => {
                    self.last_keepalive_ms = now_ms;
                    self.phase = Phase::Drain;
                    self.drained = 0;
                    WorkerAction::Poll
                },
                _ => self.teardown(),
            },
            Phase::Drain => match event {
                WorkerEvent::Polled(None) => {
                    self.phase = Phase::Recheck;
                    WorkerAction::Observe
                },
                WorkerEvent::Polled(Some(SshInput::Data(d))) => {
                    self.phase = Phase::Writing;
                    WorkerAction::Write(d)
                },
                WorkerEvent::Polled(Some(SshInput::Resize { cols, rows })) => {
                    self.phase = Phase::Resizing;
                    WorkerAction::Resize { cols, rows }
                },
                WorkerEvent::Polled(Some(SshInput::Disconnect)) => {
                    self.phase = Phase::Stopping;
                    WorkerAction::RaiseStop
                },
                _ => self.teardown(),
            },
            Phase::Writing => match event {
                WorkerEvent::Written { ok } => {
                    if ok {
                        self.served()
                    } else {
                        self.teardown()
                    }
                },
                _ => self.teardown(),
            },
            Phase::Resizing => match event {
                WorkerEvent::Resized => self.served(),
                _ => self.teardown(),
            },
            Phase::Stopping => self.teardown(),
            Phase::Recheck => match event {
                WorkerEvent::Observed { stop, now_ms } => {
                    if stop {
                        self.teardown()
                    } else {
                        self.phase = Phase::Reading;
                        WorkerAction::Read
                    }
                },
                _ => self.teardown(),
            },
            Phase::Reading => match event {
                WorkerEvent::Read { outcome: ReadOutcome::Data(bytes), eof } => {
                    if bytes.len() == 0 {
                        self.idle(eof)
                    } else {
                        let data = string_from_utf8_lossy(bytes.as_slice());
                        if data.as_str().unicode_len() == 0 {
                            self.end_round(eof)
                        } else {
                            self.phase = Phase::Emitting { last: eof };
                            WorkerAction::Emit(
                                SshOutputEvent { session_id: self.session_id.clone(), data, eof },
                            )
                        }
                    }
                },
                WorkerEvent::Read { outcome: ReadOutcome::Idle, eof } => self.idle(eof),
                _ => self.teardown(),
            },
            Phase::Emitting { last } => match event {
                WorkerEvent::Emitted => self.end_round(last),
                _ => self.teardown(),
            },
            Phase::Sleeping { last } => match event {
                WorkerEvent::Slept => self.end_round(last),
                _ => self.teardown(),
            },
            Phase::Unregistering => {
                self.phase = Phase::Closing;
                WorkerAction::Close
            },
            Phase::Closing => {
                self.phase = Phase::Finishing;
                WorkerAction::Emit(
                    SshOutputEvent {
                        session_id: self.session_id.clone(),
                        data: String::new(),
                        eof: true,
                    },
                )
            },
            Phase::Finishing => {
                self.phase = Phase::Done;
                WorkerAction::Exit
            },
            Phase::Done => WorkerAction::Exit,
        }
    }
}

} // verus!
