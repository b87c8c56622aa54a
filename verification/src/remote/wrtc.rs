//! The life of one peer worker, from the accepted offer to its farewell.
//!
//! The worker itself owns the peer connection, the track and its
//! subscription to the encoded feed. Whatever happens to them reaches
//! [`PeerWorker::handle`] as an event, and the worker carries out the action
//! that comes back.
use crate::feed::manager::{FeedControlMessage, FeedResultMessage};
use bytes::Bytes;
use vstd::prelude::*;

verus! {

/// Where a worker stands.
#[derive(Debug, Clone, Copy, PartialEq, Eq, Structural)]
pub enum WorkerPhase {
    /// The session is being negotiated; the feed manager has not heard of
    /// this client yet.
    Connecting,
    /// The client has joined; samples are written as they arrive.
    Streaming {
        /// When the last sample was written, or when the client joined, in
        /// nanoseconds on the worker's clock.
        last_write: u64,
    },
    /// The client has left. Nothing more is sent or written.
    Finished,
}

/// What can happen to a worker.
pub enum WorkerEvent {
    /// The ICE connection state reached `Connected`.
    IceConnected { now: u64 },
    /// The feed delivered an encoded sample at time `now`.
    Feed { message: FeedResultMessage, now: u64 },
    /// The feed dropped samples that this worker was too slow to take.
    FeedLagged,
    /// The feed was closed.
    FeedClosed,
    /// A sample could not be written to the track.
    WriteFailed,
    /// The peer connection state reached `Failed`.
    PeerFailed,
    /// The process is shutting down.
    Shutdown,
}

/// What a worker does in answer to an event.
pub enum WorkerAction {
    /// Nothing.
    Idle,
    /// Tell the feed manager that the client has joined.
    Announce(FeedControlMessage),
    /// Write one sample to the track. `duration` is the time since the
    /// last write, in nanoseconds.
    WriteSample { data: Bytes, duration: u64 },
    /// Stop sending, tell the feed manager that the client has left, and
    /// tear the connection down.
    Depart(FeedControlMessage),
}

impl WorkerEvent {
    /// The events that end a worker.
    pub open spec fn is_exit(self) -> bool {
        self is FeedClosed || self is WriteFailed || self is PeerFailed || self is Shutdown
    }
}

/// Time from `earlier` to `later`; zero where the clock has not advanced.
pub open spec fn elapsed(earlier: u64, later: u64) -> u64 {
    if later >= earlier {
        (later - earlier) as u64
    } else {
        0
    }
}

/// The phase that follows `phase` on `event`.
pub open spec fn next_phase(phase: WorkerPhase, event: WorkerEvent) -> WorkerPhase {
    match phase {
        WorkerPhase::Finished => WorkerPhase::Finished,
        WorkerPhase::Connecting => match event {
            WorkerEvent::IceConnected { now } => WorkerPhase::Streaming { last_write: now },
            WorkerEvent::Feed { .. } | WorkerEvent::FeedLagged => WorkerPhase::Connecting,
            _ => WorkerPhase::Finished,
        },
        WorkerPhase::Streaming { last_write } => match event {
            WorkerEvent::IceConnected { .. } | WorkerEvent::FeedLagged => phase,
            WorkerEvent::Feed { now, .. } => WorkerPhase::Streaming { last_write: now },
            _ => WorkerPhase::Finished,
        },
    }
}

/// What the worker of client `id` does on `event` in `phase`.
pub open spec fn next_action(phase: WorkerPhase, id: String, event: WorkerEvent) -> WorkerAction {
    match phase {
        WorkerPhase::Finished => WorkerAction::Idle,
        WorkerPhase::Connecting => match event {
            WorkerEvent::IceConnected { .. } => WorkerAction::Announce(
                FeedControlMessage::ClientJoined { client_id: id },
            ),
            WorkerEvent::Feed { .. } | WorkerEvent::FeedLagged => WorkerAction::Idle,
            _ => WorkerAction::Depart(FeedControlMessage::ClientLeft { client_id: id }),
        },
        WorkerPhase::Streaming { last_write } => match event {
            WorkerEvent::IceConnected { .. } | WorkerEvent::FeedLagged => WorkerAction::Idle,
            WorkerEvent::Feed { message: FeedResultMessage::EncodedBitstream(data), now } => {
                WorkerAction::WriteSample { data, duration: elapsed(last_write, now) }
            },
            _ => WorkerAction::Depart(FeedControlMessage::ClientLeft { client_id: id }),
        },
    }
}

/// Characters of a client id that was drawn: 32 hexadecimal digits in five
/// groups, with a hyphen between one group and the next.
pub const CLIENT_ID_LENGTH: usize = 36;

/// `Uuid::new_v4`, in its text form: a random identifier. Which one it is
/// nobody can say; its text is always the hyphenated form, 36 characters long.
#[verifier::external_body]
fn fresh_client_id() -> (id: String)
    ensures
        id@.len() == CLIENT_ID_LENGTH,
{
    uuid::Uuid::new_v4().to_string()
}

/// One peer worker: the client's id and where the worker stands.
pub struct PeerWorker {
    client_id: String,
    phase: WorkerPhase,
}

impl PeerWorker {
    /// The client's id.
    pub closed spec fn id(&self) -> String {
        self.client_id
    }

    /// Where the worker stands.
    pub closed spec fn current(&self) -> WorkerPhase {
        self.phase
    }

    /// A worker for a new session, under a fresh id. Whatever id was drawn,
    /// the worker is the one that `with_client_id` makes of it.
    pub fn new() -> (worker: Self)
        ensures
            worker.current() == WorkerPhase::Connecting,
            worker.id()@.len() == CLIENT_ID_LENGTH,
    {
        Self::with_client_id(fresh_client_id())
    }

    /// A worker for a new session of the client `client_id`.
    pub fn with_client_id(client_id: String) -> (worker: Self)
        ensures
            worker.current() == WorkerPhase::Connecting,
            worker.id() == client_id,
    {
        Self { client_id, phase: WorkerPhase::Connecting }
    }

    pub fn client_id(&self) -> (id: &String)
        ensures
            *id == self.id(),
    {
        &self.client_id
    }

    pub fn phase(&self) -> (phase: WorkerPhase)
        ensures
            phase == self.current(),
    {
        self.phase
    }

    /// Takes one event and says what to do about it.
    pub fn handle(&mut self, event: WorkerEvent) -> (action: WorkerAction)
        ensures
            final(self).id() == old(self).id(),
            final(self).current() == next_phase(old(self).current(), event),
            action == next_action(old(self).current(), old(self).id(), event),
    {
        match self.phase {
            WorkerPhase::Finished => WorkerAction::Idle,
            WorkerPhase::Connecting => match event {
                WorkerEvent::IceConnected { now } => {
                    self.phase = WorkerPhase::Streaming { last_write: now };
                    WorkerAction::Announce(
                        FeedControlMessage::ClientJoined { client_id: self.client_id.clone() },
                    )
                },
                WorkerEvent::Feed { .. } | WorkerEvent::FeedLagged => WorkerAction::Idle,
                _ => {
                    self.phase = WorkerPhase::Finished;
                    WorkerAction::Depart(
                        FeedControlMessage::ClientLeft { client_id: self.client_id.clone() },
                    )
                },
            },
            WorkerPhase::Streaming { last_write } => match event {
                WorkerEvent::IceConnected { .. } | WorkerEvent::FeedLagged => WorkerAction::Idle,
                WorkerEvent::Feed { message, now } => {
                    self.phase = WorkerPhase::Streaming { last_write: now };
                    let duration = if now >= last_write {
                        now - last_write
                    } else {
                        0
                    };
                    match message {
                        FeedResultMessage::EncodedBitstream(data) => WorkerAction::WriteSample {
                            data,
                            duration,
                        },
                    }
                },
                _ => {
                    self.phase = WorkerPhase::Finished;
                    WorkerAction::Depart(
                        FeedControlMessage::ClientLeft { client_id: self.client_id.clone() },
                    )
                },
            },
        }
    }
}

/// The phase that a worker reaches from `start` by taking `events` in order.
pub open spec fn phase_after(start: WorkerPhase, events: Seq<WorkerEvent>) -> WorkerPhase
    decreases events.len(),
{
    if events.len() == 0 {
        start
    } else {
        next_phase(phase_after(start, events.drop_last()), events.last())
    }
}

/// What the worker of client `id` does on the event at `index`, having
/// started in `start` and taken the events before it.
pub open spec fn action_at(
    start: WorkerPhase,
    id: String,
    events: Seq<WorkerEvent>,
    index: int,
) -> WorkerAction
    recommends
        0 <= index < events.len(),
{
    next_action(phase_after(start, events.take(index)), id, events[index])
}

/// How far along a phase is: a worker never goes back.
pub open spec fn progress(phase: WorkerPhase) -> int {
    match phase {
        WorkerPhase::Connecting => 0,
        WorkerPhase::Streaming { .. } => 1,
        WorkerPhase::Finished => 2,
    }
}

proof fn lemma_phase_step(start: WorkerPhase, events: Seq<WorkerEvent>, index: int)
    requires
        0 <= index < events.len(),
    ensures
        phase_after(start, events.take(index + 1)) == next_phase(
            phase_after(start, events.take(index)),
            events[index],
        ),
{
    let upto = events.take(index + 1);
    assert(upto.drop_last() =~= events.take(index));
    assert(upto.last() == events[index]);
}

proof fn lemma_phase_monotone(start: WorkerPhase, events: Seq<WorkerEvent>, from: int, to: int)
    requires
        0 <= from <= to <= events.len(),
    ensures
        progress(phase_after(start, events.take(from))) <= progress(
            phase_after(start, events.take(to)),
        ),
    decreases to - from,
{
    if from < to {
        lemma_phase_monotone(start, events, from, to - 1);
        lemma_phase_step(start, events, to - 1);
    }
}

/// The life of a worker, whatever happens to it and in whatever order.
///
/// A worker that starts out connecting announces its client at most once and
/// takes leave of it at most once, each time under the client's own id, and
/// never announces after it has taken leave. It has finished exactly when it
/// has taken leave, and it has finished as soon as the feed was closed, a
/// write or the peer connection failed, or the process was told to stop.
pub proof fn lemma_worker_lifecycle(id: String, events: Seq<WorkerEvent>)
    ensures
        forall|i: int, j: int|
            #![trigger action_at(WorkerPhase::Connecting, id, events, i), action_at(WorkerPhase::Connecting, id, events, j)]
            0 <= i < events.len() && 0 <= j < events.len() && action_at(
                WorkerPhase::Connecting,
                id,
                events,
                i,
            ) is Depart && action_at(WorkerPhase::Connecting, id, events, j) is Depart ==> i == j,
        forall|i: int, j: int|
            #![trigger action_at(WorkerPhase::Connecting, id, events, i), action_at(WorkerPhase::Connecting, id, events, j)]
            0 <= i < events.len() && 0 <= j < events.len() && action_at(
                WorkerPhase::Connecting,
                id,
                events,
                i,
            ) is Announce && action_at(WorkerPhase::Connecting, id, events, j) is Announce ==> i
                == j,
        forall|i: int, j: int|
            #![trigger action_at(WorkerPhase::Connecting, id, events, i), action_at(WorkerPhase::Connecting, id, events, j)]
            0 <= i < events.len() && 0 <= j < events.len() && action_at(
                WorkerPhase::Connecting,
                id,
                events,
                i,
            ) is Announce && action_at(WorkerPhase::Connecting, id, events, j) is Depart ==> i < j,
        forall|i: int|
            0 <= i < events.len() ==> match #[trigger] action_at(
                WorkerPhase::Connecting,
                id,
                events,
                i,
            ) {
                WorkerAction::Announce(message) => message == (FeedControlMessage::ClientJoined {
                    client_id: id,
                }),
                WorkerAction::Depart(message) => message == (FeedControlMessage::ClientLeft {
                    client_id: id,
                }),
                _ => true,
            },
        phase_after(WorkerPhase::Connecting, events) is Finished <==> exists|j: int|
            0 <= j < events.len() && #[trigger] action_at(
                WorkerPhase::Connecting,
                id,
                events,
                j,
            ) is Depart,
        (exists|i: int| 0 <= i < events.len() && (#[trigger] events[i]).is_exit()) ==> phase_after(
            WorkerPhase::Connecting,
            events,
        ) is Finished,
{
    let start = WorkerPhase::Connecting;
    assert(events.take(events.len() as int) =~= events);
    assert forall|i: int, j: int| 0 <= i < j < events.len() implies {
        &&& action_at(start, id, events, i) is Depart ==> action_at(start, id, events, j) is Idle
        &&& action_at(start, id, events, i) is Announce ==> !(action_at(
            start,
            id,
            events,
            j,
        ) is Announce)
    } by {
        lemma_phase_step(start, events, i);
        lemma_phase_monotone(start, events, i + 1, j);
    }
    assert forall|i: int| 0 <= i < events.len() && events[i].is_exit() implies phase_after(
        start,
        events,
    ) is Finished by {
        lemma_phase_step(start, events, i);
        lemma_phase_monotone(start, events, i + 1, events.len() as int);
    }
    assert forall|j: int|
        0 <= j < events.len() && action_at(start, id, events, j) is Depart implies phase_after(
        start,
        events,
    ) is Finished by {
        lemma_phase_step(start, events, j);
        lemma_phase_monotone(start, events, j + 1, events.len() as int);
    }
    if phase_after(start, events) is Finished {
        lemma_finished_has_departed(id, events, events.len() as int);
    }
}

proof fn lemma_finished_has_departed(id: String, events: Seq<WorkerEvent>, upto: int)
    requires
        0 <= upto <= events.len(),
        phase_after(WorkerPhase::Connecting, events.take(upto)) is Finished,
    ensures
        exists|j: int|
            0 <= j < upto && #[trigger] action_at(WorkerPhase::Connecting, id, events, j) is Depart,
    decreases upto,
{
    if upto == 0 {
        assert(events.take(0).len() == 0);
    } else {
        lemma_phase_step(WorkerPhase::Connecting, events, upto - 1);
        if phase_after(WorkerPhase::Connecting, events.take(upto - 1)) is Finished {
            lemma_finished_has_departed(id, events, upto - 1);
        } else {
            assert(action_at(WorkerPhase::Connecting, id, events, upto - 1) is Depart);
        }
    }
}

} // verus!
