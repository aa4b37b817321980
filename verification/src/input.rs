//! Remote input: the event record and the session logic of the client
//! and its manager.
//!
//! The host owns the sockets, the blocking reads and the worker thread;
//! it drives these state machines with the outcome of each step. The
//! client turns one connection's reads into a lazy, finite,
//! non-restartable sequence of records; the manager bridges that
//! sequence into a drainable inbox behind connect/disconnect/liveness
//! bookkeeping.

use vstd::prelude::*;
use crate::codec::decoded_frame;

verus! {

/// Wall-clock instant of an event: seconds and nanoseconds since the
/// Unix epoch. Stands in for the platform wall-clock type; the host
/// converts at its boundary.
#[derive(Clone, Copy, Debug, PartialEq, Eq, Structural)]
pub struct Timestamp {
    pub secs: u64,
    pub nanos: u32,
}

/// Holds information about an input event, decoded from one frame of
/// the remote input stream.
///
/// Fields:
/// - `timestamp`: the wall-clock instant associated with the event
/// - `event_type`: the raw type (e.g., a key press)
/// - `code`: the raw code (e.g., corresponding to a certain key)
/// - `value`: the raw value (e.g., 1 for a key press and 0 for a key
///   release)
#[derive(Clone, Copy, Debug, PartialEq, Eq, Structural)]
pub struct InputEventWrapper {
    pub timestamp: Timestamp,
    pub event_type: u16,
    pub code: u16,
    pub value: i32,
}

/// The record one received frame yields, if it decodes; a malformed
/// frame yields nothing and is simply dropped.
pub open spec fn frame_record(f: Seq<u8>) -> Option<InputEventWrapper> {
    match decoded_frame(f) {
        Ok(e) => Some(e),
        Err(_) => None,
    }
}

/// One remote input streaming session, after a successful connect and
/// handshake. The host performs the blocking reads on the connection
/// and feeds each read here; the session ends for good when a read
/// comes back empty (the peer closed), and a terminated session cannot
/// be fed again — streaming anew takes a new connect.
pub struct RemoteInputClient {
    pub terminated: bool,
}

impl RemoteInputClient {
    /// A fresh streaming session.
    pub fn new() -> (r: Self)
        ensures
            !r.terminated,
    {
        RemoteInputClient { terminated: false }
    }

    /// The one-shot handshake message the host writes right after
    /// connecting: the credential bytes followed by a single NUL byte.
    /// No acknowledgement is expected.
    pub fn handshake_message(api_key: &Vec<u8>) -> (r: Vec<u8>)
        ensures
            r@ == api_key@ + seq![0u8],
    {
        let mut out: Vec<u8> = Vec::new();
        let mut i: usize = 0;
        while i < api_key.len()
            invariant
                i <= api_key.len(),
                out@ == api_key@.subrange(0, i as int),
            decreases api_key.len() - i,
        {
            let b = api_key[i];
            out.push(b);
            proof {
                assert(out@ =~= api_key@.subrange(0, i + 1));
            }
            i = i + 1;
        }
        out.push(0);
        proof {
            assert(out@ =~= api_key@ + seq![0u8]);
        }
        out
    }

    /// Whether the stream has ended. Once true, the sequence is over:
    /// this instance must not be fed again.
    pub fn terminated(&self) -> (r: bool)
        ensures
            r == self.terminated,
    {
        self.terminated
    }

    /// Feed the bytes of one blocking read: everything up to and
    /// including the next delimiter, a trailing undelimited remnant, or
    /// nothing at all when the peer closed. Returns the frame's record
    /// when it decodes. A malformed frame is dropped and the stream
    /// stays live; only the empty read terminates it.
    pub fn process_event(&mut self, read: &Vec<u8>) -> (r: Option<InputEventWrapper>)
        requires
            !old(self).terminated,
        ensures
            final(self).terminated == (read@.len() == 0),
            r == (if read@.len() == 0 {
                None::<InputEventWrapper>
            } else {
                frame_record(read@)
            }),
    {
        if read.len() == 0 {
            self.terminated = true;
            return None;
        }
        match crate::codec::decode(read) {
            Ok(e) => Some(e),
            Err(_) => None,
        }
    }
}

/// The worker bookkeeping of a manager: the handle either still runs or
/// has finished; a finished worker reports the session dead.
#[derive(Clone, Copy, Debug, PartialEq, Eq, Structural)]
pub enum WorkerStatus {
    Running,
    Finished,
}

/// The manager's state as mathematics: what the inbox holds, if one
/// exists, and the worker bookkeeping.
pub struct ManagerModel {
    pub inbox: Option<Seq<InputEventWrapper>>,
    pub worker: Option<WorkerStatus>,
}

/// Is the manager live: an inbox exists and the worker has not
/// finished? This can stay true for a brief window after the peer
/// closed, until the worker notices on its next read.
pub open spec fn connected_model(m: ManagerModel) -> bool {
    m.inbox is Some && m.worker == Some(WorkerStatus::Running)
}

/// One step the host drives a connected manager through.
pub enum ManagerOp {
    /// The worker forwards one decoded record into the inbox.
    Deliver(InputEventWrapper),
    /// The consumer drains the inbox.
    Drain,
    /// The worker exits: peer closed, read failed, or send failed.
    WorkerExited,
}

/// One manager step: the state after it and what the consumer drained
/// in it (empty unless the step is a drain). A delivery to a manager
/// without an inbox is the failed send the worker exits on; it changes
/// nothing.
pub open spec fn manager_step(m: ManagerModel, op: ManagerOp) -> (ManagerModel, Seq<
    InputEventWrapper,
>) {
    match op {
        ManagerOp::Deliver(e) => (
            match m.inbox {
                Some(q) => ManagerModel { inbox: Some(q.push(e)), worker: m.worker },
                None => m,
            },
            seq![],
        ),
        ManagerOp::Drain => (
            ManagerModel {
                inbox: match m.inbox {
                    Some(_) => Some(Seq::empty()),
                    None => None,
                },
                worker: m.worker,
            },
            match m.inbox {
                Some(q) => q,
                None => seq![],
            },
        ),
        ManagerOp::WorkerExited => (
            ManagerModel {
                inbox: m.inbox,
                worker: match m.worker {
                    Some(_) => Some(WorkerStatus::Finished),
                    None => None,
                },
            },
            seq![],
        ),
    }
}

/// The manager's state after a sequence of steps, and everything the
/// consumer drained over them, in order.
pub open spec fn manager_run(m: ManagerModel, ops: Seq<ManagerOp>) -> (ManagerModel, Seq<
    InputEventWrapper,
>)
    decreases ops.len(),
{
    if ops.len() == 0 {
        (m, seq![])
    } else {
        let step = manager_step(m, ops[0]);
        let rest = manager_run(step.0, ops.skip(1));
        (rest.0, step.1 + rest.1)
    }
}

/// The records a sequence of steps delivers, in order.
pub open spec fn delivered(ops: Seq<ManagerOp>) -> Seq<InputEventWrapper>
    decreases ops.len(),
{
    if ops.len() == 0 {
        seq![]
    } else {
        let rest = delivered(ops.skip(1));
        match ops[0] {
            ManagerOp::Deliver(e) => seq![e] + rest,
            _ => rest,
        }
    }
}

/// No record is lost, duplicated or reordered between worker and
/// consumer: over any sequence of deliveries, drains and a worker
/// exit, what the drains returned followed by what still sits in the
/// inbox is exactly what the inbox held at the start followed by every
/// delivered record, in delivery order.
pub proof fn lemma_no_record_lost_or_duplicated(m: ManagerModel, ops: Seq<ManagerOp>)
    requires
        m.inbox is Some,
    ensures
        manager_run(m, ops).0.inbox is Some,
        manager_run(m, ops).1 + manager_run(m, ops).0.inbox->0 == m.inbox->0 + delivered(ops),
    decreases ops.len(),
{
    if ops.len() == 0 {
        assert(manager_run(m, ops).1 + manager_run(m, ops).0.inbox->0 =~= m.inbox->0 + delivered(
            ops,
        ));
    } else {
        let step = manager_step(m, ops[0]);
        lemma_no_record_lost_or_duplicated(step.0, ops.skip(1));
        let run = manager_run(m, ops);
        let rest = manager_run(step.0, ops.skip(1));
        match ops[0] {
            ManagerOp::Deliver(e) => {
                assert(step.0.inbox->0 =~= m.inbox->0 + seq![e]);
                assert(run.1 + run.0.inbox->0 =~= m.inbox->0 + delivered(ops));
            },
            ManagerOp::Drain => {
                assert(run.1 + run.0.inbox->0 =~= m.inbox->0 + delivered(ops));
            },
            ManagerOp::WorkerExited => {
                assert(run.1 + run.0.inbox->0 =~= m.inbox->0 + delivered(ops));
            },
        }
    }
}

/// Once the worker has exited, the manager reports the session dead,
/// whatever else happened before.
pub proof fn lemma_worker_exit_reports_disconnected(m: ManagerModel)
    ensures
        !connected_model(manager_step(m, ManagerOp::WorkerExited).0),
{
}

/// Runs exactly one streaming client on a dedicated host worker and
/// bridges its records into a non-blocking, drainable inbox. The host
/// spawns the worker and the channel; this state machine is the
/// bookkeeping both sides drive, and its contracts are what connect,
/// deliver, drain and disconnect may do to the inbox.
///
/// There is no backpressure: a consumer that never drains lets the
/// inbox grow without bound. That is a resource risk accepted by
/// design, not a condition anything here caps silently.
pub struct RemoteInputClientManager {
    pub inbox: Option<Vec<InputEventWrapper>>,
    pub worker: Option<WorkerStatus>,
}

impl RemoteInputClientManager {
    /// The manager's state as mathematics.
    pub open spec fn model(self) -> ManagerModel {
        ManagerModel {
            inbox: match self.inbox {
                Some(q) => Some(q@),
                None => None,
            },
            worker: self.worker,
        }
    }

    /// Create a new remote input client manager. Nothing is done until
    /// `connect` is called.
    pub fn new() -> (r: Self)
        ensures
            r.model() == (ManagerModel { inbox: None, worker: None }),
    {
        RemoteInputClientManager { inbox: None, worker: None }
    }

    /// Begin a session: a fresh, empty inbox and a running worker,
    /// whatever came before. The host spawns the worker alongside; the
    /// worker's connect failure shows up later as its exit, not here.
    pub fn connect(&mut self)
        ensures
            final(self).model() == (ManagerModel {
                inbox: Some(Seq::empty()),
                worker: Some(WorkerStatus::Running),
            }),
            connected_model(final(self).model()),
    {
        self.inbox = Some(Vec::new());
        self.worker = Some(WorkerStatus::Running);
    }

    /// Drop the inbox and the worker handle. Cooperative: the worker
    /// itself exits only on its next failed send or read; the
    /// bookkeeping here is updated at once.
    pub fn disconnect(&mut self)
        ensures
            final(self).model() == (ManagerModel { inbox: None, worker: None }),
            !connected_model(final(self).model()),
    {
        self.inbox = None;
        self.worker = None;
    }

    /// The worker forwards one record. True when the inbox took it;
    /// false is the failed send of a dropped consumer, on which the
    /// worker exits.
    pub fn deliver(&mut self, event: InputEventWrapper) -> (r: bool)
        ensures
            r == old(self).inbox is Some,
            final(self).model() == manager_step(old(self).model(), ManagerOp::Deliver(event)).0,
    {
        match self.inbox.take() {
            Some(mut q) => {
                q.push(event);
                self.inbox = Some(q);
                true
            },
            None => false,
        }
    }

    /// The worker has finished: peer closed, read failed, connect
    /// failed or send failed. The handle, if one is still held, now
    /// reports it.
    pub fn worker_exited(&mut self)
        ensures
            final(self).model() == manager_step(old(self).model(), ManagerOp::WorkerExited).0,
            !connected_model(final(self).model()),
    {
        if self.worker.is_some() {
            self.worker = Some(WorkerStatus::Finished);
        }
    }

    /// Check if the client is connected: an inbox exists and the worker
    /// has not finished. True for a brief window after the peer closed,
    /// until the worker notices on its next read.
    pub fn connected(&self) -> (r: bool)
        ensures
            r == connected_model(self.model()),
    {
        let live = match self.worker {
            Some(WorkerStatus::Running) => true,
            _ => false,
        };
        self.inbox.is_some() && live
    }

    /// Retrieve the records received since this was last called,
    /// without blocking: everything buffered, oldest first, and the
    /// inbox is left empty. Empty if never connected or after
    /// `disconnect`.
    pub fn events(&mut self) -> (r: Vec<InputEventWrapper>)
        ensures
            final(self).model() == manager_step(old(self).model(), ManagerOp::Drain).0,
            r@ == manager_step(old(self).model(), ManagerOp::Drain).1,
    {
        match self.inbox.take() {
            Some(q) => {
                self.inbox = Some(Vec::new());
                q
            },
            None => Vec::new(),
        }
    }
}

} // verus!
