use vstd::prelude::*;

use crate::request::contains_terminator;
use crate::request::RequestBuffer;
use crate::request::REQUEST_CAPACITY;
use crate::response::canned_response;
use crate::response::response_bytes;
use vstd::pervasive::unreached;

verus! {

/// Which lifecycle phase a connection is in.
#[derive(Clone, Copy, PartialEq, Eq, Structural, Debug)]
pub enum Phase {
    Reading,
    Writing,
    Flushing,
}

/// What one non-blocking read attempt observed.
pub enum ReadOutcome {
    /// The bytes delivered; an empty chunk means the peer closed its end.
    Data { bytes: Vec<u8> },
    /// The read would block; retry on a later wake.
    WouldBlock,
    /// An I/O error other than would-block.
    Failed,
}

/// What one non-blocking write attempt observed.
pub enum WriteOutcome {
    /// How many bytes the peer accepted; zero means the peer closed its end.
    Wrote { count: usize },
    /// The write would block; retry on a later wake.
    WouldBlock,
    /// An I/O error other than would-block.
    Failed,
}

/// What one flush attempt observed.
pub enum FlushOutcome {
    Flushed,
    WouldBlock,
    Failed,
}

/// Why a connection is finished with its lifecycle.
#[derive(Clone, Copy, PartialEq, Eq, Structural, Debug)]
pub enum Completion {
    /// The peer closed before the exchange finished.
    Disconnected,
    /// The response was written and flushed in full.
    Finished,
    /// The request filled the whole buffer without a terminator.
    BufferOverflow,
    /// An I/O error other than would-block; fatal to this connection only.
    IoFailed,
}

/// What the event loop should do next with this connection.
#[derive(Clone, Copy, PartialEq, Eq, Structural, Debug)]
pub enum Step {
    /// State advanced; attempt the next operation at once.
    Proceed,
    /// The operation would block; yield until the next readiness wake.
    Yield,
    /// The connection is finished and must be cleaned up.
    Done { why: Completion },
}

/// Mathematical model of a connection's state.
#[verifier::ext_equal]
pub enum StateModel {
    Reading { data: Seq<u8> },
    Writing { response: Seq<u8>, written: int },
    Flushing,
}

/// The phase a modeled state is in.
pub open spec fn phase_of(st: StateModel) -> Phase {
    match st {
        StateModel::Reading { .. } => Phase::Reading,
        StateModel::Writing { .. } => Phase::Writing,
        StateModel::Flushing => Phase::Flushing,
    }
}

/// Phases are ordered strictly forward: reading, then writing, then flushing.
pub open spec fn phase_rank(st: StateModel) -> int {
    match st {
        StateModel::Reading { .. } => 0,
        StateModel::Writing { .. } => 1,
        StateModel::Flushing => 2,
    }
}

/// A modeled state is well formed: the request buffer never exceeds its
/// capacity, and the response is always the canned one with its cursor
/// inside bounds.
pub open spec fn wf_state(st: StateModel) -> bool {
    match st {
        StateModel::Reading { data } => data.len() <= REQUEST_CAPACITY,
        StateModel::Writing { response, written } => {
            &&& response == canned_response()
            &&& 0 <= written <= response.len()
        },
        StateModel::Flushing => true,
    }
}

/// The state after a chunk of bytes is delivered while reading: an empty
/// chunk (peer closed) leaves the buffer alone; a chunk that completes the
/// terminator moves to writing the canned response from the start; any
/// other chunk is buffered.
pub open spec fn read_data_state(data: Seq<u8>, chunk: Seq<u8>) -> StateModel {
    if chunk.len() == 0 {
        StateModel::Reading { data }
    } else if contains_terminator(data + chunk) {
        StateModel::Writing { response: canned_response(), written: 0 }
    } else {
        StateModel::Reading { data: data + chunk }
    }
}

/// The verdict after a chunk of bytes is delivered while reading: an empty
/// chunk is a disconnection; a full buffer without a terminator is an
/// overflow; otherwise the machine proceeds.
pub open spec fn read_data_step(data: Seq<u8>, chunk: Seq<u8>) -> Step {
    if chunk.len() == 0 {
        Step::Done { why: Completion::Disconnected }
    } else if contains_terminator(data + chunk) {
        Step::Proceed
    } else if data.len() + chunk.len() == REQUEST_CAPACITY {
        Step::Done { why: Completion::BufferOverflow }
    } else {
        Step::Proceed
    }
}

/// Per-connection state: receiving the request, sending the response, or
/// flushing buffered output.
pub enum ConnectionState {
    Reading { buf: RequestBuffer },
    Writing { response: Vec<u8>, written: usize },
    Flushing,
}

impl View for ConnectionState {
    type V = StateModel;

    open spec fn view(&self) -> StateModel {
        match self {
            ConnectionState::Reading { buf } => StateModel::Reading { data: buf@ },
            ConnectionState::Writing { response, written } => StateModel::Writing {
                response: response@,
                written: *written as int,
            },
            ConnectionState::Flushing => StateModel::Flushing,
        }
    }
}

impl ConnectionState {
    pub open spec fn wf(&self) -> bool {
        wf_state(self@)
    }

    /// A fresh connection starts in the reading phase with an empty buffer.
    pub fn new_reading() -> (r: Self)
        ensures
            r@ =~= (StateModel::Reading { data: Seq::<u8>::empty() }),
            r.wf(),
    {
        ConnectionState::Reading { buf: RequestBuffer::new() }
    }

    pub fn phase(&self) -> (p: Phase)
        ensures
            p == phase_of(self@),
    {
        match self {
            ConnectionState::Reading { .. } => Phase::Reading,
            ConnectionState::Writing { .. } => Phase::Writing,
            ConnectionState::Flushing => Phase::Flushing,
        }
    }

    /// How many bytes the next read may deliver without overrunning the
    /// fixed buffer.
    pub fn read_capacity(&self) -> (n: usize)
        requires
            self@ is Reading,
            self.wf(),
        ensures
            n == REQUEST_CAPACITY - self@->data.len(),
    {
        match self {
            ConnectionState::Reading { buf } => buf.remaining(),
            _ => unreached(),
        }
    }

    /// Advances the reading phase by one observed read outcome.
    pub fn on_read(self, outcome: ReadOutcome) -> (r: (Self, Step))
        requires
            self@ is Reading,
            self.wf(),
            (outcome matches ReadOutcome::Data { bytes } ==> self@->data.len() + bytes@.len()
                <= REQUEST_CAPACITY),
        ensures
            r.0.wf(),
            phase_rank(self@) <= phase_rank(r.0@),
            match outcome {
                ReadOutcome::Data { bytes } => {
                    &&& r.0@ =~= read_data_state(self@->data, bytes@)
                    &&& r.1 == read_data_step(self@->data, bytes@)
                },
                ReadOutcome::WouldBlock => r.0@ == self@ && r.1 == Step::Yield,
                ReadOutcome::Failed => r.0@ == self@ && r.1 == (Step::Done {
                    why: Completion::IoFailed,
                }),
            },
    {
        match outcome {
            ReadOutcome::Data { bytes } => {
                match self {
                    ConnectionState::Reading { mut buf } => {
                        if bytes.len() == 0 {
                            return (
                                ConnectionState::Reading { buf },
                                Step::Done { why: Completion::Disconnected },
                            );
                        }
                        buf.append(bytes.as_slice());
                        if buf.has_terminator() {
                            (
                                ConnectionState::Writing { response: response_bytes(), written: 0 },
                                Step::Proceed,
                            )
                        } else if buf.len() == REQUEST_CAPACITY {
                            (
                                ConnectionState::Reading { buf },
                                Step::Done { why: Completion::BufferOverflow },
                            )
                        } else {
                            (ConnectionState::Reading { buf }, Step::Proceed)
                        }
                    },
                    _ => unreached(),
                }
            },
            ReadOutcome::WouldBlock => (self, Step::Yield),
            ReadOutcome::Failed => (self, Step::Done { why: Completion::IoFailed }),
        }
    }

    /// Advances the writing phase by one observed write outcome.
    pub fn on_write(self, outcome: WriteOutcome) -> (r: (Self, Step))
        requires
            self@ is Writing,
            self.wf(),
            (outcome matches WriteOutcome::Wrote { count } ==> count <= self@->response.len()
                - self@->written),
        ensures
            r.0.wf(),
            phase_rank(self@) <= phase_rank(r.0@),
            match outcome {
                WriteOutcome::Wrote { count } => {
                    if count == 0 {
                        r.0@ == self@ && r.1 == (Step::Done { why: Completion::Disconnected })
                    } else if self@->written + count == self@->response.len() {
                        r.0@ == StateModel::Flushing && r.1 == Step::Proceed
                    } else {
                        &&& r.0@ =~= (StateModel::Writing {
                            response: self@->response,
                            written: self@->written + count,
                        })
                        &&& r.1 == Step::Proceed
                    }
                },
                WriteOutcome::WouldBlock => r.0@ == self@ && r.1 == Step::Yield,
                WriteOutcome::Failed => r.0@ == self@ && r.1 == (Step::Done {
                    why: Completion::IoFailed,
                }),
            },
    {
        match outcome {
            WriteOutcome::Wrote { count } => {
                match self {
                    ConnectionState::Writing { response, written } => {
                        if count == 0 {
                            return (
                                ConnectionState::Writing { response, written },
                                Step::Done { why: Completion::Disconnected },
                            );
                        }
                        let advanced = written + count;
                        if advanced == response.len() {
                            (ConnectionState::Flushing, Step::Proceed)
                        } else {
                            (
                                ConnectionState::Writing { response, written: advanced },
                                Step::Proceed,
                            )
                        }
                    },
                    _ => unreached(),
                }
            },
            WriteOutcome::WouldBlock => (self, Step::Yield),
            WriteOutcome::Failed => (self, Step::Done { why: Completion::IoFailed }),
        }
    }

    /// Advances the flushing phase by one observed flush outcome.
    pub fn on_flush(self, outcome: FlushOutcome) -> (r: (Self, Step))
        requires
            self@ is Flushing,
            self.wf(),
        ensures
            r.0.wf(),
            r.0@ == self@,
            match outcome {
                FlushOutcome::Flushed => r.1 == (Step::Done { why: Completion::Finished }),
                FlushOutcome::WouldBlock => r.1 == Step::Yield,
                FlushOutcome::Failed => r.1 == (Step::Done { why: Completion::IoFailed }),
            },
    {
        match outcome {
            FlushOutcome::Flushed => (self, Step::Done { why: Completion::Finished }),
            FlushOutcome::WouldBlock => (self, Step::Yield),
            FlushOutcome::Failed => (self, Step::Done { why: Completion::IoFailed }),
        }
    }

    /// The not-yet-written tail of the response: what the next write attempt
    /// should offer to the peer.
    pub fn response_tail(&self) -> (v: Vec<u8>)
        requires
            self@ is Writing,
            self.wf(),
        ensures
            v@ =~= self@->response.subrange(self@->written, self@->response.len() as int),
    {
        match self {
            ConnectionState::Writing { response, written } => {
                let ghost start = *written as int;
                let n = response.len();
                let mut v: Vec<u8> = Vec::new();
                let mut i: usize = *written;
                while i < n
                    invariant
                        0 <= start <= i <= n,
                        n == response@.len(),
                        v@ =~= response@.subrange(start, i as int),
                    decreases n - i,
                {
                    v.push(response[i]);
                    assert(response@.subrange(start, i + 1) =~= response@.subrange(
                        start,
                        i as int,
                    ).push(response@[i as int]));
                    i = i + 1;
                }
                v
            },
            _ => unreached(),
        }
    }
}

/// Mathematical model of one table entry.
#[verifier::ext_equal]
pub struct ConnView {
    pub id: u64,
    pub fd: int,
    pub state: StateModel,
}

/// One live connection as the table holds it: a stable identifier (never
/// reused for the table's lifetime), the raw descriptor number it was
/// accepted with, and its current state.
pub struct Connection {
    id: u64,
    fd: i32,
    state: ConnectionState,
}

impl View for Connection {
    type V = ConnView;

    closed spec fn view(&self) -> ConnView {
        ConnView { id: self.id, fd: self.fd as int, state: self.state@ }
    }
}

impl Connection {
    pub open spec fn wf(&self) -> bool {
        wf_state(self@.state)
    }

    /// A newly accepted connection enters the reading phase.
    pub fn new(id: u64, fd: i32) -> (c: Self)
        ensures
            c@.id == id,
            c@.fd == fd,
            c@.state =~= (StateModel::Reading { data: Seq::<u8>::empty() }),
            c.wf(),
    {
        Connection { id, fd, state: ConnectionState::new_reading() }
    }

    pub fn id(&self) -> (r: u64)
        ensures
            r == self@.id,
    {
        self.id
    }

    pub fn fd(&self) -> (r: i32)
        ensures
            r == self@.fd,
    {
        self.fd
    }

    pub fn phase(&self) -> (p: Phase)
        ensures
            p == phase_of(self@.state),
    {
        self.state.phase()
    }

    pub fn read_capacity(&self) -> (n: usize)
        requires
            self@.state is Reading,
            self.wf(),
        ensures
            n == REQUEST_CAPACITY - self@.state->data.len(),
    {
        self.state.read_capacity()
    }

    pub fn response_tail(&self) -> (v: Vec<u8>)
        requires
            self@.state is Writing,
            self.wf(),
        ensures
            v@ =~= self@.state->response.subrange(
                self@.state->written,
                self@.state->response.len() as int,
            ),
    {
        self.state.response_tail()
    }

    /// Advances the reading phase by one observed read outcome; identifier
    /// and descriptor are untouched.
    pub fn on_read(self, outcome: ReadOutcome) -> (r: (Self, Step))
        requires
            self@.state is Reading,
            self.wf(),
            (outcome matches ReadOutcome::Data { bytes } ==> self@.state->data.len()
                + bytes@.len() <= REQUEST_CAPACITY),
        ensures
            r.0.wf(),
            r.0@.id == self@.id,
            r.0@.fd == self@.fd,
            phase_rank(self@.state) <= phase_rank(r.0@.state),
            match outcome {
                ReadOutcome::Data { bytes } => {
                    &&& r.0@.state =~= read_data_state(self@.state->data, bytes@)
                    &&& r.1 == read_data_step(self@.state->data, bytes@)
                },
                ReadOutcome::WouldBlock => r.0@.state == self@.state && r.1 == Step::Yield,
                ReadOutcome::Failed => r.0@.state == self@.state && r.1 == (Step::Done {
                    why: Completion::IoFailed,
                }),
            },
    {
        let Connection { id, fd, state } = self;
        let (state, step) = state.on_read(outcome);
        (Connection { id, fd, state }, step)
    }

    /// Advances the writing phase by one observed write outcome; identifier
    /// and descriptor are untouched.
    pub fn on_write(self, outcome: WriteOutcome) -> (r: (Self, Step))
        requires
            self@.state is Writing,
            self.wf(),
            (outcome matches WriteOutcome::Wrote { count } ==> count <= self@.state->response.len()
                - self@.state->written),
        ensures
            r.0.wf(),
            r.0@.id == self@.id,
            r.0@.fd == self@.fd,
            phase_rank(self@.state) <= phase_rank(r.0@.state),
            match outcome {
                WriteOutcome::Wrote { count } => {
                    if count == 0 {
                        r.0@.state == self@.state && r.1 == (Step::Done {
                            why: Completion::Disconnected,
                        })
                    } else if self@.state->written + count == self@.state->response.len() {
                        r.0@.state == StateModel::Flushing && r.1 == Step::Proceed
                    } else {
                        &&& r.0@.state =~= (StateModel::Writing {
                            response: self@.state->response,
                            written: self@.state->written + count,
                        })
                        &&& r.1 == Step::Proceed
                    }
                },
                WriteOutcome::WouldBlock => r.0@.state == self@.state && r.1 == Step::Yield,
                WriteOutcome::Failed => r.0@.state == self@.state && r.1 == (Step::Done {
                    why: Completion::IoFailed,
                }),
            },
    {
        let Connection { id, fd, state } = self;
        let (state, step) = state.on_write(outcome);
        (Connection { id, fd, state }, step)
    }

    /// Advances the flushing phase by one observed flush outcome; identifier
    /// and descriptor are untouched.
    pub fn on_flush(self, outcome: FlushOutcome) -> (r: (Self, Step))
        requires
            self@.state is Flushing,
            self.wf(),
        ensures
            r.0.wf(),
            r.0@.id == self@.id,
            r.0@.fd == self@.fd,
            r.0@.state == self@.state,
            match outcome {
                FlushOutcome::Flushed => r.1 == (Step::Done { why: Completion::Finished }),
                FlushOutcome::WouldBlock => r.1 == Step::Yield,
                FlushOutcome::Failed => r.1 == (Step::Done { why: Completion::IoFailed }),
            },
    {
        let Connection { id, fd, state } = self;
        let (state, step) = state.on_flush(outcome);
        (Connection { id, fd, state }, step)
    }
}

} // verus!
