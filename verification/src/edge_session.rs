//! The course of one session with an Agent, and of each stream within it.

use vstd::prelude::*;

use crate::agent_transport::{AgentTransportError, ProtocolViolation};
use crate::multiplex::MULTIPLEXED_DATA_PAYLOAD_SIZE;
use crate::protocol::{FrameType, RouteError, StreamId, StreamResetCode, TransportSessionId};

verus! {

/// The bytes of a PING's or PONG's payload.
pub const HEARTBEAT_PAYLOAD_SIZE: usize = 8;

/// The bytes of a reset's payload.
pub const STREAM_RESET_PAYLOAD_SIZE: usize = 2;

/// The first heartbeat's number.
pub const FIRST_HEARTBEAT: u64 = 1;

/// A frame that came: its kind, its stream, how long its payload is, and what the
/// payload stands for as a heartbeat or as a reset, where it does.
#[derive(Debug, Clone, Copy, PartialEq, Eq, Structural)]
pub struct SessionFrame {
    pub frame_type: FrameType,
    pub stream_id: StreamId,
    pub payload_len: usize,
    pub heartbeat: Option<u64>,
    pub reset: Option<StreamResetCode>,
}

/// The heartbeat that a frame carries.
pub open spec fn heartbeat_in(frame: SessionFrame) -> Option<u64> {
    if frame.payload_len == HEARTBEAT_PAYLOAD_SIZE { frame.heartbeat } else { None }
}

/// The reset that a frame carries.
pub open spec fn reset_in(frame: SessionFrame) -> Option<StreamResetCode> {
    if frame.payload_len == STREAM_RESET_PAYLOAD_SIZE { frame.reset } else { None }
}

/// The heartbeat that a frame carries.
pub fn decode_heartbeat(frame: &SessionFrame) -> (sequence: Option<u64>)
    ensures
        sequence == heartbeat_in(*frame),
{
    if frame.payload_len != HEARTBEAT_PAYLOAD_SIZE {
        return None;
    }
    frame.heartbeat
}

/// The reset that a frame carries.
pub fn decode_reset(frame: &SessionFrame) -> (code: Option<StreamResetCode>)
    ensures
        code == reset_in(*frame),
{
    if frame.payload_len != STREAM_RESET_PAYLOAD_SIZE {
        return None;
    }
    frame.reset
}

/// How a stream took a frame.
#[derive(Debug, Clone, Copy, PartialEq, Eq, Structural)]
pub enum Delivery {
    Accepted,
    Full,
    Closed,
}

/// What a session does next.
#[derive(Debug, Clone, Copy, PartialEq, Eq, Structural)]
pub enum SessionStep {
    /// It goes on.
    Continue,
    /// The heartbeat was answered: the next one is due after an interval.
    HeartbeatAnswered,
    /// The frame goes to its stream.
    Deliver,
    /// The Agent is told that the stream is reset.
    Reset { stream_id: StreamId, code: StreamResetCode },
    /// A heartbeat is sent, and must be answered in time; the last number there is
    /// ends the session.
    Ping { sequence: u64, last: bool },
    /// The session ends.
    Stop,
    /// The session fails.
    Fail(AgentTransportError),
}

/// A session: its open streams, the number of the next one, its heartbeat, and
/// whether it drains.
#[derive(Debug)]
pub struct EdgeSession {
    pub session_id: TransportSessionId,
    pub max_streams: usize,
    pub streams: Vec<StreamId>,
    pub next_stream_id: u32,
    pub heartbeat_sequence: u64,
    pub pending_heartbeat: Option<u64>,
    pub draining: bool,
}

/// Whether a stream is another one.
pub open spec fn is_not(id: StreamId) -> spec_fn(StreamId) -> bool {
    |stream: StreamId| stream != id
}

/// The streams but one.
pub open spec fn without_stream(streams: Seq<StreamId>, id: StreamId) -> Seq<StreamId> {
    streams.filter(is_not(id))
}

proof fn lemma_filter_push_stream(
    streams: Seq<StreamId>,
    last: StreamId,
    keep: spec_fn(StreamId) -> bool,
)
    ensures
        streams.push(last).filter(keep) == (if keep(last) {
            streams.filter(keep).push(last)
        } else {
            streams.filter(keep)
        }),
{
    reveal(Seq::filter);
    assert(streams.push(last).drop_last() =~= streams);
}

proof fn lemma_without(streams: Seq<StreamId>, id: StreamId)
    ensures
        without_stream(streams, id).len() <= streams.len(),
        forall|other: StreamId| #[trigger]
            without_stream(streams, id).contains(other) <==> streams.contains(other) && other != id,
        streams.no_duplicates() ==> without_stream(streams, id).no_duplicates(),
        !streams.contains(id) ==> without_stream(streams, id) == streams,
    decreases streams.len(),
{
    let keep = is_not(id);
    if streams.len() == 0 {
        reveal(Seq::filter);
        assert(without_stream(streams, id) =~= streams);
    } else {
        let front: Seq<StreamId> = streams.drop_last();
        let last: StreamId = streams.last();
        assert(streams =~= front.push(last));
        lemma_without(front, id);
        lemma_filter_push_stream(front, last, keep);
        let kept: Seq<StreamId> = without_stream(front, id);
        let all: Seq<StreamId> = without_stream(streams, id);
        assert(kept == front.filter(keep));
        assert(all == streams.filter(keep));
        assert(all == if keep(last) { kept.push(last) } else { kept });
        assert forall|other: StreamId| #[trigger]
            all.contains(other) <==> streams.contains(other) && other != id by {
            if streams.contains(other) && other != id {
                let k: int = choose|k: int| 0 <= k < streams.len() && streams[k] == other;
                if k < front.len() {
                    assert(front[k] == other);
                    assert(front.contains(other));
                    assert(kept.contains(other));
                    let m: int = choose|m: int| 0 <= m < kept.len() && kept[m] == other;
                    assert(all[m] == other);
                } else {
                    assert(all[all.len() - 1] == other);
                }
            }
            if all.contains(other) {
                let k: int = choose|k: int| 0 <= k < all.len() && all[k] == other;
                if k < kept.len() {
                    assert(kept[k] == other);
                    assert(kept.contains(other));
                    let m: int = choose|m: int| 0 <= m < front.len() && front[m] == other;
                    assert(streams[m] == other);
                } else {
                    assert(streams[streams.len() - 1] == other);
                }
            }
        }
        if streams.no_duplicates() {
            assert(front.no_duplicates()) by {
                assert forall|i: int, j: int|
                    0 <= i < front.len() && 0 <= j < front.len() && i != j implies front[i]
                    != front[j] by {
                    assert(streams[i] != streams[j]);
                }
            }
            assert forall|i: int, j: int|
                0 <= i < all.len() && 0 <= j < all.len() && i != j implies all[i] != all[j] by {
                if i < kept.len() && j < kept.len() {
                    assert(kept[i] != kept[j]);
                } else {
                    let k: int = if i < kept.len() { i } else { j };
                    if k < kept.len() {
                        assert(kept.contains(kept[k]));
                        assert(front.contains(kept[k]));
                        let m: int = choose|m: int| 0 <= m < front.len() && front[m] == kept[k];
                        assert(streams[m] != streams[streams.len() - 1]);
                    }
                }
            }
        }
        if !streams.contains(id) {
            assert(streams[streams.len() - 1] == last);
            assert(!front.contains(id)) by {
                if front.contains(id) {
                    let k: int = choose|k: int| 0 <= k < front.len() && front[k] == id;
                    assert(streams[k] == id);
                }
            }
            assert(all =~= streams);
        }
    }
}

/// What the session is but for its streams.
pub open spec fn same_but_streams(a: EdgeSession, b: EdgeSession) -> bool {
    &&& a.session_id == b.session_id
    &&& a.max_streams == b.max_streams
    &&& a.next_stream_id == b.next_stream_id
    &&& a.heartbeat_sequence == b.heartbeat_sequence
    &&& a.pending_heartbeat == b.pending_heartbeat
    &&& a.draining == b.draining
}

/// Whether a frame belongs to a stream.
pub open spec fn is_stream_frame(frame_type: FrameType) -> bool {
    frame_type == FrameType::OpenStream || frame_type == FrameType::Data || frame_type
        == FrameType::EndStream || frame_type == FrameType::ResetStream
}

/// Whether a frame carries more data than it may.
pub open spec fn is_oversized(frame: SessionFrame) -> bool {
    frame.frame_type == FrameType::Data && frame.payload_len > MULTIPLEXED_DATA_PAYLOAD_SIZE
}

/// What a frame leads to.
pub open spec fn frame_leads_to(session: EdgeSession, frame: SessionFrame) -> SessionStep {
    if frame.frame_type == FrameType::Pong {
        match (heartbeat_in(frame), session.pending_heartbeat) {
            (None, _) => SessionStep::Fail(
                AgentTransportError::InvalidHeartbeatPayload { frame_type: FrameType::Pong },
            ),
            (Some(_), None) => SessionStep::Fail(
                AgentTransportError::ProtocolViolation {
                    reason: ProtocolViolation::UnsolicitedPong,
                },
            ),
            (Some(got), Some(expected)) => if got == expected {
                SessionStep::HeartbeatAnswered
            } else {
                SessionStep::Fail(
                    AgentTransportError::HeartbeatSequenceMismatch { expected, got },
                )
            },
        }
    } else if is_stream_frame(frame.frame_type) {
        if is_oversized(frame) {
            SessionStep::Reset {
                stream_id: frame.stream_id,
                code: StreamResetCode::FlowControlExceeded,
            }
        } else if session.streams@.contains(frame.stream_id) {
            SessionStep::Deliver
        } else if frame.frame_type == FrameType::ResetStream {
            SessionStep::Continue
        } else {
            SessionStep::Reset { stream_id: frame.stream_id, code: StreamResetCode::UnknownStream }
        }
    } else if frame.frame_type == FrameType::Error {
        SessionStep::Fail(
            AgentTransportError::ProtocolViolation { reason: ProtocolViolation::AgentError },
        )
    } else {
        SessionStep::Fail(
            AgentTransportError::ProtocolViolation { reason: ProtocolViolation::UnexpectedFrame },
        )
    }
}

/// What follows from how a stream took its frame.
pub open spec fn delivery_leads_to(frame: SessionFrame, delivery: Delivery) -> SessionStep {
    match delivery {
        Delivery::Accepted => SessionStep::Continue,
        Delivery::Full => SessionStep::Reset {
            stream_id: frame.stream_id,
            code: StreamResetCode::FlowControlExceeded,
        },
        Delivery::Closed => if frame.frame_type == FrameType::ResetStream {
            SessionStep::Continue
        } else {
            SessionStep::Reset { stream_id: frame.stream_id, code: StreamResetCode::UnknownStream }
        },
    }
}

/// The stream that a session opens next, or why it opens none.
pub open spec fn stream_offered(session: EdgeSession) -> Result<StreamId, RouteError> {
    if session.draining {
        Err(RouteError::RuntimeDraining)
    } else if session.streams@.len() == session.max_streams {
        Err(RouteError::CapacityExceeded(session.session_id))
    } else if session.next_stream_id == 0 {
        Err(RouteError::StreamIdExhausted(session.session_id))
    } else {
        Ok(StreamId { value: session.next_stream_id })
    }
}

/// What a heartbeat that is due leads to.
pub open spec fn heartbeat_leads_to(session: EdgeSession) -> SessionStep {
    match session.pending_heartbeat {
        Some(sequence) => SessionStep::Fail(AgentTransportError::HeartbeatTimeout { sequence }),
        None => SessionStep::Ping {
            sequence: session.heartbeat_sequence,
            last: session.heartbeat_sequence == u64::MAX,
        },
    }
}

/// Whether a session goes on with so many streams open.
pub open spec fn goes_on(draining: bool, open_streams: nat) -> SessionStep {
    if draining && open_streams == 0 {
        SessionStep::Stop
    } else {
        SessionStep::Continue
    }
}

impl EdgeSession {
    /// No stream is open twice, no more are open than allowed, and every open
    /// stream has a number that was given, which is not zero.
    pub open spec fn wf(self) -> bool {
        &&& self.streams@.no_duplicates()
        &&& self.streams@.len() <= self.max_streams
        &&& forall|i: int|
            0 <= i < self.streams@.len() ==> 1 <= (#[trigger] self.streams@[i]).value && (
            self.next_stream_id == 0 || self.streams@[i].value < self.next_stream_id)
    }

    /// A session without streams.
    pub fn start(session_id: TransportSessionId, max_streams: usize) -> (session: EdgeSession)
        ensures
            session.wf(),
            session.session_id == session_id,
            session.max_streams == max_streams,
            session.streams@.len() == 0,
            session.next_stream_id == 1,
            session.heartbeat_sequence == FIRST_HEARTBEAT,
            session.pending_heartbeat is None,
            !session.draining,
    {
        EdgeSession {
            session_id,
            max_streams,
            streams: Vec::new(),
            next_stream_id: 1,
            heartbeat_sequence: FIRST_HEARTBEAT,
            pending_heartbeat: None,
            draining: false,
        }
    }

    fn has_stream(&self, id: StreamId) -> (yes: bool)
        ensures
            yes == self.streams@.contains(id),
    {
        let mut i: usize = 0;
        while i < self.streams.len()
            invariant
                i <= self.streams@.len(),
                forall|k: int| 0 <= k < i ==> self.streams@[k] != id,
            decreases self.streams@.len() - i,
        {
            if self.streams[i] == id {
                return true;
            }
            i = i + 1;
        }
        false
    }

    fn drop_stream(&mut self, id: StreamId)
        requires
            old(self).wf(),
        ensures
            final(self).wf(),
            same_but_streams(*final(self), *old(self)),
            final(self).streams@ == without_stream(old(self).streams@, id),
    {
        let ghost all: Seq<StreamId> = self.streams@;
        let ghost keep = is_not(id);
        let mut kept: Vec<StreamId> = Vec::new();
        let mut i: usize = 0;
        proof {
            reveal(Seq::filter);
            assert(all.take(0).filter(keep) =~= Seq::<StreamId>::empty());
        }
        while i < self.streams.len()
            invariant
                i <= self.streams@.len(),
                all == self.streams@,
                same_but_streams(*self, *old(self)),
                keep == is_not(id),
                kept@ == all.take(i as int).filter(keep),
            decreases self.streams@.len() - i,
        {
            proof {
                assert(all.take(i + 1) =~= all.take(i as int).push(all[i as int]));
                lemma_filter_push_stream(all.take(i as int), all[i as int], keep);
            }
            if self.streams[i] != id {
                kept.push(self.streams[i]);
            }
            i = i + 1;
        }
        proof {
            assert(all.take(i as int) =~= all);
            assert(kept@ == without_stream(all, id));
            lemma_without(all, id);
            assert forall|k: int| 0 <= k < kept@.len() implies 1 <= (#[trigger] kept@[k]).value && (
            self.next_stream_id == 0 || kept@[k].value < self.next_stream_id) by {
                assert(without_stream(all, id).contains(kept@[k]));
                let m: int = choose|m: int| 0 <= m < all.len() && all[m] == kept@[k];
                assert(all[m].value >= 1);
            }
        }
        self.streams = kept;
    }

    /// Takes a frame. A stream whose frame is too large is closed.
    pub fn frame_received(&mut self, frame: SessionFrame) -> (step: SessionStep)
        requires
            old(self).wf(),
        ensures
            final(self).wf(),
            step == frame_leads_to(*old(self), frame),
            final(self).session_id == old(self).session_id,
            final(self).max_streams == old(self).max_streams,
            final(self).next_stream_id == old(self).next_stream_id,
            final(self).heartbeat_sequence == old(self).heartbeat_sequence,
            final(self).draining == old(self).draining,
            final(self).pending_heartbeat == (if step == SessionStep::HeartbeatAnswered {
                None
            } else {
                old(self).pending_heartbeat
            }),
            final(self).streams@ == (if is_oversized(frame) {
                without_stream(old(self).streams@, frame.stream_id)
            } else {
                old(self).streams@
            }),
    {
        match frame.frame_type {
            FrameType::Pong => {
                let got: u64 = match decode_heartbeat(&frame) {
                    None => {
                        return SessionStep::Fail(
                            AgentTransportError::InvalidHeartbeatPayload {
                                frame_type: FrameType::Pong,
                            },
                        );
                    },
                    Some(got) => got,
                };
                match self.pending_heartbeat {
                    None => SessionStep::Fail(
                        AgentTransportError::ProtocolViolation {
                            reason: ProtocolViolation::UnsolicitedPong,
                        },
                    ),
                    Some(expected) => {
                        if got != expected {
                            return SessionStep::Fail(
                                AgentTransportError::HeartbeatSequenceMismatch { expected, got },
                            );
                        }
                        self.pending_heartbeat = None;
                        SessionStep::HeartbeatAnswered
                    },
                }
            },
            FrameType::OpenStream
            | FrameType::Data
            | FrameType::EndStream
            | FrameType::ResetStream => {
                if frame.frame_type == FrameType::Data && frame.payload_len
                    > MULTIPLEXED_DATA_PAYLOAD_SIZE {
                    self.drop_stream(frame.stream_id);
                    return SessionStep::Reset {
                        stream_id: frame.stream_id,
                        code: StreamResetCode::FlowControlExceeded,
                    };
                }
                if self.has_stream(frame.stream_id) {
                    SessionStep::Deliver
                } else if frame.frame_type == FrameType::ResetStream {
                    SessionStep::Continue
                } else {
                    SessionStep::Reset {
                        stream_id: frame.stream_id,
                        code: StreamResetCode::UnknownStream,
                    }
                }
            },
            FrameType::Error => SessionStep::Fail(
                AgentTransportError::ProtocolViolation { reason: ProtocolViolation::AgentError },
            ),
            _ => SessionStep::Fail(
                AgentTransportError::ProtocolViolation {
                    reason: ProtocolViolation::UnexpectedFrame,
                },
            ),
        }
    }

    /// Takes how a stream took its frame; one that could not is closed.
    pub fn frame_delivered(&mut self, frame: SessionFrame, delivery: Delivery) -> (step:
        SessionStep)
        requires
            old(self).wf(),
        ensures
            final(self).wf(),
            same_but_streams(*final(self), *old(self)),
            step == delivery_leads_to(frame, delivery),
            final(self).streams@ == (if delivery == Delivery::Accepted {
                old(self).streams@
            } else {
                without_stream(old(self).streams@, frame.stream_id)
            }),
    {
        match delivery {
            Delivery::Accepted => SessionStep::Continue,
            Delivery::Full => {
                self.drop_stream(frame.stream_id);
                SessionStep::Reset {
                    stream_id: frame.stream_id,
                    code: StreamResetCode::FlowControlExceeded,
                }
            },
            Delivery::Closed => {
                self.drop_stream(frame.stream_id);
                if frame.frame_type == FrameType::ResetStream {
                    SessionStep::Continue
                } else {
                    SessionStep::Reset {
                        stream_id: frame.stream_id,
                        code: StreamResetCode::UnknownStream,
                    }
                }
            },
        }
    }

    /// Opens a stream, where the session does not drain, has room, and has a
    /// number left.
    pub fn open_requested(&mut self) -> (result: Result<StreamId, RouteError>)
        requires
            old(self).wf(),
        ensures
            result == stream_offered(*old(self)),
            final(self).wf(),
            final(self).session_id == old(self).session_id,
            final(self).max_streams == old(self).max_streams,
            final(self).heartbeat_sequence == old(self).heartbeat_sequence,
            final(self).pending_heartbeat == old(self).pending_heartbeat,
            final(self).draining == old(self).draining,
            if old(self).draining {
                result == Err::<StreamId, _>(RouteError::RuntimeDraining)
            } else if old(self).streams@.len() == old(self).max_streams {
                result == Err::<StreamId, _>(RouteError::CapacityExceeded(old(self).session_id))
            } else if old(self).next_stream_id == 0 {
                result == Err::<StreamId, _>(RouteError::StreamIdExhausted(old(self).session_id))
            } else {
                result == Ok::<_, RouteError>(StreamId { value: old(self).next_stream_id })
            },
            match result {
                Err(_) => final(self).streams@ == old(self).streams@ && final(self).next_stream_id
                    == old(self).next_stream_id,
                Ok(id) => {
                    &&& !old(self).streams@.contains(id)
                    &&& final(self).streams@ == old(self).streams@.push(id)
                    &&& final(self).next_stream_id == (if old(self).next_stream_id == u32::MAX {
                        0
                    } else {
                        old(self).next_stream_id + 1
                    })
                },
            },
    {
        if self.draining {
            return Err(RouteError::RuntimeDraining);
        }
        if self.streams.len() >= self.max_streams {
            return Err(RouteError::CapacityExceeded(self.session_id));
        }
        let id: StreamId = match StreamId::new(self.next_stream_id) {
            None => return Err(RouteError::StreamIdExhausted(self.session_id)),
            Some(id) => id,
        };
        self.next_stream_id = if self.next_stream_id == u32::MAX {
            0
        } else {
            self.next_stream_id + 1
        };
        self.streams.push(id);
        proof {
            let before: Seq<StreamId> = old(self).streams@;
            assert forall|i: int| 0 <= i < before.len() implies before[i] != id by {
                assert(before[i].value < old(self).next_stream_id);
            }
        }
        Ok(id)
    }

    /// Drains from now on; a session without streams ends at once.
    pub fn begin_drain(&mut self) -> (step: SessionStep)
        requires
            old(self).wf(),
        ensures
            step == goes_on(true, final(self).streams@.len()),
            final(self).wf(),
            final(self).draining,
            final(self).streams@ == old(self).streams@,
            final(self).next_stream_id == old(self).next_stream_id,
            final(self).session_id == old(self).session_id,
            final(self).max_streams == old(self).max_streams,
            final(self).heartbeat_sequence == old(self).heartbeat_sequence,
            final(self).pending_heartbeat == old(self).pending_heartbeat,
            step == (if old(self).streams@.len() == 0 {
                SessionStep::Stop
            } else {
                SessionStep::Continue
            }),
    {
        self.draining = true;
        if self.streams.len() == 0 {
            SessionStep::Stop
        } else {
            SessionStep::Continue
        }
    }

    /// Notes that a stream has ended; the last one ends a session that drains.
    pub fn stream_closed(&mut self, id: StreamId) -> (step: SessionStep)
        requires
            old(self).wf(),
        ensures
            step == goes_on(old(self).draining, final(self).streams@.len()),
            final(self).wf(),
            same_but_streams(*final(self), *old(self)),
            final(self).streams@ == without_stream(old(self).streams@, id),
            step == (if old(self).draining && final(self).streams@.len() == 0 {
                SessionStep::Stop
            } else {
                SessionStep::Continue
            }),
    {
        self.drop_stream(id);
        if self.draining && self.streams.len() == 0 {
            SessionStep::Stop
        } else {
            SessionStep::Continue
        }
    }

    /// Sends the next heartbeat, unless the last one was not answered.
    pub fn heartbeat_due(&mut self) -> (step: SessionStep)
        requires
            old(self).wf(),
        ensures
            step == heartbeat_leads_to(*old(self)),
            final(self).wf(),
            final(self).streams@ == old(self).streams@,
            final(self).session_id == old(self).session_id,
            final(self).max_streams == old(self).max_streams,
            final(self).next_stream_id == old(self).next_stream_id,
            final(self).draining == old(self).draining,
            match old(self).pending_heartbeat {
                Some(sequence) => {
                    &&& step == SessionStep::Fail(
                        AgentTransportError::HeartbeatTimeout { sequence },
                    )
                    &&& final(self).pending_heartbeat == old(self).pending_heartbeat
                    &&& final(self).heartbeat_sequence == old(self).heartbeat_sequence
                },
                None => {
                    let last = old(self).heartbeat_sequence == u64::MAX;
                    &&& step == (SessionStep::Ping {
                        sequence: old(self).heartbeat_sequence,
                        last,
                    })
                    &&& final(self).pending_heartbeat == Some(old(self).heartbeat_sequence)
                    &&& final(self).heartbeat_sequence == (if last {
                        u64::MAX as int
                    } else {
                        old(self).heartbeat_sequence + 1
                    })
                },
            },
    {
        if let Some(sequence) = self.pending_heartbeat {
            return SessionStep::Fail(AgentTransportError::HeartbeatTimeout { sequence });
        }
        let sequence: u64 = self.heartbeat_sequence;
        self.pending_heartbeat = Some(sequence);
        if sequence == u64::MAX {
            return SessionStep::Ping { sequence, last: true };
        }
        self.heartbeat_sequence = sequence + 1;
        SessionStep::Ping { sequence, last: false }
    }
}

/// A closed stream is gone, and every other one is untouched.
pub proof fn closing_a_stream_touches_no_other(
    streams: Seq<StreamId>,
    id: StreamId,
    other: StreamId,
)
    ensures
        !without_stream(streams, id).contains(id),
        other != id ==> (without_stream(streams, id).contains(other) <==> streams.contains(other)),
{
    lemma_without(streams, id);
}

/// A frame of an open stream goes to that stream, whatever its kind, as long as it
/// carries no more data than a frame may.
pub proof fn frames_of_open_streams_are_delivered(session: EdgeSession, frame: SessionFrame)
    requires
        session.streams@.contains(frame.stream_id),
        frame.frame_type == FrameType::OpenStream || frame.frame_type == FrameType::Data
            || frame.frame_type == FrameType::EndStream || frame.frame_type
            == FrameType::ResetStream,
        frame.frame_type == FrameType::Data ==> frame.payload_len <= 16 * 1024,
    ensures
        frame_leads_to(session, frame) == SessionStep::Deliver,
{
}

/// A frame of a stream that is not open reaches none: the Agent is told that the stream
/// is unknown, unless the frame itself was a reset; and data beyond the bound resets its
/// stream.
pub proof fn frames_of_other_streams_are_not_delivered(session: EdgeSession, frame: SessionFrame)
    ensures
        frame_leads_to(session, frame) == SessionStep::Deliver ==> session.streams@.contains(
            frame.stream_id,
        ),
        !session.streams@.contains(frame.stream_id) && frame.frame_type == FrameType::ResetStream
            ==> frame_leads_to(session, frame) == SessionStep::Continue,
        !session.streams@.contains(frame.stream_id) && (frame.frame_type == FrameType::OpenStream
            || frame.frame_type == FrameType::EndStream) ==> frame_leads_to(session, frame) == (
        SessionStep::Reset { stream_id: frame.stream_id, code: StreamResetCode::UnknownStream }),
        !session.streams@.contains(frame.stream_id) && frame.frame_type == FrameType::Data
            && frame.payload_len <= 16 * 1024 ==> frame_leads_to(session, frame) == (
        SessionStep::Reset { stream_id: frame.stream_id, code: StreamResetCode::UnknownStream }),
        frame.frame_type == FrameType::Data && frame.payload_len > 16 * 1024 ==> frame_leads_to(
            session,
            frame,
        ) == (SessionStep::Reset {
            stream_id: frame.stream_id,
            code: StreamResetCode::FlowControlExceeded,
        }),
{
}

/// A heartbeat is answered just by a PONG of eight bytes with the number that was sent
/// last; every other PONG fails the session.
pub proof fn heartbeats_are_answered_by_their_number(session: EdgeSession, frame: SessionFrame)
    ensures
        frame_leads_to(session, frame) == SessionStep::HeartbeatAnswered <==> frame.frame_type
            == FrameType::Pong && frame.payload_len == 8 && frame.heartbeat is Some
            && session.pending_heartbeat == frame.heartbeat,
        frame.frame_type == FrameType::Pong && frame_leads_to(session, frame)
            != SessionStep::HeartbeatAnswered ==> frame_leads_to(session, frame) is Fail,
        frame_leads_to(session, frame) is Fail ==> frame.frame_type != FrameType::OpenStream
            && frame.frame_type != FrameType::Data && frame.frame_type != FrameType::EndStream
            && frame.frame_type != FrameType::ResetStream,
        frame.frame_type != FrameType::Pong && frame.frame_type != FrameType::OpenStream
            && frame.frame_type != FrameType::Data && frame.frame_type != FrameType::EndStream
            && frame.frame_type != FrameType::ResetStream ==> frame_leads_to(session, frame)
            is Fail,
{
}

/// A frame that its stream takes is settled; one that a full stream cannot take resets
/// it, and one that comes too late is answered as for an unknown stream, unless it was a
/// reset itself.
pub proof fn deliveries_are_settled(frame: SessionFrame)
    ensures
        delivery_leads_to(frame, Delivery::Accepted) == SessionStep::Continue,
        delivery_leads_to(frame, Delivery::Full) == (SessionStep::Reset {
            stream_id: frame.stream_id,
            code: StreamResetCode::FlowControlExceeded,
        }),
        frame.frame_type != FrameType::ResetStream ==> delivery_leads_to(frame, Delivery::Closed)
            == (SessionStep::Reset {
            stream_id: frame.stream_id,
            code: StreamResetCode::UnknownStream,
        }),
        frame.frame_type == FrameType::ResetStream ==> delivery_leads_to(frame, Delivery::Closed)
            == SessionStep::Continue,
{
}

/// A session that does not drain and has room opens the next stream under the next number,
/// and one that cannot says why.
pub proof fn sessions_open_streams_while_they_can(session: EdgeSession)
    requires
        session.wf(),
    ensures
        !session.draining && session.streams@.len() < session.max_streams && session.next_stream_id
            != 0 ==> (stream_offered(session) matches Ok(id) && id.value == session.next_stream_id
            && !session.streams@.contains(id)),
        session.draining ==> stream_offered(session) == Err::<StreamId, _>(
            RouteError::RuntimeDraining,
        ),
        !session.draining && session.streams@.len() >= session.max_streams ==> stream_offered(
            session,
        ) == Err::<StreamId, _>(RouteError::CapacityExceeded(session.session_id)),
        !session.draining && session.streams@.len() < session.max_streams && session.next_stream_id
            == 0 ==> stream_offered(session) == Err::<StreamId, _>(
            RouteError::StreamIdExhausted(session.session_id),
        ),
{
    let id = StreamId { value: session.next_stream_id };
    if session.streams@.contains(id) {
        let k: int = choose|k: int| 0 <= k < session.streams@.len() && session.streams@[k] == id;
        assert(session.streams@[k].value == session.next_stream_id);
    }
}

/// A heartbeat is sent where the last one was answered; one that was not fails the
/// session.
pub proof fn silent_agents_lose_their_session(session: EdgeSession)
    ensures
        session.pending_heartbeat is None ==> (heartbeat_leads_to(session)
            matches SessionStep::Ping { sequence, last } && sequence == session.heartbeat_sequence),
        session.pending_heartbeat is Some ==> heartbeat_leads_to(session) == SessionStep::Fail(
            AgentTransportError::HeartbeatTimeout { sequence: session.pending_heartbeat->0 },
        ),
{
}

/// A session ends by itself just once it drains and its last stream has closed.
pub proof fn drained_sessions_end(draining: bool, open_streams: nat)
    ensures
        goes_on(draining, open_streams) == SessionStep::Stop <==> draining && open_streams == 0,
        goes_on(draining, open_streams) == SessionStep::Continue <==> !draining || open_streams
            > 0,
{
}

} // verus!
