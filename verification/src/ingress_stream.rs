//! The course of one stream: it is opened at the Agent, carries bytes both ways,
//! and ends.

use vstd::prelude::*;

use crate::edge_session::{decode_reset, reset_in, SessionFrame};
use crate::protocol::{FrameType, RouteError, StreamId, StreamResetCode, TransportSessionId};

verus! {

/// Why a stream released its ingress connection.
#[derive(Debug, Clone, Copy, PartialEq, Eq, Structural)]
pub enum RoutedStreamCloseReason {
    Graceful,
    PeerReset(StreamResetCode),
    SessionClosed,
    IoFailure,
    OpenTimeout,
    IdleTimeout,
    ProtocolViolation,
}

/// A stream that an Agent acknowledged.
#[derive(Debug, Clone, Copy, PartialEq, Eq, Structural)]
pub struct RoutedStream {
    pub session_id: TransportSessionId,
    pub stream_id: StreamId,
}

impl RoutedStream {
    /// Why the stream released its connection, where `reported` is what its task said,
    /// if it said anything: a task that is gone went with its session.
    pub fn wait_closed(self, reported: Option<RoutedStreamCloseReason>) -> (reason:
        RoutedStreamCloseReason)
        ensures
            reason == (match reported {
                Some(reason) => reason,
                None => RoutedStreamCloseReason::SessionClosed,
            }),
    {
        match reported {
            Some(reason) => reason,
            None => RoutedStreamCloseReason::SessionClosed,
        }
    }
}

/// Why a stream could not be opened.
#[derive(Debug, Clone, Copy, PartialEq, Eq, Structural)]
pub enum StreamRefusal {
    SessionClosing,
    StreamRejected(StreamResetCode),
    OpenTimeout,
}

/// What a stream does next.
#[derive(Debug, Clone, Copy, PartialEq, Eq, Structural)]
pub enum StreamStep {
    /// It waits for the Agent to open it.
    AwaitOpen,
    /// It is open.
    Opened,
    /// It could not be opened: the one who asked is told why, the Agent is told
    /// that it is reset where it must be, and it ends.
    Refused {
        refusal: StreamRefusal,
        reset: Option<StreamResetCode>,
        reason: RoutedStreamCloseReason,
    },
    /// The frame's bytes go to the ingress connection.
    WriteToIngress,
    /// Nothing more comes from the Agent: the ingress connection's input is closed.
    EndIngress,
    /// So many bytes of the ingress connection go to the Agent.
    SendData(usize),
    /// Nothing more comes from the ingress connection: the Agent is told.
    SendEnd,
    /// It goes on.
    Continue,
    /// It ends; the Agent is told that it is reset where it must be.
    Closed { reset: Option<StreamResetCode>, reason: RoutedStreamCloseReason },
}

/// What happened on a stream that is not open yet.
#[derive(Debug, Clone, Copy, PartialEq, Eq, Structural)]
pub enum OpeningEvent {
    /// The Agent was asked to open it, or could not be.
    OpenSent { sent: bool },
    /// A frame came.
    Inbound(SessionFrame),
    /// The session has ended.
    SessionEnded,
    /// The Agent did not answer in time.
    TimedOut,
}

/// What happened on an open stream.
#[derive(Debug, Clone, Copy, PartialEq, Eq, Structural)]
pub enum StreamEvent {
    /// A frame came.
    Inbound(SessionFrame),
    /// The session has ended.
    SessionEnded,
    /// A frame's bytes were written to the ingress connection, or could not be.
    IngressWritten { written: bool },
    /// The ingress connection's input was closed, or could not be.
    IngressEnded { ended: bool },
    /// So many bytes came from the ingress connection; none means that it ended.
    IngressRead(usize),
    IngressReadFailed,
    /// Bytes, or the end, were handed to the session, or could not be.
    Sent { sent: bool },
    /// Nothing moved for too long.
    Idle,
}

/// A stream: whose it is, and which sides have ended.
#[derive(Debug, Clone, Copy, PartialEq, Eq, Structural)]
pub struct IngressStream {
    pub session_id: TransportSessionId,
    pub stream_id: StreamId,
    pub ingress_ended: bool,
    pub agent_ended: bool,
}

/// The error for a stream that could not be opened.
pub fn refusal_error(stream: &IngressStream, refusal: StreamRefusal) -> (error: RouteError)
    ensures
        error == (match refusal {
            StreamRefusal::SessionClosing => RouteError::SessionClosing(stream.session_id),
            StreamRefusal::StreamRejected(code) => RouteError::StreamRejected(code),
            StreamRefusal::OpenTimeout => RouteError::OpenTimeout(stream.stream_id),
        }),
{
    match refusal {
        StreamRefusal::SessionClosing => RouteError::SessionClosing(stream.session_id),
        StreamRefusal::StreamRejected(code) => RouteError::StreamRejected(code),
        StreamRefusal::OpenTimeout => RouteError::OpenTimeout(stream.stream_id),
    }
}

/// What the frame that answers an opening leads to: an OPEN_STREAM without a
/// payload opens the stream, and nothing else does.
pub open spec fn answer_leads_to(frame: SessionFrame) -> StreamStep {
    if frame.frame_type == FrameType::OpenStream && frame.payload_len == 0 {
        StreamStep::Opened
    } else if frame.frame_type == FrameType::ResetStream {
        let code = match reset_in(frame) {
            Some(code) => code,
            None => StreamResetCode::ProtocolViolation,
        };
        StreamStep::Refused {
            refusal: StreamRefusal::StreamRejected(code),
            reset: None,
            reason: RoutedStreamCloseReason::PeerReset(code),
        }
    } else {
        StreamStep::Refused {
            refusal: StreamRefusal::StreamRejected(StreamResetCode::ProtocolViolation),
            reset: Some(StreamResetCode::ProtocolViolation),
            reason: RoutedStreamCloseReason::ProtocolViolation,
        }
    }
}

/// What an event leads to while a stream is opened.
pub open spec fn opening_leads_to(event: OpeningEvent) -> StreamStep {
    match event {
        OpeningEvent::OpenSent { sent } => if sent {
            StreamStep::AwaitOpen
        } else {
            StreamStep::Refused {
                refusal: StreamRefusal::SessionClosing,
                reset: None,
                reason: RoutedStreamCloseReason::SessionClosed,
            }
        },
        OpeningEvent::Inbound(frame) => answer_leads_to(frame),
        OpeningEvent::SessionEnded => StreamStep::Refused {
            refusal: StreamRefusal::SessionClosing,
            reset: None,
            reason: RoutedStreamCloseReason::SessionClosed,
        },
        OpeningEvent::TimedOut => StreamStep::Refused {
            refusal: StreamRefusal::OpenTimeout,
            reset: Some(StreamResetCode::OpenTimeout),
            reason: RoutedStreamCloseReason::OpenTimeout,
        },
    }
}

/// The step that ends a stream with a reset.
pub open spec fn closing_with(code: StreamResetCode, reason: RoutedStreamCloseReason) -> StreamStep {
    StreamStep::Closed { reset: Some(code), reason }
}

/// The step that ends a stream without one.
pub open spec fn closing(reason: RoutedStreamCloseReason) -> StreamStep {
    StreamStep::Closed { reset: None, reason }
}

/// Whether a stream goes on, or has ended on both sides.
pub open spec fn going_on(stream: IngressStream) -> StreamStep {
    if stream.ingress_ended && stream.agent_ended {
        closing(RoutedStreamCloseReason::Graceful)
    } else {
        StreamStep::Continue
    }
}

/// What a frame leads to on an open stream.
pub open spec fn inbound_leads_to(stream: IngressStream, frame: SessionFrame) -> (
    IngressStream,
    StreamStep,
) {
    if frame.frame_type == FrameType::Data && !stream.agent_ended {
        (stream, StreamStep::WriteToIngress)
    } else if frame.frame_type == FrameType::EndStream && frame.payload_len == 0
        && !stream.agent_ended {
        (IngressStream { agent_ended: true, ..stream }, StreamStep::EndIngress)
    } else if frame.frame_type == FrameType::ResetStream && reset_in(frame) is Some {
        (stream, closing(RoutedStreamCloseReason::PeerReset(reset_in(frame)->0)))
    } else {
        (
            stream,
            closing_with(
                StreamResetCode::ProtocolViolation,
                RoutedStreamCloseReason::ProtocolViolation,
            ),
        )
    }
}

/// What an event leads to on an open stream.
pub open spec fn stream_leads_to(stream: IngressStream, event: StreamEvent) -> (
    IngressStream,
    StreamStep,
) {
    match event {
        StreamEvent::Inbound(frame) => inbound_leads_to(stream, frame),
        StreamEvent::SessionEnded => (stream, closing(RoutedStreamCloseReason::SessionClosed)),
        StreamEvent::IngressWritten { written } => (
            stream,
            if written {
                going_on(stream)
            } else {
                closing_with(StreamResetCode::IoFailure, RoutedStreamCloseReason::IoFailure)
            },
        ),
        StreamEvent::IngressEnded { ended } => (
            stream,
            if ended {
                going_on(stream)
            } else {
                closing_with(StreamResetCode::IoFailure, RoutedStreamCloseReason::IoFailure)
            },
        ),
        StreamEvent::IngressRead(count) => if count == 0 {
            (IngressStream { ingress_ended: true, ..stream }, StreamStep::SendEnd)
        } else {
            (stream, StreamStep::SendData(count))
        },
        StreamEvent::IngressReadFailed => (
            stream,
            closing_with(StreamResetCode::IoFailure, RoutedStreamCloseReason::IoFailure),
        ),
        StreamEvent::Sent { sent } => (
            stream,
            if sent {
                going_on(stream)
            } else {
                closing(RoutedStreamCloseReason::SessionClosed)
            },
        ),
        StreamEvent::Idle => (
            stream,
            closing_with(StreamResetCode::IdleTimeout, RoutedStreamCloseReason::IdleTimeout),
        ),
    }
}

/// Whether the time in which something must move on the stream starts anew with an
/// event: with every frame, and with every read that brought bytes.
pub open spec fn is_activity(event: StreamEvent) -> bool {
    match event {
        StreamEvent::Inbound(_) => true,
        StreamEvent::IngressRead(count) => count > 0,
        _ => false,
    }
}

/// Whether the time in which something must move on the stream starts anew with an
/// event: with every frame, and with every read that brought bytes.
pub fn restarts_idle_time(event: StreamEvent) -> (restarts: bool)
    ensures
        restarts == is_activity(event),
{
    match event {
        StreamEvent::Inbound(_) => true,
        StreamEvent::IngressRead(count) => count > 0,
        _ => false,
    }
}

impl IngressStream {
    /// A stream that neither side has ended.
    pub fn start(session_id: TransportSessionId, stream_id: StreamId) -> (stream: IngressStream)
        ensures
            stream == (IngressStream {
                session_id,
                stream_id,
                ingress_ended: false,
                agent_ended: false,
            }),
    {
        IngressStream { session_id, stream_id, ingress_ended: false, agent_ended: false }
    }

    /// Takes what happened while the stream is opened.
    pub fn opening(&self, event: OpeningEvent) -> (step: StreamStep)
        ensures
            step == opening_leads_to(event),
    {
        match event {
            OpeningEvent::OpenSent { sent } => {
                if sent {
                    StreamStep::AwaitOpen
                } else {
                    StreamStep::Refused {
                        refusal: StreamRefusal::SessionClosing,
                        reset: None,
                        reason: RoutedStreamCloseReason::SessionClosed,
                    }
                }
            },
            OpeningEvent::Inbound(frame) => {
                if frame.frame_type == FrameType::OpenStream && frame.payload_len == 0 {
                    return StreamStep::Opened;
                }
                if frame.frame_type == FrameType::ResetStream {
                    let code: StreamResetCode = match decode_reset(&frame) {
                        Some(code) => code,
                        None => StreamResetCode::ProtocolViolation,
                    };
                    return StreamStep::Refused {
                        refusal: StreamRefusal::StreamRejected(code),
                        reset: None,
                        reason: RoutedStreamCloseReason::PeerReset(code),
                    };
                }
                StreamStep::Refused {
                    refusal: StreamRefusal::StreamRejected(StreamResetCode::ProtocolViolation),
                    reset: Some(StreamResetCode::ProtocolViolation),
                    reason: RoutedStreamCloseReason::ProtocolViolation,
                }
            },
            OpeningEvent::SessionEnded => StreamStep::Refused {
                refusal: StreamRefusal::SessionClosing,
                reset: None,
                reason: RoutedStreamCloseReason::SessionClosed,
            },
            OpeningEvent::TimedOut => StreamStep::Refused {
                refusal: StreamRefusal::OpenTimeout,
                reset: Some(StreamResetCode::OpenTimeout),
                reason: RoutedStreamCloseReason::OpenTimeout,
            },
        }
    }

    fn go_on(&self) -> (step: StreamStep)
        ensures
            step == going_on(*self),
    {
        if self.ingress_ended && self.agent_ended {
            StreamStep::Closed { reset: None, reason: RoutedStreamCloseReason::Graceful }
        } else {
            StreamStep::Continue
        }
    }

    /// Takes what happened on the open stream; [`restarts_idle_time`] says whether the
    /// time until it is idle starts anew.
    pub fn step(&mut self, event: StreamEvent) -> (step: StreamStep)
        ensures
            (*final(self), step) == stream_leads_to(*old(self), event),
    {
        match event {
            StreamEvent::Inbound(frame) => {
                if frame.frame_type == FrameType::Data && !self.agent_ended {
                    return StreamStep::WriteToIngress;
                }
                if frame.frame_type == FrameType::EndStream && frame.payload_len == 0
                    && !self.agent_ended {
                    self.agent_ended = true;
                    return StreamStep::EndIngress;
                }
                if frame.frame_type == FrameType::ResetStream {
                    if let Some(code) = decode_reset(&frame) {
                        return StreamStep::Closed {
                            reset: None,
                            reason: RoutedStreamCloseReason::PeerReset(code),
                        };
                    }
                }
                StreamStep::Closed {
                    reset: Some(StreamResetCode::ProtocolViolation),
                    reason: RoutedStreamCloseReason::ProtocolViolation,
                }
            },
            StreamEvent::SessionEnded => StreamStep::Closed {
                reset: None,
                reason: RoutedStreamCloseReason::SessionClosed,
            },
            StreamEvent::IngressWritten { written: done }
            | StreamEvent::IngressEnded { ended: done } => {
                if done {
                    self.go_on()
                } else {
                    StreamStep::Closed {
                        reset: Some(StreamResetCode::IoFailure),
                        reason: RoutedStreamCloseReason::IoFailure,
                    }
                }
            },
            StreamEvent::IngressRead(count) => {
                if count == 0 {
                    self.ingress_ended = true;
                    StreamStep::SendEnd
                } else {
                    StreamStep::SendData(count)
                }
            },
            StreamEvent::IngressReadFailed => StreamStep::Closed {
                reset: Some(StreamResetCode::IoFailure),
                reason: RoutedStreamCloseReason::IoFailure,
            },
            StreamEvent::Sent { sent } => {
                if sent {
                    self.go_on()
                } else {
                    StreamStep::Closed {
                        reset: None,
                        reason: RoutedStreamCloseReason::SessionClosed,
                    }
                }
            },
            StreamEvent::Idle => StreamStep::Closed {
                reset: Some(StreamResetCode::IdleTimeout),
                reason: RoutedStreamCloseReason::IdleTimeout,
            },
        }
    }
}

/// A stream ends gracefully just where both sides have ended, and then without a
/// reset; an end that one side has declared stays declared.
pub proof fn graceful_streams_ended_on_both_sides(stream: IngressStream, event: StreamEvent)
    ensures
        stream_leads_to(stream, event).1 matches StreamStep::Closed { reset, reason } && reason
            == RoutedStreamCloseReason::Graceful ==> stream_leads_to(stream, event).0.ingress_ended
            && stream_leads_to(stream, event).0.agent_ended && (stream_leads_to(
            stream,
            event,
        ).1)->Closed_reset is None,
        stream.ingress_ended ==> stream_leads_to(stream, event).0.ingress_ended,
        stream.agent_ended ==> stream_leads_to(stream, event).0.agent_ended,
{
}

/// Once the Agent has ended its side, more of its data is a violation.
pub proof fn data_after_the_end_is_refused(stream: IngressStream, frame: SessionFrame)
    requires
        stream.agent_ended,
        frame.frame_type == FrameType::Data || frame.frame_type == FrameType::EndStream,
    ensures
        stream_leads_to(stream, StreamEvent::Inbound(frame)).1 == closing_with(
            StreamResetCode::ProtocolViolation,
            RoutedStreamCloseReason::ProtocolViolation,
        ),
{
}

/// Every data frame that the Agent sends before it ends its side is written to the
/// ingress connection, and leaves the stream as it was.
pub proof fn data_of_the_agent_reaches_the_client(stream: IngressStream, frame: SessionFrame)
    requires
        !stream.agent_ended,
        frame.frame_type == FrameType::Data,
    ensures
        stream_leads_to(stream, StreamEvent::Inbound(frame)) == (
            stream,
            StreamStep::WriteToIngress,
        ),
{
}

/// The frames among those that come whose bytes are written to the ingress connection,
/// until one of them ends the stream.
pub open spec fn frames_written(stream: IngressStream, frames: Seq<SessionFrame>) -> Seq<
    SessionFrame,
>
    decreases frames.len(),
{
    if frames.len() == 0 {
        Seq::empty()
    } else {
        let (after, step) = stream_leads_to(stream, StreamEvent::Inbound(frames[0]));
        if step is Closed {
            Seq::empty()
        } else {
            (if step == StreamStep::WriteToIngress { seq![frames[0]] } else { Seq::empty() })
                + frames_written(after, frames.skip(1))
        }
    }
}

/// The client gets the data frames of the Agent whole and in order: of data that the
/// Agent ends, every frame is written, none twice and none out of its place, and nothing
/// that comes after the end.
pub proof fn the_client_gets_what_the_agent_sent(
    stream: IngressStream,
    data: Seq<SessionFrame>,
    end: SessionFrame,
    later: Seq<SessionFrame>,
)
    requires
        !stream.agent_ended,
        forall|i: int|
            0 <= i < data.len() ==> (#[trigger] data[i]).frame_type == FrameType::Data,
        end.frame_type == FrameType::EndStream,
        end.payload_len == 0,
    ensures
        frames_written(stream, data) == data,
        frames_written(stream, data + seq![end] + later) == data,
    decreases data.len(),
{
    reveal_with_fuel(frames_written, 2);
    let all: Seq<SessionFrame> = data + seq![end] + later;
    if data.len() == 0 {
        let ended: IngressStream = IngressStream { agent_ended: true, ..stream };
        assert(all[0] == end);
        assert(all.skip(1) =~= later);
        lemma_nothing_is_written_after_the_end(ended, later);
        assert(frames_written(stream, all) =~= data);
    } else {
        let rest: Seq<SessionFrame> = data.skip(1);
        assert forall|i: int| 0 <= i < rest.len() implies (#[trigger] rest[i]).frame_type
            == FrameType::Data by {
            assert(rest[i] == data[i + 1]);
        }
        the_client_gets_what_the_agent_sent(stream, rest, end, later);
        data_of_the_agent_reaches_the_client(stream, data[0]);
        assert(all[0] == data[0]);
        assert(all.skip(1) =~= rest + seq![end] + later);
        assert(seq![data[0]] + rest =~= data);
    }
}

proof fn lemma_nothing_is_written_after_the_end(stream: IngressStream, frames: Seq<SessionFrame>)
    requires
        stream.agent_ended,
    ensures
        frames_written(stream, frames) == Seq::<SessionFrame>::empty(),
    decreases frames.len(),
{
    if frames.len() > 0 {
        let (after, step) = stream_leads_to(stream, StreamEvent::Inbound(frames[0]));
        if !(step is Closed) {
            lemma_nothing_is_written_after_the_end(after, frames.skip(1));
            assert(frames_written(stream, frames) =~= Seq::<SessionFrame>::empty());
        }
    }
}

/// Every byte that is read from the ingress connection goes to the Agent, as many as
/// were read; the end of its input is told to the Agent, and nothing else is.
pub proof fn bytes_of_the_client_reach_the_agent(stream: IngressStream, count: usize)
    ensures
        count > 0 ==> stream_leads_to(stream, StreamEvent::IngressRead(count)) == (
            stream,
            StreamStep::SendData(count),
        ),
        stream_leads_to(stream, StreamEvent::IngressRead(0)).1 == StreamStep::SendEnd,
        stream_leads_to(stream, StreamEvent::IngressRead(0)).0.ingress_ended,
        stream_leads_to(stream, StreamEvent::IngressRead(0)).0.agent_ended == stream.agent_ended,
{
}

/// Each side closes its half alone: an end of the Agent closes the ingress connection's
/// input and leaves the other half open, and the other way round.
pub proof fn halves_close_apart(stream: IngressStream, event: StreamEvent, frame: SessionFrame)
    requires
        frame.frame_type == FrameType::EndStream,
        frame.payload_len == 0,
        !stream.agent_ended,
    ensures
        stream_leads_to(stream, StreamEvent::Inbound(frame)).1 == StreamStep::EndIngress,
        stream_leads_to(stream, StreamEvent::Inbound(frame)).0.agent_ended,
        stream_leads_to(stream, StreamEvent::Inbound(frame)).0.ingress_ended
            == stream.ingress_ended,
        !stream.ingress_ended && stream_leads_to(stream, event).0.ingress_ended ==> event
            == StreamEvent::IngressRead(0),
        stream_leads_to(stream, event).0.agent_ended ==> (event matches StreamEvent::Inbound(f)
            && f.frame_type == FrameType::EndStream),
        stream_leads_to(stream, event).0.session_id == stream.session_id,
        stream_leads_to(stream, event).0.stream_id == stream.stream_id,
{
}

/// After each piece of work the stream goes on, unless both sides have ended: then it
/// is over, and without a reset.
pub proof fn work_that_succeeds_keeps_the_stream(stream: IngressStream)
    ensures
        forall|event: StreamEvent|
            #![trigger stream_leads_to(stream, event)]
            event == (StreamEvent::IngressWritten { written: true }) || event == (
            StreamEvent::IngressEnded { ended: true }) || event == (StreamEvent::Sent {
                sent: true,
            }) ==> stream_leads_to(stream, event) == (
                stream,
                if stream.ingress_ended && stream.agent_ended {
                    StreamStep::Closed { reset: None, reason: RoutedStreamCloseReason::Graceful }
                } else {
                    StreamStep::Continue
                },
            ),
{
}

/// What ends a stream early: a reset of the Agent ends it with the Agent's code and is
/// not answered; an idle stream and one whose connection fails are reset at the Agent;
/// and the end of the session ends the stream silently.
pub proof fn streams_end_for_their_reason(stream: IngressStream, frame: SessionFrame)
    ensures
        frame.frame_type == FrameType::ResetStream && frame.payload_len == 2 && frame.reset is Some
            ==> stream_leads_to(stream, StreamEvent::Inbound(frame)).1 == (StreamStep::Closed {
            reset: None,
            reason: RoutedStreamCloseReason::PeerReset(frame.reset->0),
        }),
        stream_leads_to(stream, StreamEvent::Idle).1 == (StreamStep::Closed {
            reset: Some(StreamResetCode::IdleTimeout),
            reason: RoutedStreamCloseReason::IdleTimeout,
        }),
        stream_leads_to(stream, StreamEvent::SessionEnded).1 == (StreamStep::Closed {
            reset: None,
            reason: RoutedStreamCloseReason::SessionClosed,
        }),
        stream_leads_to(stream, StreamEvent::Sent { sent: false }).1 == (StreamStep::Closed {
            reset: None,
            reason: RoutedStreamCloseReason::SessionClosed,
        }),
        forall|event: StreamEvent|
            #![trigger stream_leads_to(stream, event)]
            event == (StreamEvent::IngressWritten { written: false }) || event == (
            StreamEvent::IngressEnded { ended: false }) || event == StreamEvent::IngressReadFailed
                ==> stream_leads_to(stream, event).1 == (StreamStep::Closed {
                reset: Some(StreamResetCode::IoFailure),
                reason: RoutedStreamCloseReason::IoFailure,
            }),
{
}

/// A frame that an open stream does not expect ends it, and the Agent is told that it
/// broke the protocol.
pub proof fn unexpected_frames_are_violations(stream: IngressStream, frame: SessionFrame)
    requires
        frame.frame_type != FrameType::Data || stream.agent_ended,
        frame.frame_type != FrameType::EndStream || frame.payload_len > 0 || stream.agent_ended,
        frame.frame_type != FrameType::ResetStream || frame.payload_len != 2 || frame.reset is None,
    ensures
        stream_leads_to(stream, StreamEvent::Inbound(frame)).1 == (StreamStep::Closed {
            reset: Some(StreamResetCode::ProtocolViolation),
            reason: RoutedStreamCloseReason::ProtocolViolation,
        }),
{
}

/// A stream is open just once the Agent has answered with an empty OPEN_STREAM; until
/// then whoever asked for it is told why not, and an Agent that could still open it is
/// told that it is reset.
pub proof fn only_the_agent_opens_a_stream(event: OpeningEvent)
    ensures
        opening_leads_to(event) == StreamStep::Opened <==> (event matches OpeningEvent::Inbound(
            frame,
        ) && frame.frame_type == FrameType::OpenStream && frame.payload_len == 0),
        opening_leads_to(event) == StreamStep::AwaitOpen <==> event == (OpeningEvent::OpenSent {
            sent: true,
        }),
        opening_leads_to(event) is Opened || opening_leads_to(event) is AwaitOpen
            || opening_leads_to(event) is Refused,
        event matches OpeningEvent::Inbound(frame) && frame.frame_type == FrameType::ResetStream
            && frame.payload_len == 2 && frame.reset is Some ==> opening_leads_to(event) == (
        StreamStep::Refused {
            refusal: StreamRefusal::StreamRejected(event->Inbound_0.reset->0),
            reset: None,
            reason: RoutedStreamCloseReason::PeerReset(event->Inbound_0.reset->0),
        }),
        event matches OpeningEvent::Inbound(frame) && frame.frame_type != FrameType::ResetStream
            && !(frame.frame_type == FrameType::OpenStream && frame.payload_len == 0)
            ==> opening_leads_to(event) == (StreamStep::Refused {
            refusal: StreamRefusal::StreamRejected(StreamResetCode::ProtocolViolation),
            reset: Some(StreamResetCode::ProtocolViolation),
            reason: RoutedStreamCloseReason::ProtocolViolation,
        }),
        event == OpeningEvent::TimedOut ==> opening_leads_to(event) == (StreamStep::Refused {
            refusal: StreamRefusal::OpenTimeout,
            reset: Some(StreamResetCode::OpenTimeout),
            reason: RoutedStreamCloseReason::OpenTimeout,
        }),
        event == OpeningEvent::SessionEnded || event == (OpeningEvent::OpenSent { sent: false })
            ==> opening_leads_to(event) == (StreamStep::Refused {
            refusal: StreamRefusal::SessionClosing,
            reset: None,
            reason: RoutedStreamCloseReason::SessionClosed,
        }),
{
}

/// Whatever moves bytes or ends the Agent's side keeps a stream from being idle, and
/// nothing that merely waits or fails does.
pub proof fn idle_time_starts_anew_with_what_arrives(frame: SessionFrame, count: usize)
    ensures
        is_activity(StreamEvent::Inbound(frame)),
        is_activity(StreamEvent::IngressRead(count)) <==> count > 0,
        !is_activity(StreamEvent::Idle),
        !is_activity(StreamEvent::SessionEnded),
        !is_activity(StreamEvent::IngressReadFailed),
        forall|done: bool|
            !(#[trigger] is_activity(StreamEvent::Sent { sent: done })) && !is_activity(
                StreamEvent::IngressWritten { written: done },
            ) && !is_activity(StreamEvent::IngressEnded { ended: done }),
{
}

} // verus!
