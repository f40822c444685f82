//! The decisions that drive an HTTP/2 stream: piping a request body into the
//! stream, and reading, writing and shutting down a stream upgraded to a byte
//! tunnel. Each function takes what the `http2` crate reported and says what
//! the driver does next; the driver performs the calls.
use vstd::prelude::*;

verus! {

/// The HTTP/2 error code `NO_ERROR` (RFC 9113, section 7).
pub const NO_ERROR: u32 = 0x0;

/// The HTTP/2 error code `STREAM_CLOSED` (RFC 9113, section 7).
pub const STREAM_CLOSED: u32 = 0x5;

/// The HTTP/2 error code `CANCEL` (RFC 9113, section 7).
pub const CANCEL: u32 = 0x8;

/// What polling a stream for send capacity reported.
#[derive(Clone, Copy, Debug, PartialEq, Eq)]
pub enum CapacityEvent {
    /// The stream is no longer in a streaming state (`None`).
    Closed,
    /// This much capacity is available (`Some(Ok(n))`).
    Available(usize),
    /// Polling failed (`Some(Err(_))`).
    Failed,
}

/// What polling a stream for a reset reported, once it is ready.
#[derive(Clone, Copy, Debug, PartialEq, Eq)]
pub enum ResetEvent {
    /// The peer reset the stream with this error code (`Ok(reason)`).
    Reason(u32),
    /// Polling failed (`Err(_)`).
    Failed,
}

/// What polling a request body for its next frame reported.
#[derive(Clone, Copy, Debug, PartialEq, Eq)]
pub enum FrameEvent {
    /// A DATA frame; `end_of_stream` tells whether the body has ended with it.
    Data { end_of_stream: bool },
    /// A trailers frame.
    Trailers,
    /// A frame of another kind.
    Other,
    /// The body failed.
    Failed,
    /// The body has no more frames.
    Ended,
}

/// Why piping a body into a stream failed.
#[derive(Clone, Copy, Debug, PartialEq, Eq)]
pub enum PipeFailure {
    /// The stream stopped granting capacity: it was finished or reset.
    CapacityClosed,
    /// Writing to the stream failed.
    BodyWrite,
    /// The peer reset the stream with this error code.
    StreamReset(u32),
    /// The body itself failed; the stream is reset.
    UserBody,
}

/// Where piping a body into a stream stands.
#[derive(Clone, Copy, Debug, PartialEq, Eq)]
pub enum PipeState {
    /// Reserve one byte of capacity and read how much capacity there is.
    Reserve,
    /// No capacity: poll for some.
    AwaitCapacity,
    /// Capacity is there: check that the peer has not reset the stream.
    CheckReset,
    /// Read the body's next frame.
    PollFrame,
    /// Send a DATA frame of the body.
    SendData { end_of_stream: bool },
    /// Give back the capacity and send the trailers.
    SendTrailers,
    /// Send an empty DATA frame that ends the stream.
    SendEnd,
    /// The whole body was sent and the stream ended.
    Done,
    /// Piping failed.
    Failed(PipeFailure),
}

/// After reserving capacity: wait for capacity where there is none, else check
/// for a reset.
pub open spec fn pipe_after_reserve_spec(capacity: usize) -> PipeState {
    if capacity == 0 {
        PipeState::AwaitCapacity
    } else {
        PipeState::CheckReset
    }
}

/// On polled capacity: poll again on none, read a frame on some, and fail when
/// the stream fails or stops granting capacity.
pub open spec fn pipe_on_capacity_spec(event: CapacityEvent) -> PipeState {
    match event {
        CapacityEvent::Available(n) => if n == 0 {
            PipeState::AwaitCapacity
        } else {
            PipeState::PollFrame
        },
        CapacityEvent::Failed => PipeState::Failed(PipeFailure::BodyWrite),
        CapacityEvent::Closed => PipeState::Failed(PipeFailure::CapacityClosed),
    }
}

/// On the reset check: go on to the next frame while the stream stands, and
/// fail once the peer reset it or the check failed.
pub open spec fn pipe_on_reset_check_spec(reset: Option<ResetEvent>) -> PipeState {
    match reset {
        None => PipeState::PollFrame,
        Some(ResetEvent::Reason(r)) => PipeState::Failed(PipeFailure::StreamReset(r)),
        Some(ResetEvent::Failed) => PipeState::Failed(PipeFailure::BodyWrite),
    }
}

/// On the body's next frame: send data and trailers, skip other frames, reset
/// the stream on a failed body, and end the stream once the body ends.
pub open spec fn pipe_on_frame_spec(frame: FrameEvent) -> PipeState {
    match frame {
        FrameEvent::Data { end_of_stream } => PipeState::SendData { end_of_stream },
        FrameEvent::Trailers => PipeState::SendTrailers,
        FrameEvent::Other => PipeState::Reserve,
        FrameEvent::Failed => PipeState::Failed(PipeFailure::UserBody),
        FrameEvent::Ended => PipeState::SendEnd,
    }
}

/// A state in which a frame is being sent.
pub open spec fn is_sending(state: PipeState) -> bool {
    ||| state matches PipeState::SendData { .. }
    ||| state matches PipeState::SendTrailers
    ||| state matches PipeState::SendEnd
}

/// Once a frame was sent, or failed to be: a failed send fails the pipe, data
/// that does not end the body loops back, and anything that ends the stream
/// finishes it.
pub open spec fn pipe_on_sent_spec(state: PipeState, sent: bool) -> PipeState {
    if !sent {
        PipeState::Failed(PipeFailure::BodyWrite)
    } else {
        match state {
            PipeState::SendData { end_of_stream } => if end_of_stream {
                PipeState::Done
            } else {
                PipeState::Reserve
            },
            _ => PipeState::Done,
        }
    }
}

/// After reserving capacity for the body.
pub fn pipe_after_reserve(capacity: usize) -> (r: PipeState)
    ensures
        r == pipe_after_reserve_spec(capacity),
{
    if capacity == 0 {
        PipeState::AwaitCapacity
    } else {
        PipeState::CheckReset
    }
}

/// On polled capacity.
pub fn pipe_on_capacity(event: CapacityEvent) -> (r: PipeState)
    ensures
        r == pipe_on_capacity_spec(event),
{
    match event {
        CapacityEvent::Available(0) => PipeState::AwaitCapacity,
        CapacityEvent::Available(_) => PipeState::PollFrame,
        CapacityEvent::Failed => PipeState::Failed(PipeFailure::BodyWrite),
        CapacityEvent::Closed => PipeState::Failed(PipeFailure::CapacityClosed),
    }
}

/// On the reset check; `None` means that no reset is pending.
pub fn pipe_on_reset_check(reset: Option<ResetEvent>) -> (r: PipeState)
    ensures
        r == pipe_on_reset_check_spec(reset),
{
    match reset {
        None => PipeState::PollFrame,
        Some(ResetEvent::Reason(r)) => PipeState::Failed(PipeFailure::StreamReset(r)),
        Some(ResetEvent::Failed) => PipeState::Failed(PipeFailure::BodyWrite),
    }
}

/// On the body's next frame.
pub fn pipe_on_frame(frame: FrameEvent) -> (r: PipeState)
    ensures
        r == pipe_on_frame_spec(frame),
{
    match frame {
        FrameEvent::Data { end_of_stream } => PipeState::SendData { end_of_stream },
        FrameEvent::Trailers => PipeState::SendTrailers,
        FrameEvent::Other => PipeState::Reserve,
        FrameEvent::Failed => PipeState::Failed(PipeFailure::UserBody),
        FrameEvent::Ended => PipeState::SendEnd,
    }
}

/// Once the frame of a sending state was sent (`sent`) or failed to be.
pub fn pipe_on_sent(state: PipeState, sent: bool) -> (r: PipeState)
    requires
        is_sending(state),
    ensures
        r == pipe_on_sent_spec(state, sent),
{
    if !sent {
        return PipeState::Failed(PipeFailure::BodyWrite);
    }
    match state {
        PipeState::SendData { end_of_stream: false } => PipeState::Reserve,
        _ => PipeState::Done,
    }
}

/// The pipe finishes only once a frame that ends the stream was sent: a DATA
/// frame that ends the body, the trailers, or the closing empty DATA frame.
/// No other step finishes it.
pub proof fn lemma_pipe_done_only_after_stream_end(
    state: PipeState,
    sent: bool,
    capacity: usize,
    event: CapacityEvent,
    reset: Option<ResetEvent>,
    frame: FrameEvent,
)
    requires
        is_sending(state),
    ensures
        pipe_on_sent_spec(state, sent) == PipeState::Done ==> sent && (
        state == PipeState::SendData { end_of_stream: true } || state == PipeState::SendTrailers
            || state == PipeState::SendEnd),
        pipe_after_reserve_spec(capacity) != PipeState::Done,
        pipe_on_capacity_spec(event) != PipeState::Done,
        pipe_on_reset_check_spec(reset) != PipeState::Done,
        pipe_on_frame_spec(frame) != PipeState::Done,
{
}

/// Why an I/O call on an upgraded stream failed.
#[derive(Clone, Copy, Debug, PartialEq, Eq)]
pub enum TunnelError {
    /// The stream was closed or cancelled: reported as a broken pipe.
    BrokenPipe,
    /// Another HTTP/2 error, turned into an I/O error.
    Protocol,
}

/// What receiving data on an upgraded stream reported.
#[derive(Clone, Copy, Debug, PartialEq, Eq)]
pub enum RecvEvent {
    /// No more data (`None`).
    Ended,
    /// A chunk of `len` bytes; `end_of_stream` tells whether the stream has ended.
    Data { len: usize, end_of_stream: bool },
    /// Receiving failed, with the HTTP/2 error code where there is one.
    Failed { reason: Option<u32> },
}

/// What a read does next.
#[derive(Clone, Copy, Debug, PartialEq, Eq)]
pub enum ReadStep {
    /// Finish the read without data: the tunnel's end.
    Finish,
    /// Skip an empty chunk of a stream that goes on, and receive again.
    ReceiveAgain,
    /// Keep the chunk and copy from it into the caller's buffer.
    Deliver,
    /// Fail the read.
    Fail(TunnelError),
}

/// A read's next step: the end of the stream, and a reset that is no error
/// (`NO_ERROR`, `CANCEL`), finish it; a `STREAM_CLOSED` reset is a broken pipe;
/// an empty chunk of a stream that goes on is skipped.
pub open spec fn read_step_spec(event: RecvEvent) -> ReadStep {
    match event {
        RecvEvent::Ended => ReadStep::Finish,
        RecvEvent::Data { len, end_of_stream } => if len == 0 && !end_of_stream {
            ReadStep::ReceiveAgain
        } else {
            ReadStep::Deliver
        },
        RecvEvent::Failed { reason } => match reason {
            Some(r) => if r == NO_ERROR || r == CANCEL {
                ReadStep::Finish
            } else if r == STREAM_CLOSED {
                ReadStep::Fail(TunnelError::BrokenPipe)
            } else {
                ReadStep::Fail(TunnelError::Protocol)
            },
            None => ReadStep::Fail(TunnelError::Protocol),
        },
    }
}

/// A read's next step, on what receiving reported.
pub fn read_step(event: RecvEvent) -> (r: ReadStep)
    ensures
        r == read_step_spec(event),
{
    match event {
        RecvEvent::Ended => ReadStep::Finish,
        RecvEvent::Data { len, end_of_stream } => {
            if len == 0 && !end_of_stream {
                ReadStep::ReceiveAgain
            } else {
                ReadStep::Deliver
            }
        },
        RecvEvent::Failed { reason: Some(r) } => {
            if r == NO_ERROR || r == CANCEL {
                ReadStep::Finish
            } else if r == STREAM_CLOSED {
                ReadStep::Fail(TunnelError::BrokenPipe)
            } else {
                ReadStep::Fail(TunnelError::Protocol)
            }
        },
        RecvEvent::Failed { reason: None } => ReadStep::Fail(TunnelError::Protocol),
    }
}

/// How many buffered bytes a read copies: as many as both the buffered data
/// and the caller's room allow.
pub fn read_count(buffered: usize, room: usize) -> (r: usize)
    ensures
        r <= buffered,
        r <= room,
        r == buffered || r == room,
{
    if buffered < room {
        buffered
    } else {
        room
    }
}

/// What a write does next.
#[derive(Clone, Copy, Debug, PartialEq, Eq)]
pub enum WriteStep {
    /// Report this many bytes as written.
    Written(usize),
    /// Reserve the buffer's length and poll for capacity.
    PollCapacity,
    /// Send this many leading bytes of the buffer as a DATA frame.
    Send(usize),
    /// Learn from the stream's reset why the write failed.
    AwaitReset,
}

/// A write's first step: an empty buffer is written at once.
pub open spec fn write_start_spec(len: usize) -> WriteStep {
    if len == 0 {
        WriteStep::Written(0)
    } else {
        WriteStep::PollCapacity
    }
}

/// A write's step on polled capacity: a closed stream takes nothing, granted
/// capacity is sent, and a failure is explained by the reset.
pub open spec fn write_on_capacity_spec(event: CapacityEvent) -> WriteStep {
    match event {
        CapacityEvent::Closed => WriteStep::Written(0),
        CapacityEvent::Available(n) => WriteStep::Send(n),
        CapacityEvent::Failed => WriteStep::AwaitReset,
    }
}

/// A write's step once the data was sent or failed to be.
pub open spec fn write_on_sent_spec(count: usize, sent: bool) -> WriteStep {
    if sent {
        WriteStep::Written(count)
    } else {
        WriteStep::AwaitReset
    }
}

/// Why a write failed, from the stream's reset: a reset that closes the stream
/// (`NO_ERROR`, `CANCEL`, `STREAM_CLOSED`) is a broken pipe, any other is an
/// HTTP/2 error.
pub open spec fn write_reset_error_spec(reset: ResetEvent) -> TunnelError {
    match reset {
        ResetEvent::Reason(r) => if r == NO_ERROR || r == CANCEL || r == STREAM_CLOSED {
            TunnelError::BrokenPipe
        } else {
            TunnelError::Protocol
        },
        ResetEvent::Failed => TunnelError::Protocol,
    }
}

/// How a shutdown that could not send the end of the stream ends, from the
/// stream's reset: `NO_ERROR` is a clean shutdown, `CANCEL` and `STREAM_CLOSED`
/// a broken pipe, any other an HTTP/2 error.
pub open spec fn shutdown_reset_result_spec(reset: ResetEvent) -> Result<(), TunnelError> {
    match reset {
        ResetEvent::Reason(r) => if r == NO_ERROR {
            Ok(())
        } else if r == CANCEL || r == STREAM_CLOSED {
            Err(TunnelError::BrokenPipe)
        } else {
            Err(TunnelError::Protocol)
        },
        ResetEvent::Failed => Err(TunnelError::Protocol),
    }
}

/// A write's first step, on the buffer's length.
pub fn write_start(len: usize) -> (r: WriteStep)
    ensures
        r == write_start_spec(len),
{
    if len == 0 {
        WriteStep::Written(0)
    } else {
        WriteStep::PollCapacity
    }
}

/// A write's step on polled capacity.
pub fn write_on_capacity(event: CapacityEvent) -> (r: WriteStep)
    ensures
        r == write_on_capacity_spec(event),
{
    match event {
        CapacityEvent::Closed => WriteStep::Written(0),
        CapacityEvent::Available(n) => WriteStep::Send(n),
        CapacityEvent::Failed => WriteStep::AwaitReset,
    }
}

/// A write's step once `count` bytes were sent (`sent`) or failed to be.
pub fn write_on_sent(count: usize, sent: bool) -> (r: WriteStep)
    ensures
        r == write_on_sent_spec(count, sent),
{
    if sent {
        WriteStep::Written(count)
    } else {
        WriteStep::AwaitReset
    }
}

/// Why a write failed, from the stream's reset.
pub fn write_reset_error(reset: ResetEvent) -> (r: TunnelError)
    ensures
        r == write_reset_error_spec(reset),
{
    match reset {
        ResetEvent::Reason(r) => {
            if r == NO_ERROR || r == CANCEL || r == STREAM_CLOSED {
                TunnelError::BrokenPipe
            } else {
                TunnelError::Protocol
            }
        },
        ResetEvent::Failed => TunnelError::Protocol,
    }
}

/// How a shutdown that could not send the end of the stream ends.
pub fn shutdown_reset_result(reset: ResetEvent) -> (r: Result<(), TunnelError>)
    ensures
        r == shutdown_reset_result_spec(reset),
{
    match reset {
        ResetEvent::Reason(r) => {
            if r == NO_ERROR {
                Ok(())
            } else if r == CANCEL || r == STREAM_CLOSED {
                Err(TunnelError::BrokenPipe)
            } else {
                Err(TunnelError::Protocol)
            }
        },
        ResetEvent::Failed => Err(TunnelError::Protocol),
    }
}

/// A write never reports more bytes than the capacity that the stream granted,
/// and reports nothing for an empty buffer or a closed stream.
pub proof fn lemma_write_reports_at_most_granted(len: usize, event: CapacityEvent, sent: bool)
    ensures
        (write_start_spec(len) matches WriteStep::Written(n) ==> n == 0 && len == 0),
        (write_on_capacity_spec(event) matches WriteStep::Written(n) ==> n == 0),
        forall|c: usize|
            event == CapacityEvent::Available(c) ==> write_on_capacity_spec(event) == WriteStep::Send(c)
                && (write_on_sent_spec(c, sent) == WriteStep::Written(c) || write_on_sent_spec(c, sent)
                == WriteStep::AwaitReset),
{
}

/// A reset that is no error ends a shutdown cleanly but fails a write: once the
/// stream is gone no more bytes can be taken, though closing it has succeeded.
pub proof fn lemma_no_error_reset_closes_but_breaks_writes()
    ensures
        shutdown_reset_result_spec(ResetEvent::Reason(NO_ERROR)) == Ok::<(), TunnelError>(()),
        write_reset_error_spec(ResetEvent::Reason(NO_ERROR)) == TunnelError::BrokenPipe,
        read_step_spec(RecvEvent::Failed { reason: Some(NO_ERROR) }) == ReadStep::Finish,
{
}

/// Every DATA frame of the body is sent as it came: the step on a DATA frame
/// sends that frame's data, with the frame's own end-of-stream flag.
pub proof fn lemma_pipe_sends_each_data_frame(end_of_stream: bool)
    ensures
        pipe_on_frame_spec((FrameEvent::Data { end_of_stream })) == (PipeState::SendData {
            end_of_stream,
        }),
        pipe_on_sent_spec((PipeState::SendData { end_of_stream }), true) == (if end_of_stream {
            PipeState::Done
        } else {
            PipeState::Reserve
        }),
{
}

/// A received chunk that holds data, or that ends the stream, is delivered to
/// the reader; only an empty chunk of a stream that goes on is skipped.
pub proof fn lemma_read_delivers_received_data(len: usize, end_of_stream: bool)
    ensures
        (len > 0 || end_of_stream) ==> read_step_spec((RecvEvent::Data { len, end_of_stream }))
            == ReadStep::Deliver,
        (len == 0 && !end_of_stream) ==> read_step_spec((RecvEvent::Data { len, end_of_stream }))
            == ReadStep::ReceiveAgain,
{
}

} // verus!
