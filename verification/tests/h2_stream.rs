use wreq_core::h2_stream::{
    pipe_after_reserve, pipe_on_capacity, pipe_on_frame, pipe_on_reset_check, pipe_on_sent,
    read_count, read_step, shutdown_reset_result, write_on_capacity, write_on_sent,
    write_reset_error, write_start, CapacityEvent, FrameEvent, PipeFailure, PipeState, ReadStep,
    RecvEvent, ResetEvent, TunnelError, WriteStep, CANCEL, NO_ERROR, STREAM_CLOSED,
};

#[test]
fn pipe_waits_for_capacity_or_checks_reset() {
    assert_eq!(pipe_after_reserve(0), PipeState::AwaitCapacity);
    assert_eq!(pipe_after_reserve(1), PipeState::CheckReset);
    assert_eq!(pipe_on_capacity(CapacityEvent::Available(0)), PipeState::AwaitCapacity);
    assert_eq!(pipe_on_capacity(CapacityEvent::Available(16)), PipeState::PollFrame);
    assert_eq!(
        pipe_on_capacity(CapacityEvent::Closed),
        PipeState::Failed(PipeFailure::CapacityClosed)
    );
    assert_eq!(pipe_on_capacity(CapacityEvent::Failed), PipeState::Failed(PipeFailure::BodyWrite));
}

#[test]
fn pipe_fails_on_reset() {
    assert_eq!(pipe_on_reset_check(None), PipeState::PollFrame);
    assert_eq!(
        pipe_on_reset_check(Some(ResetEvent::Reason(CANCEL))),
        PipeState::Failed(PipeFailure::StreamReset(CANCEL))
    );
    assert_eq!(
        pipe_on_reset_check(Some(ResetEvent::Failed)),
        PipeState::Failed(PipeFailure::BodyWrite)
    );
}

#[test]
fn pipe_frames() {
    assert_eq!(
        pipe_on_frame(FrameEvent::Data { end_of_stream: false }),
        PipeState::SendData { end_of_stream: false }
    );
    assert_eq!(pipe_on_frame(FrameEvent::Trailers), PipeState::SendTrailers);
    assert_eq!(pipe_on_frame(FrameEvent::Other), PipeState::Reserve);
    assert_eq!(pipe_on_frame(FrameEvent::Failed), PipeState::Failed(PipeFailure::UserBody));
    assert_eq!(pipe_on_frame(FrameEvent::Ended), PipeState::SendEnd);
}

#[test]
fn pipe_finishes_only_when_the_stream_ends() {
    assert_eq!(pipe_on_sent(PipeState::SendData { end_of_stream: false }, true), PipeState::Reserve);
    assert_eq!(pipe_on_sent(PipeState::SendData { end_of_stream: true }, true), PipeState::Done);
    assert_eq!(pipe_on_sent(PipeState::SendTrailers, true), PipeState::Done);
    assert_eq!(pipe_on_sent(PipeState::SendEnd, true), PipeState::Done);
    assert_eq!(
        pipe_on_sent(PipeState::SendEnd, false),
        PipeState::Failed(PipeFailure::BodyWrite)
    );
}

#[test]
fn reads() {
    assert_eq!(read_step(RecvEvent::Ended), ReadStep::Finish);
    assert_eq!(read_step(RecvEvent::Data { len: 0, end_of_stream: false }), ReadStep::ReceiveAgain);
    assert_eq!(read_step(RecvEvent::Data { len: 0, end_of_stream: true }), ReadStep::Deliver);
    assert_eq!(read_step(RecvEvent::Data { len: 5, end_of_stream: false }), ReadStep::Deliver);
    assert_eq!(read_step(RecvEvent::Failed { reason: Some(NO_ERROR) }), ReadStep::Finish);
    assert_eq!(read_step(RecvEvent::Failed { reason: Some(CANCEL) }), ReadStep::Finish);
    assert_eq!(
        read_step(RecvEvent::Failed { reason: Some(STREAM_CLOSED) }),
        ReadStep::Fail(TunnelError::BrokenPipe)
    );
    assert_eq!(
        read_step(RecvEvent::Failed { reason: Some(0x2) }),
        ReadStep::Fail(TunnelError::Protocol)
    );
    assert_eq!(read_step(RecvEvent::Failed { reason: None }), ReadStep::Fail(TunnelError::Protocol));
    assert_eq!(read_count(10, 4), 4);
    assert_eq!(read_count(3, 4), 3);
}

#[test]
fn writes() {
    assert_eq!(write_start(0), WriteStep::Written(0));
    assert_eq!(write_start(3), WriteStep::PollCapacity);
    assert_eq!(write_on_capacity(CapacityEvent::Closed), WriteStep::Written(0));
    assert_eq!(write_on_capacity(CapacityEvent::Available(7)), WriteStep::Send(7));
    assert_eq!(write_on_capacity(CapacityEvent::Failed), WriteStep::AwaitReset);
    assert_eq!(write_on_sent(7, true), WriteStep::Written(7));
    assert_eq!(write_on_sent(7, false), WriteStep::AwaitReset);
    assert_eq!(write_reset_error(ResetEvent::Reason(NO_ERROR)), TunnelError::BrokenPipe);
    assert_eq!(write_reset_error(ResetEvent::Reason(CANCEL)), TunnelError::BrokenPipe);
    assert_eq!(write_reset_error(ResetEvent::Reason(STREAM_CLOSED)), TunnelError::BrokenPipe);
    assert_eq!(write_reset_error(ResetEvent::Reason(0x1)), TunnelError::Protocol);
    assert_eq!(write_reset_error(ResetEvent::Failed), TunnelError::Protocol);
}

#[test]
fn shutdowns() {
    assert_eq!(shutdown_reset_result(ResetEvent::Reason(NO_ERROR)), Ok(()));
    assert_eq!(shutdown_reset_result(ResetEvent::Reason(CANCEL)), Err(TunnelError::BrokenPipe));
    assert_eq!(
        shutdown_reset_result(ResetEvent::Reason(STREAM_CLOSED)),
        Err(TunnelError::BrokenPipe)
    );
    assert_eq!(shutdown_reset_result(ResetEvent::Reason(0x7)), Err(TunnelError::Protocol));
    assert_eq!(shutdown_reset_result(ResetEvent::Failed), Err(TunnelError::Protocol));
}
