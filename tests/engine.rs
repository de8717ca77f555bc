use wasapi_stream::engine::{
    wait_outcome, Action, AudioClientFlow, Command, Event, Fault, Phase, RunContext, StreamInner,
    WAIT_FAILED,
};
use wasapi_stream::error::{StreamError, AUDCLNT_E_DEVICE_INVALIDATED, AUDCLNT_S_BUFFER_EMPTY};
use wasapi_stream::format::SampleFormat;

fn polled(c: Option<Command>) -> Event {
    Event::Polled { command: c }
}

fn ok() -> Event {
    Event::Status { hresult: 0 }
}

fn render_loop(max: u32, bytes_per_frame: u16, format: SampleFormat) -> RunContext {
    RunContext::new(StreamInner::new(AudioClientFlow::Render, max, bytes_per_frame, format))
}

fn capture_loop(max: u32, bytes_per_frame: u16, format: SampleFormat) -> RunContext {
    RunContext::new(StreamInner::new(AudioClientFlow::Capture, max, bytes_per_frame, format))
}

#[test]
fn new_session_is_stopped_and_drains_first() {
    let rc = render_loop(1024, 4, SampleFormat::F32);
    assert!(!rc.stream.playing);
    assert_eq!(rc.phase, Phase::Draining);
    assert_eq!(rc.pending(), Action::PollCommand);
}

#[test]
fn render_session_end_to_end() {
    let mut rc = render_loop(1024, 4, SampleFormat::F32);
    let mut starts = 0;
    let mut stops = 0;
    let mut count = |a: Action| {
        if a == Action::StartDevice {
            starts += 1;
        }
        if a == Action::StopDevice {
            stops += 1;
        }
        a
    };
    assert_eq!(count(rc.step(polled(Some(Command::PlayStream)))), Action::StartDevice);
    assert_eq!(count(rc.step(ok())), Action::PollCommand);
    assert!(rc.stream.playing);
    assert_eq!(count(rc.step(polled(None))), Action::Wait);
    assert_eq!(count(rc.step(Event::Signalled { index: 1 })), Action::GetCurrentPadding);
    assert_eq!(
        count(rc.step(Event::Padding { hresult: 0, padding: 0 })),
        Action::GetRenderBuffer { frames: 1024 }
    );
    assert_eq!(
        count(rc.step(ok())),
        Action::DeliverOutput { format: SampleFormat::F32, len: 1024 }
    );
    assert_eq!(
        count(rc.step(Event::CallbackReturned)),
        Action::ReleaseRenderBuffer { frames: 1024 }
    );
    assert_eq!(count(rc.step(ok())), Action::PollCommand);
    assert_eq!(count(rc.step(polled(Some(Command::PauseStream)))), Action::StopDevice);
    assert_eq!(count(rc.step(ok())), Action::PollCommand);
    assert!(!rc.stream.playing);
    assert_eq!(count(rc.step(polled(Some(Command::Terminate)))), Action::Exit);
    assert_eq!(rc.phase, Phase::Finished);
    assert_eq!(starts, 1);
    assert_eq!(stops, 1);
}

#[test]
fn repeated_play_starts_once() {
    let mut rc = render_loop(480, 4, SampleFormat::I16);
    assert_eq!(rc.step(polled(Some(Command::PlayStream))), Action::StartDevice);
    assert_eq!(rc.step(ok()), Action::PollCommand);
    assert_eq!(rc.step(polled(Some(Command::PlayStream))), Action::PollCommand);
    assert_eq!(rc.step(polled(None)), Action::Wait);
    assert!(rc.stream.playing);
}

#[test]
fn pause_while_stopped_makes_no_call() {
    let mut rc = render_loop(480, 4, SampleFormat::I16);
    assert_eq!(rc.step(polled(Some(Command::PauseStream))), Action::PollCommand);
    assert_eq!(rc.step(polled(Some(Command::PauseStream))), Action::PollCommand);
    assert_eq!(rc.step(polled(None)), Action::Wait);
    assert!(!rc.stream.playing);
}

#[test]
fn play_then_pause_in_one_drain_ends_stopped() {
    let mut rc = render_loop(480, 4, SampleFormat::I16);
    assert_eq!(rc.step(polled(Some(Command::PlayStream))), Action::StartDevice);
    assert_eq!(rc.step(ok()), Action::PollCommand);
    assert_eq!(rc.step(polled(Some(Command::PauseStream))), Action::StopDevice);
    assert_eq!(rc.step(ok()), Action::PollCommand);
    assert_eq!(rc.step(polled(None)), Action::Wait);
    assert!(!rc.stream.playing);
}

#[test]
fn terminate_after_wake_exits_and_stays_out() {
    let mut rc = render_loop(480, 4, SampleFormat::I16);
    assert_eq!(rc.step(polled(None)), Action::Wait);
    assert_eq!(rc.step(Event::Signalled { index: 0 }), Action::PollCommand);
    assert_eq!(rc.step(polled(Some(Command::Terminate))), Action::Exit);
    assert_eq!(rc.step(Event::Signalled { index: 1 }), Action::Exit);
    assert_eq!(rc.step(polled(Some(Command::PlayStream))), Action::Exit);
    assert_eq!(rc.step(ok()), Action::Exit);
    assert_eq!(rc.phase, Phase::Finished);
}

#[test]
fn wake_signal_goes_back_to_commands_without_device_work() {
    let mut rc = capture_loop(480, 4, SampleFormat::I16);
    assert_eq!(rc.step(polled(None)), Action::Wait);
    assert_eq!(rc.step(Event::Signalled { index: 0 }), Action::PollCommand);
}

#[test]
fn render_with_no_free_frames_skips_the_cycle() {
    let mut rc = render_loop(1024, 4, SampleFormat::F32);
    rc.step(polled(None));
    rc.step(Event::Signalled { index: 1 });
    assert_eq!(rc.step(Event::Padding { hresult: 0, padding: 1024 }), Action::PollCommand);
    assert_eq!(rc.phase, Phase::Draining);
}

#[test]
fn render_uses_the_free_frames_only() {
    let mut rc = render_loop(1024, 4, SampleFormat::I16);
    rc.step(polled(None));
    rc.step(Event::Signalled { index: 1 });
    assert_eq!(
        rc.step(Event::Padding { hresult: 0, padding: 1000 }),
        Action::GetRenderBuffer { frames: 24 }
    );
    assert_eq!(rc.step(ok()), Action::DeliverOutput { format: SampleFormat::I16, len: 48 });
    assert_eq!(rc.step(Event::CallbackReturned), Action::ReleaseRenderBuffer { frames: 24 });
}

#[test]
fn capture_serves_packets_until_none_is_pending() {
    let mut rc = capture_loop(960, 4, SampleFormat::U16);
    rc.step(polled(None));
    assert_eq!(rc.step(Event::Signalled { index: 1 }), Action::GetNextPacketSize);
    assert_eq!(rc.step(Event::PacketSize { hresult: 0, frames: 480 }), Action::GetCaptureBuffer);
    assert_eq!(
        rc.step(Event::CaptureBuffer { hresult: 0, frames: 480 }),
        Action::DeliverInput { format: SampleFormat::U16, len: 960 }
    );
    assert_eq!(rc.step(Event::CallbackReturned), Action::ReleaseCaptureBuffer { frames: 480 });
    assert_eq!(rc.step(ok()), Action::GetNextPacketSize);
    assert_eq!(rc.step(Event::PacketSize { hresult: 0, frames: 120 }), Action::GetCaptureBuffer);
    assert_eq!(
        rc.step(Event::CaptureBuffer { hresult: 0, frames: 120 }),
        Action::DeliverInput { format: SampleFormat::U16, len: 240 }
    );
    assert_eq!(rc.step(Event::CallbackReturned), Action::ReleaseCaptureBuffer { frames: 120 });
    assert_eq!(rc.step(ok()), Action::GetNextPacketSize);
    assert_eq!(rc.step(Event::PacketSize { hresult: 0, frames: 0 }), Action::PollCommand);
    assert_eq!(rc.phase, Phase::Draining);
}

#[test]
fn capture_empty_buffer_is_retried_without_callback() {
    let mut rc = capture_loop(960, 8, SampleFormat::F32);
    rc.step(polled(None));
    rc.step(Event::Signalled { index: 1 });
    assert_eq!(rc.step(Event::PacketSize { hresult: 0, frames: 10 }), Action::GetCaptureBuffer);
    assert_eq!(
        rc.step(Event::CaptureBuffer { hresult: AUDCLNT_S_BUFFER_EMPTY, frames: 0 }),
        Action::GetNextPacketSize
    );
    assert_eq!(rc.step(Event::PacketSize { hresult: 0, frames: 10 }), Action::GetCaptureBuffer);
    assert_eq!(
        rc.step(Event::CaptureBuffer { hresult: 0, frames: 10 }),
        Action::DeliverInput { format: SampleFormat::F32, len: 20 }
    );
}

#[test]
fn device_loss_is_reported_once_then_exits() {
    let mut rc = render_loop(480, 4, SampleFormat::F32);
    assert_eq!(rc.step(polled(Some(Command::PlayStream))), Action::StartDevice);
    let fault = Fault::Status { hresult: AUDCLNT_E_DEVICE_INVALIDATED };
    assert_eq!(
        rc.step(Event::Status { hresult: AUDCLNT_E_DEVICE_INVALIDATED }),
        Action::Fail { fault }
    );
    assert!(!rc.stream.playing);
    assert!(matches!(fault.into_error(), StreamError::DeviceNotAvailable));
    assert_eq!(rc.step(Event::CallbackReturned), Action::Exit);
    assert_eq!(rc.step(Event::Signalled { index: 1 }), Action::Exit);
    assert_eq!(rc.phase, Phase::Finished);
}

#[test]
fn device_loss_during_capture_release_is_fatal() {
    let mut rc = capture_loop(480, 4, SampleFormat::F32);
    rc.step(polled(None));
    rc.step(Event::Signalled { index: 1 });
    rc.step(Event::PacketSize { hresult: 0, frames: 4 });
    rc.step(Event::CaptureBuffer { hresult: 0, frames: 4 });
    rc.step(Event::CallbackReturned);
    assert_eq!(
        rc.step(Event::Status { hresult: AUDCLNT_E_DEVICE_INVALIDATED }),
        Action::Fail { fault: Fault::Status { hresult: AUDCLNT_E_DEVICE_INVALIDATED } }
    );
    assert_eq!(rc.step(Event::PacketSize { hresult: 0, frames: 4 }), Action::Exit);
}

#[test]
fn other_failure_in_padding_query_is_backend_specific() {
    let mut rc = render_loop(480, 4, SampleFormat::F32);
    rc.step(polled(None));
    rc.step(Event::Signalled { index: 1 });
    let hresult: i32 = -2147467259;
    let a = rc.step(Event::Padding { hresult, padding: 0 });
    assert_eq!(a, Action::Fail { fault: Fault::Status { hresult } });
    if let Action::Fail { fault } = a {
        assert!(matches!(fault.into_error(), StreamError::BackendSpecific { .. }));
    }
}

#[test]
fn failed_wait_is_fatal_with_its_code() {
    let mut rc = render_loop(480, 4, SampleFormat::F32);
    rc.step(polled(None));
    let a = rc.step(Event::WaitFailed { code: 6 });
    assert_eq!(a, Action::Fail { fault: Fault::WaitFailed { code: 6 } });
    match (Fault::WaitFailed { code: 6 }).into_error() {
        StreamError::BackendSpecific { err } => {
            assert_eq!(err.description, "`WaitForMultipleObjectsEx failed: 6")
        }
        _ => panic!("expected a backend error"),
    }
    assert_eq!(rc.step(Event::Signalled { index: 0 }), Action::Exit);
}

#[test]
fn event_that_does_not_answer_repeats_the_pending_action() {
    let mut rc = render_loop(480, 4, SampleFormat::F32);
    assert_eq!(rc.step(Event::CallbackReturned), Action::PollCommand);
    assert_eq!(rc.step(polled(Some(Command::PlayStream))), Action::StartDevice);
    assert_eq!(rc.step(polled(None)), Action::StartDevice);
    assert_eq!(rc.phase, Phase::Starting);
}

#[test]
fn wait_outcome_maps_result_to_event() {
    assert_eq!(wait_outcome(0, 5), Event::Signalled { index: 0 });
    assert_eq!(wait_outcome(1, 5), Event::Signalled { index: 1 });
    assert_eq!(wait_outcome(WAIT_FAILED, 5), Event::WaitFailed { code: 5 });
}

#[test]
fn start_with_a_positive_success_status_plays() {
    let mut rc = render_loop(480, 4, SampleFormat::F32);
    assert_eq!(rc.step(polled(Some(Command::PlayStream))), Action::StartDevice);
    assert_eq!(rc.step(Event::Status { hresult: 1 }), Action::PollCommand);
    assert!(rc.stream.playing);
    assert_eq!(rc.step(polled(Some(Command::Terminate))), Action::Exit);
}

#[test]
fn capture_delivers_the_frames_the_buffer_holds() {
    let mut rc = capture_loop(960, 4, SampleFormat::I16);
    rc.step(polled(None));
    rc.step(Event::Signalled { index: 1 });
    assert_eq!(rc.step(Event::PacketSize { hresult: 0, frames: 480 }), Action::GetCaptureBuffer);
    assert_eq!(
        rc.step(Event::CaptureBuffer { hresult: 1, frames: 100 }),
        Action::DeliverInput { format: SampleFormat::I16, len: 200 }
    );
    assert_eq!(rc.step(Event::CallbackReturned), Action::ReleaseCaptureBuffer { frames: 100 });
    assert_eq!(rc.step(Event::Status { hresult: 1 }), Action::GetNextPacketSize);
    assert_eq!(rc.step(Event::PacketSize { hresult: 1, frames: 0 }), Action::PollCommand);
}
