//! The run loop as a state machine.
//!
//! The thread that owns a device session asks the machine for its pending
//! action, performs it (polls the command queue, waits on the signals, calls the
//! device, runs the data callback) and hands the outcome back as an event. The
//! machine alone decides what comes next.
use vstd::prelude::*;
use crate::error::{AUDCLNT_S_BUFFER_EMPTY, StreamError, decimal, hresult_error, translates, wait_failed_error};
use crate::format::{SampleFormat, buffer_len, available_frames, view_len, free_frames};

verus! {

/// A control command sent to the run loop, applied in order of arrival.
#[derive(Clone, Copy, Debug, PartialEq, Eq, Structural)]
pub enum Command {
    PlayStream,
    PauseStream,
    Terminate,
}

/// The direction of a device session: it renders or it captures, never both.
#[derive(Clone, Copy, Debug, PartialEq, Eq, Structural)]
pub enum AudioClientFlow {
    Render,
    Capture,
}

/// What the run loop knows of the device session it owns.
#[derive(Clone, Copy, Debug, PartialEq, Eq, Structural)]
pub struct StreamInner {
    pub client_flow: AudioClientFlow,
    /// Whether the device has been started and not stopped since.
    pub playing: bool,
    /// Frames in the buffer the device allocated.
    pub max_frames_in_buffer: u32,
    /// Bytes taken by one frame.
    pub bytes_per_frame: u16,
    /// The encoding the session was opened with.
    pub sample_format: SampleFormat,
}

impl StreamInner {
    /// A session as it is opened: not playing.
    pub fn new(
        client_flow: AudioClientFlow,
        max_frames_in_buffer: u32,
        bytes_per_frame: u16,
        sample_format: SampleFormat,
    ) -> (r: StreamInner)
        ensures
            r.client_flow == client_flow,
            !r.playing,
            r.max_frames_in_buffer == max_frames_in_buffer,
            r.bytes_per_frame == bytes_per_frame,
            r.sample_format == sample_format,
    {
        StreamInner { client_flow, playing: false, max_frames_in_buffer, bytes_per_frame, sample_format }
    }
}

/// Why the loop stopped with an error.
#[derive(Clone, Copy, Debug, PartialEq, Eq, Structural)]
pub enum Fault {
    /// A device call returned this failing status.
    Status { hresult: i32 },
    /// The wait on the signals failed with this system error code.
    WaitFailed { code: u32 },
}

impl Fault {
    /// The error handed to the error callback for this fault.
    pub fn into_error(self) -> (r: StreamError)
        ensures
            self matches Fault::Status { hresult } ==> translates(r, hresult),
            self matches Fault::WaitFailed { code } ==> r matches StreamError::BackendSpecific { err }
                && err.description@ == "`WaitForMultipleObjectsEx failed: "@ + decimal(code as nat),
    {
        match self {
            Fault::Status { hresult } => hresult_error(hresult),
            Fault::WaitFailed { code } => wait_failed_error(code),
        }
    }
}

/// Where the run loop stands: which outcome it waits for.
#[derive(Clone, Copy, Debug, PartialEq, Eq, Structural)]
pub enum Phase {
    /// Taking the next queued command, if any.
    Draining,
    /// The device was asked to start.
    Starting,
    /// The device was asked to stop.
    Stopping,
    /// Blocked on the wake-up and readiness signals.
    Waiting,
    /// The render buffer's padding was asked for.
    Padding,
    /// A render buffer of this many frames was asked for.
    RenderAcquire { frames: u32 },
    /// The data callback runs on a render buffer of this many frames.
    Rendering { frames: u32 },
    /// This many rendered frames are being released.
    RenderRelease { frames: u32 },
    /// The size of the next capture packet was asked for.
    PacketSize,
    /// The next capture buffer was asked for.
    CaptureAcquire,
    /// The data callback runs on a capture buffer of this many frames.
    Capturing { frames: u32 },
    /// This many captured frames are being released.
    CaptureRelease { frames: u32 },
    /// A fatal error is to be reported.
    Failed { fault: Fault },
    /// The loop is over.
    Finished,
}

/// The outcome of an action, handed back to the machine.
#[derive(Clone, Copy, Debug, PartialEq, Eq, Structural)]
pub enum Event {
    /// The command queue was polled: the next command, or none.
    Polled { command: Option<Command> },
    /// The wait returned: index 0 is the wake-up signal, any other the device.
    Signalled { index: usize },
    /// The wait failed with this system error code.
    WaitFailed { code: u32 },
    /// A device call returned this status.
    Status { hresult: i32 },
    /// The render padding query returned.
    Padding { hresult: i32, padding: u32 },
    /// The capture packet size query returned.
    PacketSize { hresult: i32, frames: u32 },
    /// The capture buffer request returned, with the frames it holds.
    CaptureBuffer { hresult: i32, frames: u32 },
    /// The data callback returned.
    CallbackReturned,
}

/// What a wait on the signals returns when it fails.
pub const WAIT_FAILED: u32 = 0xFFFF_FFFF;

/// What a wait on the signals returns for the first signal; the others follow.
pub const WAIT_OBJECT_0: u32 = 0;

/// The event for what a wait on the signals returned: a failure, with the
/// system's last error code, or the index of the signal that fired.
pub fn wait_outcome(result: u32, last_error: u32) -> (e: Event)
    ensures
        result == WAIT_FAILED ==> e == (Event::WaitFailed { code: last_error }),
        result != WAIT_FAILED ==> e == (Event::Signalled { index: (result - WAIT_OBJECT_0) as usize }),
{
    if result == WAIT_FAILED {
        Event::WaitFailed { code: last_error }
    } else {
        Event::Signalled { index: (result - WAIT_OBJECT_0) as usize }
    }
}

/// What the thread driving the machine is to do next.
#[derive(Clone, Copy, Debug, PartialEq, Eq, Structural)]
pub enum Action {
    /// Take the next command from the queue without blocking.
    PollCommand,
    StartDevice,
    StopDevice,
    /// Block until the wake-up signal (index 0) or the readiness signal fires.
    Wait,
    GetCurrentPadding,
    GetRenderBuffer { frames: u32 },
    /// Run the data callback on a writable view of `len` samples.
    DeliverOutput { format: SampleFormat, len: u64 },
    ReleaseRenderBuffer { frames: u32 },
    GetNextPacketSize,
    GetCaptureBuffer,
    /// Run the data callback on a readable view of `len` samples.
    DeliverInput { format: SampleFormat, len: u64 },
    ReleaseCaptureBuffer { frames: u32 },
    /// Hand the error for this fault to the error callback, then stop.
    Fail { fault: Fault },
    /// Stop: the loop is over.
    Exit,
}

/// The run loop's whole state: the session it owns and where it stands.
#[derive(Clone, Copy, Debug, PartialEq, Eq, Structural)]
pub struct RunContext {
    pub stream: StreamInner,
    pub phase: Phase,
}

/// The action a state waits on.
pub open spec fn pending_action(s: RunContext) -> Action {
    match s.phase {
        Phase::Draining => Action::PollCommand,
        Phase::Starting => Action::StartDevice,
        Phase::Stopping => Action::StopDevice,
        Phase::Waiting => Action::Wait,
        Phase::Padding => Action::GetCurrentPadding,
        Phase::RenderAcquire { frames } => Action::GetRenderBuffer { frames },
        Phase::Rendering { frames } => Action::DeliverOutput {
            format: s.stream.sample_format,
            len: view_len(frames as nat, s.stream.bytes_per_frame as nat, s.stream.sample_format) as u64,
        },
        Phase::RenderRelease { frames } => Action::ReleaseRenderBuffer { frames },
        Phase::PacketSize => Action::GetNextPacketSize,
        Phase::CaptureAcquire => Action::GetCaptureBuffer,
        Phase::Capturing { frames } => Action::DeliverInput {
            format: s.stream.sample_format,
            len: view_len(frames as nat, s.stream.bytes_per_frame as nat, s.stream.sample_format) as u64,
        },
        Phase::CaptureRelease { frames } => Action::ReleaseCaptureBuffer { frames },
        Phase::Failed { fault } => Action::Fail { fault },
        Phase::Finished => Action::Exit,
    }
}

pub open spec fn with_phase(s: RunContext, phase: Phase) -> RunContext {
    RunContext { phase, ..s }
}

/// After a device call with status `hresult`: `next` on success, else failure.
pub open spec fn on_status(s: RunContext, hresult: i32, next: RunContext) -> RunContext {
    if hresult >= 0 { next } else { with_phase(s, Phase::Failed { fault: Fault::Status { hresult } }) }
}

/// The state after `e` arrives in `s`. An event that does not answer the
/// pending action leaves the state as it is, so the action is asked again.
pub open spec fn advance(s: RunContext, e: Event) -> RunContext {
    match (s.phase, e) {
        (Phase::Draining, Event::Polled { command }) => match command {
            Option::None => with_phase(s, Phase::Waiting),
            Option::Some(Command::PlayStream) =>
                if s.stream.playing { s } else { with_phase(s, Phase::Starting) },
            Option::Some(Command::PauseStream) =>
                if s.stream.playing { with_phase(s, Phase::Stopping) } else { s },
            Option::Some(Command::Terminate) => with_phase(s, Phase::Finished),
        },
        (Phase::Starting, Event::Status { hresult }) => on_status(s, hresult, RunContext {
            stream: StreamInner { playing: true, ..s.stream },
            phase: Phase::Draining,
        }),
        (Phase::Stopping, Event::Status { hresult }) => on_status(s, hresult, RunContext {
            stream: StreamInner { playing: false, ..s.stream },
            phase: Phase::Draining,
        }),
        (Phase::Waiting, Event::Signalled { index }) =>
            if index == 0 {
                with_phase(s, Phase::Draining)
            } else if s.stream.client_flow is Render {
                with_phase(s, Phase::Padding)
            } else {
                with_phase(s, Phase::PacketSize)
            },
        (Phase::Waiting, Event::WaitFailed { code }) =>
            with_phase(s, Phase::Failed { fault: Fault::WaitFailed { code } }),
        (Phase::Padding, Event::Padding { hresult, padding }) => {
            let frames = free_frames(s.stream.max_frames_in_buffer as nat, padding as nat);
            on_status(s, hresult, if frames == 0 {
                with_phase(s, Phase::Draining)
            } else {
                with_phase(s, Phase::RenderAcquire { frames: frames as u32 })
            })
        },
        (Phase::RenderAcquire { frames }, Event::Status { hresult }) =>
            on_status(s, hresult, with_phase(s, Phase::Rendering { frames })),
        (Phase::Rendering { frames }, Event::CallbackReturned) =>
            with_phase(s, Phase::RenderRelease { frames }),
        (Phase::RenderRelease { frames }, Event::Status { hresult }) =>
            on_status(s, hresult, with_phase(s, Phase::Draining)),
        (Phase::PacketSize, Event::PacketSize { hresult, frames }) =>
            on_status(s, hresult, if frames == 0 {
                with_phase(s, Phase::Draining)
            } else {
                with_phase(s, Phase::CaptureAcquire)
            }),
        (Phase::CaptureAcquire, Event::CaptureBuffer { hresult, frames }) =>
            if hresult == AUDCLNT_S_BUFFER_EMPTY {
                with_phase(s, Phase::PacketSize)
            } else {
                on_status(s, hresult, with_phase(s, Phase::Capturing { frames }))
            },
        (Phase::Capturing { frames }, Event::CallbackReturned) =>
            with_phase(s, Phase::CaptureRelease { frames }),
        (Phase::CaptureRelease { frames }, Event::Status { hresult }) =>
            on_status(s, hresult, with_phase(s, Phase::PacketSize)),
        (Phase::Failed { fault }, _) => with_phase(s, Phase::Finished),
        _ => s,
    }
}

impl RunContext {
    /// The loop over a freshly opened session, about to drain the command queue.
    pub fn new(stream: StreamInner) -> (r: RunContext)
        ensures
            r.stream == stream,
            r.phase == Phase::Draining,
    {
        RunContext { stream, phase: Phase::Draining }
    }

    /// The action this state waits on.
    pub fn pending(&self) -> (a: Action)
        ensures
            a == pending_action(*self),
    {
        match self.phase {
            Phase::Draining => Action::PollCommand,
            Phase::Starting => Action::StartDevice,
            Phase::Stopping => Action::StopDevice,
            Phase::Waiting => Action::Wait,
            Phase::Padding => Action::GetCurrentPadding,
            Phase::RenderAcquire { frames } => Action::GetRenderBuffer { frames },
            Phase::Rendering { frames } => {
                let format = self.stream.sample_format;
                Action::DeliverOutput { format, len: buffer_len(frames, self.stream.bytes_per_frame, format) }
            },
            Phase::RenderRelease { frames } => Action::ReleaseRenderBuffer { frames },
            Phase::PacketSize => Action::GetNextPacketSize,
            Phase::CaptureAcquire => Action::GetCaptureBuffer,
            Phase::Capturing { frames } => {
                let format = self.stream.sample_format;
                Action::DeliverInput { format, len: buffer_len(frames, self.stream.bytes_per_frame, format) }
            },
            Phase::CaptureRelease { frames } => Action::ReleaseCaptureBuffer { frames },
            Phase::Failed { fault } => Action::Fail { fault },
            Phase::Finished => Action::Exit,
        }
    }

    fn set_status(&mut self, hresult: i32, next: Phase)
        ensures
            *final(self) == on_status(*old(self), hresult, with_phase(*old(self), next)),
    {
        if hresult >= 0 {
            self.phase = next;
        } else {
            self.phase = Phase::Failed { fault: Fault::Status { hresult } };
        }
    }

    /// Takes the outcome of the pending action and returns the next action.
    pub fn step(&mut self, event: Event) -> (a: Action)
        ensures
            *final(self) == advance(*old(self), event),
            a == pending_action(*final(self)),
    {
        match (self.phase, event) {
            (Phase::Draining, Event::Polled { command }) => match command {
                Option::None => self.phase = Phase::Waiting,
                Option::Some(Command::PlayStream) => if !self.stream.playing {
                    self.phase = Phase::Starting;
                },
                Option::Some(Command::PauseStream) => if self.stream.playing {
                    self.phase = Phase::Stopping;
                },
                Option::Some(Command::Terminate) => self.phase = Phase::Finished,
            },
            (Phase::Starting, Event::Status { hresult }) => {
                if hresult >= 0 {
                    self.stream.playing = true;
                }
                self.set_status(hresult, Phase::Draining);
            },
            (Phase::Stopping, Event::Status { hresult }) => {
                if hresult >= 0 {
                    self.stream.playing = false;
                }
                self.set_status(hresult, Phase::Draining);
            },
            (Phase::Waiting, Event::Signalled { index }) => {
                if index == 0 {
                    self.phase = Phase::Draining;
                } else {
                    match self.stream.client_flow {
                        AudioClientFlow::Render => self.phase = Phase::Padding,
                        AudioClientFlow::Capture => self.phase = Phase::PacketSize,
                    }
                }
            },
            (Phase::Waiting, Event::WaitFailed { code }) => {
                self.phase = Phase::Failed { fault: Fault::WaitFailed { code } };
            },
            (Phase::Padding, Event::Padding { hresult, padding }) => {
                let frames = available_frames(self.stream.max_frames_in_buffer, padding);
                if frames == 0 {
                    self.set_status(hresult, Phase::Draining);
                } else {
                    self.set_status(hresult, Phase::RenderAcquire { frames });
                }
            },
            (Phase::RenderAcquire { frames }, Event::Status { hresult }) => {
                self.set_status(hresult, Phase::Rendering { frames });
            },
            (Phase::Rendering { frames }, Event::CallbackReturned) => {
                self.phase = Phase::RenderRelease { frames };
            },
            (Phase::RenderRelease { frames }, Event::Status { hresult }) => {
                self.set_status(hresult, Phase::Draining);
            },
            (Phase::PacketSize, Event::PacketSize { hresult, frames }) => {
                if frames == 0 {
                    self.set_status(hresult, Phase::Draining);
                } else {
                    self.set_status(hresult, Phase::CaptureAcquire);
                }
            },
            (Phase::CaptureAcquire, Event::CaptureBuffer { hresult, frames }) => {
                if hresult == AUDCLNT_S_BUFFER_EMPTY {
                    self.phase = Phase::PacketSize;
                } else {
                    self.set_status(hresult, Phase::Capturing { frames });
                }
            },
            (Phase::Capturing { frames }, Event::CallbackReturned) => {
                self.phase = Phase::CaptureRelease { frames };
            },
            (Phase::CaptureRelease { frames }, Event::Status { hresult }) => {
                self.set_status(hresult, Phase::PacketSize);
            },
            (Phase::Failed { fault: _ }, _) => self.phase = Phase::Finished,
            _ => {},
        }
        self.pending()
    }
}

} // verus!
