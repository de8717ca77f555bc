//! Runs of the machine over sequences of events, and what holds of them.
use vstd::prelude::*;
use crate::engine::{
    Action, AudioClientFlow, Command, Event, Fault, Phase, RunContext, StreamInner, advance,
    pending_action,
};
use crate::error::{AUDCLNT_E_DEVICE_INVALIDATED, AUDCLNT_S_BUFFER_EMPTY};
use crate::format::{free_frames, view_len};

verus! {

/// The state after the events, in order, and the action asked for after each.
pub open spec fn run(s: RunContext, events: Seq<Event>) -> (RunContext, Seq<Action>)
    decreases events.len(),
{
    if events.len() == 0 {
        (s, Seq::empty())
    } else {
        let next = advance(s, events[0]);
        let rest = run(next, events.subrange(1, events.len() as int));
        (rest.0, seq![pending_action(next)] + rest.1)
    }
}

/// Running over two sequences of events is running over the first, then the second.
pub proof fn lemma_run_concat(s: RunContext, a: Seq<Event>, b: Seq<Event>)
    ensures
        run(s, a + b) == (run(run(s, a).0, b).0, run(s, a).1 + run(run(s, a).0, b).1),
    decreases a.len(),
{
    if a.len() == 0 {
        assert(a + b =~= b);
        assert(run(s, a).1 + run(s, b).1 =~= run(s, b).1);
    } else {
        let next = advance(s, a[0]);
        let tail = a.subrange(1, a.len() as int);
        assert((a + b).subrange(1, (a + b).len() as int) =~= tail + b);
        lemma_run_concat(next, tail, b);
        let mid = run(next, tail).0;
        assert(seq![pending_action(next)] + (run(next, tail).1 + run(mid, b).1)
            =~= (seq![pending_action(next)] + run(next, tail).1) + run(mid, b).1);
    }
}

/// The playing state after one command, applied on its own.
pub open spec fn apply_command(playing: bool, c: Command) -> bool {
    match c {
        Command::PlayStream => true,
        Command::PauseStream => false,
        Command::Terminate => playing,
    }
}

/// The playing state after the commands, applied in order of arrival.
pub open spec fn apply_all(playing: bool, cmds: Seq<Command>) -> bool
    decreases cmds.len(),
{
    if cmds.len() == 0 {
        playing
    } else {
        apply_all(apply_command(playing, cmds[0]), cmds.subrange(1, cmds.len() as int))
    }
}

/// The device call one command makes: one only where it changes the playing state.
pub open spec fn command_calls(playing: bool, c: Command) -> Seq<Action> {
    if apply_command(playing, c) == playing {
        Seq::empty()
    } else if apply_command(playing, c) {
        seq![Action::StartDevice]
    } else {
        seq![Action::StopDevice]
    }
}

/// The device calls the commands make, in order.
pub open spec fn device_calls(playing: bool, cmds: Seq<Command>) -> Seq<Action>
    decreases cmds.len(),
{
    if cmds.len() == 0 {
        Seq::empty()
    } else {
        command_calls(playing, cmds[0])
            + device_calls(apply_command(playing, cmds[0]), cmds.subrange(1, cmds.len() as int))
    }
}

/// The events a drain sees for one command: the command, then the status of
/// the device call it makes, if it makes one.
pub open spec fn command_events(playing: bool, c: Command, hresult: i32) -> Seq<Event> {
    if apply_command(playing, c) == playing {
        seq![Event::Polled { command: Option::Some(c) }]
    } else {
        seq![Event::Polled { command: Option::Some(c) }, Event::Status { hresult }]
    }
}

/// The events a drain sees for the commands, where a device call made for the
/// command at `i` returns `statuses[i]`.
pub open spec fn drain_events(playing: bool, cmds: Seq<Command>, statuses: Seq<i32>) -> Seq<Event>
    decreases cmds.len(),
{
    if cmds.len() == 0 {
        Seq::empty()
    } else {
        command_events(playing, cmds[0], statuses[0]) + drain_events(
            apply_command(playing, cmds[0]),
            cmds.subrange(1, cmds.len() as int),
            statuses.subrange(1, statuses.len() as int),
        )
    }
}

/// Every status reports success.
pub open spec fn all_succeed(statuses: Seq<i32>) -> bool {
    forall|i: int| 0 <= i < statuses.len() ==> statuses[i] >= 0
}

/// Commands that a drain applies, with a status for each: no terminate among them.
pub open spec fn drainable(cmds: Seq<Command>, statuses: Seq<i32>) -> bool {
    &&& statuses.len() == cmds.len()
    &&& all_succeed(statuses)
    &&& forall|i: int| 0 <= i < cmds.len() ==> cmds[i] != Command::Terminate
}

pub open spec fn is_device_call(a: Action) -> bool {
    a is StartDevice || a is StopDevice
}

pub open spec fn device_call_filter() -> spec_fn(Action) -> bool {
    |a: Action| is_device_call(a)
}

/// Play and pause commands drained in one go leave the device in the state
/// that applying them in order of arrival gives, and start or stop it only
/// where a command changes that state: a repeated command makes no call.
pub proof fn lemma_drain_applies_in_order(s: RunContext, cmds: Seq<Command>, statuses: Seq<i32>)
    requires
        s.phase == Phase::Draining,
        drainable(cmds, statuses),
    ensures
        run(s, drain_events(s.stream.playing, cmds, statuses)).0 == (RunContext {
            stream: StreamInner { playing: apply_all(s.stream.playing, cmds), ..s.stream },
            phase: Phase::Draining,
        }),
        run(s, drain_events(s.stream.playing, cmds, statuses)).1.filter(device_call_filter())
            == device_calls(s.stream.playing, cmds),
    decreases cmds.len(),
{
    let p = s.stream.playing;
    if cmds.len() == 0 {
        assert(s == (RunContext { stream: StreamInner { playing: p, ..s.stream }, phase: Phase::Draining }));
        assert(Seq::<Action>::empty().filter(device_call_filter()) =~= Seq::<Action>::empty());
    } else {
        let c = cmds[0];
        let rest = cmds.subrange(1, cmds.len() as int);
        let rest_statuses = statuses.subrange(1, statuses.len() as int);
        let head = command_events(p, c, statuses[0]);
        let mid = run(s, head);
        let s1 = advance(s, head[0]);
        if apply_command(p, c) != p {
            let s2 = advance(s1, head[1]);
            assert(head.subrange(1, 2) =~= seq![head[1]]);
            assert(seq![head[1]].subrange(1, 1) =~= Seq::<Event>::empty());
            reveal_with_fuel(run, 3);
            assert(mid.0 == s2);
            assert(mid.1 =~= seq![pending_action(s1), pending_action(s2)]);
            reveal_with_fuel(Seq::filter, 3);
            assert(seq![pending_action(s1)].filter(device_call_filter())
                =~= seq![pending_action(s1)]);
        } else {
            assert(head.subrange(1, 1) =~= Seq::<Event>::empty());
            reveal_with_fuel(run, 2);
            assert(mid.0 == s1);
            assert(mid.1 =~= seq![pending_action(s1)]);
            reveal_with_fuel(Seq::filter, 2);
        }
        assert(mid.0 == (RunContext {
            stream: StreamInner { playing: apply_command(p, c), ..s.stream },
            phase: Phase::Draining,
        }));
        assert(mid.1.filter(device_call_filter()) =~= command_calls(p, c));
        assert forall|i: int| 0 <= i < rest.len() implies rest[i] != Command::Terminate by {
            assert(rest[i] == cmds[i + 1]);
        }
        assert forall|i: int| 0 <= i < rest_statuses.len() implies rest_statuses[i] >= 0 by {
            assert(rest_statuses[i] == statuses[i + 1]);
        }
        lemma_drain_applies_in_order(mid.0, rest, rest_statuses);
        lemma_run_concat(s, head, drain_events(apply_command(p, c), rest, rest_statuses));
        Seq::filter_distributes_over_add(mid.1, run(mid.0, drain_events(apply_command(p, c), rest, rest_statuses)).1,
            device_call_filter());
    }
}

/// A drain of play and pause commands asks only for commands and device calls.
pub proof fn lemma_drain_never_waits(s: RunContext, cmds: Seq<Command>, statuses: Seq<i32>)
    requires
        s.phase == Phase::Draining,
        drainable(cmds, statuses),
    ensures
        forall|i: int| 0 <= i < run(s, drain_events(s.stream.playing, cmds, statuses)).1.len() ==> {
            let a = #[trigger] run(s, drain_events(s.stream.playing, cmds, statuses)).1[i];
            a is PollCommand || is_device_call(a)
        },
    decreases cmds.len(),
{
    let p = s.stream.playing;
    if cmds.len() > 0 {
        let c = cmds[0];
        let rest = cmds.subrange(1, cmds.len() as int);
        let rest_statuses = statuses.subrange(1, statuses.len() as int);
        let head = command_events(p, c, statuses[0]);
        let mid = run(s, head);
        let s1 = advance(s, head[0]);
        if apply_command(p, c) != p {
            assert(head.subrange(1, 2) =~= seq![head[1]]);
            assert(seq![head[1]].subrange(1, 1) =~= Seq::<Event>::empty());
            reveal_with_fuel(run, 3);
            assert(mid.1 =~= seq![pending_action(s1), pending_action(advance(s1, head[1]))]);
            assert(mid.0 == advance(s1, head[1]));
        } else {
            assert(head.subrange(1, 1) =~= Seq::<Event>::empty());
            reveal_with_fuel(run, 2);
            assert(mid.1 =~= seq![pending_action(s1)]);
            assert(mid.0 == s1);
        }
        assert(mid.0.phase == Phase::Draining);
        assert forall|i: int| 0 <= i < rest.len() implies rest[i] != Command::Terminate by {
            assert(rest[i] == cmds[i + 1]);
        }
        assert forall|i: int| 0 <= i < rest_statuses.len() implies rest_statuses[i] >= 0 by {
            assert(rest_statuses[i] == statuses[i + 1]);
        }
        lemma_drain_never_waits(mid.0, rest, rest_statuses);
        lemma_run_concat(s, head, drain_events(apply_command(p, c), rest, rest_statuses));
        let tail = run(mid.0, drain_events(apply_command(p, c), rest, rest_statuses)).1;
        assert forall|i: int| 0 <= i < mid.1.len() + tail.len() implies {
            let a = #[trigger] (mid.1 + tail)[i];
            a is PollCommand || is_device_call(a)
        } by {
            if i >= mid.1.len() {
                assert((mid.1 + tail)[i] == tail[i - mid.1.len()]);
            }
        }
    }
}

/// Once the loop is over it stays over: whatever happens next, it only asks to exit.
pub proof fn lemma_finished_is_final(s: RunContext, events: Seq<Event>)
    requires
        s.phase == Phase::Finished,
    ensures
        run(s, events).0 == s,
        forall|i: int| 0 <= i < run(s, events).1.len() ==> run(s, events).1[i] == Action::Exit,
    decreases events.len(),
{
    if events.len() > 0 {
        lemma_finished_is_final(s, events.subrange(1, events.len() as int));
    }
}

/// A drain that meets a terminate command behind any play and pause commands
/// ends the loop without waiting; from then on it makes no device call.
pub proof fn lemma_terminate_in_drain(
    s: RunContext,
    cmds: Seq<Command>,
    statuses: Seq<i32>,
    later: Seq<Event>,
)
    requires
        s.phase == Phase::Draining,
        drainable(cmds, statuses),
    ensures
        ({
            let events = drain_events(s.stream.playing, cmds, statuses)
                + seq![Event::Polled { command: Option::Some(Command::Terminate) }];
            &&& run(s, events).0.phase == Phase::Finished
            &&& forall|i: int| 0 <= i < run(s, events).1.len() ==> run(s, events).1[i] != Action::Wait
            &&& forall|i: int| 0 <= i < run(run(s, events).0, later).1.len()
                ==> run(run(s, events).0, later).1[i] == Action::Exit
        }),
{
    let drain = drain_events(s.stream.playing, cmds, statuses);
    let stop = seq![Event::Polled { command: Option::Some(Command::Terminate) }];
    lemma_drain_applies_in_order(s, cmds, statuses);
    lemma_drain_never_waits(s, cmds, statuses);
    let s2 = run(s, drain).0;
    let s3 = advance(s2, stop[0]);
    assert(stop.subrange(1, 1) =~= Seq::<Event>::empty());
    reveal_with_fuel(run, 2);
    assert(run(s2, stop).1 =~= seq![Action::Exit]);
    lemma_run_concat(s, drain, stop);
    assert(run(s, drain + stop).1 =~= run(s, drain).1 + seq![Action::Exit]);
    lemma_finished_is_final(s3, later);
}

/// A terminate command queued behind any play and pause commands, with the
/// wake-up signal raised, ends the loop before it waits again; from then on it
/// makes no device call.
pub proof fn lemma_terminate_ends_loop(
    s: RunContext,
    cmds: Seq<Command>,
    statuses: Seq<i32>,
    later: Seq<Event>,
)
    requires
        s.phase == Phase::Waiting,
        drainable(cmds, statuses),
    ensures
        ({
            let events = seq![Event::Signalled { index: 0 }] + drain_events(s.stream.playing, cmds, statuses)
                + seq![Event::Polled { command: Option::Some(Command::Terminate) }];
            &&& run(s, events).0.phase == Phase::Finished
            &&& forall|i: int| 0 <= i < run(s, events).1.len() ==> run(s, events).1[i] != Action::Wait
            &&& forall|i: int| 0 <= i < run(run(s, events).0, later).1.len()
                ==> run(run(s, events).0, later).1[i] == Action::Exit
        }),
{
    let wake = seq![Event::Signalled { index: 0 }];
    let drain = drain_events(s.stream.playing, cmds, statuses);
    let stop = seq![Event::Polled { command: Option::Some(Command::Terminate) }];
    let s1 = advance(s, wake[0]);
    assert(wake.subrange(1, 1) =~= Seq::<Event>::empty());
    reveal_with_fuel(run, 2);
    assert(run(s, wake).1 =~= seq![Action::PollCommand]);
    lemma_terminate_in_drain(s1, cmds, statuses, later);
    lemma_run_concat(s, wake, drain + stop);
    assert(wake + drain + stop =~= wake + (drain + stop));
    assert(run(s, wake + (drain + stop)).1 =~= seq![Action::PollCommand] + run(s1, drain + stop).1);
}

/// A render cycle hands the callback a view over exactly the free frames of
/// the buffer, in the session's encoding, and releases exactly those frames:
/// as many frames are asked for as are produced and released. Where no frame
/// is free the cycle ends at once, with no buffer taken.
pub proof fn lemma_render_cycle_conserves_frames(
    s: RunContext,
    index: usize,
    padding: u32,
    acquired: i32,
    released: i32,
    queried: i32,
)
    requires
        s.phase == Phase::Waiting,
        s.stream.client_flow == AudioClientFlow::Render,
        index != 0,
        queried >= 0,
        acquired >= 0,
        released >= 0,
    ensures
        ({
            let n = free_frames(s.stream.max_frames_in_buffer as nat, padding as nat);
            let fmt = s.stream.sample_format;
            let events = seq![
                Event::Signalled { index },
                Event::Padding { hresult: queried, padding },
                Event::Status { hresult: acquired },
                Event::CallbackReturned,
                Event::Status { hresult: released },
            ];
            n > 0 ==> {
                &&& run(s, events).1 == seq![
                    Action::GetCurrentPadding,
                    Action::GetRenderBuffer { frames: n as u32 },
                    Action::DeliverOutput {
                        format: fmt,
                        len: view_len(n, s.stream.bytes_per_frame as nat, fmt) as u64,
                    },
                    Action::ReleaseRenderBuffer { frames: n as u32 },
                    Action::PollCommand,
                ]
                &&& run(s, events).0 == (RunContext { phase: Phase::Draining, ..s })
            }
        }),
        ({
            let n = free_frames(s.stream.max_frames_in_buffer as nat, padding as nat);
            let events = seq![Event::Signalled { index }, Event::Padding { hresult: queried, padding }];
            n == 0 ==> run(s, events) == (
                RunContext { phase: Phase::Draining, ..s },
                seq![Action::GetCurrentPadding, Action::PollCommand],
            )
        }),
{
    reveal_with_fuel(run, 6);
    let n = free_frames(s.stream.max_frames_in_buffer as nat, padding as nat);
    let fmt = s.stream.sample_format;
    let events = seq![
        Event::Signalled { index },
        Event::Padding { hresult: queried, padding },
        Event::Status { hresult: acquired },
        Event::CallbackReturned,
        Event::Status { hresult: released },
    ];
    let e2 = events.subrange(1, 5);
    let e3 = e2.subrange(1, 4);
    let e4 = e3.subrange(1, 3);
    let e5 = e4.subrange(1, 2);
    assert(e2 =~= seq![events[1], events[2], events[3], events[4]]);
    assert(e3 =~= seq![events[2], events[3], events[4]]);
    assert(e4 =~= seq![events[3], events[4]]);
    assert(e5 =~= seq![events[4]]);
    assert(e5.subrange(1, 1) =~= Seq::<Event>::empty());
    if n > 0 {
        assert(run(s, events).1 =~= seq![
            Action::GetCurrentPadding,
            Action::GetRenderBuffer { frames: n as u32 },
            Action::DeliverOutput {
                format: fmt,
                len: view_len(n, s.stream.bytes_per_frame as nat, fmt) as u64,
            },
            Action::ReleaseRenderBuffer { frames: n as u32 },
            Action::PollCommand,
        ]);
    }
    let short = seq![Event::Signalled { index }, Event::Padding { hresult: queried, padding }];
    assert(short.subrange(1, 2) =~= seq![short[1]]);
    assert(seq![short[1]].subrange(1, 1) =~= Seq::<Event>::empty());
    if n == 0 {
        assert(run(s, short).1 =~= seq![Action::GetCurrentPadding, Action::PollCommand]);
    }
}

/// A capture round serves packets while the device reports one pending: each
/// is taken, handed to the callback in the session's encoding and released,
/// and the pending size is asked again. A transient empty buffer is asked again
/// without a callback. A pending size of zero hands control back to the
/// command queue.
pub proof fn lemma_capture_cycle(
    s: RunContext,
    pending: u32,
    frames: u32,
    sized: i32,
    acquired: i32,
    released: i32,
)
    requires
        s.phase == Phase::PacketSize,
        pending > 0,
        sized >= 0,
        acquired >= 0,
        acquired != AUDCLNT_S_BUFFER_EMPTY,
        released >= 0,
    ensures
        run(s, seq![
            Event::PacketSize { hresult: sized, frames: pending },
            Event::CaptureBuffer { hresult: acquired, frames },
            Event::CallbackReturned,
            Event::Status { hresult: released },
        ]) == (s, seq![
            Action::GetCaptureBuffer,
            Action::DeliverInput {
                format: s.stream.sample_format,
                len: view_len(frames as nat, s.stream.bytes_per_frame as nat, s.stream.sample_format) as u64,
            },
            Action::ReleaseCaptureBuffer { frames },
            Action::GetNextPacketSize,
        ]),
        run(s, seq![
            Event::PacketSize { hresult: sized, frames: pending },
            Event::CaptureBuffer { hresult: AUDCLNT_S_BUFFER_EMPTY, frames },
        ]) == (s, seq![Action::GetCaptureBuffer, Action::GetNextPacketSize]),
        run(s, seq![Event::PacketSize { hresult: sized, frames: 0 }])
            == (RunContext { phase: Phase::Draining, ..s }, seq![Action::PollCommand]),
{
    reveal_with_fuel(run, 5);
    let full = seq![
        Event::PacketSize { hresult: sized, frames: pending },
        Event::CaptureBuffer { hresult: acquired, frames },
        Event::CallbackReturned,
        Event::Status { hresult: released },
    ];
    assert(full.subrange(1, 4) =~= seq![full[1], full[2], full[3]]);
    assert(seq![full[1], full[2], full[3]].subrange(1, 3) =~= seq![full[2], full[3]]);
    assert(seq![full[2], full[3]].subrange(1, 2) =~= seq![full[3]]);
    assert(seq![full[3]].subrange(1, 1) =~= Seq::<Event>::empty());
    assert(run(s, full).1 =~= seq![
        Action::GetCaptureBuffer,
        Action::DeliverInput {
            format: s.stream.sample_format,
            len: view_len(frames as nat, s.stream.bytes_per_frame as nat, s.stream.sample_format) as u64,
        },
        Action::ReleaseCaptureBuffer { frames },
        Action::GetNextPacketSize,
    ]);
    let empty = seq![
        Event::PacketSize { hresult: sized, frames: pending },
        Event::CaptureBuffer { hresult: AUDCLNT_S_BUFFER_EMPTY, frames },
    ];
    assert(empty.subrange(1, 2) =~= seq![empty[1]]);
    assert(seq![empty[1]].subrange(1, 1) =~= Seq::<Event>::empty());
    assert(run(s, empty).1 =~= seq![Action::GetCaptureBuffer, Action::GetNextPacketSize]);
    let zero = seq![Event::PacketSize { hresult: sized, frames: 0 }];
    assert(zero.subrange(1, 1) =~= Seq::<Event>::empty());
    assert(run(s, zero).1 =~= seq![Action::PollCommand]);
}

/// The status an event carries, if it carries one.
pub open spec fn status_of(e: Event) -> Option<i32> {
    match e {
        Event::Status { hresult } => Option::Some(hresult),
        Event::Padding { hresult, .. } => Option::Some(hresult),
        Event::PacketSize { hresult, .. } => Option::Some(hresult),
        Event::CaptureBuffer { hresult, .. } => Option::Some(hresult),
        _ => Option::None,
    }
}

/// A device call that answers "device invalidated" ends the loop: the fault is
/// reported once, right away, and after it the loop asks for nothing but to
/// exit, so no data callback runs again.
pub proof fn lemma_device_loss_is_fatal(s: RunContext, e: Event, later: Seq<Event>)
    requires
        advance(s, e) != s,
        !(s.phase is Failed),
        status_of(e) == Option::Some(AUDCLNT_E_DEVICE_INVALIDATED),
    ensures
        advance(s, e).phase == (Phase::Failed {
            fault: Fault::Status { hresult: AUDCLNT_E_DEVICE_INVALIDATED },
        }),
        run(s, seq![e] + later).1[0] == (Action::Fail {
            fault: Fault::Status { hresult: AUDCLNT_E_DEVICE_INVALIDATED },
        }),
        forall|i: int| 1 <= i < run(s, seq![e] + later).1.len()
            ==> run(s, seq![e] + later).1[i] == Action::Exit,
{
    let events = seq![e] + later;
    let failed = advance(s, e);
    assert(events[0] == e);
    assert(events.subrange(1, events.len() as int) =~= later);
    if later.len() > 0 {
        let done = advance(failed, later[0]);
        let rest = later.subrange(1, later.len() as int);
        lemma_finished_is_final(done, rest);
        assert(run(failed, later).1 =~= seq![Action::Exit] + run(done, rest).1);
    }
    assert(run(s, events).1 =~= seq![pending_action(failed)] + run(failed, later).1);
    assert forall|i: int| 1 <= i < run(s, events).1.len() implies run(s, events).1[i] == Action::Exit by {
        assert(run(s, events).1[i] == run(failed, later).1[i - 1]);
        if later.len() > 0 {
            let done = advance(failed, later[0]);
            let rest = later.subrange(1, later.len() as int);
            if i >= 2 {
                assert(run(failed, later).1[i - 1] == run(done, rest).1[i - 2]);
            }
        }
    }
}

/// What the device answers while one captured packet is served.
#[derive(Clone, Copy, Debug, PartialEq, Eq, Structural)]
pub struct PacketAnswers {
    /// The pending packet size reported, and the status of that report.
    pub pending: u32,
    pub sized: i32,
    /// The frames the capture buffer holds, and the status of taking it.
    pub frames: u32,
    pub acquired: i32,
    /// The status of releasing the buffer.
    pub released: i32,
}

/// The device serves this packet: one is pending and every call succeeds,
/// taking the buffer with a status other than "buffer empty".
pub open spec fn serves(a: PacketAnswers) -> bool {
    &&& a.pending > 0
    &&& a.sized >= 0
    &&& a.acquired >= 0
    &&& a.acquired != AUDCLNT_S_BUFFER_EMPTY
    &&& a.released >= 0
}

/// The events of a capture round: each packet in turn, then a report, with
/// status `last`, of nothing pending.
pub open spec fn capture_round(packets: Seq<PacketAnswers>, last: i32) -> Seq<Event>
    decreases packets.len(),
{
    if packets.len() == 0 {
        seq![Event::PacketSize { hresult: last, frames: 0 }]
    } else {
        let a = packets[0];
        seq![
            Event::PacketSize { hresult: a.sized, frames: a.pending },
            Event::CaptureBuffer { hresult: a.acquired, frames: a.frames },
            Event::CallbackReturned,
            Event::Status { hresult: a.released },
        ] + capture_round(packets.subrange(1, packets.len() as int), last)
    }
}

/// What a capture round asks for: each buffer taken, delivered and released
/// in turn, and the pending size asked again after each; then the commands.
pub open spec fn capture_round_actions(s: RunContext, packets: Seq<PacketAnswers>) -> Seq<Action>
    decreases packets.len(),
{
    if packets.len() == 0 {
        seq![Action::PollCommand]
    } else {
        let frames = packets[0].frames;
        seq![
            Action::GetCaptureBuffer,
            Action::DeliverInput {
                format: s.stream.sample_format,
                len: view_len(frames as nat, s.stream.bytes_per_frame as nat, s.stream.sample_format) as u64,
            },
            Action::ReleaseCaptureBuffer { frames },
            Action::GetNextPacketSize,
        ] + capture_round_actions(s, packets.subrange(1, packets.len() as int))
    }
}

/// Capture cycles go on exactly as long as packets are pending: every buffer
/// taken is delivered and released, in order, with the frames it holds, and
/// the first report of none pending hands control back to the command queue.
pub proof fn lemma_capture_round(s: RunContext, packets: Seq<PacketAnswers>, last: i32)
    requires
        s.phase == Phase::PacketSize,
        forall|i: int| 0 <= i < packets.len() ==> serves(#[trigger] packets[i]),
        last >= 0,
    ensures
        run(s, capture_round(packets, last))
            == (RunContext { phase: Phase::Draining, ..s }, capture_round_actions(s, packets)),
    decreases packets.len(),
{
    lemma_capture_cycle(s, 1, 0, last, 0, 0);
    if packets.len() > 0 {
        let a = packets[0];
        let rest = packets.subrange(1, packets.len() as int);
        assert(serves(packets[0]));
        lemma_capture_cycle(s, a.pending, a.frames, a.sized, a.acquired, a.released);
        assert forall|i: int| 0 <= i < rest.len() implies serves(#[trigger] rest[i]) by {
            assert(rest[i] == packets[i + 1]);
        }
        lemma_capture_round(s, rest, last);
        let cycle = seq![
            Event::PacketSize { hresult: a.sized, frames: a.pending },
            Event::CaptureBuffer { hresult: a.acquired, frames: a.frames },
            Event::CallbackReturned,
            Event::Status { hresult: a.released },
        ];
        lemma_run_concat(s, cycle, capture_round(rest, last));
    }
}

/// No event changes the session's direction, buffer size, frame size or
/// encoding; the playing state changes only when a start or a stop succeeds.
pub proof fn lemma_session_is_fixed(s: RunContext, e: Event)
    ensures
        advance(s, e).stream == (StreamInner { playing: advance(s, e).stream.playing, ..s.stream }),
        advance(s, e).stream.playing != s.stream.playing ==> {
            &&& e matches Event::Status { hresult } && hresult >= 0
            &&& (s.phase == Phase::Starting && advance(s, e).stream.playing)
                || (s.phase == Phase::Stopping && !advance(s, e).stream.playing)
        },
{
}

} // verus!
