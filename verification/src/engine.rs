//! The engine's frame: routing inbound events into the frame's record, the
//! order in which the timer and the channels consume it, and the decisions
//! around it (when to emit progress, how a renderer event is logged, how
//! the shutdown drain ends).  The loop itself, its clock and its channels
//! to the outside are the caller's.

use vstd::prelude::*;

use crate::channel_system::{spec_handle, SensoryChannelsSystem};
use crate::channel_types::{ChannelCommand, ChannelValue};
use crate::channels::{spec_begin_tick, ChannelModel, ChannelTarget};
use crate::frame::FrameEvents;
use crate::timer::{spec_run, spec_tick, StateCommand, TimerModel, TimerState, TimerStateMachine};
use crate::update::Update;

verus! {

/// Least time between two progress updates sent to the frontend.
pub const PROGRESS_EMIT_INTERVAL_MS: u64 = 100;

/// Target length of a frame (about 60 per second).
pub const TARGET_FRAME_INTERVAL_US: u64 = 16_667;

/// What a renderer reports to the engine.
#[derive(Debug, Clone)]
pub enum RendererEvent {
    RenderUnappliedDueToUnchanged { renderer_name: &'static str },
    /// A `render()` call came before `startup()` completed.
    RenderUnappliedDueToNotStartupped { renderer_name: &'static str },
    RenderSuccessful { renderer_name: &'static str },
    RenderFailed { renderer_name: &'static str, error: String },
    StartupCompleted { renderer_name: &'static str },
    StartupFailed { renderer_name: &'static str, error: String },
    /// Every closure queued by `shutdown()` has run; the engine may leave
    /// its shutdown drain.
    ShutdownCompleted { renderer_name: &'static str },
}

#[derive(Debug, Clone, Copy, PartialEq, Eq, Structural)]
pub enum LogLevel {
    Debug,
    Info,
    Warn,
    Error,
}

/// The severity of a renderer event: frequent successes are debug, a render
/// before startup a warning, failures errors, lifecycle markers info.
pub open spec fn spec_renderer_log_level(event: RendererEvent) -> LogLevel {
    match event {
        RendererEvent::RenderSuccessful { .. } => LogLevel::Debug,
        RendererEvent::RenderUnappliedDueToUnchanged { .. } => LogLevel::Debug,
        RendererEvent::RenderUnappliedDueToNotStartupped { .. } => LogLevel::Warn,
        RendererEvent::RenderFailed { .. } => LogLevel::Error,
        RendererEvent::StartupCompleted { .. } => LogLevel::Info,
        RendererEvent::StartupFailed { .. } => LogLevel::Error,
        RendererEvent::ShutdownCompleted { .. } => LogLevel::Info,
    }
}

pub open spec fn spec_renderer_log_message(event: RendererEvent) -> Seq<char> {
    match event {
        RendererEvent::RenderSuccessful { .. } => "render successful"@,
        RendererEvent::RenderUnappliedDueToUnchanged { .. } => "render skipped: unchanged"@,
        RendererEvent::RenderUnappliedDueToNotStartupped { .. } => "render skipped: not yet started"@,
        RendererEvent::RenderFailed { .. } => "render failed"@,
        RendererEvent::StartupCompleted { .. } => "startup successful"@,
        RendererEvent::StartupFailed { .. } => "startup failed"@,
        RendererEvent::ShutdownCompleted { .. } => "shutdown completed (drained outside of normal shutdown path)"@,
    }
}

/// How a renderer event is logged: its severity and message (the renderer's
/// name and any error go along as fields).
pub fn log_renderer_event(event: &RendererEvent) -> (r: (LogLevel, &'static str))
    ensures
        r.0 == spec_renderer_log_level(*event),
        r.1@ == spec_renderer_log_message(*event),
{
    match event {
        RendererEvent::RenderSuccessful { .. } => (LogLevel::Debug, "render successful"),
        RendererEvent::RenderUnappliedDueToUnchanged { .. } => (
            LogLevel::Debug,
            "render skipped: unchanged",
        ),
        RendererEvent::RenderUnappliedDueToNotStartupped { .. } => (
            LogLevel::Warn,
            "render skipped: not yet started",
        ),
        RendererEvent::RenderFailed { .. } => (LogLevel::Error, "render failed"),
        RendererEvent::StartupCompleted { .. } => (LogLevel::Info, "startup successful"),
        RendererEvent::StartupFailed { .. } => (LogLevel::Error, "startup failed"),
        RendererEvent::ShutdownCompleted { .. } => (
            LogLevel::Info,
            "shutdown completed (drained outside of normal shutdown path)",
        ),
    }
}

/// Failures are logged as errors, a render before startup as a warning,
/// the frequent render outcomes as debug, and the lifecycle markers as
/// information.
pub proof fn lemma_renderer_log_levels(event: RendererEvent)
    ensures
        (spec_renderer_log_level(event) == LogLevel::Error) <==> (event is RenderFailed
            || event is StartupFailed),
        (spec_renderer_log_level(event) == LogLevel::Warn) <==> event is RenderUnappliedDueToNotStartupped,
        (spec_renderer_log_level(event) == LogLevel::Debug) <==> (event is RenderSuccessful
            || event is RenderUnappliedDueToUnchanged),
        (spec_renderer_log_level(event) == LogLevel::Info) <==> (event is StartupCompleted
            || event is ShutdownCompleted),
{
}

/// An inbound engine event, with the progress channel itself left with the
/// caller.
#[derive(Debug, Clone)]
pub enum EngineInput {
    State(StateCommand),
    Channel(ChannelCommand),
    Renderer(RendererEvent),
    RegisterProgressChannel,
    ClearProgressChannel,
    ForceReset,
    Shutdown,
    AbnormalShutdown,
}

/// What routing an event leaves for the caller to do.
#[derive(Debug, Clone)]
pub enum RoutedEffect {
    /// The event went into the frame record.
    Recorded,
    Log(RendererEvent),
    /// Keep the new progress channel and emit to it at once.
    RegisterProgressChannel,
    ClearProgressChannel,
}

/// Every field of a frame record but those named is as it was.
pub open spec fn spec_frame_flags_same(a: FrameEvents, b: FrameEvents) -> bool {
    &&& a.just_transited == b.just_transited
    &&& a.switch_changed == b.switch_changed
    &&& a.need_persist == b.need_persist
}

/// Records one inbound event in the frame.
pub fn route_event(frame_events: &mut FrameEvents, event: EngineInput) -> (r: RoutedEffect)
    ensures
        spec_frame_flags_same(*final(frame_events), *old(frame_events)),
        final(frame_events).state_commands@ == (match event {
            EngineInput::State(c) => old(frame_events).state_commands@.push(c),
            _ => old(frame_events).state_commands@,
        }),
        final(frame_events).channel_commands@ == (match event {
            EngineInput::Channel(c) => old(frame_events).channel_commands@.push(c),
            _ => old(frame_events).channel_commands@,
        }),
        final(frame_events).force_reset == (old(frame_events).force_reset
            || event is ForceReset),
        final(frame_events).shutdown_requested == (old(frame_events).shutdown_requested
            || event is Shutdown),
        final(frame_events).shutdown == (old(frame_events).shutdown || event is AbnormalShutdown),
        match event {
            EngineInput::Renderer(e) => r matches RoutedEffect::Log(l) && l == e,
            EngineInput::RegisterProgressChannel => r is RegisterProgressChannel,
            EngineInput::ClearProgressChannel => r is ClearProgressChannel,
            _ => r is Recorded,
        },
{
    match event {
        EngineInput::State(c) => {
            frame_events.state_commands.push(c);
            RoutedEffect::Recorded
        },
        EngineInput::Channel(c) => {
            frame_events.channel_commands.push(c);
            RoutedEffect::Recorded
        },
        EngineInput::Renderer(e) => RoutedEffect::Log(e),
        EngineInput::RegisterProgressChannel => RoutedEffect::RegisterProgressChannel,
        EngineInput::ClearProgressChannel => RoutedEffect::ClearProgressChannel,
        EngineInput::ForceReset => {
            frame_events.force_reset = true;
            RoutedEffect::Recorded
        },
        EngineInput::Shutdown => {
            frame_events.shutdown_requested = true;
            RoutedEffect::Recorded
        },
        EngineInput::AbnormalShutdown => {
            frame_events.shutdown = true;
            RoutedEffect::Recorded
        },
    }
}

/// Whether progress goes out now: the interval passed, or the phase
/// changed this frame.
pub fn progress_emit_due(ms_since_last_emit: u64, just_transited: bool) -> (r: bool)
    ensures
        r == (ms_since_last_emit >= PROGRESS_EMIT_INTERVAL_MS || just_transited),
{
    ms_since_last_emit >= PROGRESS_EMIT_INTERVAL_MS || just_transited
}

/// What the shutdown drain sees on one poll.
#[derive(Debug, Clone)]
pub enum DrainPoll {
    Event(EngineInput),
    Empty,
    Disconnected,
}

#[derive(Debug, Clone, Copy, PartialEq, Eq, Structural)]
pub enum DrainStep {
    /// The renderer acknowledged its shutdown.
    Acked,
    /// Nothing yet; wait a little and poll again.
    Wait,
    /// Drop the event and poll again.
    Discard,
    /// The sender is gone: stop draining.
    Stop,
}

/// One poll of the shutdown drain: only a renderer's shutdown
/// acknowledgement ends it; other events are dropped.
pub fn drain_step(poll: &DrainPoll) -> (r: DrainStep)
    ensures
        r == (match *poll {
            DrainPoll::Event(EngineInput::Renderer(RendererEvent::ShutdownCompleted { .. })) => DrainStep::Acked,
            DrainPoll::Event(_) => DrainStep::Discard,
            DrainPoll::Empty => DrainStep::Wait,
            DrainPoll::Disconnected => DrainStep::Stop,
        }),
{
    match poll {
        DrainPoll::Event(EngineInput::Renderer(RendererEvent::ShutdownCompleted { .. })) => DrainStep::Acked,
        DrainPoll::Event(_) => DrainStep::Discard,
        DrainPoll::Empty => DrainStep::Wait,
        DrainPoll::Disconnected => DrainStep::Stop,
    }
}

/// How a frame begins.
#[derive(Debug, Clone, Copy)]
pub enum FrameStart {
    /// A shutdown was asked for: shut the renderers down, drain, stop.
    Shutdown,
    /// The process is going down abnormally: stop at once.
    AbnormalShutdown,
    /// Evaluate each channel's target and call `finish_frame`.
    Run([ChannelTarget; 3]),
}

/// The timer's part of a frame: reset if asked, the commands in order, then
/// time unless a command already changed the phase.
pub open spec fn spec_frame_timer(m: TimerModel, fe: FrameEvents, dt_ms: u64) -> (TimerModel, bool) {
    let m0 = if fe.force_reset {
        TimerModel { state: TimerState::Idle, ..m }
    } else {
        m
    };
    let (m1, t1) = spec_run(m0, fe.state_commands@);
    if fe.just_transited || t1 {
        (m1, true)
    } else {
        spec_tick(m1, dt_ms)
    }
}

/// Time can be added to the timer in this frame without overflow: the
/// frame shuts down, or a command changes the phase (and time does not
/// run), or the phase the commands lead to has room for `dt_ms` more.
pub open spec fn spec_tick_fits(m: TimerModel, fe: FrameEvents, dt_ms: u64) -> bool {
    let m0 = if fe.force_reset {
        TimerModel { state: TimerState::Idle, ..m }
    } else {
        m
    };
    let (m1, t1) = spec_run(m0, fe.state_commands@);
    fe.shutdown_requested || fe.shutdown || fe.just_transited || t1 || m1.state.spec_elapsed_ms()
        + dt_ms <= u64::MAX
}

/// The channels after a forced reset, when there is one.
pub open spec fn spec_frame_reset(chs: Seq<ChannelModel>, force_reset: bool) -> Seq<ChannelModel> {
    if force_reset {
        Seq::new(
            3,
            |i: int|
                ChannelModel {
                    current: Update::Changed(chs[i].channel_type.spec_neutral_value()),
                    ..chs[i]
                },
        )
    } else {
        chs
    }
}

/// The timer's part of a frame.  A quiet frame (no reset, no command, no
/// phase change yet) only lets time run; a forced reset with no command
/// leaves the timer Idle with its durations; once the phase changed this
/// frame, by an earlier step or by a command, time does not run and the
/// frame is marked.
pub proof fn lemma_frame_timer(m: TimerModel, fe: FrameEvents, dt_ms: u64)
    ensures
        ({
            let (m2, jt) = spec_frame_timer(m, fe, dt_ms);
            let m0 = if fe.force_reset {
                TimerModel { state: TimerState::Idle, ..m }
            } else {
                m
            };
            &&& (!fe.force_reset && fe.state_commands@.len() == 0 && !fe.just_transited) ==> (m2, jt)
                == spec_tick(m, dt_ms)
            &&& (fe.force_reset && fe.state_commands@.len() == 0) ==> m2.state is Idle
                && m2.settling_duration_ms == m.settling_duration_ms && m2.reverse_duration_ms
                == m.reverse_duration_ms
            &&& (fe.just_transited || spec_run(m0, fe.state_commands@).1) ==> jt && m2 == spec_run(
                m0,
                fe.state_commands@,
            ).0
        }),
{
    let m0 = if fe.force_reset {
        TimerModel { state: TimerState::Idle, ..m }
    } else {
        m
    };
    if fe.state_commands@.len() == 0 {
        assert(spec_run(m0, fe.state_commands@) == (m0, false));
    }
}

/// A forced reset brings every channel back to its neutral level, marked
/// as changed, and keeps everything else about it.
pub proof fn lemma_frame_reset(chs: Seq<ChannelModel>, i: int)
    requires
        chs.len() == 3,
        0 <= i < 3,
    ensures
        spec_frame_reset(chs, true)[i].current == Update::Changed(
            chs[i].channel_type.spec_neutral_value(),
        ),
        spec_frame_reset(chs, true)[i].channel_type == chs[i].channel_type,
        spec_frame_reset(chs, true)[i].switch_on == chs[i].switch_on,
        spec_frame_reset(chs, true)[i].table == chs[i].table,
        spec_frame_reset(chs, false) == chs,
{
}

/// Whether the engine has cleaned up.  The engine thread's shutdown always
/// cleans up; the main-thread shutdown and an unplanned drop clean up only
/// when nothing has yet.
#[derive(Debug, Clone, Copy, PartialEq, Eq, Structural)]
pub struct EngineCleanup {
    pub cleaned_up: bool,
}

impl EngineCleanup {
    pub fn new() -> (r: Self)
        ensures
            !r.cleaned_up,
    {
        EngineCleanup { cleaned_up: false }
    }

    /// The engine thread's shutdown (renderers shut down, events drained)
    /// has run.
    pub fn finish_shutdown(&mut self)
        ensures
            final(self).cleaned_up,
    {
        self.cleaned_up = true;
    }

    /// Whether the main-thread shutdown, or a drop, must clean up: only the
    /// first cleanup runs.  Either way the engine counts as cleaned up.
    pub fn begin_late_cleanup(&mut self) -> (run: bool)
        ensures
            run == !old(self).cleaned_up,
            final(self).cleaned_up,
    {
        let run = !self.cleaned_up;
        self.cleaned_up = true;
        run
    }
}

/// The timer and the channels the engine drives.
pub struct EngineCore {
    pub timer: TimerStateMachine,
    pub channels: SensoryChannelsSystem,
}

impl EngineCore {
    /// The first half of a frame.  On a shutdown nothing moves; otherwise
    /// a forced reset comes first, then the timer's commands and time, then
    /// the channel commands, and each channel says where its level comes
    /// from in the phase reached.
    pub fn begin_frame(&mut self, frame_events: &mut FrameEvents, dt_ms: u64) -> (r: FrameStart)
        requires
            spec_tick_fits(old(self).timer@, *old(frame_events), dt_ms),
        ensures
            old(frame_events).shutdown_requested ==> r is Shutdown && final(self).timer@ == old(
                self,
            ).timer@ && final(self).channels@ == old(self).channels@ && *final(frame_events)
                == *old(frame_events),
            !old(frame_events).shutdown_requested && old(frame_events).shutdown ==> r is AbnormalShutdown
                && final(self).timer@ == old(self).timer@ && final(self).channels@ == old(
                self,
            ).channels@ && *final(frame_events) == *old(frame_events),
            !old(frame_events).shutdown_requested && !old(frame_events).shutdown ==> {
                let (m, jt) = spec_frame_timer(old(self).timer@, *old(frame_events), dt_ms);
                let chs = spec_handle(
                    spec_frame_reset(old(self).channels@.channels, old(frame_events).force_reset),
                    old(self).channels@.platform,
                    old(frame_events).channel_commands@,
                ).0;
                &&& final(self).timer@ == m
                &&& final(frame_events).just_transited == jt
                &&& final(frame_events).state_commands@.len() == 0
                &&& final(frame_events).channel_commands@.len() == 0
                &&& final(self).channels@.platform == old(self).channels@.platform
                &&& final(self).channels@.channels.len() == 3
                &&& r matches FrameStart::Run(targets) && forall|i: int|
                    0 <= i < 3 ==> (#[trigger] final(self).channels@.channels[i], targets@[i])
                        == spec_begin_tick(chs[i], m.state, jt)
            },
    {
        if frame_events.shutdown_requested {
            return FrameStart::Shutdown;
        }
        if frame_events.shutdown {
            return FrameStart::AbnormalShutdown;
        }
        let ghost m_before = self.timer@;
        if frame_events.force_reset {
            self.timer.reset();
            self.channels.reset();
            proof {
                assert(self.channels@.channels =~= spec_frame_reset(
                    old(self).channels@.channels,
                    true,
                ));
            }
        }
        self.timer.handle_commands(frame_events);
        self.timer.tick(dt_ms, frame_events);
        self.channels.handle_commands(frame_events);
        let state = self.timer.state();
        let targets = self.channels.begin_tick(state, frame_events.just_transited);
        FrameStart::Run(targets)
    }

    /// Whether `begin_frame` can run this frame with `dt_ms`: false only
    /// when time would be added past the largest elapsed time.
    pub fn tick_fits(&self, frame_events: &FrameEvents, dt_ms: u64) -> (r: bool)
        ensures
            r == spec_tick_fits(self.timer@, *frame_events, dt_ms),
    {
        if frame_events.shutdown_requested || frame_events.shutdown || frame_events.just_transited {
            return true;
        }
        let (elapsed, transited) = self.timer.preview_commands(
            frame_events.force_reset,
            &frame_events.state_commands,
        );
        transited || elapsed <= u64::MAX - dt_ms
    }

    /// The second half of a frame: each channel records the level computed
    /// for it; returns every channel's level.
    pub fn finish_frame(&mut self, values: [ChannelValue; 3]) -> (r: [Update<ChannelValue>; 3])
        ensures
            final(self).timer@ == old(self).timer@,
            final(self).channels@.platform == old(self).channels@.platform,
            final(self).channels@.channels.len() == 3,
            forall|i: int|
                0 <= i < 3 ==> #[trigger] final(self).channels@.channels[i] == (ChannelModel {
                    current: crate::channels::spec_track(old(self).channels@.channels[i].current, values@[i]),
                    ..old(self).channels@.channels[i]
                }),
            forall|i: int| 0 <= i < 3 ==> #[trigger] r@[i] == final(self).channels@.channels[i].current,
    {
        self.channels.finish_tick(values);
        self.channels.logic_frame()
    }
}

} // verus!
