use softwane::channel_config::default_channel_config_array;
use softwane::channel_system::SensoryChannelsSystem;
use softwane::channel_types::{ChannelCommand, ChannelType, ChannelValue, Platform};
use softwane::channels::ChannelTarget;
use softwane::engine::{
    drain_step, log_renderer_event, progress_emit_due, route_event, DrainPoll, DrainStep, EngineCleanup, EngineCore,
    EngineInput, FrameStart, LogLevel, RendererEvent, RoutedEffect,
};
use softwane::frame::FrameEvents;
use softwane::timer::{PersistentTimerConfig, StateCommand, TimerState, TimerStateMachine};

fn engine_core() -> EngineCore {
    EngineCore {
        timer: TimerStateMachine::new(PersistentTimerConfig { settling_duration_ms: 5000, reverse_duration_ms: 3000 }),
        channels: SensoryChannelsSystem::new(default_channel_config_array(), Platform::Windows),
    }
}

#[test]
fn renderer_events_log_by_severity() {
    let ok = log_renderer_event(&RendererEvent::RenderSuccessful { renderer_name: "r" });
    assert_eq!(ok, (LogLevel::Debug, "render successful"));
    let warn = log_renderer_event(&RendererEvent::RenderUnappliedDueToNotStartupped { renderer_name: "r" });
    assert_eq!(warn.0, LogLevel::Warn);
    let err = log_renderer_event(&RendererEvent::StartupFailed { renderer_name: "r", error: "x".into() });
    assert_eq!(err, (LogLevel::Error, "startup failed"));
    assert_eq!(log_renderer_event(&RendererEvent::ShutdownCompleted { renderer_name: "r" }).0, LogLevel::Info);
}

#[test]
fn routing_fills_the_frame() {
    let mut fe = FrameEvents::default();
    assert!(matches!(route_event(&mut fe, EngineInput::State(StateCommand::TakeBreakNow)), RoutedEffect::Recorded));
    route_event(&mut fe, EngineInput::Channel(ChannelCommand::ToggleSwitch { channel_type: ChannelType::Saturation, switch_on: true }));
    route_event(&mut fe, EngineInput::ForceReset);
    assert!(matches!(route_event(&mut fe, EngineInput::ClearProgressChannel), RoutedEffect::ClearProgressChannel));
    match route_event(&mut fe, EngineInput::Renderer(RendererEvent::RenderSuccessful { renderer_name: "n" })) {
        RoutedEffect::Log(RendererEvent::RenderSuccessful { renderer_name }) => assert_eq!(renderer_name, "n"),
        other => panic!("unexpected {:?}", other),
    }
    assert_eq!(fe.state_commands.len(), 1);
    assert_eq!(fe.channel_commands.len(), 1);
    assert!(fe.force_reset && !fe.shutdown && !fe.shutdown_requested);
    route_event(&mut fe, EngineInput::AbnormalShutdown);
    assert!(fe.shutdown);
}

#[test]
fn progress_is_emitted_on_interval_or_transition() {
    assert!(!progress_emit_due(99, false));
    assert!(progress_emit_due(100, false));
    assert!(progress_emit_due(0, true));
}

#[test]
fn drain_ends_on_shutdown_ack() {
    let ack = DrainPoll::Event(EngineInput::Renderer(RendererEvent::ShutdownCompleted { renderer_name: "r" }));
    assert_eq!(drain_step(&ack), DrainStep::Acked);
    assert_eq!(drain_step(&DrainPoll::Event(EngineInput::ForceReset)), DrainStep::Discard);
    assert_eq!(drain_step(&DrainPoll::Empty), DrainStep::Wait);
    assert_eq!(drain_step(&DrainPoll::Disconnected), DrainStep::Stop);
}

#[test]
fn shutdown_frames_leave_everything_alone() {
    let mut c = engine_core();
    let mut fe = FrameEvents::default();
    fe.shutdown_requested = true;
    fe.state_commands.push(StateCommand::StartSession { target_duration_ms: 10 });
    assert!(matches!(c.begin_frame(&mut fe, 16), FrameStart::Shutdown));
    assert_eq!(fe.state_commands.len(), 1);
    assert_eq!(c.timer.state(), TimerState::Idle);
    let mut fe = FrameEvents::default();
    fe.shutdown = true;
    assert!(matches!(c.begin_frame(&mut fe, 16), FrameStart::AbnormalShutdown));
}

#[test]
fn a_frame_starts_a_session_and_targets_the_channels() {
    let mut c = engine_core();
    let mut fe = FrameEvents::default();
    fe.state_commands.push(StateCommand::StartSession { target_duration_ms: 1_000 });
    let start = c.begin_frame(&mut fe, 16);
    assert!(fe.just_transited);
    assert_eq!(c.timer.state(), TimerState::Progress { elapsed_ms: 0, target_duration_ms: 1_000 });
    match start {
        FrameStart::Run(targets) => {
            // Colour temperature is on by default and follows the Progress curve.
            assert!(matches!(targets[1], ChannelTarget::AtTime { elapsed_ms: 0, target_duration_ms: 1_000, .. }));
            assert!(matches!(targets[0], ChannelTarget::Fixed(ChannelValue::Saturation(_))));
        }
        other => panic!("unexpected {:?}", other),
    }
    let levels = c.finish_frame([
        ChannelValue::Saturation(1.0f64.to_bits()),
        ChannelValue::ColorTempKelvin(6400),
        ChannelValue::Brightness(1.0f64.to_bits()),
    ]);
    assert!(!levels[0].is_changed());
    assert!(levels[1].is_changed());
    let mut fe = FrameEvents::default();
    c.begin_frame(&mut fe, 400);
    assert_eq!(c.timer.state(), TimerState::Progress { elapsed_ms: 400, target_duration_ms: 1_000 });
}

#[test]
fn force_reset_returns_to_idle() {
    let mut c = engine_core();
    let mut fe = FrameEvents::default();
    fe.state_commands.push(StateCommand::StartSession { target_duration_ms: 1_000 });
    c.begin_frame(&mut fe, 0);
    let mut fe = FrameEvents::default();
    fe.force_reset = true;
    c.begin_frame(&mut fe, 10);
    assert_eq!(c.timer.state(), TimerState::Idle);
    assert!(c.channels.logic_frame()[1].is_changed());
}

#[test]
fn time_room_is_checked_only_when_time_runs() {
    let mut c = engine_core();
    let mut fe = FrameEvents::default();
    fe.state_commands.push(StateCommand::StartSession { target_duration_ms: u64::MAX });
    c.begin_frame(&mut fe, 0);
    let mut fe = FrameEvents::default();
    c.begin_frame(&mut fe, 1_000);
    let fe = FrameEvents::default();
    assert!(!c.tick_fits(&fe, u64::MAX));
    assert!(c.tick_fits(&fe, 5));
    let mut stop = FrameEvents::default();
    stop.state_commands.push(StateCommand::StopSession);
    assert!(c.tick_fits(&stop, u64::MAX));
    let mut down = FrameEvents::default();
    down.shutdown_requested = true;
    assert!(c.tick_fits(&down, u64::MAX));
}

#[test]
fn cleanup_runs_once() {
    let mut c = EngineCleanup::new();
    assert!(!c.cleaned_up);
    assert!(c.begin_late_cleanup());
    assert!(!c.begin_late_cleanup());
    let mut c = EngineCleanup::new();
    c.finish_shutdown();
    assert!(c.cleaned_up);
    assert!(!c.begin_late_cleanup());
}
