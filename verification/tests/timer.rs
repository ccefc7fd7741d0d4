use softwane::frame::FrameEvents;
use softwane::timer::{PersistentTimerConfig, StateCommand, TimerState, TimerStateMachine};

fn config() -> PersistentTimerConfig {
    PersistentTimerConfig {
        settling_duration_ms: 5000,
        reverse_duration_ms: 3000,
    }
}

fn empty_fe() -> FrameEvents {
    FrameEvents::default()
}

fn start_command(duration_ms: u64) -> StateCommand {
    StateCommand::StartSession { target_duration_ms: duration_ms }
}

fn settling_command(duration_ms: u64) -> StateCommand {
    StateCommand::UpdateSettlingDuration { duration_ms }
}

fn reverse_command(duration_ms: u64) -> StateCommand {
    StateCommand::UpdateReverseDuration { duration_ms }
}

fn preview_progress(state: TimerState) -> f64 {
    match state {
        TimerState::Preview { progress } => f64::from_bits(progress),
        other => panic!("expected Preview, got {:?}", other),
    }
}

#[test]
fn update_settling_duration_while_settling() {
    let mut t = TimerStateMachine::new(config());

    let mut fe = empty_fe();
    fe.state_commands.push(start_command(60_000));
    t.handle_commands(&mut fe);
    t.tick(0, &mut fe);
    let mut fe = empty_fe();
    fe.state_commands.push(StateCommand::TakeBreakNow);
    t.handle_commands(&mut fe);
    t.tick(0, &mut fe);
    assert!(matches!(t.state(), TimerState::Settling { target_duration_ms: 5000, .. }));

    let mut fe = empty_fe();
    fe.state_commands.push(settling_command(2000));
    t.handle_commands(&mut fe);
    t.tick(0, &mut fe);

    assert_eq!(t.settling_duration_ms(), 2000);
    assert!(matches!(t.state(), TimerState::Settling { target_duration_ms: 2000, .. }));
    assert!(fe.need_persist.timer_state_machine);
}

#[test]
fn update_settling_duration_while_idle() {
    let mut t = TimerStateMachine::new(config());
    assert_eq!(t.settling_duration_ms(), 5000);

    let mut fe = empty_fe();
    fe.state_commands.push(settling_command(8000));
    t.handle_commands(&mut fe);

    assert_eq!(t.settling_duration_ms(), 8000);
    assert_eq!(t.state(), TimerState::Idle);
    assert!(fe.need_persist.timer_state_machine);
}

#[test]
fn update_reverse_duration_while_reversing() {
    let mut t = TimerStateMachine::new(config());

    let mut fe = empty_fe();
    fe.state_commands.push(start_command(100));
    t.handle_commands(&mut fe);
    t.tick(0, &mut fe);
    t.tick(150, &mut empty_fe());
    assert_eq!(t.state(), TimerState::Sabi);
    let mut fe = empty_fe();
    fe.state_commands.push(StateCommand::StopSession);
    t.handle_commands(&mut fe);
    t.tick(0, &mut fe);
    assert!(matches!(t.state(), TimerState::Reverse { target_duration_ms: 3000, .. }));

    let mut fe = empty_fe();
    fe.state_commands.push(reverse_command(5000));
    t.handle_commands(&mut fe);
    t.tick(0, &mut fe);

    assert_eq!(t.reverse_duration_ms(), 5000);
    assert!(matches!(t.state(), TimerState::Reverse { target_duration_ms: 5000, .. }));
    assert!(fe.need_persist.timer_state_machine);
}

#[test]
fn update_reverse_duration_while_idle() {
    let mut t = TimerStateMachine::new(config());
    assert_eq!(t.reverse_duration_ms(), 3000);

    let mut fe = empty_fe();
    fe.state_commands.push(reverse_command(1000));
    t.handle_commands(&mut fe);

    assert_eq!(t.reverse_duration_ms(), 1000);
    assert_eq!(t.state(), TimerState::Idle);
    assert!(fe.need_persist.timer_state_machine);
}

#[test]
fn start_session_does_not_trigger_persist() {
    let mut t = TimerStateMachine::new(config());
    let mut fe = empty_fe();
    fe.state_commands.push(start_command(100));
    t.handle_commands(&mut fe);
    assert!(!fe.need_persist.timer_state_machine);
}

#[test]
fn idle_rejects_non_start_commands() {
    let mut t = TimerStateMachine::new(config());
    t.tick(0, &mut empty_fe());
    assert_eq!(t.state(), TimerState::Idle);

    // TakeBreakNow ignored at Idle
    let mut fe = empty_fe();
    fe.state_commands.push(StateCommand::TakeBreakNow);
    t.handle_commands(&mut fe);
    t.tick(0, &mut fe);
    assert_eq!(t.state(), TimerState::Idle);

    // StopSession ignored at Idle
    let mut fe = empty_fe();
    fe.state_commands.push(StateCommand::StopSession);
    t.handle_commands(&mut fe);
    t.tick(0, &mut fe);
    assert_eq!(t.state(), TimerState::Idle);
}

#[test]
fn idle_to_progress_to_sabi_to_reverse_to_idle() {
    let mut t = TimerStateMachine::new(config());

    // Start
    let mut fe = empty_fe();
    fe.state_commands.push(start_command(100));
    t.handle_commands(&mut fe);
    t.tick(0, &mut fe);
    assert!(matches!(t.state(), TimerState::Progress { .. }));

    // Advance past duration → Sabi
    let mut fe = empty_fe();
    t.tick(150, &mut fe);
    assert_eq!(t.state(), TimerState::Sabi);

    // Stop → Reverse
    let mut fe = empty_fe();
    fe.state_commands.push(StateCommand::StopSession);
    t.handle_commands(&mut fe);
    t.tick(0, &mut fe);
    assert!(matches!(t.state(), TimerState::Reverse { .. }));

    // Advance past reverse → Idle
    let mut fe = empty_fe();
    t.tick(4000, &mut fe);
    assert_eq!(t.state(), TimerState::Idle);
}

#[test]
fn progress_take_break_now_to_settling_to_sabi() {
    let mut t = TimerStateMachine::new(config());

    // Start
    let mut fe = empty_fe();
    fe.state_commands.push(start_command(60_000));
    t.handle_commands(&mut fe);
    t.tick(0, &mut fe);
    assert!(matches!(t.state(), TimerState::Progress { .. }));

    // TakeBreakNow before natural end
    let mut fe = empty_fe();
    fe.state_commands.push(StateCommand::TakeBreakNow);
    t.handle_commands(&mut fe);
    t.tick(0, &mut fe);
    assert!(matches!(t.state(), TimerState::Settling { .. }));

    // Advance to end of settling → Sabi
    let mut fe = empty_fe();
    t.tick(6000, &mut fe);
    assert_eq!(t.state(), TimerState::Sabi);
}

#[test]
fn preview_enter_exit() {
    let mut t = TimerStateMachine::new(config());

    // Enter preview from Idle
    let mut fe = empty_fe();
    fe.state_commands.push(StateCommand::EnterPreview);
    t.handle_commands(&mut fe);
    t.tick(0, &mut fe);
    assert!(matches!(t.state(), TimerState::Preview { .. }));

    // Update progress
    let mut fe = empty_fe();
    fe.state_commands.push(StateCommand::UpdatePreviewProgress { progress: 0.5f64.to_bits() });
    t.handle_commands(&mut fe);
    t.tick(0, &mut fe);
    assert!((preview_progress(t.state()) - 0.5).abs() < 0.001);

    // Exit preview → Idle
    let mut fe = empty_fe();
    fe.state_commands.push(StateCommand::ExitPreview);
    t.handle_commands(&mut fe);
    t.tick(0, &mut fe);
    assert_eq!(t.state(), TimerState::Idle);
}

#[test]
fn preview_rejects_start_session() {
    let mut t = TimerStateMachine::new(config());

    // Enter preview
    let mut fe = empty_fe();
    fe.state_commands.push(StateCommand::EnterPreview);
    t.handle_commands(&mut fe);
    t.tick(0, &mut fe);

    // Try to start session → ignored
    let mut fe = empty_fe();
    fe.state_commands.push(start_command(100));
    t.handle_commands(&mut fe);
    t.tick(0, &mut fe);
    assert!(matches!(t.state(), TimerState::Preview { .. }));
}

#[test]
fn preview_noop_on_time_advance() {
    let mut t = TimerStateMachine::new(config());

    // Enter preview
    let mut fe = empty_fe();
    fe.state_commands.push(StateCommand::EnterPreview);
    t.handle_commands(&mut fe);
    t.tick(0, &mut fe);

    // Time passes, preview progress unchanged
    let mut fe = empty_fe();
    t.tick(10_000, &mut fe);
    assert!((preview_progress(t.state()) - 0.0).abs() < 0.001);
}

#[test]
fn reset_from_any_state_to_idle() {
    let mut t = TimerStateMachine::new(config());

    // Go to Progress
    let mut fe = empty_fe();
    fe.state_commands.push(start_command(100));
    t.handle_commands(&mut fe);
    t.tick(0, &mut fe);
    assert!(matches!(t.state(), TimerState::Progress { .. }));

    // Reset
    t.reset();
    assert_eq!(t.state(), TimerState::Idle);
}

#[test]
fn preview_reset_to_idle() {
    let mut t = TimerStateMachine::new(config());

    // Enter preview
    let mut fe = empty_fe();
    fe.state_commands.push(StateCommand::EnterPreview);
    t.handle_commands(&mut fe);
    t.tick(0, &mut fe);

    t.reset();
    assert_eq!(t.state(), TimerState::Idle);
}

#[test]
fn update_preview_progress_clamped() {
    let mut t = TimerStateMachine::new(config());

    let mut fe = empty_fe();
    fe.state_commands.push(StateCommand::EnterPreview);
    t.handle_commands(&mut fe);
    t.tick(0, &mut fe);

    // Out of range values are clamped
    let mut fe = empty_fe();
    fe.state_commands.push(StateCommand::UpdatePreviewProgress { progress: 1.5f64.to_bits() });
    t.handle_commands(&mut fe);
    t.tick(0, &mut fe);
    assert!((preview_progress(t.state()) - 1.0).abs() < 0.001);

    let mut fe = empty_fe();
    fe.state_commands.push(StateCommand::UpdatePreviewProgress { progress: (-0.3f64).to_bits() });
    t.handle_commands(&mut fe);
    t.tick(0, &mut fe);
    assert!((preview_progress(t.state()) - 0.0).abs() < 0.001);
}

#[test]
fn just_transited_skips_tick() {
    let mut t = TimerStateMachine::new(config());

    // Start session
    let mut fe = empty_fe();
    fe.state_commands.push(start_command(100));
    t.handle_commands(&mut fe);
    t.tick(0, &mut fe);
    assert!(fe.just_transited);

    // With just_transited still set, tick should be skipped
    let mut fe = empty_fe();
    fe.just_transited = true;
    let state_before = t.state();
    t.tick(999, &mut fe);
    assert_eq!(t.state(), state_before);
}

#[test]
fn preview_progress_nan_and_infinities() {
    let mut t = TimerStateMachine::new(config());
    let mut fe = empty_fe();
    fe.state_commands.push(StateCommand::EnterPreview);
    fe.state_commands.push(StateCommand::UpdatePreviewProgress { progress: f64::INFINITY.to_bits() });
    t.handle_commands(&mut fe);
    assert_eq!(preview_progress(t.state()), 1.0);
    let mut fe = empty_fe();
    fe.state_commands.push(StateCommand::UpdatePreviewProgress { progress: f64::NEG_INFINITY.to_bits() });
    t.handle_commands(&mut fe);
    assert_eq!(preview_progress(t.state()), 0.0);
    let mut fe = empty_fe();
    fe.state_commands.push(StateCommand::UpdatePreviewProgress { progress: f64::NAN.to_bits() });
    t.handle_commands(&mut fe);
    let p = preview_progress(t.state());
    assert_eq!(p, 0.0);
    assert!(p.is_sign_positive());
    assert!(!fe.just_transited);
}

#[test]
fn commands_in_one_frame_apply_in_order() {
    let mut t = TimerStateMachine::new(config());
    let mut fe = empty_fe();
    fe.state_commands.push(start_command(10_000));
    fe.state_commands.push(StateCommand::TakeBreakNow);
    fe.state_commands.push(settling_command(700));
    t.handle_commands(&mut fe);
    assert!(fe.state_commands.is_empty());
    assert!(fe.just_transited);
    assert!(fe.need_persist.timer_state_machine);
    assert_eq!(t.state(), TimerState::Settling { elapsed_ms: 0, target_duration_ms: 700 });
    let mut fe = empty_fe();
    t.tick(699, &mut fe);
    assert_eq!(t.state(), TimerState::Settling { elapsed_ms: 699, target_duration_ms: 700 });
    assert!(!fe.just_transited);
    t.tick(1, &mut fe);
    assert_eq!(t.state(), TimerState::Sabi);
    assert!(fe.just_transited);
}

#[test]
fn config_round_trips_through_the_machine() {
    let t = TimerStateMachine::new(config());
    let c = t.persistent_config();
    assert_eq!(c, config());
    assert_eq!(t.timer_config().reverse_duration_ms, 3000);
    assert_eq!(PersistentTimerConfig::default().settling_duration_ms, 5_000);
    assert_eq!(PersistentTimerConfig::default().reverse_duration_ms, 2_000);
}

#[test]
fn apply_preview_progress_is_clamped_and_nan_reads_as_zero() {
    let mut m = TimerStateMachine::new(config());
    let mut transited = false;
    m.apply(&StateCommand::EnterPreview, &mut transited);
    assert!(transited);
    for (input, expected) in [(f64::NAN, 0.0), (-0.5, 0.0), (1.7, 1.0), (0.25, 0.25)] {
        let mut transited = false;
        m.apply(&StateCommand::UpdatePreviewProgress { progress: input.to_bits() }, &mut transited);
        assert!(!transited);
        let p = preview_progress(m.state());
        assert!(!p.is_nan());
        assert_eq!(p, expected);
    }
}

#[test]
fn apply_follows_the_command_table() {
    let mut m = TimerStateMachine::new(config());
    let mut t = false;
    m.apply(&StateCommand::TakeBreakNow, &mut t);
    assert!(!t);
    assert_eq!(m.state(), TimerState::Idle);
    m.apply(&start_command(60_000), &mut t);
    assert!(t);
    assert_eq!(m.state(), TimerState::Progress { elapsed_ms: 0, target_duration_ms: 60_000 });
    let mut t = false;
    m.apply(&StateCommand::EnterPreview, &mut t);
    assert!(!t);
    m.apply(&StateCommand::TakeBreakNow, &mut t);
    assert!(t);
    assert_eq!(m.state(), TimerState::Settling { elapsed_ms: 0, target_duration_ms: 5000 });
    let mut t = false;
    m.apply(&StateCommand::StopSession, &mut t);
    assert!(t);
    assert_eq!(m.state(), TimerState::Reverse { elapsed_ms: 0, target_duration_ms: 3000 });
    let mut t = true;
    m.apply(&StateCommand::ExitPreview, &mut t);
    assert!(t);
    assert_eq!(m.state(), TimerState::Reverse { elapsed_ms: 0, target_duration_ms: 3000 });
    assert_eq!(m.settling_duration_ms(), 5000);
}
