use softwane::frame::FrameFlags;
use softwane::phase_timer::{AppConfig, StateCommand, TimerState, TimerStateMachine};

const CONFIG: AppConfig = AppConfig { settling_duration_ms: 500, reverse_duration_ms: 300 };

#[test]
fn session_runs_through_its_phases() {
    let mut t = TimerStateMachine::new();
    let mut flags = FrameFlags::default();
    t.tick(10, &mut flags, &vec![StateCommand::StartSession { target_duration_ms: 100 }], &CONFIG);
    assert!(flags.just_transited);
    assert_eq!(t.state(), TimerState::Progress { elapsed_ms: 0, target_duration_ms: 100 });
    assert_eq!(t.current_elapsed_ms(), 0);

    let mut flags = FrameFlags::default();
    t.tick(40, &mut flags, &vec![], &CONFIG);
    assert!(!flags.just_transited);
    assert_eq!(t.state().elapsed_ms(), 40);
    assert_eq!(t.current_elapsed_ms(), 40);

    let mut flags = FrameFlags::default();
    t.tick(60, &mut flags, &vec![], &CONFIG);
    assert!(flags.just_transited);
    assert_eq!(t.state(), TimerState::Sabi);
    assert_eq!(t.current_elapsed_ms(), 0);
    assert_eq!(t.state().label(), "Sabi");
    assert_eq!(t.state().target_duration_ms(), u64::MAX);

    let mut flags = FrameFlags::default();
    t.tick(5, &mut flags, &vec![StateCommand::StopSession], &CONFIG);
    assert_eq!(t.state(), TimerState::Reverse { elapsed_ms: 0, target_duration_ms: 300 });
    let mut flags = FrameFlags::default();
    t.tick(300, &mut flags, &vec![], &CONFIG);
    assert_eq!(t.state(), TimerState::Idle);
}

#[test]
fn commands_out_of_phase_are_ignored() {
    let mut t = TimerStateMachine::new();
    let mut flags = FrameFlags::default();
    t.tick(7, &mut flags, &vec![StateCommand::TakeBreakNow, StateCommand::StopSession], &CONFIG);
    assert!(!flags.just_transited);
    assert_eq!(t.state(), TimerState::Idle);
    assert_eq!(t.current_elapsed_ms(), 7);
}

#[test]
fn a_break_moves_to_settling() {
    let mut t = TimerStateMachine::new();
    let mut flags = FrameFlags::default();
    t.tick(0, &mut flags, &vec![StateCommand::StartSession { target_duration_ms: 1_000 }, StateCommand::TakeBreakNow], &CONFIG);
    assert_eq!(t.state(), TimerState::Settling { elapsed_ms: 0, target_duration_ms: 500 });
}
