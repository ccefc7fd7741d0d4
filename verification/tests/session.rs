use softwane::session::{
    forward_progress_percent, phase_changed, tray_title, ChannelEffect, ChannelLevels, SessionEngine,
    SessionPhase, FAST_LOOP_INTERVAL_MS, LOOP_INTERVAL_MS,
};

const LEVELS: ChannelLevels = ChannelLevels { all_full: true, all_spent: false };

#[test]
fn phase_labels() {
    assert_eq!(SessionPhase::Idle.label(), "Idle");
    assert_eq!(SessionPhase::Forward { elapsed_ms: 0, target_duration_ms: 1 }.label(), "Forward");
    assert_eq!(SessionPhase::Reverse { elapsed_ms: 0, max_duration_ms: 1 }.label(), "Reverse");
    assert!(SessionPhase::Idle.is_idle());
    assert!(!SessionPhase::Sabi.is_idle());
    assert!(SessionPhase::Sabi.is_active());
    assert!(!SessionPhase::Idle.is_active());
}

#[test]
fn start_session_clamps_minutes() {
    let mut e = SessionEngine::new();
    assert!(e.start_session(500, None, 1_000));
    assert_eq!(e.work_duration_minutes, 120);
    assert_eq!(e.phase, SessionPhase::Forward { elapsed_ms: 0, target_duration_ms: 120 * 60_000 });
    assert_eq!(e.reverse_max_duration_ms, 30_000);
    assert_eq!(e.phase_started_at_ms, 1_000);
}

#[test]
fn start_session_under_minimum_goes_idle() {
    let mut e = SessionEngine::new();
    e.start_session(10, Some(5_000), 0);
    assert!(!e.start_session(1, None, 50));
    assert_eq!(e.phase, SessionPhase::Idle);
}

#[test]
fn forward_runs_into_sabi() {
    let mut e = SessionEngine::new();
    e.start_session(2, Some(4_000), 0);
    assert_eq!(e.advance_phase(60_000, LEVELS), ChannelEffect::Keep);
    assert_eq!(e.phase, SessionPhase::Forward { elapsed_ms: 60_000, target_duration_ms: 120_000 });
    e.advance_phase(120_000, LEVELS);
    assert_eq!(e.phase, SessionPhase::Sabi);
    assert_eq!(e.phase_started_at_ms, 120_000);
}

#[test]
fn break_then_settling_then_sabi() {
    let mut e = SessionEngine::new();
    e.start_session(30, None, 0);
    assert_eq!(e.take_break_now(100), ChannelEffect::SnapshotForPhaseEntry);
    assert_eq!(e.phase, SessionPhase::Settling { elapsed_ms: 0 });
    assert!(e.needs_fast_tick());
    assert_eq!(e.next_interval_ms(), FAST_LOOP_INTERVAL_MS);
    e.advance_phase(5_100, ChannelLevels { all_full: false, all_spent: false });
    assert_eq!(e.phase, SessionPhase::Settling { elapsed_ms: 5_000 });
    e.advance_phase(15_100, LEVELS);
    assert_eq!(e.phase, SessionPhase::Sabi);
    assert_eq!(e.next_interval_ms(), LOOP_INTERVAL_MS);
}

#[test]
fn reverse_ends_when_channels_are_spent() {
    let mut e = SessionEngine::new();
    e.start_session(30, Some(8_000), 0);
    assert_eq!(e.start_reverse(10), ChannelEffect::SnapshotForPhaseEntry);
    assert_eq!(e.phase, SessionPhase::Reverse { elapsed_ms: 0, max_duration_ms: 8_000 });
    let (effect, dt) = e.tick(1_010, ChannelLevels { all_full: false, all_spent: false });
    assert_eq!(effect, ChannelEffect::Keep);
    assert_eq!(dt, LOOP_INTERVAL_MS);
    assert_eq!(e.payload_seconds(), (1, 8));
    let (effect, _) = e.tick(2_010, ChannelLevels { all_full: false, all_spent: true });
    assert_eq!(effect, ChannelEffect::Clear);
    assert_eq!(e.phase, SessionPhase::Idle);
}

#[test]
fn requests_out_of_phase_are_ignored() {
    let mut e = SessionEngine::new();
    assert_eq!(e.take_break_now(5), ChannelEffect::Keep);
    assert_eq!(e.start_reverse(5), ChannelEffect::Keep);
    assert_eq!(e, SessionEngine::new());
}

#[test]
fn tray_title_and_progress() {
    let p = SessionPhase::Forward { elapsed_ms: 61_200, target_duration_ms: 25 * 60_000 };
    assert_eq!(tray_title(p), "23:58");
    assert_eq!(forward_progress_percent(p), 4);
    assert_eq!(tray_title(SessionPhase::Settling { elapsed_ms: 0 }), "Settling...");
    assert_eq!(tray_title(SessionPhase::Reverse { elapsed_ms: 0, max_duration_ms: 0 }), "Recovering");
    let over = SessionPhase::Forward { elapsed_ms: 9_000, target_duration_ms: 5_000 };
    assert_eq!(tray_title(over), "0:00");
    assert_eq!(forward_progress_percent(over), 100);
    assert_eq!(forward_progress_percent(SessionPhase::Forward { elapsed_ms: 0, target_duration_ms: 0 }), 0);
    assert_eq!(forward_progress_percent(SessionPhase::Sabi), 0);
}

#[test]
fn phase_change_is_by_label() {
    assert!(phase_changed(None, SessionPhase::Idle));
    assert!(!phase_changed(
        Some(SessionPhase::Forward { elapsed_ms: 1, target_duration_ms: 9 }),
        SessionPhase::Forward { elapsed_ms: 2, target_duration_ms: 9 }
    ));
    assert!(phase_changed(Some(SessionPhase::Sabi), SessionPhase::Idle));
}
