use softwane::frame::FrameEvents;
use softwane::i18n::AppLocale;
use softwane::timer::{PersistentTimerConfig, StateCommand, TimerState, TimerStateMachine};
use softwane::tray::{
    format_remaining_ms, start_session_label, tray_menu_action, tray_menu_entries, tray_menu_flags,
    tray_status_label, TrayMenuAction, TrayMenuEntry, TrayStatusCache,
};

#[test]
fn formats_active_work_remaining_time_for_tray_menu() {
    let state = TimerState::Progress {
        elapsed_ms: 61_200,
        target_duration_ms: 25 * 60_000,
    };

    assert_eq!(tray_status_label(AppLocale::En, state), "Work left: 23:59");
}

#[test]
fn clamps_over_elapsed_sessions_to_zero_remaining() {
    let state = TimerState::Settling {
        elapsed_ms: 8_000,
        target_duration_ms: 5_000,
    };

    assert_eq!(tray_status_label(AppLocale::En, state), "Settling: 00:00");
}

#[test]
fn rounds_partial_seconds_up_for_display() {
    assert_eq!(format_remaining_ms(1), "00:01");
    assert_eq!(format_remaining_ms(60_001), "01:01");
}

#[test]
fn localizes_tray_status_in_chinese() {
    let state = TimerState::Progress {
        elapsed_ms: 61_200,
        target_duration_ms: 25 * 60_000,
    };

    assert_eq!(tray_status_label(AppLocale::ZhCn, state), "剩余工作时间：23:59");
}

#[test]
fn formats_long_durations_with_more_minute_digits() {
    assert_eq!(format_remaining_ms(0), "00:00");
    assert_eq!(format_remaining_ms(999), "00:01");
    assert_eq!(format_remaining_ms(1000), "00:01");
    assert_eq!(format_remaining_ms(100 * 60_000), "100:00");
}

#[test]
fn status_labels_of_untimed_phases() {
    assert_eq!(tray_status_label(AppLocale::En, TimerState::Idle), "Idle");
    assert_eq!(tray_status_label(AppLocale::En, TimerState::Sabi), "Rest");
    assert_eq!(tray_status_label(AppLocale::ZhCn, TimerState::Sabi), "休息中");
    assert_eq!(
        tray_status_label(AppLocale::En, TimerState::Preview { progress: 0.25f64.to_bits() }),
        "Preview"
    );
    assert_eq!(
        tray_status_label(AppLocale::En, TimerState::Reverse { elapsed_ms: 500, target_duration_ms: 2_000 }),
        "Resuming: 00:02"
    );
}

#[test]
fn preset_labels_show_whole_minutes() {
    assert_eq!(start_session_label(AppLocale::En, 25 * 60_000), "Start a 25 min session");
    assert_eq!(start_session_label(AppLocale::ZhCn, 90 * 60_000 + 59_999), "开始 90 分钟会话");
}

#[test]
fn menu_flags_follow_the_phase() {
    let idle = tray_menu_flags(TimerState::Idle);
    assert!(idle.start_enabled && !idle.take_break_enabled && !idle.stop_enabled);
    let progress = tray_menu_flags(TimerState::Progress { elapsed_ms: 0, target_duration_ms: 10 });
    assert!(!progress.start_enabled && progress.take_break_enabled && progress.stop_enabled);
    let sabi = tray_menu_flags(TimerState::Sabi);
    assert!(!sabi.start_enabled && !sabi.take_break_enabled && sabi.stop_enabled);
    let reverse = tray_menu_flags(TimerState::Reverse { elapsed_ms: 0, target_duration_ms: 10 });
    assert!(!reverse.start_enabled && !reverse.take_break_enabled && !reverse.stop_enabled);
}

#[test]
fn menu_ids_map_to_actions() {
    let durations = [1, 2, 3];
    assert!(matches!(tray_menu_action("quit", durations), Some(TrayMenuAction::Quit)));
    assert!(matches!(tray_menu_action("open", durations), Some(TrayMenuAction::OpenWindow)));
    assert!(matches!(
        tray_menu_action("start_preset2", durations),
        Some(TrayMenuAction::State(softwane::timer::StateCommand::StartSession { target_duration_ms: 2 }))
    ));
    assert!(matches!(tray_menu_action("force_reset", durations), Some(TrayMenuAction::ForceReset)));
    assert!(tray_menu_action("status", durations).is_none());
}

#[test]
fn status_cache_reports_changes_only() {
    let mut cache = TrayStatusCache::new();
    assert!(cache.mark_changed("Idle"));
    assert!(!cache.mark_changed("Idle"));
    assert!(cache.mark_changed("Work left: 00:10"));
}

#[test]
fn menu_flags_agree_with_the_timer() {
    let mut t = TimerStateMachine::new(PersistentTimerConfig { settling_duration_ms: 10, reverse_duration_ms: 10 });
    let flags = tray_menu_flags(t.state());
    assert!(flags.start_enabled && !flags.take_break_enabled && !flags.stop_enabled);
    let mut fe = FrameEvents::default();
    fe.state_commands.push(StateCommand::TakeBreakNow);
    t.handle_commands(&mut fe);
    assert!(!fe.just_transited);
    let mut fe = FrameEvents::default();
    fe.state_commands.push(StateCommand::StartSession { target_duration_ms: 100 });
    t.handle_commands(&mut fe);
    assert!(fe.just_transited);
    let flags = tray_menu_flags(t.state());
    assert!(!flags.start_enabled && flags.take_break_enabled && flags.stop_enabled);
}

fn item(e: &TrayMenuEntry) -> (&'static str, String, bool) {
    match e {
        TrayMenuEntry::Item { id, label, enabled } => (*id, label.clone(), *enabled),
        TrayMenuEntry::Separator => panic!("expected an item"),
    }
}

#[test]
fn menu_layout_in_progress() {
    let state = TimerState::Progress { elapsed_ms: 0, target_duration_ms: 60_000 };
    let entries = tray_menu_entries(AppLocale::En, state, [25 * 60_000, 50 * 60_000, 90 * 60_000]);
    assert_eq!(entries.len(), 13);
    assert_eq!(item(&entries[0]), ("status", "Work left: 01:00".to_string(), false));
    assert!(matches!(entries[1], TrayMenuEntry::Separator));
    assert_eq!(item(&entries[2]), ("open", "Open window".to_string(), true));
    assert_eq!(item(&entries[5]), ("start_preset2", "Start a 50 min session".to_string(), false));
    assert_eq!(item(&entries[7]), ("take_break_now", "Take a break now".to_string(), true));
    assert_eq!(item(&entries[8]), ("stop", "Stop".to_string(), true));
    assert_eq!(item(&entries[12]), ("quit", "Quit".to_string(), true));
}
