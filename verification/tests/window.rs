use softwane::window::{toggle_action, window_state, CloseDecision, ToggleAction, WindowManager, WindowState};

#[test]
fn window_state_from_queries() {
    assert_eq!(window_state(false, true, true, true), WindowState::Closed);
    assert_eq!(window_state(true, true, true, true), WindowState::Minimized);
    assert_eq!(window_state(true, false, false, true), WindowState::Hidden);
    assert_eq!(window_state(true, false, true, true), WindowState::VisibleFocused);
    assert_eq!(window_state(true, false, true, false), WindowState::VisibleUnfocused);
}

#[test]
fn toggle_hides_only_a_focused_window() {
    assert_eq!(toggle_action(WindowState::VisibleFocused), ToggleAction::HideWithDelayedClose);
    assert_eq!(toggle_action(WindowState::VisibleUnfocused), ToggleAction::Show);
    assert_eq!(toggle_action(WindowState::Closed), ToggleAction::Show);
}

#[test]
fn user_close_hides_the_window() {
    let mut m = WindowManager::new();
    assert_eq!(m.on_close_requested(), CloseDecision::HideAndScheduleClose);
    assert_eq!(m, WindowManager::new());
}

#[test]
fn timer_close_goes_through() {
    let mut m = WindowManager::new();
    m.on_delayed_close_fired();
    assert_eq!(m.on_close_requested(), CloseDecision::AllowAndClearProgress);
    assert_eq!(m.expected_timer_closes, 0);
}

#[test]
fn show_turns_pending_timer_closes_stale() {
    let mut m = WindowManager::new();
    m.on_delayed_close_fired();
    m.on_show();
    assert_eq!(m.stale_timer_closes, 1);
    assert_eq!(m.expected_timer_closes, 0);
    assert_eq!(m.on_close_requested(), CloseDecision::PreventStale);
    assert_eq!(m.on_close_requested(), CloseDecision::HideAndScheduleClose);
}
