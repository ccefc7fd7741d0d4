//! Main-window bookkeeping: its observed state, what a toggle does, and the
//! counters that tell a user's close from a delayed close fired by a timer.

use vstd::prelude::*;

verus! {

/// Store key of the "start without opening the window" setting.
pub const STORE_KEY_SILENT_START: &'static str = "silent_start";

/// How long a hidden window stays alive before it is closed.
pub const DELAYED_CLOSE_DURATION_SECS: u64 = 60;

#[derive(Debug, Clone, Copy, PartialEq, Eq, Structural)]
pub enum WindowState {
    VisibleFocused,
    VisibleUnfocused,
    Hidden,
    Minimized,
    Closed,
}

pub open spec fn spec_window_state(exists: bool, minimized: bool, visible: bool, focused: bool) -> WindowState {
    if !exists {
        WindowState::Closed
    } else if minimized {
        WindowState::Minimized
    } else if !visible {
        WindowState::Hidden
    } else if focused {
        WindowState::VisibleFocused
    } else {
        WindowState::VisibleUnfocused
    }
}

/// The state of the main window from what the window reports: whether it
/// exists, is minimized, visible and focused (a query that fails counts as
/// `false`).
pub fn window_state(exists: bool, minimized: bool, visible: bool, focused: bool) -> (r: WindowState)
    ensures
        r == spec_window_state(exists, minimized, visible, focused),
{
    if !exists {
        WindowState::Closed
    } else if minimized {
        WindowState::Minimized
    } else if !visible {
        WindowState::Hidden
    } else if focused {
        WindowState::VisibleFocused
    } else {
        WindowState::VisibleUnfocused
    }
}

/// What the toggle shortcut or tray item does to the main window.
#[derive(Debug, Clone, Copy, PartialEq, Eq, Structural)]
pub enum ToggleAction {
    /// Hide it and schedule its close.
    HideWithDelayedClose,
    /// Show (creating or restoring it) and focus it.
    Show,
}

pub fn toggle_action(state: WindowState) -> (r: ToggleAction)
    ensures
        r == (if state == WindowState::VisibleFocused {
            ToggleAction::HideWithDelayedClose
        } else {
            ToggleAction::Show
        }),
{
    match state {
        WindowState::VisibleFocused => ToggleAction::HideWithDelayedClose,
        _ => ToggleAction::Show,
    }
}

/// The answer to a request to close the main window.
#[derive(Debug, Clone, Copy, PartialEq, Eq, Structural)]
pub enum CloseDecision {
    /// A delayed close cancelled by a later show: keep the window.
    PreventStale,
    /// A delayed close that is still wanted: let it close, and drop the
    /// window's progress channel.
    AllowAndClearProgress,
    /// The user asked: hide the window and schedule its close instead.
    HideAndScheduleClose,
}

/// Counters of delayed closes in flight.  `stale_timer_closes` count those
/// a later show cancelled; `expected_timer_closes` those still wanted.
#[derive(Debug, Clone, Copy, PartialEq, Eq, Structural)]
pub struct WindowManager {
    pub stale_timer_closes: u32,
    pub expected_timer_closes: u32,
}

pub open spec fn spec_close_decision(m: WindowManager) -> (WindowManager, CloseDecision) {
    if m.stale_timer_closes > 0 {
        (
            WindowManager { stale_timer_closes: (m.stale_timer_closes - 1) as u32, ..m },
            CloseDecision::PreventStale,
        )
    } else if m.expected_timer_closes > 0 {
        (
            WindowManager { expected_timer_closes: (m.expected_timer_closes - 1) as u32, ..m },
            CloseDecision::AllowAndClearProgress,
        )
    } else {
        (m, CloseDecision::HideAndScheduleClose)
    }
}

pub open spec fn spec_show(m: WindowManager) -> WindowManager {
    WindowManager {
        stale_timer_closes: (m.stale_timer_closes + m.expected_timer_closes) as u32,
        expected_timer_closes: 0,
    }
}

impl Default for WindowManager {
    fn default() -> (r: Self)
        ensures
            r.stale_timer_closes == 0,
            r.expected_timer_closes == 0,
    {
        WindowManager { stale_timer_closes: 0, expected_timer_closes: 0 }
    }
}

impl WindowManager {
    pub fn new() -> (r: Self)
        ensures
            r.stale_timer_closes == 0,
            r.expected_timer_closes == 0,
    {
        WindowManager { stale_timer_closes: 0, expected_timer_closes: 0 }
    }

    /// Decides a close request of the main window.
    pub fn on_close_requested(&mut self) -> (r: CloseDecision)
        ensures
            (*final(self), r) == spec_close_decision(*old(self)),
    {
        if self.stale_timer_closes > 0 {
            self.stale_timer_closes = self.stale_timer_closes - 1;
            CloseDecision::PreventStale
        } else if self.expected_timer_closes > 0 {
            self.expected_timer_closes = self.expected_timer_closes - 1;
            CloseDecision::AllowAndClearProgress
        } else {
            CloseDecision::HideAndScheduleClose
        }
    }

    /// The window is shown: every delayed close in flight becomes stale
    /// (the pending timer itself is cancelled by the caller).
    pub fn on_show(&mut self)
        requires
            old(self).stale_timer_closes + old(self).expected_timer_closes <= u32::MAX,
        ensures
            *final(self) == spec_show(*old(self)),
    {
        self.stale_timer_closes = self.stale_timer_closes + self.expected_timer_closes;
        self.expected_timer_closes = 0;
    }

    /// A delayed-close timer fired and is about to close the window.
    pub fn on_delayed_close_fired(&mut self)
        requires
            old(self).expected_timer_closes < u32::MAX,
        ensures
            final(self).expected_timer_closes == old(self).expected_timer_closes + 1,
            final(self).stale_timer_closes == old(self).stale_timer_closes,
    {
        self.expected_timer_closes = self.expected_timer_closes + 1;
    }
}

/// Once the window has been shown, no close request lets it close until a
/// delayed-close timer fires again.
pub proof fn lemma_show_then_close_keeps_window(m: WindowManager)
    requires
        m.stale_timer_closes + m.expected_timer_closes <= u32::MAX,
    ensures
        spec_close_decision(spec_show(m)).1 != CloseDecision::AllowAndClearProgress,
{
}

/// Showing the window keeps the number of delayed closes in flight.
pub proof fn lemma_show_keeps_pending_closes(m: WindowManager)
    requires
        m.stale_timer_closes + m.expected_timer_closes <= u32::MAX,
    ensures
        spec_show(m).stale_timer_closes + spec_show(m).expected_timer_closes
            == m.stale_timer_closes + m.expected_timer_closes,
{
}

/// A fired timer's close goes through when no show came in between.
pub proof fn lemma_fired_close_goes_through(m: WindowManager)
    requires
        m.stale_timer_closes == 0,
        m.expected_timer_closes < u32::MAX,
    ensures
        spec_close_decision(
            WindowManager { expected_timer_closes: (m.expected_timer_closes + 1) as u32, ..m },
        ).1 == CloseDecision::AllowAndClearProgress,
{
}

/// A close request consumes one delayed close in flight, a cancelled one
/// first: a cancelled one keeps the window, a wanted one lets it close.
/// With none in flight the request is the user's: the window is hidden
/// and nothing is consumed.
pub proof fn lemma_close_decisions(m: WindowManager)
    ensures
        ({
            let (m2, d) = spec_close_decision(m);
            &&& (d == CloseDecision::PreventStale) <==> m.stale_timer_closes > 0
            &&& (d == CloseDecision::AllowAndClearProgress) <==> (m.stale_timer_closes == 0
                && m.expected_timer_closes > 0)
            &&& (d == CloseDecision::HideAndScheduleClose) <==> (m.stale_timer_closes == 0
                && m.expected_timer_closes == 0)
            &&& d == CloseDecision::PreventStale ==> m2.stale_timer_closes + 1
                == m.stale_timer_closes && m2.expected_timer_closes == m.expected_timer_closes
            &&& d == CloseDecision::AllowAndClearProgress ==> m2.expected_timer_closes + 1
                == m.expected_timer_closes && m2.stale_timer_closes == m.stale_timer_closes
            &&& d == CloseDecision::HideAndScheduleClose ==> m2 == m
        }),
{
}

/// The main window's state as observed: closed when it does not exist,
/// else minimized, else hidden, else visible and focused or not.
pub proof fn lemma_window_state_cases(exists: bool, minimized: bool, visible: bool, focused: bool)
    ensures
        (spec_window_state(exists, minimized, visible, focused) == WindowState::Closed) <==> !exists,
        (spec_window_state(exists, minimized, visible, focused) == WindowState::Minimized) <==> (
        exists && minimized),
        (spec_window_state(exists, minimized, visible, focused) == WindowState::Hidden) <==> (exists
            && !minimized && !visible),
        (spec_window_state(exists, minimized, visible, focused) == WindowState::VisibleFocused) <==> (
        exists && !minimized && visible && focused),
        (spec_window_state(exists, minimized, visible, focused) == WindowState::VisibleUnfocused)
            <==> (exists && !minimized && visible && !focused),
{
}

/// Showing the window cancels every delayed close in flight.
pub proof fn lemma_show_cancels_closes(m: WindowManager)
    requires
        m.stale_timer_closes + m.expected_timer_closes <= u32::MAX,
    ensures
        spec_show(m).expected_timer_closes == 0,
        spec_show(m).stale_timer_closes == m.stale_timer_closes + m.expected_timer_closes,
{
}

} // verus!
