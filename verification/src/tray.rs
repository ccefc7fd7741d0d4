//! Texts and enable flags of the tray menu.

use vstd::prelude::*;

use crate::i18n::{spec_apply_replacements, spec_tr, tr, tr_format, AppLocale};
use crate::text::{
    chars_of, decimal, lemma_decimal_reads_back, lemma_pad2_value, pad2, spec_decimal,
    spec_digits_value, spec_pad2, str_eq, string_from_chars,
};
use crate::timer::{spec_apply, StateCommand, TimerModel, TimerState};

verus! {

/// Whole seconds, rounded up.
pub open spec fn spec_total_seconds(ms: u64) -> nat {
    if ms % 1000 == 0 {
        (ms / 1000) as nat
    } else {
        (ms / 1000 + 1) as nat
    }
}

/// `MM:SS` of the remaining time, seconds rounded up; minutes take more
/// digits when needed.
pub open spec fn spec_format_remaining(ms: u64) -> Seq<char> {
    let total = spec_total_seconds(ms);
    spec_pad2(spec_decimal(total / 60)) + seq![':'] + spec_pad2(spec_decimal(total % 60))
}

pub fn format_remaining_ms(ms: u64) -> (r: String)
    ensures
        r@ == spec_format_remaining(ms),
{
    let total_seconds = if ms % 1000 == 0 {
        ms / 1000
    } else {
        ms / 1000 + 1
    };
    let minutes = total_seconds / 60;
    let seconds = total_seconds % 60;
    let mut v = pad2(decimal(minutes));
    v.push(':');
    let s = pad2(decimal(seconds));
    let ghost before = v@;
    let mut i: usize = 0;
    while i < s.len()
        invariant
            i <= s@.len(),
            v@ == before + s@.take(i as int),
        decreases s.len() - i,
    {
        v.push(s[i]);
        proof {
            assert(v@ =~= before + s@.take(i as int + 1));
        }
        i += 1;
    }
    proof {
        assert(s@.take(s@.len() as int) =~= s@);
        assert(v@ =~= spec_format_remaining(ms));
    }
    string_from_chars(&v)
}

/// The remaining time reads as minutes, a colon and two digits of
/// seconds (under 60), and that many seconds is the remaining time rounded
/// up to a whole second.
pub proof fn lemma_format_remaining_reads_back(ms: u64)
    ensures
        ({
            let s = spec_format_remaining(ms);
            let minutes = spec_digits_value(s.take(s.len() - 3));
            let seconds = spec_digits_value(s.skip(s.len() - 2));
            let total = minutes * 60 + seconds;
            &&& s.len() >= 5
            &&& s[s.len() - 3] == ':'
            &&& 0 <= seconds < 60
            &&& total * 1000 >= ms
            &&& total * 1000 < ms + 1000
        }),
{
    let total = spec_total_seconds(ms);
    let m = total / 60;
    let sec = total % 60;
    let a = spec_pad2(spec_decimal(m));
    let b = spec_pad2(spec_decimal(sec));
    lemma_decimal_reads_back(m);
    lemma_decimal_reads_back(sec);
    lemma_pad2_value(spec_decimal(m));
    lemma_pad2_value(spec_decimal(sec));
    if sec >= 10 {
        lemma_decimal_reads_back(sec / 10);
        assert(spec_decimal(sec).drop_last() =~= spec_decimal(sec / 10));
    }
    assert(b.len() == 2);
    let s = spec_format_remaining(ms);
    assert(s =~= a + seq![':'] + b);
    assert(s.take(s.len() - 3) =~= a);
    assert(s.skip(s.len() - 2) =~= b);
    assert(m * 60 + sec == total);
}

pub open spec fn spec_remaining(elapsed_ms: u64, target_duration_ms: u64) -> u64 {
    if target_duration_ms >= elapsed_ms {
        (target_duration_ms - elapsed_ms) as u64
    } else {
        0
    }
}

/// A text with its `{time}` placeholder replaced by the remaining time.
pub open spec fn spec_with_time(locale: AppLocale, key: Seq<char>, remaining: u64) -> Seq<char> {
    crate::text::spec_replace(spec_tr(locale, key), "{time}"@, spec_format_remaining(remaining))
}

/// The status line of the tray: the phase, and for timed phases the time
/// left (never negative).
pub open spec fn spec_status_label(locale: AppLocale, state: TimerState) -> Seq<char> {
    match state {
        TimerState::Idle => spec_tr(locale, "tray.status.idle"@),
        TimerState::Preview { .. } => spec_tr(locale, "tray.status.preview"@),
        TimerState::Progress { elapsed_ms, target_duration_ms } => spec_with_time(
            locale,
            "tray.status.workLeft"@,
            spec_remaining(elapsed_ms, target_duration_ms),
        ),
        TimerState::Settling { elapsed_ms, target_duration_ms } => spec_with_time(
            locale,
            "tray.status.settling"@,
            spec_remaining(elapsed_ms, target_duration_ms),
        ),
        TimerState::Sabi => spec_tr(locale, "tray.status.rest"@),
        TimerState::Reverse { elapsed_ms, target_duration_ms } => spec_with_time(
            locale,
            "tray.status.resuming"@,
            spec_remaining(elapsed_ms, target_duration_ms),
        ),
    }
}

/// The status line names the phase, and in work, settling and the fade
/// back the time left of that phase (its target less its elapsed time, and
/// zero once the target is passed).
pub proof fn lemma_status_label_phases(locale: AppLocale, state: TimerState)
    ensures
        state is Idle ==> spec_status_label(locale, state) == spec_tr(locale, "tray.status.idle"@),
        state is Preview ==> spec_status_label(locale, state) == spec_tr(
            locale,
            "tray.status.preview"@,
        ),
        state is Sabi ==> spec_status_label(locale, state) == spec_tr(locale, "tray.status.rest"@),
        state matches TimerState::Progress { elapsed_ms, target_duration_ms } ==> spec_status_label(
            locale,
            state,
        ) == crate::text::spec_replace(
            spec_tr(locale, "tray.status.workLeft"@),
            "{time}"@,
            spec_format_remaining(
                if elapsed_ms <= target_duration_ms {
                    (target_duration_ms - elapsed_ms) as u64
                } else {
                    0
                },
            ),
        ),
        state matches TimerState::Settling { elapsed_ms, target_duration_ms } ==> spec_status_label(
            locale,
            state,
        ) == crate::text::spec_replace(
            spec_tr(locale, "tray.status.settling"@),
            "{time}"@,
            spec_format_remaining(
                if elapsed_ms <= target_duration_ms {
                    (target_duration_ms - elapsed_ms) as u64
                } else {
                    0
                },
            ),
        ),
        state matches TimerState::Reverse { elapsed_ms, target_duration_ms } ==> spec_status_label(
            locale,
            state,
        ) == crate::text::spec_replace(
            spec_tr(locale, "tray.status.resuming"@),
            "{time}"@,
            spec_format_remaining(
                if elapsed_ms <= target_duration_ms {
                    (target_duration_ms - elapsed_ms) as u64
                } else {
                    0
                },
            ),
        ),
{
}

fn with_time(locale: AppLocale, key: &str, remaining: u64) -> (r: String)
    ensures
        r@ == spec_with_time(locale, key@, remaining),
{
    let reps = [("{time}", format_remaining_ms(remaining))];
    let r = tr_format(locale, key, &reps);
    proof {
        reveal_with_fuel(spec_apply_replacements, 2);
        assert(reps@.drop_last() =~= Seq::<(&str, String)>::empty());
    }
    r
}

pub fn tray_status_label(locale: AppLocale, state: TimerState) -> (r: String)
    ensures
        r@ == spec_status_label(locale, state),
{
    match state {
        TimerState::Idle => String::from_str(tr(locale, "tray.status.idle")),
        TimerState::Preview { .. } => String::from_str(tr(locale, "tray.status.preview")),
        TimerState::Progress { elapsed_ms, target_duration_ms } => with_time(
            locale,
            "tray.status.workLeft",
            target_duration_ms.saturating_sub(elapsed_ms),
        ),
        TimerState::Settling { elapsed_ms, target_duration_ms } => with_time(
            locale,
            "tray.status.settling",
            target_duration_ms.saturating_sub(elapsed_ms),
        ),
        TimerState::Sabi => String::from_str(tr(locale, "tray.status.rest")),
        TimerState::Reverse { elapsed_ms, target_duration_ms } => with_time(
            locale,
            "tray.status.resuming",
            target_duration_ms.saturating_sub(elapsed_ms),
        ),
    }
}

/// The label of a preset's menu entry: its duration in whole minutes.
pub open spec fn spec_start_session_label(locale: AppLocale, duration_ms: u64) -> Seq<char> {
    crate::text::spec_replace(
        spec_tr(locale, "tray.startSession"@),
        "{minutes}"@,
        spec_decimal((duration_ms / 60_000) as nat),
    )
}

pub fn start_session_label(locale: AppLocale, duration_ms: u64) -> (r: String)
    ensures
        r@ == spec_start_session_label(locale, duration_ms),
{
    let minutes = string_from_chars(&decimal(duration_ms / 60_000));
    let reps = [("{minutes}", minutes)];
    let r = tr_format(locale, "tray.startSession", &reps);
    proof {
        reveal_with_fuel(spec_apply_replacements, 2);
        assert(reps@.drop_last() =~= Seq::<(&str, String)>::empty());
    }
    r
}

/// Which menu entries are enabled in a phase.
#[derive(Debug, Clone, Copy, PartialEq, Eq, Structural)]
pub struct TrayMenuFlags {
    /// The three preset entries.
    pub start_enabled: bool,
    pub take_break_enabled: bool,
    pub stop_enabled: bool,
}

/// Presets start from Idle; a break is taken from Progress; Stop works
/// from Progress, Settling and Sabi.
pub open spec fn tray_flags_of(state: TimerState) -> TrayMenuFlags {
    TrayMenuFlags {
        start_enabled: state is Idle,
        take_break_enabled: state is Progress,
        stop_enabled: state is Progress || state is Settling || state is Sabi,
    }
}

pub fn tray_menu_flags(state: TimerState) -> (r: TrayMenuFlags)
    ensures
        r == tray_flags_of(state),
        r.start_enabled == (state is Idle),
        r.take_break_enabled == (state is Progress),
        r.stop_enabled == (state is Progress || state is Settling || state is Sabi),
{
    TrayMenuFlags {
        start_enabled: matches!(state, TimerState::Idle),
        take_break_enabled: matches!(state, TimerState::Progress { .. }),
        stop_enabled: matches!(state, TimerState::Progress { .. } | TimerState::Settling { .. } | TimerState::Sabi),
    }
}

/// What a click on a tray menu entry asks for.
#[derive(Debug, Clone, Copy)]
pub enum TrayMenuAction {
    Quit,
    OpenWindow,
    State(StateCommand),
    ForceReset,
}

pub open spec fn spec_menu_action(id: Seq<char>, durations: [u64; 3]) -> Option<TrayMenuAction> {
    if id == "quit"@ {
        Some(TrayMenuAction::Quit)
    } else if id == "open"@ {
        Some(TrayMenuAction::OpenWindow)
    } else if id == "start_preset1"@ {
        Some(TrayMenuAction::State(StateCommand::StartSession { target_duration_ms: durations[0] }))
    } else if id == "start_preset2"@ {
        Some(TrayMenuAction::State(StateCommand::StartSession { target_duration_ms: durations[1] }))
    } else if id == "start_preset3"@ {
        Some(TrayMenuAction::State(StateCommand::StartSession { target_duration_ms: durations[2] }))
    } else if id == "take_break_now"@ {
        Some(TrayMenuAction::State(StateCommand::TakeBreakNow))
    } else if id == "stop"@ {
        Some(TrayMenuAction::State(StateCommand::StopSession))
    } else if id == "force_reset"@ {
        Some(TrayMenuAction::ForceReset)
    } else {
        None
    }
}

/// The action of a menu entry, by the entry's id; `None` for an unknown
/// id.  Presets start sessions of the durations the menu was built with.
pub fn tray_menu_action(id: &str, durations: [u64; 3]) -> (r: Option<TrayMenuAction>)
    ensures
        r == spec_menu_action(id@, durations),
{
    if str_eq(id, "quit") {
        Some(TrayMenuAction::Quit)
    } else if str_eq(id, "open") {
        Some(TrayMenuAction::OpenWindow)
    } else if str_eq(id, "start_preset1") {
        Some(TrayMenuAction::State(StateCommand::StartSession { target_duration_ms: durations[0] }))
    } else if str_eq(id, "start_preset2") {
        Some(TrayMenuAction::State(StateCommand::StartSession { target_duration_ms: durations[1] }))
    } else if str_eq(id, "start_preset3") {
        Some(TrayMenuAction::State(StateCommand::StartSession { target_duration_ms: durations[2] }))
    } else if str_eq(id, "take_break_now") {
        Some(TrayMenuAction::State(StateCommand::TakeBreakNow))
    } else if str_eq(id, "stop") {
        Some(TrayMenuAction::State(StateCommand::StopSession))
    } else if str_eq(id, "force_reset") {
        Some(TrayMenuAction::ForceReset)
    } else {
        None
    }
}

/// The last status line written to the tray, so that an unchanged line
/// is not written again.
#[derive(Debug)]
pub struct TrayStatusCache {
    last: Option<String>,
}

impl View for TrayStatusCache {
    type V = Option<Seq<char>>;

    closed spec fn view(&self) -> Option<Seq<char>> {
        match self.last {
            Some(s) => Some(s@),
            None => None,
        }
    }
}

impl TrayStatusCache {
    pub fn new() -> (r: Self)
        ensures
            r@ is None,
    {
        TrayStatusCache { last: None }
    }

    /// Records `status` and says whether it differs from the previous one.
    pub fn mark_changed(&mut self, status: &str) -> (r: bool)
        ensures
            r == (old(self)@ != Some(status@)),
            final(self)@ == Some(status@),
    {
        match &self.last {
            Some(last) => {
                if str_eq(last.as_str(), status) {
                    return false;
                }
            },
            None => {},
        }
        self.last = Some(String::from_str(status));
        true
    }
}

/// The menu enables an entry exactly when the timer would act on its
/// command: a preset starts a session only from Idle, a break is taken
/// only from Progress, and Stop acts only from Progress, Settling and Sabi.
pub proof fn lemma_menu_flags_match_timer(m: TimerModel, duration_ms: u64)
    ensures
        (m.state is Idle) == spec_apply(m, StateCommand::StartSession { target_duration_ms: duration_ms }).1,
        (m.state is Progress) == spec_apply(m, StateCommand::TakeBreakNow).1,
        (m.state is Progress || m.state is Settling || m.state is Sabi) == spec_apply(
            m,
            StateCommand::StopSession,
        ).1,
{
}

/// Each menu id asks for what its label says: the presets start sessions
/// of the three preset lengths, "take_break_now" takes a break, "stop"
/// stops the session, and quit, open and force reset do just that; any
/// other id asks for nothing.
pub proof fn lemma_menu_actions(durations: [u64; 3])
    ensures
        spec_menu_action("quit"@, durations) matches Some(TrayMenuAction::Quit),
        spec_menu_action("open"@, durations) matches Some(TrayMenuAction::OpenWindow),
        spec_menu_action("start_preset1"@, durations) matches Some(
            TrayMenuAction::State(StateCommand::StartSession { target_duration_ms: d }),
        ) && d == durations[0],
        spec_menu_action("start_preset2"@, durations) matches Some(
            TrayMenuAction::State(StateCommand::StartSession { target_duration_ms: d }),
        ) && d == durations[1],
        spec_menu_action("start_preset3"@, durations) matches Some(
            TrayMenuAction::State(StateCommand::StartSession { target_duration_ms: d }),
        ) && d == durations[2],
        spec_menu_action("take_break_now"@, durations) matches Some(
            TrayMenuAction::State(StateCommand::TakeBreakNow),
        ),
        spec_menu_action("stop"@, durations) matches Some(
            TrayMenuAction::State(StateCommand::StopSession),
        ),
        spec_menu_action("force_reset"@, durations) matches Some(TrayMenuAction::ForceReset),
        spec_menu_action("status"@, durations) is None,
{
    reveal_strlit("quit");
    reveal_strlit("open");
    reveal_strlit("start_preset1");
    reveal_strlit("start_preset2");
    reveal_strlit("start_preset3");
    reveal_strlit("take_break_now");
    reveal_strlit("stop");
    reveal_strlit("force_reset");
    reveal_strlit("status");
    assert("quit"@.len() == 4);
    assert("open"@.len() == 4);
    assert("start_preset1"@.len() == 13);
    assert("start_preset2"@.len() == 13);
    assert("start_preset3"@.len() == 13);
    assert("take_break_now"@.len() == 14);
    assert("stop"@.len() == 4);
    assert("force_reset"@.len() == 11);
    assert("status"@.len() == 6);
    assert("open"@[0] != "quit"@[0]);
    assert("stop"@[0] != "quit"@[0] && "stop"@[0] != "open"@[0]);
    assert("start_preset2"@[12] != "start_preset1"@[12]);
    assert("start_preset3"@[12] != "start_preset1"@[12]);
    assert("start_preset3"@[12] != "start_preset2"@[12]);
}

/// A timer command the menu sends is acted on exactly when its entry is
/// enabled: clicking an enabled preset, break or stop entry changes the
/// timer's phase, and a disabled one would not.
pub proof fn lemma_enabled_entries_act(m: TimerModel, durations: [u64; 3], id: Seq<char>)
    requires
        id == "start_preset1"@ || id == "start_preset2"@ || id == "start_preset3"@ || id
            == "take_break_now"@ || id == "stop"@,
    ensures
        spec_menu_action(id, durations) matches Some(TrayMenuAction::State(c)) && spec_apply(m, c).1
            == (if id == "take_break_now"@ {
            tray_flags_of(m.state).take_break_enabled
        } else if id == "stop"@ {
            tray_flags_of(m.state).stop_enabled
        } else {
            tray_flags_of(m.state).start_enabled
        }),
{
    lemma_menu_actions(durations);
    reveal_strlit("start_preset1");
    reveal_strlit("start_preset2");
    reveal_strlit("start_preset3");
    reveal_strlit("take_break_now");
    reveal_strlit("stop");
}

/// An entry of the tray menu.
#[derive(Debug, Clone)]
pub enum TrayMenuEntry {
    Item { id: &'static str, label: String, enabled: bool },
    Separator,
}

/// `e` is the item `id` showing `label`, enabled or not.
pub open spec fn spec_is_item(e: TrayMenuEntry, id: Seq<char>, label: Seq<char>, enabled: bool) -> bool {
    e matches TrayMenuEntry::Item { id: i, label: l, enabled: en } && i@ == id && l@ == label && en
        == enabled
}

fn item(id: &'static str, label: String, enabled: bool) -> (r: TrayMenuEntry)
    ensures
        spec_is_item(r, id@, label@, enabled),
{
    TrayMenuEntry::Item { id, label, enabled }
}

/// The tray menu in a phase: the status line (never clickable), opening
/// the window, the three presets, taking a break, stopping, a forced reset
/// and quitting, in groups between separators; the flags of
/// `tray_menu_flags` decide which entries are enabled.
pub fn tray_menu_entries(locale: AppLocale, state: TimerState, durations: [u64; 3]) -> (r: Vec<
    TrayMenuEntry,
>)
    ensures
        r@.len() == 13,
        spec_is_item(r@[0], "status"@, spec_status_label(locale, state), false),
        r@[1] is Separator,
        spec_is_item(r@[2], "open"@, spec_tr(locale, "tray.openWindow"@), true),
        r@[3] is Separator,
        spec_is_item(r@[4], "start_preset1"@, spec_start_session_label(locale, durations@[0]), state is Idle),
        spec_is_item(r@[5], "start_preset2"@, spec_start_session_label(locale, durations@[1]), state is Idle),
        spec_is_item(r@[6], "start_preset3"@, spec_start_session_label(locale, durations@[2]), state is Idle),
        spec_is_item(r@[7], "take_break_now"@, spec_tr(locale, "tray.takeBreakNow"@), state is Progress),
        spec_is_item(
            r@[8],
            "stop"@,
            spec_tr(locale, "tray.stop"@),
            state is Progress || state is Settling || state is Sabi,
        ),
        r@[9] is Separator,
        spec_is_item(r@[10], "force_reset"@, spec_tr(locale, "tray.forceReset"@), true),
        r@[11] is Separator,
        spec_is_item(r@[12], "quit"@, spec_tr(locale, "tray.quit"@), true),
{
    let flags = tray_menu_flags(state);
    let mut r: Vec<TrayMenuEntry> = Vec::new();
    r.push(item("status", tray_status_label(locale, state), false));
    r.push(TrayMenuEntry::Separator);
    r.push(item("open", String::from_str(tr(locale, "tray.openWindow")), true));
    r.push(TrayMenuEntry::Separator);
    r.push(item("start_preset1", start_session_label(locale, durations[0]), flags.start_enabled));
    r.push(item("start_preset2", start_session_label(locale, durations[1]), flags.start_enabled));
    r.push(item("start_preset3", start_session_label(locale, durations[2]), flags.start_enabled));
    r.push(item("take_break_now", String::from_str(tr(locale, "tray.takeBreakNow")), flags.take_break_enabled));
    r.push(item("stop", String::from_str(tr(locale, "tray.stop")), flags.stop_enabled));
    r.push(TrayMenuEntry::Separator);
    r.push(item("force_reset", String::from_str(tr(locale, "tray.forceReset")), true));
    r.push(TrayMenuEntry::Separator);
    r.push(item("quit", String::from_str(tr(locale, "tray.quit")), true));
    r
}

} // verus!
