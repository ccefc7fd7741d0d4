//! The session timer: Idle → Progress → (Settling →) Sabi → Reverse → Idle,
//! plus a frontend-driven Preview entered from Idle.

use vstd::prelude::*;

use crate::float_bits::{
    f64_eq, lemma_unit_ratio, spec_eq, spec_in_unit, spec_unit_ratio, unit_ratio, F64_ZERO,
};
use crate::frame::FrameEvents;

verus! {

/// Store key of the persisted durations.
pub const STORE_KEY_TIMER: &'static str = "timer";

/// Default length of the Settling phase.
pub const DEFAULT_SETTLING_DURATION_MS: u64 = 5_000;
/// Default length of the Reverse phase.
pub const DEFAULT_REVERSE_DURATION_MS: u64 = 2_000;

/// Phase of the session timer.  Preview's `progress` is an `f64` in
/// `0.0..=1.0`, held by its bit pattern.
#[derive(Debug, Clone, Copy)]
pub enum TimerState {
    Idle,
    Preview { progress: u64 },
    Progress { elapsed_ms: u64, target_duration_ms: u64 },
    Settling { elapsed_ms: u64, target_duration_ms: u64 },
    Sabi,
    Reverse { elapsed_ms: u64, target_duration_ms: u64 },
}

impl TimerState {
    /// The phases that advance with time.
    pub open spec fn is_timed(self) -> bool {
        self is Progress || self is Settling || self is Reverse
    }

    pub open spec fn spec_elapsed_ms(self) -> u64 {
        match self {
            TimerState::Progress { elapsed_ms, .. } => elapsed_ms,
            TimerState::Settling { elapsed_ms, .. } => elapsed_ms,
            TimerState::Reverse { elapsed_ms, .. } => elapsed_ms,
            _ => 0,
        }
    }

    pub open spec fn spec_target_duration_ms(self) -> u64 {
        match self {
            TimerState::Progress { target_duration_ms, .. } => target_duration_ms,
            TimerState::Settling { target_duration_ms, .. } => target_duration_ms,
            TimerState::Reverse { target_duration_ms, .. } => target_duration_ms,
            _ => u64::MAX,
        }
    }

    pub open spec fn spec_label(self) -> Seq<char> {
        match self {
            TimerState::Idle => "Idle"@,
            TimerState::Preview { .. } => "Preview"@,
            TimerState::Progress { .. } => "Progress"@,
            TimerState::Settling { .. } => "Settling"@,
            TimerState::Sabi => "Sabi"@,
            TimerState::Reverse { .. } => "Reverse"@,
        }
    }

    /// Time spent in a timed phase; 0 in the others.
    pub fn elapsed_ms(&self) -> (r: u64)
        ensures
            r == self.spec_elapsed_ms(),
    {
        match self {
            TimerState::Progress { elapsed_ms, .. } => *elapsed_ms,
            TimerState::Settling { elapsed_ms, .. } => *elapsed_ms,
            TimerState::Reverse { elapsed_ms, .. } => *elapsed_ms,
            _ => 0,
        }
    }

    /// Length of a timed phase; `u64::MAX` in the others.
    pub fn target_duration_ms(&self) -> (r: u64)
        ensures
            r == self.spec_target_duration_ms(),
    {
        match self {
            TimerState::Progress { target_duration_ms, .. } => *target_duration_ms,
            TimerState::Settling { target_duration_ms, .. } => *target_duration_ms,
            TimerState::Reverse { target_duration_ms, .. } => *target_duration_ms,
            _ => u64::MAX,
        }
    }

    pub fn label(&self) -> (r: &'static str)
        ensures
            r@ == self.spec_label(),
    {
        match self {
            TimerState::Idle => "Idle",
            TimerState::Preview { .. } => "Preview",
            TimerState::Progress { .. } => "Progress",
            TimerState::Settling { .. } => "Settling",
            TimerState::Sabi => "Sabi",
            TimerState::Reverse { .. } => "Reverse",
        }
    }
}

/// Equality of phases; Preview progress compares as a number.
pub open spec fn spec_state_eq(a: TimerState, b: TimerState) -> bool {
    match (a, b) {
        (TimerState::Preview { progress: p }, TimerState::Preview { progress: q }) => spec_eq(p, q),
        (TimerState::Preview { .. }, _) => false,
        (_, TimerState::Preview { .. }) => false,
        _ => a == b,
    }
}

impl PartialEq for TimerState {
    fn eq(&self, other: &Self) -> (r: bool) {
        match (self, other) {
            (TimerState::Idle, TimerState::Idle) => true,
            (TimerState::Preview { progress: p }, TimerState::Preview { progress: q }) => f64_eq(
                *p,
                *q,
            ),
            (
                TimerState::Progress { elapsed_ms: e1, target_duration_ms: t1 },
                TimerState::Progress { elapsed_ms: e2, target_duration_ms: t2 },
            ) => *e1 == *e2 && *t1 == *t2,
            (
                TimerState::Settling { elapsed_ms: e1, target_duration_ms: t1 },
                TimerState::Settling { elapsed_ms: e2, target_duration_ms: t2 },
            ) => *e1 == *e2 && *t1 == *t2,
            (TimerState::Sabi, TimerState::Sabi) => true,
            (
                TimerState::Reverse { elapsed_ms: e1, target_duration_ms: t1 },
                TimerState::Reverse { elapsed_ms: e2, target_duration_ms: t2 },
            ) => *e1 == *e2 && *t1 == *t2,
            _ => false,
        }
    }
}

impl vstd::std_specs::cmp::PartialEqSpecImpl for TimerState {
    open spec fn obeys_eq_spec() -> bool {
        true
    }

    open spec fn eq_spec(&self, other: &Self) -> bool {
        spec_state_eq(*self, *other)
    }
}

/// A request to the timer.  `UpdatePreviewProgress`'s `progress` is an
/// `f64` held by its bit pattern.
#[derive(Debug, Clone, Copy)]
pub enum StateCommand {
    StartSession { target_duration_ms: u64 },
    TakeBreakNow,
    StopSession,
    EnterPreview,
    ExitPreview,
    UpdatePreviewProgress { progress: u64 },
    UpdateSettlingDuration { duration_ms: u64 },
    UpdateReverseDuration { duration_ms: u64 },
}

/// The commands that change the timer's persisted durations.
pub open spec fn spec_is_duration_update(c: StateCommand) -> bool {
    c is UpdateSettlingDuration || c is UpdateReverseDuration
}

/// Durations of the phases the user configures once, as persisted.
#[derive(Debug, Clone, Copy, PartialEq, Eq, Structural)]
pub struct PersistentTimerConfig {
    pub settling_duration_ms: u64,
    pub reverse_duration_ms: u64,
}

impl Default for PersistentTimerConfig {
    fn default() -> (r: Self)
        ensures
            r.settling_duration_ms == DEFAULT_SETTLING_DURATION_MS,
            r.reverse_duration_ms == DEFAULT_REVERSE_DURATION_MS,
    {
        PersistentTimerConfig {
            settling_duration_ms: DEFAULT_SETTLING_DURATION_MS,
            reverse_duration_ms: DEFAULT_REVERSE_DURATION_MS,
        }
    }
}

/// The same durations as the frontend reads them.
#[derive(Debug, Clone, Copy, PartialEq, Eq, Structural)]
pub struct TimerConfig {
    pub settling_duration_ms: u64,
    pub reverse_duration_ms: u64,
}

impl Default for TimerConfig {
    fn default() -> (r: Self)
        ensures
            r.settling_duration_ms == DEFAULT_SETTLING_DURATION_MS,
            r.reverse_duration_ms == DEFAULT_REVERSE_DURATION_MS,
    {
        TimerConfig {
            settling_duration_ms: DEFAULT_SETTLING_DURATION_MS,
            reverse_duration_ms: DEFAULT_REVERSE_DURATION_MS,
        }
    }
}

/// Mathematical model of the timer.
pub struct TimerModel {
    pub state: TimerState,
    pub settling_duration_ms: u64,
    pub reverse_duration_ms: u64,
}

/// Effect of one command: the new model, and whether the phase changed.
pub open spec fn spec_apply(m: TimerModel, c: StateCommand) -> (TimerModel, bool) {
    match c {
        StateCommand::StartSession { target_duration_ms } => if m.state is Idle {
            (
                TimerModel {
                    state: TimerState::Progress { elapsed_ms: 0, target_duration_ms },
                    ..m
                },
                true,
            )
        } else {
            (m, false)
        },
        StateCommand::TakeBreakNow => if m.state is Progress {
            (
                TimerModel {
                    state: TimerState::Settling {
                        elapsed_ms: 0,
                        target_duration_ms: m.settling_duration_ms,
                    },
                    ..m
                },
                true,
            )
        } else {
            (m, false)
        },
        StateCommand::StopSession => if m.state is Progress || m.state is Settling
            || m.state is Sabi {
            (
                TimerModel {
                    state: TimerState::Reverse {
                        elapsed_ms: 0,
                        target_duration_ms: m.reverse_duration_ms,
                    },
                    ..m
                },
                true,
            )
        } else {
            (m, false)
        },
        StateCommand::UpdateSettlingDuration { duration_ms } => {
            let state = match m.state {
                TimerState::Settling { elapsed_ms, .. } => TimerState::Settling {
                    elapsed_ms,
                    target_duration_ms: duration_ms,
                },
                s => s,
            };
            (TimerModel { state, settling_duration_ms: duration_ms, ..m }, false)
        },
        StateCommand::UpdateReverseDuration { duration_ms } => {
            let state = match m.state {
                TimerState::Reverse { elapsed_ms, .. } => TimerState::Reverse {
                    elapsed_ms,
                    target_duration_ms: duration_ms,
                },
                s => s,
            };
            (TimerModel { state, reverse_duration_ms: duration_ms, ..m }, false)
        },
        StateCommand::EnterPreview => if m.state is Idle {
            (TimerModel { state: TimerState::Preview { progress: F64_ZERO }, ..m }, true)
        } else {
            (m, false)
        },
        StateCommand::ExitPreview => if m.state is Preview {
            (TimerModel { state: TimerState::Idle, ..m }, true)
        } else {
            (m, false)
        },
        StateCommand::UpdatePreviewProgress { progress } => if m.state is Preview {
            (
                TimerModel { state: TimerState::Preview { progress: spec_unit_ratio(progress) }, ..m },
                false,
            )
        } else {
            (m, false)
        },
    }
}

/// Effect of a sequence of commands applied in order: the final model, and
/// whether any of them changed the phase.
pub open spec fn spec_run(m: TimerModel, cmds: Seq<StateCommand>) -> (TimerModel, bool)
    decreases cmds.len(),
{
    if cmds.len() == 0 {
        (m, false)
    } else {
        let (m1, t1) = spec_run(m, cmds.drop_last());
        let (m2, t2) = spec_apply(m1, cmds.last());
        (m2, t1 || t2)
    }
}

/// Effect of `dt_ms` of time on a frame in which the phase did not change
/// yet: the new model, and whether the phase changed now.
pub open spec fn spec_tick(m: TimerModel, dt_ms: u64) -> (TimerModel, bool) {
    match m.state {
        TimerState::Progress { elapsed_ms, target_duration_ms } => if elapsed_ms + dt_ms
            >= target_duration_ms {
            (TimerModel { state: TimerState::Sabi, ..m }, true)
        } else {
            (
                TimerModel {
                    state: TimerState::Progress {
                        elapsed_ms: (elapsed_ms + dt_ms) as u64,
                        target_duration_ms,
                    },
                    ..m
                },
                false,
            )
        },
        TimerState::Settling { elapsed_ms, target_duration_ms } => if elapsed_ms + dt_ms
            >= target_duration_ms {
            (TimerModel { state: TimerState::Sabi, ..m }, true)
        } else {
            (
                TimerModel {
                    state: TimerState::Settling {
                        elapsed_ms: (elapsed_ms + dt_ms) as u64,
                        target_duration_ms,
                    },
                    ..m
                },
                false,
            )
        },
        TimerState::Reverse { elapsed_ms, target_duration_ms } => if elapsed_ms + dt_ms
            >= target_duration_ms {
            (TimerModel { state: TimerState::Idle, ..m }, true)
        } else {
            (
                TimerModel {
                    state: TimerState::Reverse {
                        elapsed_ms: (elapsed_ms + dt_ms) as u64,
                        target_duration_ms,
                    },
                    ..m
                },
                false,
            )
        },
        _ => (m, false),
    }
}

/// Every field of a frame but `just_transited` is as it was.
pub open spec fn spec_same_but_transit_flag(a: FrameEvents, b: FrameEvents) -> bool {
    &&& a.state_commands == b.state_commands
    &&& a.channel_commands == b.channel_commands
    &&& a.shutdown_requested == b.shutdown_requested
    &&& a.shutdown == b.shutdown
    &&& a.force_reset == b.force_reset
    &&& a.switch_changed == b.switch_changed
    &&& a.need_persist == b.need_persist
}

/// The session timer.
pub struct TimerStateMachine {
    state: TimerState,
    settling_duration_ms: u64,
    reverse_duration_ms: u64,
}

impl View for TimerStateMachine {
    type V = TimerModel;

    closed spec fn view(&self) -> TimerModel {
        TimerModel {
            state: self.state,
            settling_duration_ms: self.settling_duration_ms,
            reverse_duration_ms: self.reverse_duration_ms,
        }
    }
}

impl TimerStateMachine {
    /// A timer at Idle with the given durations.
    pub fn new(config: PersistentTimerConfig) -> (r: Self)
        ensures
            r@.state is Idle,
            r@.settling_duration_ms == config.settling_duration_ms,
            r@.reverse_duration_ms == config.reverse_duration_ms,
    {
        TimerStateMachine {
            state: TimerState::Idle,
            settling_duration_ms: config.settling_duration_ms,
            reverse_duration_ms: config.reverse_duration_ms,
        }
    }

    /// Back to Idle from any phase; the durations are kept.
    pub fn reset(&mut self)
        ensures
            final(self)@ == (TimerModel { state: TimerState::Idle, ..old(self)@ }),
    {
        self.state = TimerState::Idle;
    }

    fn transit(&mut self, new_state: TimerState)
        ensures
            final(self)@ == (TimerModel { state: new_state, ..old(self)@ }),
    {
        self.state = new_state;
    }

    /// Applies one command; `just_transited` is set when the phase changed
    /// and otherwise left as it was.
    pub fn apply(&mut self, command: &StateCommand, just_transited: &mut bool)
        ensures
            final(self)@ == spec_apply(old(self)@, *command).0,
            *final(just_transited) == (*old(just_transited) || spec_apply(
                old(self)@,
                *command,
            ).1),
    {
        match command {
            StateCommand::StartSession { target_duration_ms } => {
                match self.state {
                    TimerState::Idle => {
                        self.transit(
                            TimerState::Progress {
                                elapsed_ms: 0,
                                target_duration_ms: *target_duration_ms,
                            },
                        );
                        *just_transited = true;
                    },
                    _ => {},
                }
            },
            StateCommand::TakeBreakNow => {
                match self.state {
                    TimerState::Progress { .. } => {
                        self.transit(
                            TimerState::Settling {
                                elapsed_ms: 0,
                                target_duration_ms: self.settling_duration_ms,
                            },
                        );
                        *just_transited = true;
                    },
                    _ => {},
                }
            },
            StateCommand::StopSession => {
                match self.state {
                    TimerState::Progress { .. }
                    | TimerState::Settling { .. }
                    | TimerState::Sabi => {
                        self.transit(
                            TimerState::Reverse {
                                elapsed_ms: 0,
                                target_duration_ms: self.reverse_duration_ms,
                            },
                        );
                        *just_transited = true;
                    },
                    _ => {},
                }
            },
            StateCommand::UpdateSettlingDuration { duration_ms } => {
                self.settling_duration_ms = *duration_ms;
                if let TimerState::Settling { elapsed_ms, .. } = self.state {
                    self.state = TimerState::Settling {
                        elapsed_ms,
                        target_duration_ms: *duration_ms,
                    };
                }
            },
            StateCommand::UpdateReverseDuration { duration_ms } => {
                self.reverse_duration_ms = *duration_ms;
                if let TimerState::Reverse { elapsed_ms, .. } = self.state {
                    self.state = TimerState::Reverse {
                        elapsed_ms,
                        target_duration_ms: *duration_ms,
                    };
                }
            },
            StateCommand::EnterPreview => {
                match self.state {
                    TimerState::Idle => {
                        self.transit(TimerState::Preview { progress: F64_ZERO });
                        *just_transited = true;
                    },
                    _ => {},
                }
            },
            StateCommand::ExitPreview => {
                match self.state {
                    TimerState::Preview { .. } => {
                        self.transit(TimerState::Idle);
                        *just_transited = true;
                    },
                    _ => {},
                }
            },
            StateCommand::UpdatePreviewProgress { progress } => {
                match self.state {
                    TimerState::Preview { .. } => {
                        self.transit(TimerState::Preview { progress: unit_ratio(*progress) });
                    },
                    _ => {},
                }
            },
        }
    }

    /// Applies the frame's state commands in order and drains them.  The
    /// frame is marked as transited when a command changed the phase, and
    /// the timer is marked for persistence when a command changed a
    /// duration.
    pub fn handle_commands(&mut self, frame_events: &mut FrameEvents)
        ensures
            final(self)@ == spec_run(old(self)@, old(frame_events).state_commands@).0,
            final(frame_events).just_transited == (old(frame_events).just_transited || spec_run(
                old(self)@,
                old(frame_events).state_commands@,
            ).1),
            final(frame_events).need_persist.timer_state_machine == (
            old(frame_events).need_persist.timer_state_machine || exists|i: int|
                0 <= i < old(frame_events).state_commands@.len()
                    && spec_is_duration_update(
                    #[trigger] old(frame_events).state_commands@[i],
                )),
            final(frame_events).state_commands@.len() == 0,
            final(frame_events).channel_commands == old(frame_events).channel_commands,
            final(frame_events).shutdown_requested == old(frame_events).shutdown_requested,
            final(frame_events).shutdown == old(frame_events).shutdown,
            final(frame_events).force_reset == old(frame_events).force_reset,
            final(frame_events).switch_changed == old(frame_events).switch_changed,
            final(frame_events).need_persist.channels_system == old(
                frame_events,
            ).need_persist.channels_system,
    {
        let ghost cmds = frame_events.state_commands@;
        let ghost m0 = self@;
        let ghost jt0 = frame_events.just_transited;
        let ghost np0 = frame_events.need_persist.timer_state_machine;
        let n = frame_events.state_commands.len();
        let mut i: usize = 0;
        while i < n
            invariant
                frame_events.state_commands@ == cmds,
                n == cmds.len(),
                i <= n,
                self@ == spec_run(m0, cmds.take(i as int)).0,
                frame_events.just_transited == (jt0 || spec_run(m0, cmds.take(i as int)).1),
                frame_events.need_persist.timer_state_machine == (np0 || exists|j: int|
                    0 <= j < i && spec_is_duration_update(#[trigger] cmds[j])),
                frame_events.channel_commands == old(frame_events).channel_commands,
                frame_events.shutdown_requested == old(frame_events).shutdown_requested,
                frame_events.shutdown == old(frame_events).shutdown,
                frame_events.force_reset == old(frame_events).force_reset,
                frame_events.switch_changed == old(frame_events).switch_changed,
                frame_events.need_persist.channels_system == old(
                    frame_events,
                ).need_persist.channels_system,
            decreases n - i,
        {
            let command = frame_events.state_commands[i];
            let needs_persist = match command {
                StateCommand::UpdateSettlingDuration { .. } => true,
                StateCommand::UpdateReverseDuration { .. } => true,
                _ => false,
            };
            let mut jt = frame_events.just_transited;
            self.apply(&command, &mut jt);
            frame_events.just_transited = jt;
            if needs_persist {
                frame_events.need_persist.timer_state_machine = true;
            }
            proof {
                assert(cmds.take(i as int + 1).drop_last() =~= cmds.take(i as int));
            }
            i += 1;
        }
        proof {
            assert(cmds.take(n as int) =~= cmds);
        }
        frame_events.state_commands.clear();
    }

    /// Advances a timed phase by `dt_ms`, moving on when its time is up:
    /// Progress and Settling go to Sabi, Reverse goes to Idle.  A frame in
    /// which the phase already changed does not advance.
    pub fn tick(&mut self, dt_ms: u64, frame_events: &mut FrameEvents)
        requires
            !old(frame_events).just_transited ==> old(self)@.state.spec_elapsed_ms() + dt_ms
                <= u64::MAX,
        ensures
            old(frame_events).just_transited ==> final(self)@ == old(self)@
                && final(frame_events).just_transited,
            !old(frame_events).just_transited ==> final(self)@ == spec_tick(old(self)@, dt_ms).0
                && final(frame_events).just_transited == spec_tick(old(self)@, dt_ms).1,
            spec_same_but_transit_flag(*final(frame_events), *old(frame_events)),
    {
        if frame_events.just_transited {
            return ;
        }
        match self.state {
            TimerState::Progress { elapsed_ms, target_duration_ms } => {
                if elapsed_ms + dt_ms >= target_duration_ms {
                    self.transit(TimerState::Sabi);
                    frame_events.just_transited = true;
                } else {
                    self.transit(
                        TimerState::Progress { elapsed_ms: elapsed_ms + dt_ms, target_duration_ms },
                    );
                }
            },
            TimerState::Settling { elapsed_ms, target_duration_ms } => {
                if elapsed_ms + dt_ms >= target_duration_ms {
                    self.transit(TimerState::Sabi);
                    frame_events.just_transited = true;
                } else {
                    self.transit(
                        TimerState::Settling { elapsed_ms: elapsed_ms + dt_ms, target_duration_ms },
                    );
                }
            },
            TimerState::Reverse { elapsed_ms, target_duration_ms } => {
                if elapsed_ms + dt_ms >= target_duration_ms {
                    self.transit(TimerState::Idle);
                    frame_events.just_transited = true;
                } else {
                    self.transit(
                        TimerState::Reverse { elapsed_ms: elapsed_ms + dt_ms, target_duration_ms },
                    );
                }
            },
            _ => {},
        }
    }

    /// What the frame's commands would do, without doing it: the elapsed
    /// time of the phase they lead to (after a reset first when `reset`),
    /// and whether one of them changes the phase.
    pub fn preview_commands(&self, reset: bool, commands: &Vec<StateCommand>) -> (r: (u64, bool))
        ensures
            ({
                let m0 = if reset {
                    TimerModel { state: TimerState::Idle, ..self@ }
                } else {
                    self@
                };
                r == (spec_run(m0, commands@).0.state.spec_elapsed_ms(), spec_run(m0, commands@).1)
            }),
    {
        let mut t = TimerStateMachine {
            state: self.state,
            settling_duration_ms: self.settling_duration_ms,
            reverse_duration_ms: self.reverse_duration_ms,
        };
        if reset {
            t.reset();
        }
        let ghost m0 = t@;
        let mut transited = false;
        let mut i: usize = 0;
        while i < commands.len()
            invariant
                i <= commands@.len(),
                t@ == spec_run(m0, commands@.take(i as int)).0,
                transited == spec_run(m0, commands@.take(i as int)).1,
            decreases commands.len() - i,
        {
            proof {
                assert(commands@.take(i as int + 1).drop_last() =~= commands@.take(i as int));
            }
            t.apply(&commands[i], &mut transited);
            i += 1;
        }
        proof {
            assert(commands@.take(commands@.len() as int) =~= commands@);
        }
        (t.state.elapsed_ms(), transited)
    }

    pub fn state(&self) -> (r: TimerState)
        ensures
            r == self@.state,
    {
        self.state
    }

    pub fn settling_duration_ms(&self) -> (r: u64)
        ensures
            r == self@.settling_duration_ms,
    {
        self.settling_duration_ms
    }

    pub fn reverse_duration_ms(&self) -> (r: u64)
        ensures
            r == self@.reverse_duration_ms,
    {
        self.reverse_duration_ms
    }

    /// The durations to write back to the store.
    pub fn persistent_config(&self) -> (r: PersistentTimerConfig)
        ensures
            r.settling_duration_ms == self@.settling_duration_ms,
            r.reverse_duration_ms == self@.reverse_duration_ms,
    {
        PersistentTimerConfig {
            settling_duration_ms: self.settling_duration_ms,
            reverse_duration_ms: self.reverse_duration_ms,
        }
    }

    /// The durations as the frontend reads them.
    pub fn timer_config(&self) -> (r: TimerConfig)
        ensures
            r.settling_duration_ms == self@.settling_duration_ms,
            r.reverse_duration_ms == self@.reverse_duration_ms,
    {
        TimerConfig {
            settling_duration_ms: self.settling_duration_ms,
            reverse_duration_ms: self.reverse_duration_ms,
        }
    }
}

/// A Preview ratio as the timer keeps it: a number in `[0, 1]`, never NaN.
pub open spec fn spec_preview_clamped(m: TimerModel) -> bool {
    m.state matches TimerState::Preview { progress } ==> spec_in_unit(progress)
}

/// No command moves a phase's elapsed time forward: each keeps it or
/// starts a phase at zero.
pub proof fn lemma_run_elapsed_not_increasing(m: TimerModel, cmds: Seq<StateCommand>)
    ensures
        spec_run(m, cmds).0.state.spec_elapsed_ms() <= m.state.spec_elapsed_ms(),
    decreases cmds.len(),
{
    if cmds.len() > 0 {
        lemma_run_elapsed_not_increasing(m, cmds.drop_last());
    }
}

/// Commands that set no duration keep both durations.
pub proof fn lemma_run_keeps_durations(m: TimerModel, cmds: Seq<StateCommand>)
    requires
        forall|i: int| 0 <= i < cmds.len() ==> !spec_is_duration_update(#[trigger] cmds[i]),
    ensures
        spec_run(m, cmds).0.settling_duration_ms == m.settling_duration_ms,
        spec_run(m, cmds).0.reverse_duration_ms == m.reverse_duration_ms,
    decreases cmds.len(),
{
    if cmds.len() > 0 {
        assert(!spec_is_duration_update(cmds[cmds.len() - 1]));
        lemma_run_keeps_durations(m, cmds.drop_last());
    }
}

/// The Preview ratio stays a number in `[0, 1]` whatever the commands: a
/// NaN ratio is taken as zero and any other is clamped.
pub proof fn lemma_run_keeps_preview_clamped(m: TimerModel, cmds: Seq<StateCommand>)
    requires
        spec_preview_clamped(m),
    ensures
        spec_preview_clamped(spec_run(m, cmds).0),
    decreases cmds.len(),
{
    if cmds.len() > 0 {
        lemma_run_keeps_preview_clamped(m, cmds.drop_last());
        let m1 = spec_run(m, cmds.drop_last()).0;
        match cmds.last() {
            StateCommand::UpdatePreviewProgress { progress } => {
                lemma_unit_ratio(progress);
            },
            _ => {
                lemma_unit_ratio(F64_ZERO);
            },
        }
    }
}

/// A tick that leaves the timer in a timed phase leaves it with time to
/// go: elapsed time never reaches the target without the phase moving on.
pub proof fn lemma_tick_stays_below_target(m: TimerModel, dt_ms: u64)
    requires
        m.state.spec_elapsed_ms() + dt_ms <= u64::MAX,
    ensures
        spec_tick(m, dt_ms).0.state.is_timed() ==> spec_tick(m, dt_ms).0.state.spec_elapsed_ms()
            < spec_tick(m, dt_ms).0.state.spec_target_duration_ms(),
        spec_tick(m, dt_ms).1 <==> (m.state.is_timed() && m.state.spec_elapsed_ms() + dt_ms
            >= m.state.spec_target_duration_ms()),
{
}

/// Time moves the phases in their order: work (Progress) and the settling
/// ramp run until their time is up and then the break (Sabi) begins; the
/// fade back (Reverse) runs until its time is up and then the timer is
/// Idle.  A phase that does not end keeps its target and adds the frame's
/// time; the frame is marked exactly when the phase ended.
pub proof fn lemma_tick_phase_order(m: TimerModel, dt_ms: u64)
    requires
        m.state.spec_elapsed_ms() + dt_ms <= u64::MAX,
    ensures
        ({
            let (m2, transited) = spec_tick(m, dt_ms);
            &&& m.state matches TimerState::Progress { elapsed_ms, target_duration_ms } ==> if
                elapsed_ms + dt_ms >= target_duration_ms {
                m2.state == TimerState::Sabi && transited
            } else {
                m2.state == (TimerState::Progress {
                    elapsed_ms: (elapsed_ms + dt_ms) as u64,
                    target_duration_ms,
                }) && !transited
            }
            &&& m.state matches TimerState::Settling { elapsed_ms, target_duration_ms } ==> if
                elapsed_ms + dt_ms >= target_duration_ms {
                m2.state == TimerState::Sabi && transited
            } else {
                m2.state == (TimerState::Settling {
                    elapsed_ms: (elapsed_ms + dt_ms) as u64,
                    target_duration_ms,
                }) && !transited
            }
            &&& m.state matches TimerState::Reverse { elapsed_ms, target_duration_ms } ==> if
                elapsed_ms + dt_ms >= target_duration_ms {
                m2.state == TimerState::Idle && transited
            } else {
                m2.state == (TimerState::Reverse {
                    elapsed_ms: (elapsed_ms + dt_ms) as u64,
                    target_duration_ms,
                }) && !transited
            }
        }),
{
}

/// A new settling or fade-back duration is stored, and also becomes the
/// target of that phase when the timer is in it; a preview ratio moves the
/// Preview (held to `[0, 1]`, NaN read as zero) and is ignored elsewhere.
/// None of these changes the phase or marks the frame.
pub proof fn lemma_setting_commands(m: TimerModel, c: StateCommand)
    ensures
        ({
            let (m2, transited) = spec_apply(m, c);
            &&& c matches StateCommand::UpdateSettlingDuration { duration_ms } ==> {
                &&& !transited
                &&& m2.settling_duration_ms == duration_ms
                &&& m2.reverse_duration_ms == m.reverse_duration_ms
                &&& m.state matches TimerState::Settling { elapsed_ms, .. } ==> m2.state == (
                TimerState::Settling { elapsed_ms, target_duration_ms: duration_ms })
                &&& !(m.state is Settling) ==> m2.state == m.state
            }
            &&& c matches StateCommand::UpdateReverseDuration { duration_ms } ==> {
                &&& !transited
                &&& m2.reverse_duration_ms == duration_ms
                &&& m2.settling_duration_ms == m.settling_duration_ms
                &&& m.state matches TimerState::Reverse { elapsed_ms, .. } ==> m2.state == (
                TimerState::Reverse { elapsed_ms, target_duration_ms: duration_ms })
                &&& !(m.state is Reverse) ==> m2.state == m.state
            }
            &&& c matches StateCommand::UpdatePreviewProgress { progress } ==> {
                &&& !transited
                &&& m2.settling_duration_ms == m.settling_duration_ms
                &&& m2.reverse_duration_ms == m.reverse_duration_ms
                &&& m.state is Preview ==> m2.state == (TimerState::Preview {
                    progress: spec_unit_ratio(progress),
                })
                &&& !(m.state is Preview) ==> m2 == m
            }
        }),
{
}

/// Time moves only Progress, Settling and Reverse; the durations never
/// change with time.
pub proof fn lemma_tick_moves_only_timed_phases(m: TimerModel, dt_ms: u64)
    ensures
        !m.state.is_timed() ==> spec_tick(m, dt_ms) == (m, false),
        spec_tick(m, dt_ms).0.settling_duration_ms == m.settling_duration_ms,
        spec_tick(m, dt_ms).0.reverse_duration_ms == m.reverse_duration_ms,
{
}

/// At Idle only StartSession and EnterPreview change the phase.
pub proof fn lemma_idle_accepts_only_start_and_preview(m: TimerModel, c: StateCommand)
    requires
        m.state is Idle,
    ensures
        spec_apply(m, c).1 <==> (c is StartSession || c is EnterPreview),
        !(c is StartSession || c is EnterPreview) ==> spec_apply(m, c).0.state is Idle,
{
}

/// The phase-changing commands: StartSession from Idle, TakeBreakNow from
/// Progress, StopSession from Progress, Settling or Sabi, EnterPreview from
/// Idle and ExitPreview from Preview change the phase as listed and mark
/// the frame; any other such pair leaves the timer as it was.  None of
/// them changes a duration.
pub proof fn lemma_phase_command_table(m: TimerModel, c: StateCommand)
    requires
        !spec_is_duration_update(c),
        !(c is UpdatePreviewProgress),
    ensures
        spec_apply(m, c).0.settling_duration_ms == m.settling_duration_ms,
        spec_apply(m, c).0.reverse_duration_ms == m.reverse_duration_ms,
        spec_apply(m, c).1 <==> ((c is StartSession && m.state is Idle) || (c is TakeBreakNow
            && m.state is Progress) || (c is StopSession && (m.state is Progress || m.state is Settling
            || m.state is Sabi)) || (c is EnterPreview && m.state is Idle) || (c is ExitPreview
            && m.state is Preview)),
        !spec_apply(m, c).1 ==> spec_apply(m, c).0 == m,
        c is StartSession && m.state is Idle ==> spec_apply(m, c).0.state == (TimerState::Progress {
            elapsed_ms: 0,
            target_duration_ms: c->target_duration_ms,
        }),
        c is TakeBreakNow && m.state is Progress ==> spec_apply(m, c).0.state == (TimerState::Settling {
            elapsed_ms: 0,
            target_duration_ms: m.settling_duration_ms,
        }),
        c is StopSession && (m.state is Progress || m.state is Settling || m.state is Sabi)
            ==> spec_apply(m, c).0.state == (TimerState::Reverse {
            elapsed_ms: 0,
            target_duration_ms: m.reverse_duration_ms,
        }),
        c is EnterPreview && m.state is Idle ==> spec_apply(m, c).0.state == (TimerState::Preview {
            progress: F64_ZERO,
        }),
        c is ExitPreview && m.state is Preview ==> spec_apply(m, c).0.state == TimerState::Idle,
{
}

} // verus!
