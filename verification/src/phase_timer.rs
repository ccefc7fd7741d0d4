//! A simpler session timer, without Preview, driven by a frame that only
//! records phase changes.  Besides each phase's own elapsed time it counts
//! the time spent in the current kind of phase.

use vstd::prelude::*;

use crate::frame::FrameFlags;

verus! {

#[derive(Debug, Clone, Copy, PartialEq, Eq, Structural)]
pub enum TimerState {
    Idle,
    Progress { elapsed_ms: u64, target_duration_ms: u64 },
    Settling { elapsed_ms: u64, target_duration_ms: u64 },
    Sabi,
    Reverse { elapsed_ms: u64, target_duration_ms: u64 },
}

/// The phase durations the user configures.
#[derive(Debug, Clone, Copy, PartialEq, Eq, Structural)]
pub struct AppConfig {
    pub settling_duration_ms: u64,
    pub reverse_duration_ms: u64,
}

#[derive(Debug, Clone, Copy, PartialEq, Eq, Structural)]
pub enum StateCommand {
    StartSession { target_duration_ms: u64 },
    TakeBreakNow,
    StopSession,
}

pub open spec fn spec_elapsed(s: TimerState) -> u64 {
    match s {
        TimerState::Progress { elapsed_ms, .. } => elapsed_ms,
        TimerState::Settling { elapsed_ms, .. } => elapsed_ms,
        TimerState::Reverse { elapsed_ms, .. } => elapsed_ms,
        _ => 0,
    }
}

pub open spec fn spec_target(s: TimerState) -> u64 {
    match s {
        TimerState::Progress { target_duration_ms, .. } => target_duration_ms,
        TimerState::Settling { target_duration_ms, .. } => target_duration_ms,
        TimerState::Reverse { target_duration_ms, .. } => target_duration_ms,
        _ => u64::MAX,
    }
}

/// Two phases of the same kind, whatever their times.
pub open spec fn spec_same_kind(a: TimerState, b: TimerState) -> bool {
    match (a, b) {
        (TimerState::Idle, TimerState::Idle) => true,
        (TimerState::Progress { .. }, TimerState::Progress { .. }) => true,
        (TimerState::Settling { .. }, TimerState::Settling { .. }) => true,
        (TimerState::Sabi, TimerState::Sabi) => true,
        (TimerState::Reverse { .. }, TimerState::Reverse { .. }) => true,
        _ => false,
    }
}

impl TimerState {
    pub fn elapsed_ms(&self) -> (r: u64)
        ensures
            r == spec_elapsed(*self),
    {
        match self {
            TimerState::Progress { elapsed_ms, .. } => *elapsed_ms,
            TimerState::Settling { elapsed_ms, .. } => *elapsed_ms,
            TimerState::Reverse { elapsed_ms, .. } => *elapsed_ms,
            TimerState::Idle => 0,
            TimerState::Sabi => 0,
        }
    }

    pub fn target_duration_ms(&self) -> (r: u64)
        ensures
            r == spec_target(*self),
    {
        match self {
            TimerState::Progress { target_duration_ms, .. } => *target_duration_ms,
            TimerState::Settling { target_duration_ms, .. } => *target_duration_ms,
            TimerState::Reverse { target_duration_ms, .. } => *target_duration_ms,
            TimerState::Idle => u64::MAX,
            TimerState::Sabi => u64::MAX,
        }
    }

    pub fn label(&self) -> (r: &'static str)
        ensures
            r@ == (match *self {
                TimerState::Idle => "Idle"@,
                TimerState::Progress { .. } => "Progress"@,
                TimerState::Settling { .. } => "Settling"@,
                TimerState::Sabi => "Sabi"@,
                TimerState::Reverse { .. } => "Reverse"@,
            }),
    {
        match self {
            TimerState::Idle => "Idle",
            TimerState::Progress { .. } => "Progress",
            TimerState::Settling { .. } => "Settling",
            TimerState::Sabi => "Sabi",
            TimerState::Reverse { .. } => "Reverse",
        }
    }
}

/// The timer's model: its phase, and the time spent in phases of the
/// current kind.
pub struct PhaseTimerModel {
    pub state: TimerState,
    pub current_elapsed_ms: u64,
}

/// Moving to `new_state`: the kind counter restarts when the kind changes.
pub open spec fn spec_transit(m: PhaseTimerModel, new_state: TimerState) -> PhaseTimerModel {
    PhaseTimerModel {
        state: new_state,
        current_elapsed_ms: if spec_same_kind(m.state, new_state) {
            m.current_elapsed_ms
        } else {
            0
        },
    }
}

/// One command: the model afterwards and whether the phase changed.
pub open spec fn spec_command(m: PhaseTimerModel, c: StateCommand, config: AppConfig) -> (
    PhaseTimerModel,
    bool,
) {
    match c {
        StateCommand::StartSession { target_duration_ms } => if m.state is Idle {
            (spec_transit(m, TimerState::Progress { elapsed_ms: 0, target_duration_ms }), true)
        } else {
            (m, false)
        },
        StateCommand::TakeBreakNow => if m.state is Progress {
            (
                spec_transit(
                    m,
                    TimerState::Settling {
                        elapsed_ms: 0,
                        target_duration_ms: config.settling_duration_ms,
                    },
                ),
                true,
            )
        } else {
            (m, false)
        },
        StateCommand::StopSession => if m.state is Progress || m.state is Settling
            || m.state is Sabi {
            (
                spec_transit(
                    m,
                    TimerState::Reverse {
                        elapsed_ms: 0,
                        target_duration_ms: config.reverse_duration_ms,
                    },
                ),
                true,
            )
        } else {
            (m, false)
        },
    }
}

/// The commands in order.
pub open spec fn spec_commands(m: PhaseTimerModel, cmds: Seq<StateCommand>, config: AppConfig) -> (
    PhaseTimerModel,
    bool,
)
    decreases cmds.len(),
{
    if cmds.len() == 0 {
        (m, false)
    } else {
        let (m1, t1) = spec_commands(m, cmds.drop_last(), config);
        let (m2, t2) = spec_command(m1, cmds.last(), config);
        (m2, t1 || t2)
    }
}

/// `dt_ms` of time in a frame where the phase did not change yet.
pub open spec fn spec_update(m: PhaseTimerModel, dt_ms: u64) -> (PhaseTimerModel, bool) {
    let counted = PhaseTimerModel {
        current_elapsed_ms: (m.current_elapsed_ms + dt_ms) as u64,
        ..m
    };
    match m.state {
        TimerState::Progress { elapsed_ms, target_duration_ms } => if elapsed_ms + dt_ms
            >= target_duration_ms {
            (spec_transit(counted, TimerState::Sabi), true)
        } else {
            (
                spec_transit(
                    counted,
                    TimerState::Progress {
                        elapsed_ms: (elapsed_ms + dt_ms) as u64,
                        target_duration_ms,
                    },
                ),
                false,
            )
        },
        TimerState::Settling { elapsed_ms, target_duration_ms } => if elapsed_ms + dt_ms
            >= target_duration_ms {
            (spec_transit(counted, TimerState::Sabi), true)
        } else {
            (
                spec_transit(
                    counted,
                    TimerState::Settling {
                        elapsed_ms: (elapsed_ms + dt_ms) as u64,
                        target_duration_ms,
                    },
                ),
                false,
            )
        },
        TimerState::Reverse { elapsed_ms, target_duration_ms } => if elapsed_ms + dt_ms
            >= target_duration_ms {
            (spec_transit(counted, TimerState::Idle), true)
        } else {
            (
                spec_transit(
                    counted,
                    TimerState::Reverse {
                        elapsed_ms: (elapsed_ms + dt_ms) as u64,
                        target_duration_ms,
                    },
                ),
                false,
            )
        },
        _ => (counted, false),
    }
}

pub struct TimerStateMachine {
    state: TimerState,
    current_elapsed_ms: u64,
}

impl View for TimerStateMachine {
    type V = PhaseTimerModel;

    closed spec fn view(&self) -> PhaseTimerModel {
        PhaseTimerModel { state: self.state, current_elapsed_ms: self.current_elapsed_ms }
    }
}

fn same_kind(a: TimerState, b: TimerState) -> (r: bool)
    ensures
        r == spec_same_kind(a, b),
{
    match (a, b) {
        (TimerState::Idle, TimerState::Idle) => true,
        (TimerState::Progress { .. }, TimerState::Progress { .. }) => true,
        (TimerState::Settling { .. }, TimerState::Settling { .. }) => true,
        (TimerState::Sabi, TimerState::Sabi) => true,
        (TimerState::Reverse { .. }, TimerState::Reverse { .. }) => true,
        _ => false,
    }
}

impl TimerStateMachine {
    pub fn new() -> (r: Self)
        ensures
            r@.state == TimerState::Idle,
            r@.current_elapsed_ms == 0,
    {
        TimerStateMachine { state: TimerState::Idle, current_elapsed_ms: 0 }
    }

    fn transit(&mut self, new_state: TimerState)
        ensures
            final(self)@ == spec_transit(old(self)@, new_state),
    {
        if !same_kind(self.state, new_state) {
            self.current_elapsed_ms = 0;
        }
        self.state = new_state;
    }

    fn handle_command(&mut self, command: &StateCommand, config: &AppConfig, frame_flags: &mut FrameFlags)
        ensures
            final(self)@ == spec_command(old(self)@, *command, *config).0,
            final(frame_flags).just_transited == (old(frame_flags).just_transited || spec_command(
                old(self)@,
                *command,
                *config,
            ).1),
    {
        match command {
            StateCommand::StartSession { target_duration_ms } => {
                if let TimerState::Idle = self.state {
                    self.transit(
                        TimerState::Progress { elapsed_ms: 0, target_duration_ms: *target_duration_ms },
                    );
                    frame_flags.just_transited = true;
                }
            },
            StateCommand::TakeBreakNow => {
                if let TimerState::Progress { .. } = self.state {
                    self.transit(
                        TimerState::Settling {
                            elapsed_ms: 0,
                            target_duration_ms: config.settling_duration_ms,
                        },
                    );
                    frame_flags.just_transited = true;
                }
            },
            StateCommand::StopSession => {
                match self.state {
                    TimerState::Progress { .. } | TimerState::Settling { .. } | TimerState::Sabi => {
                        self.transit(
                            TimerState::Reverse {
                                elapsed_ms: 0,
                                target_duration_ms: config.reverse_duration_ms,
                            },
                        );
                        frame_flags.just_transited = true;
                    },
                    _ => {},
                }
            },
        }
    }

    fn update(&mut self, dt_ms: u64, frame_flags: &mut FrameFlags)
        requires
            !old(frame_flags).just_transited ==> old(self)@.current_elapsed_ms + dt_ms <= u64::MAX
                && spec_elapsed(old(self)@.state) + dt_ms <= u64::MAX,
        ensures
            old(frame_flags).just_transited ==> final(self)@ == old(self)@
                && final(frame_flags).just_transited,
            !old(frame_flags).just_transited ==> final(self)@ == spec_update(old(self)@, dt_ms).0
                && final(frame_flags).just_transited == spec_update(old(self)@, dt_ms).1,
    {
        if frame_flags.just_transited {
            return ;
        }
        self.current_elapsed_ms = self.current_elapsed_ms + dt_ms;
        match self.state {
            TimerState::Progress { elapsed_ms, target_duration_ms } => {
                if elapsed_ms + dt_ms >= target_duration_ms {
                    self.transit(TimerState::Sabi);
                    frame_flags.just_transited = true;
                } else {
                    self.transit(
                        TimerState::Progress { elapsed_ms: elapsed_ms + dt_ms, target_duration_ms },
                    );
                }
            },
            TimerState::Settling { elapsed_ms, target_duration_ms } => {
                if elapsed_ms + dt_ms >= target_duration_ms {
                    self.transit(TimerState::Sabi);
                    frame_flags.just_transited = true;
                } else {
                    self.transit(
                        TimerState::Settling { elapsed_ms: elapsed_ms + dt_ms, target_duration_ms },
                    );
                }
            },
            TimerState::Reverse { elapsed_ms, target_duration_ms } => {
                if elapsed_ms + dt_ms >= target_duration_ms {
                    self.transit(TimerState::Idle);
                    frame_flags.just_transited = true;
                } else {
                    self.transit(
                        TimerState::Reverse { elapsed_ms: elapsed_ms + dt_ms, target_duration_ms },
                    );
                }
            },
            _ => {},
        }
    }

    /// One frame: the commands in order, then time unless a command
    /// already changed the phase.
    pub fn tick(
        &mut self,
        dt_ms: u64,
        frame_flags: &mut FrameFlags,
        commands: &Vec<StateCommand>,
        config: &AppConfig,
    )
        requires
            old(self)@.current_elapsed_ms + dt_ms <= u64::MAX,
            spec_elapsed(old(self)@.state) + dt_ms <= u64::MAX,
        ensures
            ({
                let (m1, t1) = spec_commands(old(self)@, commands@, *config);
                if old(frame_flags).just_transited || t1 {
                    final(self)@ == m1 && final(frame_flags).just_transited
                } else {
                    final(self)@ == spec_update(m1, dt_ms).0 && final(frame_flags).just_transited
                        == spec_update(m1, dt_ms).1
                }
            }),
    {
        let ghost m0 = self@;
        let ghost jt0 = frame_flags.just_transited;
        let mut i: usize = 0;
        while i < commands.len()
            invariant
                i <= commands@.len(),
                self@ == spec_commands(m0, commands@.take(i as int), *config).0,
                frame_flags.just_transited == (jt0 || spec_commands(
                    m0,
                    commands@.take(i as int),
                    *config,
                ).1),
                spec_commands(m0, commands@.take(i as int), *config).0.current_elapsed_ms
                    <= m0.current_elapsed_ms,
                spec_elapsed(spec_commands(m0, commands@.take(i as int), *config).0.state)
                    <= spec_elapsed(m0.state),
            decreases commands.len() - i,
        {
            proof {
                assert(commands@.take(i as int + 1).drop_last() =~= commands@.take(i as int));
            }
            self.handle_command(&commands[i], config, frame_flags);
            i += 1;
        }
        proof {
            assert(commands@.take(commands@.len() as int) =~= commands@);
        }
        self.update(dt_ms, frame_flags);
    }

    /// Time spent in phases of the current kind.
    pub fn current_elapsed_ms(&self) -> (r: u64)
        ensures
            r == self@.current_elapsed_ms,
    {
        self.current_elapsed_ms
    }

    pub fn state(&self) -> (r: TimerState)
        ensures
            r == self@.state,
    {
        self.state
    }
}

/// The kind counter follows the phase: a step that changes the kind of
/// phase restarts it, one that keeps the kind adds the frame's time.
pub proof fn lemma_kind_counter(m: PhaseTimerModel, dt_ms: u64)
    requires
        m.current_elapsed_ms + dt_ms <= u64::MAX,
    ensures
        spec_same_kind(m.state, spec_update(m, dt_ms).0.state) ==> spec_update(
            m,
            dt_ms,
        ).0.current_elapsed_ms == m.current_elapsed_ms + dt_ms,
        !spec_same_kind(m.state, spec_update(m, dt_ms).0.state) ==> spec_update(
            m,
            dt_ms,
        ).0.current_elapsed_ms == 0,
        spec_update(m, dt_ms).1 <==> !spec_same_kind(m.state, spec_update(m, dt_ms).0.state),
{
}

/// Time moves the phases in their order: work (Progress) and the settling
/// ramp run until their time is up and then the break (Sabi) begins; the
/// fade back (Reverse) runs until its time is up and then the timer is
/// Idle; Idle and the break do not move with time.  A phase that does not
/// end keeps its target and adds the frame's time, and the frame is marked
/// exactly when the phase ended.
pub proof fn lemma_update_phase_order(m: PhaseTimerModel, dt_ms: u64)
    requires
        spec_elapsed(m.state) + dt_ms <= u64::MAX,
    ensures
        ({
            let (m2, transited) = spec_update(m, dt_ms);
            &&& m.state matches TimerState::Progress { elapsed_ms, target_duration_ms } ==> if
                elapsed_ms + dt_ms >= target_duration_ms {
                m2.state == TimerState::Sabi && transited
            } else {
                m2.state == (TimerState::Progress {
                    elapsed_ms: (elapsed_ms + dt_ms) as u64,
                    target_duration_ms,
                }) && !transited
            }
            &&& m.state matches TimerState::Settling { elapsed_ms, target_duration_ms } ==> if
                elapsed_ms + dt_ms >= target_duration_ms {
                m2.state == TimerState::Sabi && transited
            } else {
                m2.state == (TimerState::Settling {
                    elapsed_ms: (elapsed_ms + dt_ms) as u64,
                    target_duration_ms,
                }) && !transited
            }
            &&& m.state matches TimerState::Reverse { elapsed_ms, target_duration_ms } ==> if
                elapsed_ms + dt_ms >= target_duration_ms {
                m2.state == TimerState::Idle && transited
            } else {
                m2.state == (TimerState::Reverse {
                    elapsed_ms: (elapsed_ms + dt_ms) as u64,
                    target_duration_ms,
                }) && !transited
            }
            &&& m.state is Idle ==> m2.state is Idle && !transited
            &&& m.state is Sabi ==> m2.state is Sabi && !transited
        }),
{
}

/// What each command does: a session starts only from Idle, with the
/// requested length; a break is taken only from Progress, for the
/// configured settling time; a session stops from Progress, Settling or
/// the break into the configured fade back.  Any other command changes
/// nothing and does not mark the frame.
pub proof fn lemma_command_table(m: PhaseTimerModel, c: StateCommand, config: AppConfig)
    ensures
        ({
            let (m2, transited) = spec_command(m, c, config);
            &&& c matches StateCommand::StartSession { target_duration_ms } ==> if m.state is Idle {
                m2.state == (TimerState::Progress { elapsed_ms: 0, target_duration_ms })
                    && transited
            } else {
                m2 == m && !transited
            }
            &&& c is TakeBreakNow ==> if m.state is Progress {
                m2.state == (TimerState::Settling {
                    elapsed_ms: 0,
                    target_duration_ms: config.settling_duration_ms,
                }) && transited
            } else {
                m2 == m && !transited
            }
            &&& c is StopSession ==> if m.state is Progress || m.state is Settling
                || m.state is Sabi {
                m2.state == (TimerState::Reverse {
                    elapsed_ms: 0,
                    target_duration_ms: config.reverse_duration_ms,
                }) && transited
            } else {
                m2 == m && !transited
            }
        }),
{
}

} // verus!
