//! The sensory channels: per-phase curve parameters, switch handling with
//! platform conflicts, and the discrete half of each frame's update.
//!
//! Where a channel's level lies on a curve this frame, the channel says so
//! ([`ChannelTarget`]) and the caller evaluates the curve; the computed
//! level is then handed back through [`SensoryChannel::finish_tick`].

use vstd::prelude::*;

use crate::channel_types::{
    spec_channel_at, spec_channel_index, spec_command_channel, spec_conflicts, spec_default_curve,
    spec_value_eq, spec_value_type, ChannelCommand, ChannelType, ChannelValue, CurveParameters,
    Platform, default_normalized_sigmoid_parameters,
};
use crate::float_bits::F64_ZERO;
use crate::frame::FrameEvents;
use crate::timer::TimerState;
use crate::update::Update;

verus! {

/// Bit pattern of the default point (`0.9`) from which the Progress curve
/// starts moving.
pub const DEFAULT_PROGRESS_BEGIN_RATIO: u64 = 0x3FEC_CCCC_CCCC_CCCDu64;

/// Curve parameters of one timed phase.  `curve_begin_ratio` is an `f64`
/// held by its bit pattern: 0.0 starts the curve at once, 1.0 never.
#[derive(Debug, Clone, Copy)]
pub struct StateParams {
    pub curve_parameters: CurveParameters,
    pub curve_begin_ratio: u64,
    pub curve_begin_value: ChannelValue,
    pub target_value: ChannelValue,
}

/// What a user configures for one channel, as persisted.
#[derive(Debug, Clone, Copy)]
pub struct PersistentStateParamsTable {
    pub progress_curve_parameters: CurveParameters,
    pub settling_curve_parameters: CurveParameters,
    pub reverse_curve_parameters: CurveParameters,
    /// `f64` bit pattern.
    pub progress_begin_ratio: u64,
    pub target_channel_value: ChannelValue,
}

/// A channel's persisted configuration.
#[derive(Debug, Clone, Copy)]
pub struct ChannelConfig {
    pub switch_on: bool,
    pub persistent_state_params_table: PersistentStateParamsTable,
}

/// Curve parameters for the three timed phases.  Preview shares the
/// Progress slot.
#[derive(Debug, Clone, Copy)]
pub struct StateParamsTable {
    pub progress: StateParams,
    pub settling: StateParams,
    pub reverse: StateParams,
}

/// The timer phases that have a slot in a [`StateParamsTable`].
pub open spec fn spec_has_slot(state: TimerState) -> bool {
    state is Progress || state is Preview || state is Settling || state is Reverse
}

pub open spec fn spec_table_new(p: PersistentStateParamsTable) -> StateParamsTable {
    let neutral = spec_value_type(p.target_channel_value).spec_neutral_value();
    StateParamsTable {
        progress: StateParams {
            curve_parameters: p.progress_curve_parameters,
            curve_begin_ratio: p.progress_begin_ratio,
            curve_begin_value: neutral,
            target_value: p.target_channel_value,
        },
        settling: StateParams {
            curve_parameters: p.settling_curve_parameters,
            curve_begin_ratio: F64_ZERO,
            curve_begin_value: neutral,
            target_value: p.target_channel_value,
        },
        reverse: StateParams {
            curve_parameters: p.reverse_curve_parameters,
            curve_begin_ratio: F64_ZERO,
            curve_begin_value: p.target_channel_value,
            target_value: neutral,
        },
    }
}

pub open spec fn spec_table_persist(t: StateParamsTable) -> PersistentStateParamsTable {
    PersistentStateParamsTable {
        progress_curve_parameters: t.progress.curve_parameters,
        settling_curve_parameters: t.settling.curve_parameters,
        reverse_curve_parameters: t.reverse.curve_parameters,
        progress_begin_ratio: t.progress.curve_begin_ratio,
        target_channel_value: t.progress.target_value,
    }
}

impl StateParamsTable {
    pub open spec fn spec_get(self, state: TimerState) -> StateParams {
        match state {
            TimerState::Settling { .. } => self.settling,
            TimerState::Reverse { .. } => self.reverse,
            _ => self.progress,
        }
    }

    pub open spec fn spec_set(self, state: TimerState, p: StateParams) -> StateParamsTable {
        match state {
            TimerState::Settling { .. } => StateParamsTable { settling: p, ..self },
            TimerState::Reverse { .. } => StateParamsTable { reverse: p, ..self },
            _ => StateParamsTable { progress: p, ..self },
        }
    }

    /// Progress starts at neutral and moves to the target from the begin
    /// ratio on; Settling moves from neutral to the target; Reverse moves
    /// back from the target to neutral.
    pub fn new(persistent: &PersistentStateParamsTable) -> (r: Self)
        ensures
            r == spec_table_new(*persistent),
    {
        let channel_type = persistent.target_channel_value.channel_type();
        let neutral = channel_type.neutral_value();
        StateParamsTable {
            progress: StateParams {
                curve_parameters: persistent.progress_curve_parameters,
                curve_begin_ratio: persistent.progress_begin_ratio,
                curve_begin_value: neutral,
                target_value: persistent.target_channel_value,
            },
            settling: StateParams {
                curve_parameters: persistent.settling_curve_parameters,
                curve_begin_ratio: F64_ZERO,
                curve_begin_value: neutral,
                target_value: persistent.target_channel_value,
            },
            reverse: StateParams {
                curve_parameters: persistent.reverse_curve_parameters,
                curve_begin_ratio: F64_ZERO,
                curve_begin_value: persistent.target_channel_value,
                target_value: neutral,
            },
        }
    }

    pub fn persist(&self) -> (r: PersistentStateParamsTable)
        ensures
            r == spec_table_persist(*self),
    {
        PersistentStateParamsTable {
            progress_curve_parameters: self.progress.curve_parameters,
            settling_curve_parameters: self.settling.curve_parameters,
            reverse_curve_parameters: self.reverse.curve_parameters,
            progress_begin_ratio: self.progress.curve_begin_ratio,
            target_channel_value: self.progress.target_value,
        }
    }

    /// The slot of a timed phase or of Preview.
    pub fn get(&self, state: TimerState) -> (r: StateParams)
        requires
            spec_has_slot(state),
        ensures
            r == self.spec_get(state),
    {
        match state {
            TimerState::Settling { .. } => self.settling,
            TimerState::Reverse { .. } => self.reverse,
            _ => self.progress,
        }
    }

    pub fn set(&mut self, state: TimerState, params: StateParams)
        requires
            spec_has_slot(state),
        ensures
            *final(self) == old(self).spec_set(state, params),
    {
        match state {
            TimerState::Settling { .. } => self.settling = params,
            TimerState::Reverse { .. } => self.reverse = params,
            _ => self.progress = params,
        }
    }
}

/// Persisting a freshly built table gives back what it was built from.
pub proof fn lemma_table_round_trip(p: PersistentStateParamsTable)
    ensures
        spec_table_persist(spec_table_new(p)) == p,
{
}

/// Model of one channel.
pub struct ChannelModel {
    pub channel_type: ChannelType,
    pub switch_on: bool,
    pub table: StateParamsTable,
    pub current: Update<ChannelValue>,
}

/// Effect of a command on a channel: a command addressed to another
/// channel changes nothing.
pub open spec fn spec_channel_apply(m: ChannelModel, c: ChannelCommand) -> ChannelModel {
    if spec_command_channel(c) != m.channel_type {
        m
    } else {
        match c {
            ChannelCommand::ToggleSwitch { switch_on, .. } => ChannelModel { switch_on, ..m },
            ChannelCommand::UpdateTargetChannelValue { target_channel_value } => ChannelModel {
                table: StateParamsTable {
                    progress: StateParams { target_value: target_channel_value, ..m.table.progress },
                    settling: StateParams { target_value: target_channel_value, ..m.table.settling },
                    ..m.table
                },
                ..m
            },
            ChannelCommand::UpdateProgressBeginRatio { progress_begin_ratio, .. } => ChannelModel {
                table: StateParamsTable {
                    progress: StateParams {
                        curve_begin_ratio: progress_begin_ratio,
                        ..m.table.progress
                    },
                    ..m.table
                },
                ..m
            },
            ChannelCommand::UpdateProgressCurveParas { curve_parameters, .. } => ChannelModel {
                table: StateParamsTable {
                    progress: StateParams { curve_parameters, ..m.table.progress },
                    ..m.table
                },
                ..m
            },
            ChannelCommand::UpdateSettlingCurveParas { curve_parameters, .. } => ChannelModel {
                table: StateParamsTable {
                    settling: StateParams { curve_parameters, ..m.table.settling },
                    ..m.table
                },
                ..m
            },
            ChannelCommand::UpdateReverseCurveParas { curve_parameters, .. } => ChannelModel {
                table: StateParamsTable {
                    reverse: StateParams { curve_parameters, ..m.table.reverse },
                    ..m.table
                },
                ..m
            },
        }
    }
}

/// Where a channel's level comes from in the current frame.
#[derive(Debug, Clone, Copy)]
pub enum ChannelTarget {
    /// A level known without evaluating a curve.
    Fixed(ChannelValue),
    /// The curve of `params` at `progress` (an `f64` bit pattern in
    /// `0.0..=1.0`).
    AtProgress { params: StateParams, progress: u64 },
    /// The curve of `params` at `elapsed_ms / target_duration_ms`.
    AtTime { params: StateParams, elapsed_ms: u64, target_duration_ms: u64 },
}

/// The first half of a channel's frame: the channel after the phase-entry
/// snapshot, and where its level comes from.  Entering Settling or Reverse
/// makes the curve start from the level the channel had reached.
pub open spec fn spec_begin_tick(m: ChannelModel, state: TimerState, just_transited: bool) -> (
    ChannelModel,
    ChannelTarget,
) {
    if !m.switch_on {
        (m, ChannelTarget::Fixed(m.channel_type.spec_neutral_value()))
    } else {
        match state {
            TimerState::Idle => (m, ChannelTarget::Fixed(m.channel_type.spec_neutral_value())),
            TimerState::Sabi => (m, ChannelTarget::Fixed(m.table.settling.target_value)),
            TimerState::Preview { progress } => (
                m,
                ChannelTarget::AtProgress { params: m.table.progress, progress },
            ),
            TimerState::Progress { elapsed_ms, target_duration_ms } => (
                m,
                ChannelTarget::AtTime { params: m.table.progress, elapsed_ms, target_duration_ms },
            ),
            _ => {
                let table = if just_transited {
                    m.table.spec_set(
                        state,
                        StateParams { curve_begin_value: m.current.value(), ..m.table.spec_get(state) },
                    )
                } else {
                    m.table
                };
                (
                    ChannelModel { table, ..m },
                    ChannelTarget::AtTime {
                        params: table.spec_get(state),
                        elapsed_ms: state.spec_elapsed_ms(),
                        target_duration_ms: state.spec_target_duration_ms(),
                    },
                )
            },
        }
    }
}

/// The level becomes `Unchanged` when it equals the previous one.
pub open spec fn spec_track(previous: Update<ChannelValue>, value: ChannelValue) -> Update<
    ChannelValue,
> {
    if spec_value_eq(value, previous.value()) {
        Update::Unchanged(value)
    } else {
        Update::Changed(value)
    }
}

/// One sensory channel.
#[derive(Debug, Clone, Copy)]
pub struct SensoryChannel {
    channel_type: ChannelType,
    switch_on: bool,
    state_params_table: StateParamsTable,
    current: Update<ChannelValue>,
}

impl View for SensoryChannel {
    type V = ChannelModel;

    closed spec fn view(&self) -> ChannelModel {
        ChannelModel {
            channel_type: self.channel_type,
            switch_on: self.switch_on,
            table: self.state_params_table,
            current: self.current,
        }
    }
}

pub open spec fn spec_channel_new(config: ChannelConfig) -> ChannelModel {
    let t = spec_value_type(config.persistent_state_params_table.target_channel_value);
    ChannelModel {
        channel_type: t,
        switch_on: config.switch_on,
        table: spec_table_new(config.persistent_state_params_table),
        current: Update::Unchanged(t.spec_neutral_value()),
    }
}

pub open spec fn spec_channel_persist(m: ChannelModel) -> ChannelConfig {
    ChannelConfig { switch_on: m.switch_on, persistent_state_params_table: spec_table_persist(m.table) }
}

impl SensoryChannel {
    /// A channel of the kind of the configured target value, at neutral.
    pub fn new(config: ChannelConfig) -> (r: Self)
        ensures
            r@ == spec_channel_new(config),
    {
        let channel_type = config.persistent_state_params_table.target_channel_value.channel_type();
        SensoryChannel {
            channel_type,
            switch_on: config.switch_on,
            state_params_table: StateParamsTable::new(&config.persistent_state_params_table),
            current: Update::Unchanged(channel_type.neutral_value()),
        }
    }

    pub fn persist(&self) -> (r: ChannelConfig)
        ensures
            r == spec_channel_persist(self@),
    {
        ChannelConfig {
            switch_on: self.switch_on,
            persistent_state_params_table: self.state_params_table.persist(),
        }
    }

    /// Applies a command addressed to this channel; one addressed to
    /// another channel is ignored.
    pub fn apply(&mut self, command: ChannelCommand)
        ensures
            final(self)@ == spec_channel_apply(old(self)@, command),
    {
        if command.channel_type() != self.channel_type {
            return ;
        }
        match command {
            ChannelCommand::ToggleSwitch { switch_on, .. } => {
                self.switch_on = switch_on;
            },
            ChannelCommand::UpdateTargetChannelValue { target_channel_value } => {
                self.state_params_table.progress.target_value = target_channel_value;
                self.state_params_table.settling.target_value = target_channel_value;
            },
            ChannelCommand::UpdateProgressBeginRatio { progress_begin_ratio, .. } => {
                self.state_params_table.progress.curve_begin_ratio = progress_begin_ratio;
            },
            ChannelCommand::UpdateProgressCurveParas { curve_parameters, .. } => {
                self.state_params_table.progress.curve_parameters = curve_parameters;
            },
            ChannelCommand::UpdateSettlingCurveParas { curve_parameters, .. } => {
                self.state_params_table.settling.curve_parameters = curve_parameters;
            },
            ChannelCommand::UpdateReverseCurveParas { curve_parameters, .. } => {
                self.state_params_table.reverse.curve_parameters = curve_parameters;
            },
        }
    }

    /// First half of a frame: takes the phase-entry snapshot and says
    /// where this frame's level comes from.
    pub fn begin_tick(&mut self, state: TimerState, just_transited: bool) -> (r: ChannelTarget)
        ensures
            (final(self)@, r) == spec_begin_tick(old(self)@, state, just_transited),
    {
        if !self.switch_on {
            return ChannelTarget::Fixed(self.channel_type.neutral_value());
        }
        match state {
            TimerState::Idle => ChannelTarget::Fixed(self.channel_type.neutral_value()),
            TimerState::Sabi => ChannelTarget::Fixed(self.state_params_table.settling.target_value),
            TimerState::Preview { progress } => ChannelTarget::AtProgress {
                params: self.state_params_table.progress,
                progress,
            },
            TimerState::Progress { elapsed_ms, target_duration_ms } => ChannelTarget::AtTime {
                params: self.state_params_table.progress,
                elapsed_ms,
                target_duration_ms,
            },
            _ => {
                if just_transited {
                    let mut params = self.state_params_table.get(state);
                    params.curve_begin_value = *self.current.get_value();
                    self.state_params_table.set(state, params);
                }
                ChannelTarget::AtTime {
                    params: self.state_params_table.get(state),
                    elapsed_ms: state.elapsed_ms(),
                    target_duration_ms: state.target_duration_ms(),
                }
            },
        }
    }

    /// Second half of a frame: records the computed level, tagged with
    /// whether it differs from the previous one.
    pub fn finish_tick(&mut self, value: ChannelValue)
        ensures
            final(self)@ == (ChannelModel { current: spec_track(old(self)@.current, value), ..old(self)@ }),
    {
        if value == *self.current.get_value() {
            self.current = Update::Unchanged(value);
        } else {
            self.current = Update::Changed(value);
        }
    }

    pub fn channel_type(&self) -> (r: ChannelType)
        ensures
            r == self@.channel_type,
    {
        self.channel_type
    }

    pub fn current(&self) -> (r: Update<ChannelValue>)
        ensures
            r == self@.current,
    {
        self.current
    }

    pub fn switch_on(&self) -> (r: bool)
        ensures
            r == self@.switch_on,
    {
        self.switch_on
    }

    /// Snaps the level to neutral, tagged as changed, leaving the switch
    /// and the curves alone.
    pub fn reset_current_to_neutral(&mut self)
        ensures
            final(self)@ == (ChannelModel {
                current: Update::Changed(old(self)@.channel_type.spec_neutral_value()),
                ..old(self)@
            }),
    {
        self.current = Update::Changed(self.channel_type.neutral_value());
    }
}

/// Persisting a freshly built channel gives back its configuration when
/// the configuration's switch and curves are taken as they are.
pub proof fn lemma_channel_round_trip(config: ChannelConfig)
    ensures
        spec_channel_persist(spec_channel_new(config)) == config,
{
}

/// Where a channel's level comes from, phase by phase.  A channel switched
/// off, and any channel at Idle, shows its neutral level; the break (Sabi)
/// holds the target the session ramped to; Preview follows the Progress
/// curve at the preview ratio; Progress runs the Progress curve over the
/// session's own time.  Settling and Reverse run their own curves over
/// their own time; on entering them the curve starts from the level the
/// channel had reached, and nothing else about the channel changes.
pub proof fn lemma_begin_tick_phases(m: ChannelModel, state: TimerState, just_transited: bool)
    ensures
        ({
            let (m2, target) = spec_begin_tick(m, state, just_transited);
            &&& (!m.switch_on || state is Idle) ==> m2 == m && target == ChannelTarget::Fixed(
                m.channel_type.spec_neutral_value(),
            )
            &&& (m.switch_on && state is Sabi) ==> m2 == m && target == ChannelTarget::Fixed(
                m.table.settling.target_value,
            )
            &&& state matches TimerState::Preview { progress } ==> (m.switch_on ==> m2 == m
                && target == (ChannelTarget::AtProgress { params: m.table.progress, progress }))
            &&& state matches TimerState::Progress { elapsed_ms, target_duration_ms } ==> (
            m.switch_on ==> m2 == m && target == (ChannelTarget::AtTime {
                params: m.table.progress,
                elapsed_ms,
                target_duration_ms,
            }))
            &&& state matches TimerState::Settling { elapsed_ms, target_duration_ms } ==> (
            m.switch_on ==> {
                let params = StateParams {
                    curve_begin_value: if just_transited {
                        m.current.value()
                    } else {
                        m.table.settling.curve_begin_value
                    },
                    ..m.table.settling
                };
                &&& target == (ChannelTarget::AtTime { params, elapsed_ms, target_duration_ms })
                &&& m2 == (ChannelModel {
                    table: StateParamsTable { settling: params, ..m.table },
                    ..m
                })
            })
            &&& state matches TimerState::Reverse { elapsed_ms, target_duration_ms } ==> (
            m.switch_on ==> {
                let params = StateParams {
                    curve_begin_value: if just_transited {
                        m.current.value()
                    } else {
                        m.table.reverse.curve_begin_value
                    },
                    ..m.table.reverse
                };
                &&& target == (ChannelTarget::AtTime { params, elapsed_ms, target_duration_ms })
                &&& m2 == (ChannelModel {
                    table: StateParamsTable { reverse: params, ..m.table },
                    ..m
                })
            })
        }),
{
}

/// A channel built from a configuration, switched on, ramps during a
/// session from its neutral level to the configured target, starting at
/// the configured begin ratio with the configured Progress curve; the
/// break then holds the configured target.
pub proof fn lemma_configured_session_ramp(
    config: ChannelConfig,
    elapsed_ms: u64,
    target_duration_ms: u64,
    just_transited: bool,
)
    requires
        config.switch_on,
    ensures
        ({
            let p = config.persistent_state_params_table;
            let m = spec_channel_new(config);
            &&& spec_begin_tick(
                m,
                TimerState::Progress { elapsed_ms, target_duration_ms },
                just_transited,
            ).1 == (ChannelTarget::AtTime {
                params: StateParams {
                    curve_parameters: p.progress_curve_parameters,
                    curve_begin_ratio: p.progress_begin_ratio,
                    curve_begin_value: spec_value_type(p.target_channel_value).spec_neutral_value(),
                    target_value: p.target_channel_value,
                },
                elapsed_ms,
                target_duration_ms,
            })
            &&& spec_begin_tick(m, TimerState::Sabi, just_transited).1 == ChannelTarget::Fixed(
                p.target_channel_value,
            )
        }),
{
}

/// What each command does to the channel it is addressed to, and that a
/// command addressed to another channel does nothing.  A new target value
/// becomes the end of the Progress and Settling curves (so the break holds
/// it); the switch, a begin ratio or a curve changes only itself.
pub proof fn lemma_channel_commands(m: ChannelModel, c: ChannelCommand)
    ensures
        ({
            let m2 = spec_channel_apply(m, c);
            &&& spec_command_channel(c) != m.channel_type ==> m2 == m
            &&& m2.channel_type == m.channel_type
            &&& m2.current == m.current
            &&& spec_command_channel(c) == m.channel_type ==> match c {
                ChannelCommand::ToggleSwitch { switch_on, .. } => m2.switch_on == switch_on
                    && m2.table == m.table,
                ChannelCommand::UpdateTargetChannelValue { target_channel_value } => {
                    &&& m2.switch_on == m.switch_on
                    &&& m2.table.progress.target_value == target_channel_value
                    &&& m2.table.settling.target_value == target_channel_value
                    &&& m2.table.progress.curve_parameters == m.table.progress.curve_parameters
                    &&& m2.table.progress.curve_begin_ratio == m.table.progress.curve_begin_ratio
                    &&& m2.table.progress.curve_begin_value == m.table.progress.curve_begin_value
                    &&& m2.table.settling.curve_parameters == m.table.settling.curve_parameters
                    &&& m2.table.settling.curve_begin_ratio == m.table.settling.curve_begin_ratio
                    &&& m2.table.settling.curve_begin_value == m.table.settling.curve_begin_value
                    &&& m2.table.reverse == m.table.reverse
                },
                ChannelCommand::UpdateProgressBeginRatio { progress_begin_ratio, .. } => {
                    &&& m2.switch_on == m.switch_on
                    &&& m2.table == (StateParamsTable {
                        progress: StateParams {
                            curve_begin_ratio: progress_begin_ratio,
                            ..m.table.progress
                        },
                        ..m.table
                    })
                },
                ChannelCommand::UpdateProgressCurveParas { curve_parameters, .. } => {
                    &&& m2.switch_on == m.switch_on
                    &&& m2.table.progress.curve_parameters == curve_parameters
                    &&& m2.table.progress.curve_begin_ratio == m.table.progress.curve_begin_ratio
                    &&& m2.table.progress.curve_begin_value == m.table.progress.curve_begin_value
                    &&& m2.table.progress.target_value == m.table.progress.target_value
                    &&& m2.table.settling == m.table.settling
                    &&& m2.table.reverse == m.table.reverse
                },
                ChannelCommand::UpdateSettlingCurveParas { curve_parameters, .. } => {
                    &&& m2.switch_on == m.switch_on
                    &&& m2.table.settling.curve_parameters == curve_parameters
                    &&& m2.table.settling.curve_begin_ratio == m.table.settling.curve_begin_ratio
                    &&& m2.table.settling.curve_begin_value == m.table.settling.curve_begin_value
                    &&& m2.table.settling.target_value == m.table.settling.target_value
                    &&& m2.table.progress == m.table.progress
                    &&& m2.table.reverse == m.table.reverse
                },
                ChannelCommand::UpdateReverseCurveParas { curve_parameters, .. } => {
                    &&& m2.switch_on == m.switch_on
                    &&& m2.table.reverse.curve_parameters == curve_parameters
                    &&& m2.table.reverse.curve_begin_ratio == m.table.reverse.curve_begin_ratio
                    &&& m2.table.reverse.curve_begin_value == m.table.reverse.curve_begin_value
                    &&& m2.table.reverse.target_value == m.table.reverse.target_value
                    &&& m2.table.progress == m.table.progress
                    &&& m2.table.settling == m.table.settling
                },
            }
        }),
{
}

/// After a new target value reaches a channel that is on, the break holds
/// that value, and the session ramps towards it.
pub proof fn lemma_new_target_is_held_in_break(
    m: ChannelModel,
    v: ChannelValue,
    elapsed_ms: u64,
    target_duration_ms: u64,
    just_transited: bool,
)
    requires
        m.switch_on,
        spec_value_type(v) == m.channel_type,
    ensures
        ({
            let m2 = spec_channel_apply(
                m,
                ChannelCommand::UpdateTargetChannelValue { target_channel_value: v },
            );
            &&& spec_begin_tick(m2, TimerState::Sabi, just_transited).1 == ChannelTarget::Fixed(v)
            &&& spec_begin_tick(
                m2,
                TimerState::Progress { elapsed_ms, target_duration_ms },
                just_transited,
            ).1 matches ChannelTarget::AtTime { params, .. } && params.target_value == v
        }),
{
}

/// A configured table: the session ramp (Progress) goes from the neutral
/// level to the target, beginning at the configured ratio; Settling goes
/// from the neutral level to the target from the start; the fade back
/// (Reverse) goes from the target back to the neutral level from the
/// start.  Each phase uses its configured curve.
pub proof fn lemma_table_curves(p: PersistentStateParamsTable)
    ensures
        ({
            let t = spec_table_new(p);
            let neutral = spec_value_type(p.target_channel_value).spec_neutral_value();
            &&& t.progress.curve_begin_value == neutral && t.progress.target_value
                == p.target_channel_value && t.progress.curve_begin_ratio == p.progress_begin_ratio
                && t.progress.curve_parameters == p.progress_curve_parameters
            &&& t.settling.curve_begin_value == neutral && t.settling.target_value
                == p.target_channel_value && t.settling.curve_begin_ratio == F64_ZERO
                && t.settling.curve_parameters == p.settling_curve_parameters
            &&& t.reverse.curve_begin_value == p.target_channel_value && t.reverse.target_value
                == neutral && t.reverse.curve_begin_ratio == F64_ZERO
                && t.reverse.curve_parameters == p.reverse_curve_parameters
        }),
{
}

/// A recorded level is the new level, marked unchanged exactly when it
/// equals the previous one.
pub proof fn lemma_track(previous: Update<ChannelValue>, value: ChannelValue)
    ensures
        spec_track(previous, value).value() == value,
        (spec_track(previous, value) is Unchanged) <==> spec_value_eq(value, previous.value()),
{
}

} // verus!
