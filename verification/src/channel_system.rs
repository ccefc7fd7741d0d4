//! The set of sensory channels the engine drives each frame.

use vstd::prelude::*;

use crate::channel_types::{
    spec_channel_at, spec_channel_index, spec_command_channel, spec_conflicts, spec_value_type,
    ChannelCommand, ChannelType, ChannelValue, Platform,
};
use crate::channels::{
    spec_begin_tick, spec_channel_apply, spec_channel_new, spec_track, ChannelConfig,
    ChannelModel, ChannelTarget, SensoryChannel,
};
use crate::frame::FrameEvents;
use crate::timer::TimerState;
use crate::update::Update;

verus! {

/// Switching the conflicts of a channel off, in the order listed: the
/// channels afterwards, and those that were on and got switched off.
pub open spec fn spec_disable(chs: Seq<ChannelModel>, conflicts: Seq<ChannelType>) -> (
    Seq<ChannelModel>,
    Seq<ChannelType>,
)
    decreases conflicts.len(),
{
    if conflicts.len() == 0 {
        (chs, Seq::empty())
    } else {
        let (c1, p1) = spec_disable(chs, conflicts.drop_last());
        let c = conflicts.last();
        let i = spec_channel_index(c);
        if c1[i].switch_on {
            (
                c1.update(
                    i,
                    spec_channel_apply(c1[i], ChannelCommand::ToggleSwitch { channel_type: c, switch_on: false }),
                ),
                p1.push(c),
            )
        } else {
            (c1, p1)
        }
    }
}

/// Effect of one channel command on the channels: the channels
/// afterwards, the channels to persist (in order), and whether a switch
/// was toggled.  Switching a channel on first switches its conflicts off.
pub open spec fn spec_handle_one(chs: Seq<ChannelModel>, platform: Platform, cmd: ChannelCommand) -> (
    Seq<ChannelModel>,
    Seq<ChannelType>,
    bool,
) {
    let target = spec_command_channel(cmd);
    let i = spec_channel_index(target);
    let (c1, p1) = match cmd {
        ChannelCommand::ToggleSwitch { switch_on: true, .. } => spec_disable(
            chs,
            spec_conflicts(target, platform),
        ),
        _ => (chs, Seq::empty()),
    };
    (c1.update(i, spec_channel_apply(c1[i], cmd)), p1.push(target), cmd is ToggleSwitch)
}

/// Effect of a sequence of channel commands applied in order.
pub open spec fn spec_handle(chs: Seq<ChannelModel>, platform: Platform, cmds: Seq<ChannelCommand>) -> (
    Seq<ChannelModel>,
    Seq<ChannelType>,
    bool,
)
    decreases cmds.len(),
{
    if cmds.len() == 0 {
        (chs, Seq::empty(), false)
    } else {
        let (c1, p1, s1) = spec_handle(chs, platform, cmds.drop_last());
        let (c2, p2, s2) = spec_handle_one(c1, platform, cmds.last());
        (c2, p1 + p2, s1 || s2)
    }
}

/// The channels already marked for persistence.
pub open spec fn spec_listed(list: Option<Vec<ChannelType>>) -> Seq<ChannelType> {
    match list {
        Some(v) => v@,
        None => Seq::empty(),
    }
}

/// Channel `i` sits at position `i` of the canonical order.
pub open spec fn spec_wf(chs: Seq<ChannelModel>) -> bool {
    &&& chs.len() == 3
    &&& forall|i: int| 0 <= i < 3 ==> #[trigger] chs[i].channel_type == spec_channel_at(i)
}

/// No two channels that conflict on `platform` are both switched on.
pub open spec fn spec_conflict_free(chs: Seq<ChannelModel>, platform: Platform) -> bool {
    forall|a: ChannelType, b: ChannelType|
        #![trigger spec_conflicts(a, platform).contains(b)]
        chs[spec_channel_index(a)].switch_on && chs[spec_channel_index(b)].switch_on
            ==> !spec_conflicts(a, platform).contains(b)
}

/// Model of the channel set.
pub struct SystemModel {
    pub channels: Seq<ChannelModel>,
    pub platform: Platform,
}

/// The sensory channels, one per channel type.
#[derive(Debug)]
pub struct SensoryChannelsSystem {
    sensory_channels: [SensoryChannel; 3],
    platform: Platform,
}

impl View for SensoryChannelsSystem {
    type V = SystemModel;

    closed spec fn view(&self) -> SystemModel {
        SystemModel {
            channels: self.sensory_channels@.map_values(|c: SensoryChannel| c@),
            platform: self.platform,
        }
    }
}

/// A configuration array indexed by channel type: the configuration at
/// position `i` is that of the `i`-th channel type.
pub open spec fn spec_configs_canonical(configs: Seq<ChannelConfig>) -> bool {
    forall|i: int|
        0 <= i < 3 ==> #[trigger] spec_value_type(
            configs[i].persistent_state_params_table.target_channel_value,
        ) == spec_channel_at(i)
}

/// Whether each configuration sits at the position of its channel type.
pub fn configs_canonical(configs: &[ChannelConfig; 3]) -> (r: bool)
    ensures
        r == spec_configs_canonical(configs@),
{
    let t0 = configs[0].persistent_state_params_table.target_channel_value.channel_type();
    let t1 = configs[1].persistent_state_params_table.target_channel_value.channel_type();
    let t2 = configs[2].persistent_state_params_table.target_channel_value.channel_type();
    let r = t0 == ChannelType::Saturation && t1 == ChannelType::ColorTemp && t2
        == ChannelType::Brightness;
    proof {
        if !r {
            if t0 != ChannelType::Saturation {
                assert(spec_value_type(configs@[0].persistent_state_params_table.target_channel_value)
                    != spec_channel_at(0));
            } else if t1 != ChannelType::ColorTemp {
                assert(spec_value_type(configs@[1].persistent_state_params_table.target_channel_value)
                    != spec_channel_at(1));
            } else {
                assert(spec_value_type(configs@[2].persistent_state_params_table.target_channel_value)
                    != spec_channel_at(2));
            }
        }
    }
    r
}

impl SensoryChannelsSystem {
    /// Every channel sits at the position of its channel type.
    #[verifier::type_invariant]
    spec fn inv(self) -> bool {
        spec_wf(self@.channels)
    }

    /// Channel `i` is built from `configs[i]`; the array is indexed by
    /// channel type.
    pub fn new(configs: [ChannelConfig; 3], platform: Platform) -> (r: Self)
        requires
            spec_configs_canonical(configs@),
        ensures
            spec_wf(r@.channels),
            r@.platform == platform,
            r@.channels.len() == 3,
            forall|i: int| 0 <= i < 3 ==> #[trigger] r@.channels[i] == spec_channel_new(configs@[i]),
    {
        let r = SensoryChannelsSystem {
            sensory_channels: [
                SensoryChannel::new(configs[0]),
                SensoryChannel::new(configs[1]),
                SensoryChannel::new(configs[2]),
            ],
            platform,
        };
        r
    }

    pub fn platform(&self) -> (r: Platform)
        ensures
            r == self@.platform,
    {
        self.platform
    }

    proof fn lemma_view_len(&self)
        ensures
            self@.channels.len() == 3,
    {
    }

    /// Routes a command to the channel slot its channel type names.
    fn apply_at(&mut self, i: usize, command: ChannelCommand)
        requires
            i < 3,
        ensures
            final(self)@.channels == old(self)@.channels.update(
                i as int,
                spec_channel_apply(old(self)@.channels[i as int], command),
            ),
            final(self)@.platform == old(self)@.platform,
    {
        proof {
            use_type_invariant(&*self);
        }
        let mut ch = self.sensory_channels[i];
        proof {
            assert(ch@ == self@.channels[i as int]);
            lemma_apply_switch(ch@, command);
        }
        ch.apply(command);
        proof {
            let next = self.sensory_channels@.update(i as int, ch);
            let views = next.map_values(|c: SensoryChannel| c@);
            assert forall|k: int| 0 <= k < 3 implies #[trigger] views[k].channel_type
                == spec_channel_at(k) by {
                if k != i {
                    assert(next[k] == self.sensory_channels@[k]);
                    assert(self@.channels[k] == self.sensory_channels@[k]@);
                }
            }
        }
        self.sensory_channels[i] = ch;
        proof {
            assert(self@.channels =~= old(self)@.channels.update(
                i as int,
                spec_channel_apply(old(self)@.channels[i as int], command),
            ));
        }
    }

    fn disable_conflicting_channels(
        &mut self,
        channel_type: ChannelType,
        pushed: &mut Vec<ChannelType>,
    )
        ensures
            final(self)@.channels == spec_disable(
                old(self)@.channels,
                spec_conflicts(channel_type, old(self)@.platform),
            ).0,
            final(pushed)@ == old(pushed)@ + spec_disable(
                old(self)@.channels,
                spec_conflicts(channel_type, old(self)@.platform),
            ).1,
            final(self)@.platform == old(self)@.platform,
    {
        let conflicts = channel_type.conflicts(self.platform);
        let ghost chs0 = self@.channels;
        let ghost p0 = pushed@;
        let mut k: usize = 0;
        while k < conflicts.len()
            invariant
                k <= conflicts@.len(),
                conflicts@ == spec_conflicts(channel_type, old(self)@.platform),
                self@.platform == old(self)@.platform,
                chs0 == old(self)@.channels,
                p0 == old(pushed)@,
                self@.channels == spec_disable(chs0, conflicts@.take(k as int)).0,
                pushed@ == p0 + spec_disable(chs0, conflicts@.take(k as int)).1,
                self@.channels.len() == 3,
            decreases conflicts.len() - k,
        {
            let c = conflicts[k];
            let i = c.index();
            proof {
                assert(conflicts@.take(k as int + 1).drop_last() =~= conflicts@.take(k as int));
                self.lemma_view_len();
            }
            let ch_on = self.sensory_channels[i].switch_on();
            if ch_on {
                self.apply_at(i, ChannelCommand::ToggleSwitch { channel_type: c, switch_on: false });
                pushed.push(c);
                proof {
                    assert(pushed@ =~= p0 + spec_disable(chs0, conflicts@.take(k as int + 1)).1);
                }
            }
            proof {
                self.lemma_view_len();
            }
            k += 1;
        }
        proof {
            assert(conflicts@.take(conflicts@.len() as int) =~= conflicts@);
        }
    }

    /// Applies the frame's channel commands in order and drains them.
    /// Switching a channel on first switches its conflicting channels off.
    /// Every command marks its channel (and every channel it switched off)
    /// for persistence, and a toggle marks the frame's switches as changed.
    pub fn handle_commands(&mut self, frame_events: &mut FrameEvents)
        ensures
            final(self)@.channels == spec_handle(
                old(self)@.channels,
                old(self)@.platform,
                old(frame_events).channel_commands@,
            ).0,
            final(self)@.platform == old(self)@.platform,
            final(frame_events).switch_changed == (old(frame_events).switch_changed || spec_handle(
                old(self)@.channels,
                old(self)@.platform,
                old(frame_events).channel_commands@,
            ).2),
            old(frame_events).channel_commands@.len() == 0
                ==> final(frame_events).need_persist.channels_system
                == old(frame_events).need_persist.channels_system,
            old(frame_events).channel_commands@.len() > 0
                ==> final(frame_events).need_persist.channels_system is Some
                && final(frame_events).need_persist.channels_system->0@ == spec_listed(
                old(frame_events).need_persist.channels_system) + spec_handle(
                old(self)@.channels,
                old(self)@.platform,
                old(frame_events).channel_commands@,
            ).1,
            final(frame_events).channel_commands@.len() == 0,
            final(frame_events).state_commands == old(frame_events).state_commands,
            final(frame_events).shutdown_requested == old(frame_events).shutdown_requested,
            final(frame_events).shutdown == old(frame_events).shutdown,
            final(frame_events).force_reset == old(frame_events).force_reset,
            final(frame_events).just_transited == old(frame_events).just_transited,
            final(frame_events).need_persist.timer_state_machine
                == old(frame_events).need_persist.timer_state_machine,
            spec_wf(final(self)@.channels),
            spec_conflict_free(old(self)@.channels, old(self)@.platform) ==> spec_conflict_free(
                final(self)@.channels,
                old(self)@.platform,
            ),
            final(frame_events).switch_changed == (old(frame_events).switch_changed || exists|i: int|
                0 <= i < old(frame_events).channel_commands@.len()
                    && #[trigger] old(frame_events).channel_commands@[i] is ToggleSwitch),
            forall|i: int|
                0 <= i < old(frame_events).channel_commands@.len() ==> spec_listed(
                    final(frame_events).need_persist.channels_system,
                ).contains(spec_command_channel(#[trigger] old(frame_events).channel_commands@[i])),
            forall|j: int|
                0 <= j < 3 && #[trigger] final(self)@.channels[j].switch_on != old(
                    self,
                )@.channels[j].switch_on ==> spec_listed(
                    final(frame_events).need_persist.channels_system,
                ).contains(spec_channel_at(j)),
    {
        proof {
            use_type_invariant(&*self);
        }
        let ghost cmds = frame_events.channel_commands@;
        let ghost chs0 = self@.channels;
        let ghost sc0 = frame_events.switch_changed;
        let n = frame_events.channel_commands.len();
        let mut pushed: Vec<ChannelType> = Vec::new();
        let mut i: usize = 0;
        while i < n
            invariant
                frame_events.channel_commands@ == cmds,
                n == cmds.len(),
                i <= n,
                self@.platform == old(self)@.platform,
                chs0 == old(self)@.channels,
                self@.channels == spec_handle(chs0, self@.platform, cmds.take(i as int)).0,
                pushed@ == spec_handle(chs0, self@.platform, cmds.take(i as int)).1,
                frame_events.switch_changed == (sc0 || spec_handle(
                    chs0,
                    self@.platform,
                    cmds.take(i as int),
                ).2),
                sc0 == old(frame_events).switch_changed,
                frame_events.state_commands == old(frame_events).state_commands,
                frame_events.shutdown_requested == old(frame_events).shutdown_requested,
                frame_events.shutdown == old(frame_events).shutdown,
                frame_events.force_reset == old(frame_events).force_reset,
                frame_events.just_transited == old(frame_events).just_transited,
                frame_events.need_persist == old(frame_events).need_persist,
                self@.channels.len() == 3,
            decreases n - i,
        {
            let command = frame_events.channel_commands[i];
            let target_type = command.channel_type();
            let ghost before = self@.channels;
            let ghost pushed_before = pushed@;
            proof {
                assert(cmds.take(i as int + 1).drop_last() =~= cmds.take(i as int));
            }
            match command {
                ChannelCommand::ToggleSwitch { switch_on, .. } => {
                    if switch_on {
                        self.disable_conflicting_channels(target_type, &mut pushed);
                    }
                    frame_events.switch_changed = true;
                },
                _ => {},
            }
            proof {
                self.lemma_view_len();
            }
            self.apply_at(target_type.index(), command);
            pushed.push(target_type);
            proof {
                self.lemma_view_len();
                let (c1, p1) = match command {
                    ChannelCommand::ToggleSwitch { switch_on: true, .. } => spec_disable(
                        before,
                        spec_conflicts(target_type, self@.platform),
                    ),
                    _ => (before, Seq::empty()),
                };
                assert(pushed@ =~= pushed_before + p1.push(target_type));
                assert(pushed@ =~= spec_handle(chs0, self@.platform, cmds.take(i as int + 1)).1);
            }
            i += 1;
        }
        proof {
            assert(cmds.take(n as int) =~= cmds);
        }
        frame_events.channel_commands.clear();
        if n > 0 {
            let mut list = match frame_events.need_persist.channels_system.take() {
                Some(v) => v,
                None => Vec::new(),
            };
            let ghost l0 = list@;
            list.append(&mut pushed);
            frame_events.need_persist.channels_system = Some(list);
        }
        proof {
            let (c, p, t) = spec_handle(chs0, self@.platform, cmds);
            lemma_handle_toggled(chs0, self@.platform, cmds);
            lemma_handle_lists_commands(chs0, self@.platform, cmds);
            lemma_handle_lists_switch_changes(chs0, self@.platform, cmds);
            lemma_handle_keeps_slots(chs0, self@.platform, cmds);
            if spec_conflict_free(chs0, self@.platform) {
                lemma_handle_conflict_free(chs0, self@.platform, cmds);
            }
            let listed = spec_listed(frame_events.need_persist.channels_system);
            if n > 0 {
                assert forall|x: ChannelType| p.contains(x) implies listed.contains(x) by {
                    lemma_contains_concat(spec_listed(old(frame_events).need_persist.channels_system), p, x);
                }
            } else {
                assert(cmds.len() == 0);
                assert(c == chs0);
            }
        }
    }

    /// First half of the frame for every channel; see
    /// [`SensoryChannel::begin_tick`].
    pub fn begin_tick(&mut self, state: TimerState, just_transited: bool) -> (r: [ChannelTarget; 3])
        ensures
            final(self)@.platform == old(self)@.platform,
            final(self)@.channels.len() == 3,
            forall|i: int|
                0 <= i < 3 ==> (#[trigger] final(self)@.channels[i], r@[i]) == spec_begin_tick(
                    old(self)@.channels[i],
                    state,
                    just_transited,
                ),
    {
        proof {
            use_type_invariant(&*self);
        }
        let mut c0 = self.sensory_channels[0];
        let mut c1 = self.sensory_channels[1];
        let mut c2 = self.sensory_channels[2];
        proof {
            assert(c0@ == self@.channels[0]);
            assert(c1@ == self@.channels[1]);
            assert(c2@ == self@.channels[2]);
        }
        let t0 = c0.begin_tick(state, just_transited);
        let t1 = c1.begin_tick(state, just_transited);
        let t2 = c2.begin_tick(state, just_transited);
        proof {
            let next = [c0, c1, c2]@.map_values(|c: SensoryChannel| c@);
            assert(next[0] == c0@ && next[1] == c1@ && next[2] == c2@);
        }
        self.sensory_channels = [c0, c1, c2];
        [t0, t1, t2]
    }

    /// Second half of the frame: channel `i` records `values[i]`.
    pub fn finish_tick(&mut self, values: [ChannelValue; 3])
        ensures
            final(self)@.platform == old(self)@.platform,
            final(self)@.channels.len() == 3,
            forall|i: int|
                0 <= i < 3 ==> #[trigger] final(self)@.channels[i] == (ChannelModel {
                    current: spec_track(old(self)@.channels[i].current, values@[i]),
                    ..old(self)@.channels[i]
                }),
    {
        proof {
            use_type_invariant(&*self);
        }
        let mut c0 = self.sensory_channels[0];
        let mut c1 = self.sensory_channels[1];
        let mut c2 = self.sensory_channels[2];
        proof {
            assert(c0@ == self@.channels[0]);
            assert(c1@ == self@.channels[1]);
            assert(c2@ == self@.channels[2]);
        }
        c0.finish_tick(values[0]);
        c1.finish_tick(values[1]);
        c2.finish_tick(values[2]);
        proof {
            let next = [c0, c1, c2]@.map_values(|c: SensoryChannel| c@);
            assert(next[0] == c0@ && next[1] == c1@ && next[2] == c2@);
        }
        self.sensory_channels = [c0, c1, c2];
    }

    /// Snaps every channel's level to neutral.
    pub fn reset(&mut self)
        ensures
            final(self)@.platform == old(self)@.platform,
            final(self)@.channels.len() == 3,
            forall|i: int|
                0 <= i < 3 ==> #[trigger] final(self)@.channels[i] == (ChannelModel {
                    current: Update::Changed(old(self)@.channels[i].channel_type.spec_neutral_value()),
                    ..old(self)@.channels[i]
                }),
    {
        proof {
            use_type_invariant(&*self);
        }
        let mut c0 = self.sensory_channels[0];
        let mut c1 = self.sensory_channels[1];
        let mut c2 = self.sensory_channels[2];
        proof {
            assert(c0@ == self@.channels[0]);
            assert(c1@ == self@.channels[1]);
            assert(c2@ == self@.channels[2]);
        }
        c0.reset_current_to_neutral();
        c1.reset_current_to_neutral();
        c2.reset_current_to_neutral();
        proof {
            let next = [c0, c1, c2]@.map_values(|c: SensoryChannel| c@);
            assert(next[0] == c0@ && next[1] == c1@ && next[2] == c2@);
        }
        self.sensory_channels = [c0, c1, c2];
    }

    /// Every channel's current level.
    pub fn logic_frame(&self) -> (r: [Update<ChannelValue>; 3])
        ensures
            forall|i: int| 0 <= i < 3 ==> #[trigger] r@[i] == self@.channels[i].current,
    {
        [
            self.sensory_channels[0].current(),
            self.sensory_channels[1].current(),
            self.sensory_channels[2].current(),
        ]
    }

    /// Every channel's switch.
    pub fn switch_states(&self) -> (r: [bool; 3])
        ensures
            forall|i: int| 0 <= i < 3 ==> #[trigger] r@[i] == self@.channels[i].switch_on,
    {
        [
            self.sensory_channels[0].switch_on(),
            self.sensory_channels[1].switch_on(),
            self.sensory_channels[2].switch_on(),
        ]
    }

    /// The configuration to persist for the channel stored at the slot of
    /// `channel_type`.
    pub fn channel_config(&self, channel_type: ChannelType) -> (r: ChannelConfig)
        ensures
            r == crate::channels::spec_channel_persist(
                self@.channels[spec_channel_index(channel_type)],
            ),
    {
        self.sensory_channels[channel_type.index()].persist()
    }
}

/// Conflicts go both ways, and no channel conflicts with itself.
pub proof fn lemma_conflicts_symmetric(a: ChannelType, b: ChannelType, platform: Platform)
    ensures
        spec_conflicts(a, platform).contains(b) <==> spec_conflicts(b, platform).contains(a),
        !spec_conflicts(a, platform).contains(a),
{
    let s = seq![ChannelType::Saturation];
    let bc = seq![ChannelType::Brightness, ChannelType::ColorTemp];
    assert(s.contains(ChannelType::Saturation) ==> s[0] == ChannelType::Saturation);
    assert(s[0] == ChannelType::Saturation);
    assert(bc[0] == ChannelType::Brightness);
    assert(bc[1] == ChannelType::ColorTemp);
    assert(s.contains(ChannelType::Saturation));
    assert(bc.contains(ChannelType::Brightness));
    assert(bc.contains(ChannelType::ColorTemp));
    assert(!bc.contains(ChannelType::Saturation));
    assert(!s.contains(ChannelType::Brightness));
    assert(!s.contains(ChannelType::ColorTemp));
}

/// The conflict rule: on Windows one transformer serves every channel and
/// nothing conflicts; on macOS saturation (the ColorSync filter) conflicts
/// with colour temperature and brightness (the gamma tables), which do not
/// conflict with each other.
pub proof fn lemma_conflict_rule(a: ChannelType, b: ChannelType, platform: Platform)
    ensures
        spec_conflicts(a, platform).contains(b) <==> (platform == Platform::MacOS && a != b && (a
            == ChannelType::Saturation || b == ChannelType::Saturation)),
{
    lemma_conflicts_symmetric(a, b, platform);
    let s = seq![ChannelType::Saturation];
    let bc = seq![ChannelType::Brightness, ChannelType::ColorTemp];
    assert(s[0] == ChannelType::Saturation);
    assert(bc[0] == ChannelType::Brightness);
    assert(bc[1] == ChannelType::ColorTemp);
    assert(s.contains(ChannelType::Saturation));
    assert(bc.contains(ChannelType::Brightness));
    assert(bc.contains(ChannelType::ColorTemp));
    assert(!Seq::<ChannelType>::empty().contains(b));
}

/// A command never changes a channel's kind; only a toggle addressed to
/// the channel changes its switch.
pub proof fn lemma_apply_switch(m: ChannelModel, c: ChannelCommand)
    ensures
        spec_channel_apply(m, c).channel_type == m.channel_type,
        spec_channel_apply(m, c).switch_on == (match c {
            ChannelCommand::ToggleSwitch { channel_type, switch_on } => if channel_type
                == m.channel_type {
                switch_on
            } else {
                m.switch_on
            },
            _ => m.switch_on,
        }),
{
}

/// Switching conflicts off keeps every channel in its slot and leaves
/// on exactly the channels that were on and are not listed.
pub proof fn lemma_disable_switches(chs: Seq<ChannelModel>, conflicts: Seq<ChannelType>)
    requires
        spec_wf(chs),
    ensures
        spec_wf(spec_disable(chs, conflicts).0),
        forall|j: int|
            0 <= j < 3 ==> #[trigger] spec_disable(chs, conflicts).0[j].switch_on == (
            chs[j].switch_on && !conflicts.contains(spec_channel_at(j))),
    decreases conflicts.len(),
{
    if conflicts.len() > 0 {
        let rest = conflicts.drop_last();
        lemma_disable_switches(chs, rest);
        let (c1, p1) = spec_disable(chs, rest);
        let c = conflicts.last();
        let i = spec_channel_index(c);
        assert(c1[i].channel_type == c);
        lemma_apply_switch(c1[i], ChannelCommand::ToggleSwitch { channel_type: c, switch_on: false });
        assert forall|j: int| 0 <= j < 3 implies #[trigger] spec_disable(chs, conflicts).0[j].switch_on
            == (chs[j].switch_on && !conflicts.contains(spec_channel_at(j))) by {
            assert(conflicts =~= rest.push(c));
            if spec_channel_at(j) == c {
                assert(conflicts.contains(c)) by {
                    assert(conflicts[conflicts.len() - 1] == c);
                }
            } else {
                assert(conflicts.contains(spec_channel_at(j)) == rest.contains(spec_channel_at(j)))
                    by {
                    if conflicts.contains(spec_channel_at(j)) {
                        let k = choose|k: int|
                            0 <= k < conflicts.len() && conflicts[k] == spec_channel_at(j);
                        assert(k < conflicts.len() - 1);
                        assert(rest[k] == spec_channel_at(j));
                    }
                    if rest.contains(spec_channel_at(j)) {
                        let k = choose|k: int| 0 <= k < rest.len() && rest[k] == spec_channel_at(j);
                        assert(conflicts[k] == spec_channel_at(j));
                    }
                }
            }
        }
    }
}

proof fn lemma_index_at(t: ChannelType)
    ensures
        spec_channel_at(spec_channel_index(t)) == t,
        0 <= spec_channel_index(t) < 3,
{
}

/// One command keeps the channels in their slots and conflict-free.
pub proof fn lemma_handle_one_conflict_free(
    chs: Seq<ChannelModel>,
    platform: Platform,
    cmd: ChannelCommand,
)
    requires
        spec_wf(chs),
        spec_conflict_free(chs, platform),
    ensures
        spec_wf(spec_handle_one(chs, platform, cmd).0),
        spec_conflict_free(spec_handle_one(chs, platform, cmd).0, platform),
{
    let target = spec_command_channel(cmd);
    let i = spec_channel_index(target);
    lemma_index_at(target);
    let (c1, p1) = match cmd {
        ChannelCommand::ToggleSwitch { switch_on: true, .. } => spec_disable(
            chs,
            spec_conflicts(target, platform),
        ),
        _ => (chs, Seq::empty()),
    };
    if cmd is ToggleSwitch && cmd->switch_on {
        lemma_disable_switches(chs, spec_conflicts(target, platform));
    }
    lemma_apply_switch(c1[i], cmd);
    let r = spec_handle_one(chs, platform, cmd).0;
    assert(r == c1.update(i, spec_channel_apply(c1[i], cmd)));
    assert forall|a: ChannelType, b: ChannelType|
        #![trigger spec_conflicts(a, platform).contains(b)]
        r[spec_channel_index(a)].switch_on && r[spec_channel_index(b)].switch_on implies
        !spec_conflicts(a, platform).contains(b) by {
        lemma_index_at(a);
        lemma_index_at(b);
        lemma_conflicts_symmetric(a, b, platform);
        lemma_conflicts_symmetric(a, target, platform);
        lemma_conflicts_symmetric(b, target, platform);
        lemma_conflicts_symmetric(target, a, platform);
        lemma_conflicts_symmetric(target, b, platform);
        if a != target && b != target {
            assert(chs[spec_channel_index(a)].switch_on);
            assert(chs[spec_channel_index(b)].switch_on);
        }
    }
}

/// Channel commands keep the channels conflict-free: switching a channel
/// on switches off whatever conflicts with it.
pub proof fn lemma_handle_conflict_free(
    chs: Seq<ChannelModel>,
    platform: Platform,
    cmds: Seq<ChannelCommand>,
)
    requires
        spec_wf(chs),
        spec_conflict_free(chs, platform),
    ensures
        spec_wf(spec_handle(chs, platform, cmds).0),
        spec_conflict_free(spec_handle(chs, platform, cmds).0, platform),
    decreases cmds.len(),
{
    if cmds.len() > 0 {
        lemma_handle_conflict_free(chs, platform, cmds.drop_last());
        let c1 = spec_handle(chs, platform, cmds.drop_last()).0;
        lemma_handle_one_conflict_free(c1, platform, cmds.last());
    }
}

/// `s` holds `x`, and so does any sequence extending it on either side.
proof fn lemma_contains_concat(a: Seq<ChannelType>, b: Seq<ChannelType>, x: ChannelType)
    ensures
        a.contains(x) ==> (a + b).contains(x),
        b.contains(x) ==> (a + b).contains(x),
{
    if a.contains(x) {
        let k = choose|k: int| 0 <= k < a.len() && a[k] == x;
        assert((a + b)[k] == x);
    }
    if b.contains(x) {
        let k = choose|k: int| 0 <= k < b.len() && b[k] == x;
        assert((a + b)[a.len() + k] == x);
    }
}

/// The handling of commands marks the frame's switches as changed exactly
/// when one of the commands is a toggle.
pub proof fn lemma_handle_toggled(chs: Seq<ChannelModel>, platform: Platform, cmds: Seq<ChannelCommand>)
    ensures
        spec_handle(chs, platform, cmds).2 <==> exists|i: int|
            0 <= i < cmds.len() && #[trigger] cmds[i] is ToggleSwitch,
    decreases cmds.len(),
{
    if cmds.len() > 0 {
        let rest = cmds.drop_last();
        lemma_handle_toggled(chs, platform, rest);
        if spec_handle(chs, platform, cmds).2 {
            if spec_handle(chs, platform, rest).2 {
                let i = choose|i: int| 0 <= i < rest.len() && #[trigger] rest[i] is ToggleSwitch;
                assert(cmds[i] is ToggleSwitch);
            } else {
                assert(cmds[cmds.len() - 1] is ToggleSwitch);
            }
        }
        if exists|i: int| 0 <= i < cmds.len() && #[trigger] cmds[i] is ToggleSwitch {
            let i = choose|i: int| 0 <= i < cmds.len() && #[trigger] cmds[i] is ToggleSwitch;
            if i < cmds.len() - 1 {
                assert(rest[i] is ToggleSwitch);
            }
        }
    }
}

/// Every command's channel is marked for persistence.
pub proof fn lemma_handle_lists_commands(chs: Seq<ChannelModel>, platform: Platform, cmds: Seq<ChannelCommand>)
    ensures
        forall|i: int|
            0 <= i < cmds.len() ==> spec_handle(chs, platform, cmds).1.contains(
                spec_command_channel(#[trigger] cmds[i]),
            ),
    decreases cmds.len(),
{
    if cmds.len() > 0 {
        let rest = cmds.drop_last();
        lemma_handle_lists_commands(chs, platform, rest);
        let (c1, p1, s1) = spec_handle(chs, platform, rest);
        let p2 = spec_handle_one(c1, platform, cmds.last()).1;
        let t = spec_command_channel(cmds.last());
        assert(p2[p2.len() - 1] == t);
        assert forall|i: int| 0 <= i < cmds.len() implies spec_handle(chs, platform, cmds).1.contains(
            spec_command_channel(#[trigger] cmds[i]),
        ) by {
            if i < cmds.len() - 1 {
                assert(rest[i] == cmds[i]);
                lemma_contains_concat(p1, p2, spec_command_channel(cmds[i]));
            } else {
                lemma_contains_concat(p1, p2, t);
            }
        }
    }
}

/// Switching conflicts off lists every channel whose switch it changed.
proof fn lemma_disable_lists(chs: Seq<ChannelModel>, conflicts: Seq<ChannelType>)
    requires
        spec_wf(chs),
    ensures
        forall|j: int|
            0 <= j < 3 && #[trigger] spec_disable(chs, conflicts).0[j].switch_on != chs[j].switch_on
                ==> spec_disable(chs, conflicts).1.contains(spec_channel_at(j)),
    decreases conflicts.len(),
{
    if conflicts.len() > 0 {
        let rest = conflicts.drop_last();
        lemma_disable_lists(chs, rest);
        lemma_disable_switches(chs, rest);
        let (c1, p1) = spec_disable(chs, rest);
        let c = conflicts.last();
        let i = spec_channel_index(c);
        lemma_index_at(c);
        lemma_apply_switch(c1[i], ChannelCommand::ToggleSwitch { channel_type: c, switch_on: false });
        let r = spec_disable(chs, conflicts);
        assert forall|j: int|
            0 <= j < 3 && #[trigger] r.0[j].switch_on != chs[j].switch_on implies r.1.contains(
                spec_channel_at(j),
            ) by {
            if c1[i].switch_on {
                assert(r.1 == p1.push(c));
                if j == i {
                    assert(r.1[r.1.len() - 1] == c);
                } else {
                    assert(r.0[j] == c1[j]);
                    if c1[j].switch_on != chs[j].switch_on {
                        let k = choose|k: int| 0 <= k < p1.len() && p1[k] == spec_channel_at(j);
                        assert(r.1[k] == spec_channel_at(j));
                    }
                }
            } else {
                assert(r.0 == c1);
            }
        }
    }
}

/// One command lists every channel whose switch it changed.
proof fn lemma_handle_one_lists(chs: Seq<ChannelModel>, platform: Platform, cmd: ChannelCommand)
    requires
        spec_wf(chs),
    ensures
        forall|j: int|
            0 <= j < 3 && #[trigger] spec_handle_one(chs, platform, cmd).0[j].switch_on
                != chs[j].switch_on ==> spec_handle_one(chs, platform, cmd).1.contains(
                spec_channel_at(j),
            ),
{
    let target = spec_command_channel(cmd);
    let i = spec_channel_index(target);
    lemma_index_at(target);
    let (c1, p1) = match cmd {
        ChannelCommand::ToggleSwitch { switch_on: true, .. } => spec_disable(
            chs,
            spec_conflicts(target, platform),
        ),
        _ => (chs, Seq::empty()),
    };
    if cmd is ToggleSwitch && cmd->switch_on {
        lemma_disable_lists(chs, spec_conflicts(target, platform));
        lemma_disable_switches(chs, spec_conflicts(target, platform));
    }
    let r = spec_handle_one(chs, platform, cmd);
    assert(r.1 == p1.push(target));
    assert forall|j: int|
        0 <= j < 3 && #[trigger] r.0[j].switch_on != chs[j].switch_on implies r.1.contains(
            spec_channel_at(j),
        ) by {
        if j == i {
            assert(r.1[r.1.len() - 1] == target);
        } else {
            assert(r.0[j] == c1[j]);
            assert(p1.contains(spec_channel_at(j)));
            let k = choose|k: int| 0 <= k < p1.len() && p1[k] == spec_channel_at(j);
            assert(r.1[k] == spec_channel_at(j));
        }
    }
}

/// Handling commands lists every channel whose switch changed.
pub proof fn lemma_handle_lists_switch_changes(
    chs: Seq<ChannelModel>,
    platform: Platform,
    cmds: Seq<ChannelCommand>,
)
    requires
        spec_wf(chs),
    ensures
        forall|j: int|
            0 <= j < 3 && #[trigger] spec_handle(chs, platform, cmds).0[j].switch_on
                != chs[j].switch_on ==> spec_handle(chs, platform, cmds).1.contains(
                spec_channel_at(j),
            ),
    decreases cmds.len(),
{
    if cmds.len() > 0 {
        let rest = cmds.drop_last();
        lemma_handle_lists_switch_changes(chs, platform, rest);
        lemma_handle_keeps_slots(chs, platform, rest);
        let (c1, p1, s1) = spec_handle(chs, platform, rest);
        lemma_handle_one_lists(c1, platform, cmds.last());
        let (c2, p2, s2) = spec_handle_one(c1, platform, cmds.last());
        assert forall|j: int|
            0 <= j < 3 && #[trigger] spec_handle(chs, platform, cmds).0[j].switch_on
                != chs[j].switch_on implies spec_handle(chs, platform, cmds).1.contains(
            spec_channel_at(j),
        ) by {
            lemma_contains_concat(p1, p2, spec_channel_at(j));
            if c1[j].switch_on != chs[j].switch_on {
            } else {
                assert(c2[j].switch_on != c1[j].switch_on);
            }
        }
    }
}

/// Handling commands keeps the channels in their slots.
proof fn lemma_handle_keeps_slots(chs: Seq<ChannelModel>, platform: Platform, cmds: Seq<ChannelCommand>)
    requires
        spec_wf(chs),
    ensures
        spec_wf(spec_handle(chs, platform, cmds).0),
    decreases cmds.len(),
{
    if cmds.len() > 0 {
        lemma_handle_keeps_slots(chs, platform, cmds.drop_last());
        let c1 = spec_handle(chs, platform, cmds.drop_last()).0;
        let cmd = cmds.last();
        let target = spec_command_channel(cmd);
        lemma_index_at(target);
        if cmd is ToggleSwitch && cmd->switch_on {
            lemma_disable_switches(c1, spec_conflicts(target, platform));
        }
        let c0 = match cmd {
            ChannelCommand::ToggleSwitch { switch_on: true, .. } => spec_disable(
                c1,
                spec_conflicts(target, platform),
            ).0,
            _ => c1,
        };
        lemma_apply_switch(c0[spec_channel_index(target)], cmd);
    }
}

} // verus!
