//! Per-frame event bookkeeping shared by the engine's stages.

use vstd::prelude::*;

use crate::channel_types::{ChannelCommand, ChannelType};
use crate::timer::StateCommand;

verus! {

/// What a frame must write back to persistent storage.
#[derive(Debug)]
pub struct NeedPersist {
    /// The timer's durations changed.
    pub timer_state_machine: bool,
    /// Channels whose configuration changed, in the order they changed;
    /// `None` when none did.
    pub channels_system: Option<Vec<ChannelType>>,
}

/// Everything that happened to the engine during one frame.
#[derive(Debug)]
pub struct FrameEvents {
    pub state_commands: Vec<StateCommand>,
    pub channel_commands: Vec<ChannelCommand>,
    pub shutdown_requested: bool,
    pub shutdown: bool,
    pub force_reset: bool,
    /// The timer changed phase during this frame.
    pub just_transited: bool,
    /// A channel was switched on or off during this frame.
    pub switch_changed: bool,
    pub need_persist: NeedPersist,
}

impl FrameEvents {
    /// The empty frame: no commands, no flags, nothing to persist.
    pub open spec fn spec_is_empty(self) -> bool {
        &&& self.state_commands@.len() == 0
        &&& self.channel_commands@.len() == 0
        &&& !self.shutdown_requested
        &&& !self.shutdown
        &&& !self.force_reset
        &&& !self.just_transited
        &&& !self.switch_changed
        &&& !self.need_persist.timer_state_machine
        &&& self.need_persist.channels_system is None
    }
}

impl Default for FrameEvents {
    fn default() -> (r: Self)
        ensures
            r.spec_is_empty(),
    {
        FrameEvents {
            state_commands: Vec::new(),
            channel_commands: Vec::new(),
            shutdown_requested: false,
            shutdown: false,
            force_reset: false,
            just_transited: false,
            switch_changed: false,
            need_persist: NeedPersist { timer_state_machine: false, channels_system: None },
        }
    }
}

/// Flags of the earliest engine, which only tracked phase changes.
#[derive(Debug)]
pub struct FrameFlags {
    pub just_transited: bool,
}

impl Default for FrameFlags {
    fn default() -> (r: Self)
        ensures
            !r.just_transited,
    {
        FrameFlags { just_transited: false }
    }
}

} // verus!
