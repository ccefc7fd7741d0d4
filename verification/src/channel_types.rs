//! Channel kinds, their values and the commands that reconfigure them.

use vstd::prelude::*;

use crate::float_bits::{spec_eq, f64_eq, F64_ONE};

verus! {

/// The operating systems the renderers target; some channel pairs cannot
/// be active together on one of them.
#[derive(Debug, Clone, Copy, PartialEq, Eq, Structural)]
pub enum Platform {
    Windows,
    MacOS,
}

/// The sensory channels, in their canonical order.
#[derive(Debug, Clone, Copy, PartialEq, Eq, Structural, Hash)]
pub enum ChannelType {
    Saturation,
    ColorTemp,
    Brightness,
}

/// Number of sensory channels.
pub const SENSORY_CHANNEL_COUNT: usize = 3;

/// Position of a channel type in every per-channel array.
pub open spec fn spec_channel_index(t: ChannelType) -> int {
    match t {
        ChannelType::Saturation => 0,
        ChannelType::ColorTemp => 1,
        ChannelType::Brightness => 2,
    }
}

/// The channel type stored at position `i` of a per-channel array.
pub open spec fn spec_channel_at(i: int) -> ChannelType {
    if i == 0 {
        ChannelType::Saturation
    } else if i == 1 {
        ChannelType::ColorTemp
    } else {
        ChannelType::Brightness
    }
}

/// The channels that may not be switched on together with `t`.
pub open spec fn spec_conflicts(t: ChannelType, platform: Platform) -> Seq<ChannelType> {
    match platform {
        Platform::Windows => Seq::empty(),
        Platform::MacOS => match t {
            ChannelType::Brightness => seq![ChannelType::Saturation],
            ChannelType::ColorTemp => seq![ChannelType::Saturation],
            ChannelType::Saturation => seq![ChannelType::Brightness, ChannelType::ColorTemp],
        },
    }
}

/// All channel types in canonical order.
pub fn sensory_channel_types() -> (r: [ChannelType; 3])
    ensures
        forall|i: int| 0 <= i < 3 ==> #[trigger] r@[i] == spec_channel_at(i),
{
    [ChannelType::Saturation, ChannelType::ColorTemp, ChannelType::Brightness]
}

impl ChannelType {
    pub fn index(&self) -> (r: usize)
        ensures
            r as int == spec_channel_index(*self),
            r < SENSORY_CHANNEL_COUNT,
    {
        match self {
            ChannelType::Saturation => 0,
            ChannelType::ColorTemp => 1,
            ChannelType::Brightness => 2,
        }
    }

    /// Every channel has a renderer on both supported platforms.
    pub fn is_available_on_this_platform(&self) -> (r: bool)
        ensures
            r,
    {
        true
    }

    /// The channels that must be switched off when this one is switched on.
    pub fn conflicts(&self, platform: Platform) -> (r: Vec<ChannelType>)
        ensures
            r@ == spec_conflicts(*self, platform),
    {
        match platform {
            Platform::Windows => Vec::new(),
            Platform::MacOS => match self {
                ChannelType::Brightness => vec![ChannelType::Saturation],
                ChannelType::ColorTemp => vec![ChannelType::Saturation],
                ChannelType::Saturation => vec![ChannelType::Brightness, ChannelType::ColorTemp],
            },
        }
    }

    pub open spec fn spec_neutral_value(self) -> ChannelValue {
        match self {
            ChannelType::Saturation => ChannelValue::Saturation(F64_ONE),
            ChannelType::ColorTemp => ChannelValue::ColorTempKelvin(6500),
            ChannelType::Brightness => ChannelValue::Brightness(F64_ONE),
        }
    }

    /// The value at which a channel has no visible effect: full
    /// saturation, 6500 K, full brightness.
    pub fn neutral_value(&self) -> (r: ChannelValue)
        ensures
            r == self.spec_neutral_value(),
    {
        match self {
            ChannelType::Saturation => ChannelValue::Saturation(F64_ONE),
            ChannelType::ColorTemp => ChannelValue::ColorTempKelvin(6500),
            ChannelType::Brightness => ChannelValue::Brightness(F64_ONE),
        }
    }

    pub open spec fn spec_store_key(self) -> Seq<char> {
        match self {
            ChannelType::Saturation => "channels.saturation"@,
            ChannelType::ColorTemp => "channels.color_temp"@,
            ChannelType::Brightness => "channels.brightness"@,
        }
    }

    /// Key under which the channel's configuration is persisted.  It does
    /// not follow the variant names, so renaming a variant keeps stored
    /// configurations readable.
    pub fn store_key(&self) -> (r: String)
        ensures
            r@ == self.spec_store_key(),
    {
        match self {
            ChannelType::Saturation => String::from_str("channels.saturation"),
            ChannelType::ColorTemp => String::from_str("channels.color_temp"),
            ChannelType::Brightness => String::from_str("channels.brightness"),
        }
    }
}

/// A channel level.  Saturation and brightness are `f64` ratios held by
/// their bit patterns (see [`crate::float_bits`]); colour temperature is in
/// kelvin.
#[derive(Debug, Clone, Copy)]
pub enum ChannelValue {
    Saturation(u64),
    ColorTempKelvin(u32),
    Brightness(u64),
}

pub open spec fn spec_value_type(v: ChannelValue) -> ChannelType {
    match v {
        ChannelValue::Saturation(_) => ChannelType::Saturation,
        ChannelValue::ColorTempKelvin(_) => ChannelType::ColorTemp,
        ChannelValue::Brightness(_) => ChannelType::Brightness,
    }
}

/// Equality of channel values: same kind, and equal as numbers (IEEE
/// equality for the ratios).
pub open spec fn spec_value_eq(a: ChannelValue, b: ChannelValue) -> bool {
    match (a, b) {
        (ChannelValue::Saturation(x), ChannelValue::Saturation(y)) => spec_eq(x, y),
        (ChannelValue::ColorTempKelvin(x), ChannelValue::ColorTempKelvin(y)) => x == y,
        (ChannelValue::Brightness(x), ChannelValue::Brightness(y)) => spec_eq(x, y),
        _ => false,
    }
}

impl PartialEq for ChannelValue {
    fn eq(&self, other: &Self) -> (r: bool) {
        match (self, other) {
            (ChannelValue::Saturation(x), ChannelValue::Saturation(y)) => f64_eq(*x, *y),
            (ChannelValue::ColorTempKelvin(x), ChannelValue::ColorTempKelvin(y)) => *x == *y,
            (ChannelValue::Brightness(x), ChannelValue::Brightness(y)) => f64_eq(*x, *y),
            _ => false,
        }
    }
}

impl vstd::std_specs::cmp::PartialEqSpecImpl for ChannelValue {
    open spec fn obeys_eq_spec() -> bool {
        true
    }

    open spec fn eq_spec(&self, other: &Self) -> bool {
        spec_value_eq(*self, *other)
    }
}

impl ChannelValue {
    pub fn channel_type(&self) -> (r: ChannelType)
        ensures
            r == spec_value_type(*self),
    {
        match self {
            ChannelValue::Saturation(_) => ChannelType::Saturation,
            ChannelValue::ColorTempKelvin(_) => ChannelType::ColorTemp,
            ChannelValue::Brightness(_) => ChannelType::Brightness,
        }
    }
}

impl From<ChannelValue> for ChannelType {
    fn from(value: ChannelValue) -> (r: ChannelType) {
        value.channel_type()
    }
}

impl vstd::std_specs::convert::FromSpecImpl<ChannelValue> for ChannelType {
    open spec fn obeys_from_spec() -> bool {
        true
    }

    open spec fn from_spec(v: ChannelValue) -> ChannelType {
        spec_value_type(v)
    }
}

/// Shape of the curve along which a channel moves between two values.
/// The steepness is an `f64` held by its bit pattern.
#[derive(Debug, Clone, Copy, PartialEq, Eq, Structural)]
pub enum CurveParameters {
    NormalizedSigmoid { steepness: u64 },
}

/// Bit pattern of the default sigmoid steepness, `10.0`.
pub const DEFAULT_SIGMOID_STEEPNESS: u64 = 0x4024_0000_0000_0000u64;

/// The default curve: a normalised sigmoid of steepness 10.
pub open spec fn spec_default_curve() -> CurveParameters {
    CurveParameters::NormalizedSigmoid { steepness: DEFAULT_SIGMOID_STEEPNESS }
}

pub fn default_normalized_sigmoid_parameters() -> (r: CurveParameters)
    ensures
        r == spec_default_curve(),
{
    CurveParameters::NormalizedSigmoid { steepness: DEFAULT_SIGMOID_STEEPNESS }
}

/// A reconfiguration of one channel.
#[derive(Debug, Clone, Copy)]
pub enum ChannelCommand {
    ToggleSwitch { channel_type: ChannelType, switch_on: bool },
    UpdateTargetChannelValue { target_channel_value: ChannelValue },
    /// `progress_begin_ratio` is an `f64` held by its bit pattern.
    UpdateProgressBeginRatio { channel_type: ChannelType, progress_begin_ratio: u64 },
    UpdateProgressCurveParas { channel_type: ChannelType, curve_parameters: CurveParameters },
    UpdateSettlingCurveParas { channel_type: ChannelType, curve_parameters: CurveParameters },
    UpdateReverseCurveParas { channel_type: ChannelType, curve_parameters: CurveParameters },
}

/// The channel a command is addressed to; a new target value names its
/// channel by its kind.
pub open spec fn spec_command_channel(c: ChannelCommand) -> ChannelType {
    match c {
        ChannelCommand::ToggleSwitch { channel_type, .. } => channel_type,
        ChannelCommand::UpdateTargetChannelValue { target_channel_value } => spec_value_type(
            target_channel_value,
        ),
        ChannelCommand::UpdateProgressBeginRatio { channel_type, .. } => channel_type,
        ChannelCommand::UpdateProgressCurveParas { channel_type, .. } => channel_type,
        ChannelCommand::UpdateSettlingCurveParas { channel_type, .. } => channel_type,
        ChannelCommand::UpdateReverseCurveParas { channel_type, .. } => channel_type,
    }
}

impl ChannelCommand {
    pub fn channel_type(&self) -> (r: ChannelType)
        ensures
            r == spec_command_channel(*self),
    {
        match self {
            ChannelCommand::ToggleSwitch { channel_type, .. } => *channel_type,
            ChannelCommand::UpdateTargetChannelValue { target_channel_value } => {
                target_channel_value.channel_type()
            },
            ChannelCommand::UpdateProgressBeginRatio { channel_type, .. } => *channel_type,
            ChannelCommand::UpdateProgressCurveParas { channel_type, .. } => *channel_type,
            ChannelCommand::UpdateSettlingCurveParas { channel_type, .. } => *channel_type,
            ChannelCommand::UpdateReverseCurveParas { channel_type, .. } => *channel_type,
        }
    }
}

/// Each channel has its own slot in every per-channel array, and a value
/// and a command name the channel they belong to: a value by its kind, a
/// command by its channel field (a new target value by the value's kind).
pub proof fn lemma_channel_naming(t: ChannelType, v: ChannelValue, c: ChannelCommand)
    ensures
        0 <= spec_channel_index(t) < 3,
        spec_channel_at(spec_channel_index(t)) == t,
        spec_value_type(t.spec_neutral_value()) == t,
        (v is Saturation) <==> spec_value_type(v) == ChannelType::Saturation,
        (v is ColorTempKelvin) <==> spec_value_type(v) == ChannelType::ColorTemp,
        (v is Brightness) <==> spec_value_type(v) == ChannelType::Brightness,
        c matches ChannelCommand::UpdateTargetChannelValue { target_channel_value } ==> spec_command_channel(c) == spec_value_type(target_channel_value),
        c matches ChannelCommand::ToggleSwitch { channel_type, .. } ==> spec_command_channel(c) == channel_type,
        c matches ChannelCommand::UpdateProgressBeginRatio { channel_type, .. } ==> spec_command_channel(c) == channel_type,
        c matches ChannelCommand::UpdateProgressCurveParas { channel_type, .. } ==> spec_command_channel(c) == channel_type,
        c matches ChannelCommand::UpdateSettlingCurveParas { channel_type, .. } ==> spec_command_channel(c) == channel_type,
        c matches ChannelCommand::UpdateReverseCurveParas { channel_type, .. } ==> spec_command_channel(c) == channel_type,
{
}

/// The neutral levels: full saturation, 6500 K, full brightness.
pub proof fn lemma_neutral_values()
    ensures
        ChannelType::Saturation.spec_neutral_value() == ChannelValue::Saturation(F64_ONE),
        ChannelType::ColorTemp.spec_neutral_value() == ChannelValue::ColorTempKelvin(6500),
        ChannelType::Brightness.spec_neutral_value() == ChannelValue::Brightness(F64_ONE),
{
}

/// Channel values are equal when of the same kind and equal as numbers;
/// values of different kinds never are.
pub proof fn lemma_value_eq(a: ChannelValue, b: ChannelValue)
    ensures
        spec_value_type(a) != spec_value_type(b) ==> !spec_value_eq(a, b),
        (a is ColorTempKelvin && b is ColorTempKelvin) ==> (spec_value_eq(a, b) <==> a->ColorTempKelvin_0 == b->ColorTempKelvin_0),
{
}

} // verus!
