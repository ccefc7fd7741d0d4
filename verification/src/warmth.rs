//! The warmth channel's curve calculator: where along its curve a warmth
//! level lies at a given time.  Evaluating the curve itself is floating
//! point and the caller's.

use vstd::prelude::*;

use crate::channel_types::{ChannelValue, CurveParameters, DEFAULT_SIGMOID_STEEPNESS};

verus! {

/// Colour temperature a warmth session ends at by default.
pub const DEFAULT_TARGET_KELVIN: u32 = 2500;
/// Colour temperature of the untouched screen.
pub const NEUTRAL_KELVIN: u32 = 6500;

/// A warmth curve: from `curve_begin_value` at `curve_begin_time_ms` to
/// `target_value` at `target_duration_ms`.
#[derive(Debug, Clone, Copy)]
pub struct WarmthChannelCalculator {
    pub curve_parameters: CurveParameters,
    pub curve_begin_time_ms: u64,
    pub curve_begin_value: ChannelValue,
    pub target_duration_ms: u64,
    pub target_value: ChannelValue,
}

/// Where a time falls on the curve.
#[derive(Debug, Clone, Copy)]
pub enum CurvePoint {
    /// Before the curve begins: its starting value.
    Begin(ChannelValue),
    /// At or after its end: the target value.
    Target(ChannelValue),
    /// On the curve, at `elapsed_ms` of `span_ms` (with `0 <= elapsed_ms <
    /// span_ms`); the caller evaluates the curve at their ratio.
    Between { elapsed_ms: u64, span_ms: u64 },
}

impl WarmthChannelCalculator {
    /// The default warmth curve: a sigmoid of steepness 10 from the neutral
    /// temperature to 2500 K.
    pub fn new() -> (r: Self)
        ensures
            r.curve_parameters == (CurveParameters::NormalizedSigmoid {
                steepness: DEFAULT_SIGMOID_STEEPNESS,
            }),
            r.curve_begin_time_ms == 0,
            r.curve_begin_value == ChannelValue::ColorTempKelvin(NEUTRAL_KELVIN),
            r.target_duration_ms == 0,
            r.target_value == ChannelValue::ColorTempKelvin(DEFAULT_TARGET_KELVIN),
    {
        WarmthChannelCalculator {
            curve_parameters: CurveParameters::NormalizedSigmoid {
                steepness: DEFAULT_SIGMOID_STEEPNESS,
            },
            curve_begin_time_ms: 0,
            curve_begin_value: ChannelValue::ColorTempKelvin(NEUTRAL_KELVIN),
            target_duration_ms: 0,
            target_value: ChannelValue::ColorTempKelvin(DEFAULT_TARGET_KELVIN),
        }
    }

    /// Where `elapsed_ms` falls on the curve.
    pub fn curve_point(&self, elapsed_ms: u64) -> (r: CurvePoint)
        ensures
            elapsed_ms < self.curve_begin_time_ms ==> r == CurvePoint::Begin(self.curve_begin_value),
            self.curve_begin_time_ms <= elapsed_ms && elapsed_ms >= self.target_duration_ms ==> r
                == CurvePoint::Target(self.target_value),
            self.curve_begin_time_ms <= elapsed_ms < self.target_duration_ms ==> r == (
            CurvePoint::Between {
                elapsed_ms: (elapsed_ms - self.curve_begin_time_ms) as u64,
                span_ms: (self.target_duration_ms - self.curve_begin_time_ms) as u64,
            }),
            r matches CurvePoint::Between { elapsed_ms: e, span_ms: s } ==> e < s,
    {
        if elapsed_ms < self.curve_begin_time_ms {
            return CurvePoint::Begin(self.curve_begin_value);
        }
        if elapsed_ms >= self.target_duration_ms {
            return CurvePoint::Target(self.target_value);
        }
        CurvePoint::Between {
            elapsed_ms: elapsed_ms - self.curve_begin_time_ms,
            span_ms: self.target_duration_ms - self.curve_begin_time_ms,
        }
    }
}

} // verus!
