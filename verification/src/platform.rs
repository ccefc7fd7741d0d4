//! Applying a composite frame to the display through a platform backend,
//! with a fall-back to the neutral frame when the backend fails.  The
//! backends themselves (gamma tables, colour matrices) are the caller's.

use vstd::prelude::*;

use crate::float_bits::F32_ONE;

verus! {

/// Lowest colour temperature the backends render.
pub const MIN_WARMTH_KELVIN: u32 = 2000;
/// Colour temperature of the neutral frame.
pub const NEUTRAL_WARMTH_KELVIN: u32 = 6500;
/// A frame at or above this temperature counts as neutral.
pub const NEUTRAL_WARMTH_THRESHOLD_KELVIN: u32 = 6498;

/// The composite frame handed to a backend.  Saturation and brightness are
/// `f32` levels, carried by their bit patterns (`f32::to_bits`).
#[derive(Debug, Clone, Copy, PartialEq, Eq, Structural)]
pub struct CompositeFrame {
    pub saturation_bits: u32,
    pub warmth_kelvin: u32,
    pub brightness_bits: u32,
}

impl CompositeFrame {
    /// Full saturation, 6500 K, full brightness.
    pub open spec fn spec_neutral() -> CompositeFrame {
        CompositeFrame {
            saturation_bits: F32_ONE,
            warmth_kelvin: NEUTRAL_WARMTH_KELVIN,
            brightness_bits: F32_ONE,
        }
    }

    pub fn neutral() -> (r: CompositeFrame)
        ensures
            r == CompositeFrame::spec_neutral(),
    {
        CompositeFrame {
            saturation_bits: F32_ONE,
            warmth_kelvin: NEUTRAL_WARMTH_KELVIN,
            brightness_bits: F32_ONE,
        }
    }
}

/// The outcome of one apply, as logged.
#[derive(Debug, Clone)]
pub struct ApplyResult {
    pub applied: bool,
    pub backend: &'static str,
    pub error: Option<String>,
    pub recovery_attempted: bool,
    pub recovery_succeeded: bool,
    pub recovery_error: Option<String>,
}

/// A failed apply of a frame that is not neutral is followed by an attempt
/// to restore the neutral frame.
pub open spec fn spec_recovery_needed(first: Result<bool, String>, frame_is_neutral: bool) -> bool {
    first is Err && !frame_is_neutral
}

pub fn recovery_needed(first: &Result<bool, String>, frame_is_neutral: bool) -> (r: bool)
    ensures
        r == spec_recovery_needed(*first, frame_is_neutral),
{
    match first {
        Ok(_) => false,
        Err(_) => !frame_is_neutral,
    }
}

/// The record of an apply: the backend's answer to the frame, and to the
/// neutral frame when a recovery was attempted.
pub open spec fn spec_apply_result(
    backend: &'static str,
    first: Result<bool, String>,
    recovery: Option<Result<bool, String>>,
) -> ApplyResult {
    match first {
        Ok(applied) => ApplyResult {
            applied,
            backend,
            error: None,
            recovery_attempted: false,
            recovery_succeeded: false,
            recovery_error: None,
        },
        Err(e) => ApplyResult {
            applied: false,
            backend,
            error: Some(e),
            recovery_attempted: recovery is Some,
            recovery_succeeded: recovery matches Some(Ok(true)),
            recovery_error: match recovery {
                Some(Err(re)) => Some(re),
                _ => None,
            },
        },
    }
}

pub fn apply_result(
    backend: &'static str,
    first: Result<bool, String>,
    recovery: Option<Result<bool, String>>,
) -> (r: ApplyResult)
    ensures
        r == spec_apply_result(backend, first, recovery),
{
    match first {
        Ok(applied) => ApplyResult {
            applied,
            backend,
            error: None,
            recovery_attempted: false,
            recovery_succeeded: false,
            recovery_error: None,
        },
        Err(error) => {
            let recovery_attempted = recovery.is_some();
            let (recovery_succeeded, recovery_error) = match recovery {
                Some(Ok(applied)) => (applied, None),
                Some(Err(e)) => (false, Some(e)),
                None => (false, None),
            };
            ApplyResult {
                applied: false,
                backend,
                error: Some(error),
                recovery_attempted,
                recovery_succeeded,
                recovery_error,
            }
        },
    }
}

/// The frame handed to the backend after its first answer: the neutral
/// frame when a recovery is needed, nothing otherwise.
pub fn recovery_frame(first: &Result<bool, String>, frame_is_neutral: bool) -> (r: Option<
    CompositeFrame,
>)
    ensures
        r == (if spec_recovery_needed(*first, frame_is_neutral) {
            Some(CompositeFrame::spec_neutral())
        } else {
            None
        }),
{
    if recovery_needed(first, frame_is_neutral) {
        Some(CompositeFrame::neutral())
    } else {
        None
    }
}

/// Applies `frame` through a backend's `try_apply`; when that fails on a
/// frame that is not neutral, `try_apply` is called once more, with the
/// neutral frame.  `frame_is_neutral` is the frame's own neutrality test
/// (a floating-point comparison the caller makes).
pub fn apply_with_recovery<F>(
    backend: &'static str,
    frame: &CompositeFrame,
    frame_is_neutral: bool,
    try_apply: F,
) -> (r: ApplyResult) where F: Fn(&CompositeFrame) -> Result<bool, String>
    requires
        forall|f: &CompositeFrame| #[trigger] call_requires(try_apply, (f,)),
    ensures
        exists|first: Result<bool, String>|
            {
                &&& #[trigger] call_ensures(try_apply, (frame,), first)
                &&& if spec_recovery_needed(first, frame_is_neutral) {
                    exists|second: Result<bool, String>|
                        {
                            &&& #[trigger] call_ensures(
                                try_apply,
                                (&CompositeFrame::spec_neutral(),),
                                second,
                            )
                            &&& r == spec_apply_result(backend, first, Some(second))
                        }
                } else {
                    r == spec_apply_result(backend, first, None)
                }
            },
{
    let first = try_apply(frame);
    let recovery = match recovery_frame(&first, frame_is_neutral) {
        Some(neutral) => Some(try_apply(&neutral)),
        None => None,
    };
    apply_result(backend, first, recovery)
}

/// A backend that renders nothing, for platforms without one.
#[derive(Debug, Clone, Copy)]
pub struct MockPlatformAdapter {}

impl Default for MockPlatformAdapter {
    fn default() -> Self {
        MockPlatformAdapter {  }
    }
}

impl MockPlatformAdapter {
    pub fn new() -> Self {
        MockPlatformAdapter {  }
    }

    pub fn backend_name(&self) -> (r: &'static str)
        ensures
            r@ == "mock"@,
    {
        "mock"
    }

    /// Accepts every frame and applies none.
    pub fn try_apply(&self, frame: &CompositeFrame) -> (r: Result<bool, String>)
        ensures
            r == Ok::<bool, String>(false),
    {
        Ok(false)
    }

    /// Applies a frame: never applied, never failing, so never recovered.
    pub fn apply(&self, frame: &CompositeFrame, frame_is_neutral: bool) -> (r: ApplyResult)
        ensures
            r == spec_apply_result(r.backend, Ok(false), None),
            r.backend@ == "mock"@,
    {
        let answer = |f: &CompositeFrame| -> (a: Result<bool, String>)
            ensures
                a matches Ok(false),
            { self.try_apply(f) };
        apply_with_recovery(self.backend_name(), frame, frame_is_neutral, answer)
    }
}

/// An apply is logged when it failed or a recovery was attempted.
pub fn should_log_apply(result: &ApplyResult) -> (r: bool)
    ensures
        r == (result.error is Some || result.recovery_attempted),
{
    result.error.is_some() || result.recovery_attempted
}

/// The warmth a preview renders: the frame's colour temperature held to
/// `[MIN_WARMTH_KELVIN, NEUTRAL_WARMTH_KELVIN]`.
pub fn clamp_warmth_kelvin(kelvin: u32) -> (r: u32)
    ensures
        r == (if kelvin < MIN_WARMTH_KELVIN {
            MIN_WARMTH_KELVIN
        } else if kelvin > NEUTRAL_WARMTH_KELVIN {
            NEUTRAL_WARMTH_KELVIN
        } else {
            kelvin
        }),
{
    if kelvin < MIN_WARMTH_KELVIN {
        MIN_WARMTH_KELVIN
    } else if kelvin > NEUTRAL_WARMTH_KELVIN {
        NEUTRAL_WARMTH_KELVIN
    } else {
        kelvin
    }
}

/// The warmth part of the neutral-frame test.
pub fn warmth_is_neutral(kelvin: u32) -> (r: bool)
    ensures
        r == (kelvin >= NEUTRAL_WARMTH_THRESHOLD_KELVIN),
{
    kelvin >= NEUTRAL_WARMTH_THRESHOLD_KELVIN
}

/// A successful apply never triggers a recovery, and a failure on the
/// neutral frame is not retried.
pub proof fn lemma_recovery_only_after_failure(first: Result<bool, String>, frame_is_neutral: bool)
    ensures
        first is Ok ==> !spec_recovery_needed(first, frame_is_neutral),
        frame_is_neutral ==> !spec_recovery_needed(first, frame_is_neutral),
{
}

/// A recovery follows exactly a failed apply of a frame that is not
/// neutral.  The record of an apply says the backend's answer: applied as
/// the backend said when it answered, else not applied with its error; a
/// recovery is reported as attempted exactly when there was one, succeeded
/// exactly when the backend applied the neutral frame, and its error when
/// that failed too.
pub proof fn lemma_apply_record(
    backend: &'static str,
    first: Result<bool, String>,
    recovery: Option<Result<bool, String>>,
    frame_is_neutral: bool,
)
    ensures
        spec_recovery_needed(first, frame_is_neutral) <==> (first is Err && !frame_is_neutral),
        ({
            let r = spec_apply_result(backend, first, recovery);
            &&& r.backend == backend
            &&& first matches Ok(applied) ==> r.applied == applied && r.error is None
                && !r.recovery_attempted && !r.recovery_succeeded && r.recovery_error is None
            &&& first matches Err(e) ==> {
                &&& !r.applied
                &&& r.error == Some(e)
                &&& r.recovery_attempted == recovery is Some
                &&& r.recovery_succeeded == (recovery == Some(Ok::<bool, String>(true)))
                &&& (r.recovery_error is Some <==> recovery matches Some(Err(_)))
                &&& recovery matches Some(Err(re)) ==> r.recovery_error == Some(re)
            }
        }),
{
}

} // verus!
