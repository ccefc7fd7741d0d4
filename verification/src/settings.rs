//! Stored settings: their keys, their defaults, and how a stored value is
//! read back.

use vstd::prelude::*;

use crate::text::{decimal, spec_decimal, string_from_chars};

verus! {

pub const STORE_KEY_LAST_CRASH: &'static str = "program_last_crash";
pub const STORE_KEY_PRESET_SESSION_DURATIONS: &'static str = "session_durations_ms";
pub const STORE_KEY_LAUNCH_SESSION_ON_START: &'static str = "launch_session_on_start";
pub const STORE_KEY_AUTO_START_NEXT_SESSION: &'static str = "auto_start_next_session";

/// Preset session lengths: 25, 50 and 90 minutes.
pub open spec fn spec_default_durations() -> [u64; 3] {
    [1_500_000u64, 3_000_000u64, 5_400_000u64]
}

pub fn default_durations() -> (r: [u64; 3])
    ensures
        r == spec_default_durations(),
        r@[0] == 25 * 60_000,
        r@[1] == 50 * 60_000,
        r@[2] == 90 * 60_000,
{
    [1_500_000u64, 3_000_000u64, 5_400_000u64]
}

/// A stored boolean read back: the stored value when it is a boolean,
/// otherwise the default, which is then written back.
#[derive(Debug, Clone, Copy, PartialEq, Eq, Structural)]
pub struct BoolSetting {
    pub value: bool,
    pub rewrite_default: bool,
}

pub fn resolve_bool_setting(stored: Option<bool>, default: bool) -> (r: BoolSetting)
    ensures
        match stored {
            Some(b) => r.value == b && !r.rewrite_default,
            None => r.value == default && r.rewrite_default,
        },
{
    match stored {
        Some(b) => BoolSetting { value: b, rewrite_default: false },
        None => BoolSetting { value: default, rewrite_default: true },
    }
}

/// The message refusing a list of preset durations of the wrong length.
pub open spec fn spec_duration_count_error(n: nat) -> Seq<char> {
    "expected 3 durations, got "@ + spec_decimal(n)
}

/// Preset durations as the frontend sends them: exactly three.
pub fn validate_preset_durations(durations: &Vec<u64>) -> (r: Result<[u64; 3], String>)
    ensures
        durations@.len() == 3 <==> r is Ok,
        r matches Ok(d) ==> d@ == durations@,
        r matches Err(e) ==> e@ == spec_duration_count_error(durations@.len()),
{
    if durations.len() != 3 {
        let mut msg: Vec<char> = Vec::new();
        let prefix = "expected 3 durations, got ";
        let n = prefix.unicode_len();
        let mut i: usize = 0;
        while i < n
            invariant
                n == prefix@.len(),
                i <= n,
                msg@ == prefix@.take(i as int),
            decreases n - i,
        {
            msg.push(prefix.get_char(i));
            proof {
                assert(prefix@.take(i as int + 1) =~= prefix@.take(i as int).push(prefix@[i as int]));
            }
            i += 1;
        }
        let digits = decimal(durations.len() as u64);
        let ghost head = msg@;
        let mut j: usize = 0;
        while j < digits.len()
            invariant
                j <= digits@.len(),
                msg@ == head + digits@.take(j as int),
            decreases digits.len() - j,
        {
            msg.push(digits[j]);
            proof {
                assert(digits@.take(j as int + 1) =~= digits@.take(j as int).push(digits@[j as int]));
            }
            j += 1;
        }
        proof {
            assert(prefix@.take(n as int) =~= prefix@);
            assert(digits@.take(digits@.len() as int) =~= digits@);
            assert(msg@ =~= spec_duration_count_error(durations@.len()));
        }
        return Err(string_from_chars(&msg));
    }
    let d = [durations[0], durations[1], durations[2]];
    proof {
        assert(d@ =~= durations@);
    }
    Ok(d)
}

/// What an exit request is answered.
#[derive(Debug, Clone, Copy, PartialEq, Eq, Structural)]
pub enum ExitAnswer {
    /// Every window closed but no exit was asked for: stay in the tray.
    Stay,
    /// Hold the exit and clean up first; the clean-up exits afterwards.
    HoldAndCleanUp,
    /// The clean-up is done: let the process go.
    Allow,
}

pub fn exit_answer(exit_code: Option<i32>, cleanup_done: bool) -> (r: ExitAnswer)
    ensures
        exit_code is None ==> r == ExitAnswer::Stay,
        exit_code is Some && !cleanup_done ==> r == ExitAnswer::HoldAndCleanUp,
        exit_code is Some && cleanup_done ==> r == ExitAnswer::Allow,
{
    match exit_code {
        None => ExitAnswer::Stay,
        Some(_) => if cleanup_done {
            ExitAnswer::Allow
        } else {
            ExitAnswer::HoldAndCleanUp
        },
    }
}

} // verus!
