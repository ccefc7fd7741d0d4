//! The session engine of the wall-clock generation: Idle → Forward →
//! (Settling →) Sabi → Reverse → Idle, advanced by the time elapsed since a
//! phase began.  Channel intensities are floating point and stay with the
//! caller, which reports whether every channel is full or spent.

use vstd::prelude::*;

use crate::text::{
    decimal, lemma_decimal_reads_back, lemma_pad2_value, pad2, spec_decimal, spec_digits_value,
    spec_pad2, string_from_chars,
};

verus! {

pub const DEFAULT_WORK_DURATION_MINUTES: u32 = 50;
pub const DEFAULT_REVERSE_MAX_DURATION_MS: u64 = 30_000;
pub const MAX_SETTLING_MS: u64 = 15_000;
pub const MIN_SUPPORTED_WORK_DURATION_MINUTES: u32 = 2;
pub const MAX_WORK_DURATION_MINUTES: u32 = 120;
pub const LOOP_INTERVAL_MS: u64 = 250;
pub const FAST_LOOP_INTERVAL_MS: u64 = 33;

#[derive(Debug, Clone, Copy, PartialEq, Eq, Structural)]
pub enum SessionPhase {
    Idle,
    Forward { elapsed_ms: u64, target_duration_ms: u64 },
    Settling { elapsed_ms: u64 },
    Sabi,
    Reverse { elapsed_ms: u64, max_duration_ms: u64 },
}

pub open spec fn spec_phase_label(p: SessionPhase) -> Seq<char> {
    match p {
        SessionPhase::Idle => "Idle"@,
        SessionPhase::Forward { .. } => "Forward"@,
        SessionPhase::Settling { .. } => "Settling"@,
        SessionPhase::Sabi => "Sabi"@,
        SessionPhase::Reverse { .. } => "Reverse"@,
    }
}

impl SessionPhase {
    pub fn label(&self) -> (r: &'static str)
        ensures
            r@ == spec_phase_label(*self),
    {
        match self {
            SessionPhase::Idle => "Idle",
            SessionPhase::Forward { .. } => "Forward",
            SessionPhase::Settling { .. } => "Settling",
            SessionPhase::Sabi => "Sabi",
            SessionPhase::Reverse { .. } => "Reverse",
        }
    }

    pub fn is_idle(&self) -> (r: bool)
        ensures
            r == (*self is Idle),
    {
        match self {
            SessionPhase::Idle => true,
            _ => false,
        }
    }

    pub fn is_active(&self) -> (r: bool)
        ensures
            r == !(*self is Idle),
    {
        match self {
            SessionPhase::Idle => false,
            _ => true,
        }
    }
}

/// What the caller knows of its channels: whether every intensity reached
/// the top (`>= 0.99`) and whether every intensity is spent (`<= 0.01`).
#[derive(Debug, Clone, Copy, PartialEq, Eq, Structural)]
pub struct ChannelLevels {
    pub all_full: bool,
    pub all_spent: bool,
}

/// The timing state of a session; the channels themselves are the caller's.
#[derive(Debug, Clone, Copy, PartialEq, Eq, Structural)]
pub struct SessionEngine {
    pub phase: SessionPhase,
    pub work_duration_minutes: u32,
    pub reverse_max_duration_ms: u64,
    pub phase_started_at_ms: u64,
}

/// What the caller must do to its channels after a step.
#[derive(Debug, Clone, Copy, PartialEq, Eq, Structural)]
pub enum ChannelEffect {
    Keep,
    /// A phase that fades was entered: each channel records its current
    /// intensity as the starting point.
    SnapshotForPhaseEntry,
    /// The session ended: drop every channel.
    Clear,
}

pub open spec fn spec_elapsed(e: SessionEngine, now_ms: u64) -> u64 {
    if now_ms >= e.phase_started_at_ms {
        (now_ms - e.phase_started_at_ms) as u64
    } else {
        0
    }
}

/// The steps on which the engine gives up: Settling outlived its limit with
/// a channel short of full, or Reverse outlived its limit with a channel
/// not yet spent.
pub open spec fn spec_advance_fails(e: SessionEngine, now_ms: u64, levels: ChannelLevels) -> bool {
    let elapsed = spec_elapsed(e, now_ms);
    match e.phase {
        SessionPhase::Settling { .. } => elapsed >= MAX_SETTLING_MS && !levels.all_full,
        SessionPhase::Reverse { max_duration_ms, .. } => !levels.all_spent && elapsed
            >= max_duration_ms,
        _ => false,
    }
}

pub open spec fn spec_advance(e: SessionEngine, now_ms: u64, levels: ChannelLevels) -> (
    SessionEngine,
    ChannelEffect,
) {
    let elapsed = spec_elapsed(e, now_ms);
    match e.phase {
        SessionPhase::Forward { target_duration_ms, .. } => if elapsed >= target_duration_ms {
            (
                SessionEngine { phase: SessionPhase::Sabi, phase_started_at_ms: now_ms, ..e },
                ChannelEffect::Keep,
            )
        } else {
            (
                SessionEngine {
                    phase: SessionPhase::Forward { elapsed_ms: elapsed, target_duration_ms },
                    ..e
                },
                ChannelEffect::Keep,
            )
        },
        SessionPhase::Settling { .. } => if elapsed >= MAX_SETTLING_MS {
            (
                SessionEngine { phase: SessionPhase::Sabi, phase_started_at_ms: now_ms, ..e },
                ChannelEffect::Keep,
            )
        } else {
            (
                SessionEngine { phase: SessionPhase::Settling { elapsed_ms: elapsed }, ..e },
                ChannelEffect::Keep,
            )
        },
        SessionPhase::Reverse { max_duration_ms, .. } => if levels.all_spent {
            (SessionEngine { phase: SessionPhase::Idle, ..e }, ChannelEffect::Clear)
        } else {
            (
                SessionEngine {
                    phase: SessionPhase::Reverse { elapsed_ms: elapsed, max_duration_ms },
                    ..e
                },
                ChannelEffect::Keep,
            )
        },
        _ => (e, ChannelEffect::Keep),
    }
}

/// The session length a request for `minutes` gets.
pub open spec fn spec_clamp_minutes(minutes: u32) -> u32 {
    if minutes < MIN_SUPPORTED_WORK_DURATION_MINUTES {
        MIN_SUPPORTED_WORK_DURATION_MINUTES
    } else if minutes > MAX_WORK_DURATION_MINUTES {
        MAX_WORK_DURATION_MINUTES
    } else {
        minutes
    }
}

pub open spec fn spec_forward_progress_percent(p: SessionPhase) -> u64 {
    match p {
        SessionPhase::Forward { elapsed_ms, target_duration_ms } => {
            let target: int = if target_duration_ms == 0 { 1 } else { target_duration_ms as int };
            let pct = (elapsed_ms as int * 100) / target;
            if pct > 100 { 100 } else { pct as u64 }
        },
        _ => 0,
    }
}

pub open spec fn spec_tray_title(p: SessionPhase) -> Seq<char> {
    match p {
        SessionPhase::Forward { elapsed_ms, target_duration_ms } => {
            let remaining: nat = if target_duration_ms >= elapsed_ms {
                ((target_duration_ms - elapsed_ms) / 1000) as nat
            } else {
                0
            };
            spec_decimal(remaining / 60) + ":"@ + spec_pad2(spec_decimal(remaining % 60))
        },
        SessionPhase::Settling { .. } => "Settling..."@,
        SessionPhase::Sabi => "Sabi"@,
        SessionPhase::Reverse { .. } => "Recovering"@,
        SessionPhase::Idle => "Idle"@,
    }
}

impl SessionEngine {
    /// An idle engine with the default settings.
    pub fn new() -> (r: Self)
        ensures
            r.phase == SessionPhase::Idle,
            r.work_duration_minutes == DEFAULT_WORK_DURATION_MINUTES,
            r.reverse_max_duration_ms == DEFAULT_REVERSE_MAX_DURATION_MS,
            r.phase_started_at_ms == 0,
    {
        SessionEngine {
            phase: SessionPhase::Idle,
            work_duration_minutes: DEFAULT_WORK_DURATION_MINUTES,
            reverse_max_duration_ms: DEFAULT_REVERSE_MAX_DURATION_MS,
            phase_started_at_ms: 0,
        }
    }

    fn elapsed(&self, now_ms: u64) -> (r: u64)
        ensures
            r == spec_elapsed(*self, now_ms),
    {
        if now_ms >= self.phase_started_at_ms {
            now_ms - self.phase_started_at_ms
        } else {
            0
        }
    }

    /// Moves the phase on by the wall clock.
    pub fn advance_phase(&mut self, now_ms: u64, levels: ChannelLevels) -> (r: ChannelEffect)
        requires
            !spec_advance_fails(*old(self), now_ms, levels),
        ensures
            (*final(self), r) == spec_advance(*old(self), now_ms, levels),
    {
        let elapsed_ms = self.elapsed(now_ms);
        match self.phase {
            SessionPhase::Forward { target_duration_ms, .. } => {
                if elapsed_ms >= target_duration_ms {
                    self.enter_sabi(now_ms);
                } else {
                    self.phase = SessionPhase::Forward { elapsed_ms, target_duration_ms };
                }
                ChannelEffect::Keep
            },
            SessionPhase::Settling { .. } => {
                if elapsed_ms >= MAX_SETTLING_MS {
                    self.enter_sabi(now_ms);
                } else {
                    self.phase = SessionPhase::Settling { elapsed_ms };
                }
                ChannelEffect::Keep
            },
            SessionPhase::Reverse { max_duration_ms, .. } => {
                if levels.all_spent {
                    self.enter_idle();
                    ChannelEffect::Clear
                } else {
                    self.phase = SessionPhase::Reverse { elapsed_ms, max_duration_ms };
                    ChannelEffect::Keep
                }
            },
            _ => ChannelEffect::Keep,
        }
    }

    /// One step of the loop: advance, then the time the channels move by.
    pub fn tick(&mut self, now_ms: u64, levels: ChannelLevels) -> (r: (ChannelEffect, u64))
        requires
            !spec_advance_fails(*old(self), now_ms, levels),
        ensures
            (*final(self), r.0) == spec_advance(*old(self), now_ms, levels),
            r.1 == (if spec_elapsed(*old(self), now_ms) < LOOP_INTERVAL_MS {
                spec_elapsed(*old(self), now_ms)
            } else {
                LOOP_INTERVAL_MS
            }),
    {
        let elapsed_ms = self.elapsed(now_ms);
        let effect = self.advance_phase(now_ms, levels);
        let dt_ms = if elapsed_ms < LOOP_INTERVAL_MS {
            elapsed_ms
        } else {
            LOOP_INTERVAL_MS
        };
        (effect, dt_ms)
    }

    /// Elapsed and target seconds of the phase, as the frontend shows them.
    pub fn payload_seconds(&self) -> (r: (u64, u64))
        ensures
            r == (match self.phase {
                SessionPhase::Forward { elapsed_ms, target_duration_ms } => (
                    elapsed_ms / 1000,
                    target_duration_ms / 1000,
                ),
                SessionPhase::Settling { elapsed_ms } => (elapsed_ms / 1000, 0),
                SessionPhase::Reverse { elapsed_ms, max_duration_ms } => (
                    elapsed_ms / 1000,
                    max_duration_ms / 1000,
                ),
                _ => (0u64, 0u64),
            }),
    {
        match self.phase {
            SessionPhase::Forward { elapsed_ms, target_duration_ms } => (
                elapsed_ms / 1000,
                target_duration_ms / 1000,
            ),
            SessionPhase::Settling { elapsed_ms } => (elapsed_ms / 1000, 0),
            SessionPhase::Reverse { elapsed_ms, max_duration_ms } => (
                elapsed_ms / 1000,
                max_duration_ms / 1000,
            ),
            _ => (0, 0),
        }
    }

    pub fn enter_forward(&mut self, work_duration_minutes: u32, now_ms: u64)
        ensures
            final(self).work_duration_minutes == work_duration_minutes,
            final(self).phase == (SessionPhase::Forward {
                elapsed_ms: 0,
                target_duration_ms: (work_duration_minutes * 60_000) as u64,
            }),
            final(self).phase_started_at_ms == now_ms,
            final(self).reverse_max_duration_ms == old(self).reverse_max_duration_ms,
    {
        self.work_duration_minutes = work_duration_minutes;
        let target_duration_ms = (work_duration_minutes as u64) * 60_000;
        self.phase = SessionPhase::Forward { elapsed_ms: 0, target_duration_ms };
        self.phase_started_at_ms = now_ms;
    }

    pub fn enter_settling(&mut self, now_ms: u64)
        ensures
            *final(self) == (SessionEngine {
                phase: SessionPhase::Settling { elapsed_ms: 0 },
                phase_started_at_ms: now_ms,
                ..*old(self)
            }),
    {
        self.phase = SessionPhase::Settling { elapsed_ms: 0 };
        self.phase_started_at_ms = now_ms;
    }

    pub fn enter_sabi(&mut self, now_ms: u64)
        ensures
            *final(self) == (SessionEngine {
                phase: SessionPhase::Sabi,
                phase_started_at_ms: now_ms,
                ..*old(self)
            }),
    {
        self.phase = SessionPhase::Sabi;
        self.phase_started_at_ms = now_ms;
    }

    pub fn enter_reverse(&mut self, now_ms: u64)
        ensures
            *final(self) == (SessionEngine {
                phase: SessionPhase::Reverse {
                    elapsed_ms: 0,
                    max_duration_ms: old(self).reverse_max_duration_ms,
                },
                phase_started_at_ms: now_ms,
                ..*old(self)
            }),
    {
        self.phase = SessionPhase::Reverse {
            elapsed_ms: 0,
            max_duration_ms: self.reverse_max_duration_ms,
        };
        self.phase_started_at_ms = now_ms;
    }

    /// Ends the session; the caller drops its channels.
    pub fn enter_idle(&mut self)
        ensures
            *final(self) == (SessionEngine { phase: SessionPhase::Idle, ..*old(self) }),
    {
        self.phase = SessionPhase::Idle;
    }

    /// Settling and Reverse fade the screen and want the fast loop.
    pub fn needs_fast_tick(&self) -> (r: bool)
        ensures
            r == (self.phase is Settling || self.phase is Reverse),
    {
        match self.phase {
            SessionPhase::Settling { .. } | SessionPhase::Reverse { .. } => true,
            _ => false,
        }
    }

    /// The pause before the next step.
    pub fn next_interval_ms(&self) -> (r: u64)
        ensures
            r == (if self.phase is Settling || self.phase is Reverse {
                FAST_LOOP_INTERVAL_MS
            } else {
                LOOP_INTERVAL_MS
            }),
    {
        if self.needs_fast_tick() {
            FAST_LOOP_INTERVAL_MS
        } else {
            LOOP_INTERVAL_MS
        }
    }

    /// Starts a session of `work_duration_minutes`, clamped to the
    /// supported range; a request under the minimum ends the session
    /// instead.  Returns whether a session started (the caller then
    /// rebuilds its channels) or the channels are to be dropped.
    pub fn start_session(
        &mut self,
        work_duration_minutes: u32,
        reverse_max_duration_ms: Option<u64>,
        now_ms: u64,
    ) -> (r: bool)
        ensures
            r == (work_duration_minutes >= MIN_SUPPORTED_WORK_DURATION_MINUTES),
            !r ==> *final(self) == (SessionEngine { phase: SessionPhase::Idle, ..*old(self) }),
            r ==> *final(self) == (SessionEngine {
                phase: SessionPhase::Forward {
                    elapsed_ms: 0,
                    target_duration_ms: (spec_clamp_minutes(work_duration_minutes) * 60_000) as u64,
                },
                work_duration_minutes: spec_clamp_minutes(work_duration_minutes),
                reverse_max_duration_ms: match reverse_max_duration_ms {
                    Some(v) => v,
                    None => DEFAULT_REVERSE_MAX_DURATION_MS,
                },
                phase_started_at_ms: now_ms,
            }),
    {
        if work_duration_minutes < MIN_SUPPORTED_WORK_DURATION_MINUTES {
            self.enter_idle();
            return false;
        }
        let clamped = if work_duration_minutes > MAX_WORK_DURATION_MINUTES {
            MAX_WORK_DURATION_MINUTES
        } else {
            work_duration_minutes
        };
        self.reverse_max_duration_ms = match reverse_max_duration_ms {
            Some(v) => v,
            None => DEFAULT_REVERSE_MAX_DURATION_MS,
        };
        self.enter_forward(clamped, now_ms);
        true
    }

    /// A break taken early: Forward moves to Settling; any other phase
    /// stays.
    pub fn take_break_now(&mut self, now_ms: u64) -> (r: ChannelEffect)
        ensures
            old(self).phase is Forward ==> r == ChannelEffect::SnapshotForPhaseEntry
                && *final(self) == (SessionEngine {
                phase: SessionPhase::Settling { elapsed_ms: 0 },
                phase_started_at_ms: now_ms,
                ..*old(self)
            }),
            !(old(self).phase is Forward) ==> r == ChannelEffect::Keep && *final(self) == *old(
                self,
            ),
    {
        match self.phase {
            SessionPhase::Forward { .. } => {
                self.enter_settling(now_ms);
                ChannelEffect::SnapshotForPhaseEntry
            },
            _ => ChannelEffect::Keep,
        }
    }

    /// Recovery requested: Forward, Settling and Sabi move to Reverse.
    pub fn start_reverse(&mut self, now_ms: u64) -> (r: ChannelEffect)
        ensures
            (old(self).phase is Forward || old(self).phase is Settling || old(self).phase is Sabi)
                ==> r == ChannelEffect::SnapshotForPhaseEntry && *final(self) == (SessionEngine {
                phase: SessionPhase::Reverse {
                    elapsed_ms: 0,
                    max_duration_ms: old(self).reverse_max_duration_ms,
                },
                phase_started_at_ms: now_ms,
                ..*old(self)
            }),
            !(old(self).phase is Forward || old(self).phase is Settling || old(self).phase is Sabi)
                ==> r == ChannelEffect::Keep && *final(self) == *old(self),
    {
        match self.phase {
            SessionPhase::Forward { .. } | SessionPhase::Settling { .. } | SessionPhase::Sabi => {
                self.enter_reverse(now_ms);
                ChannelEffect::SnapshotForPhaseEntry
            },
            _ => ChannelEffect::Keep,
        }
    }
}

/// The percentage the taskbar progress bar shows.
pub fn forward_progress_percent(phase: SessionPhase) -> (r: u64)
    ensures
        r == spec_forward_progress_percent(phase),
        r <= 100,
{
    match phase {
        SessionPhase::Forward { elapsed_ms, target_duration_ms } => {
            let target: u64 = if target_duration_ms == 0 {
                1
            } else {
                target_duration_ms
            };
            let pct: u128 = (elapsed_ms as u128 * 100) / (target as u128);
            if pct > 100 {
                100
            } else {
                pct as u64
            }
        },
        _ => 0,
    }
}

/// The tray title: the remaining work time as `m:ss` during Forward, a
/// word otherwise.
pub fn tray_title(phase: SessionPhase) -> (r: String)
    ensures
        r@ == spec_tray_title(phase),
{
    match phase {
        SessionPhase::Forward { elapsed_ms, target_duration_ms } => {
            let remaining_s: u64 = if target_duration_ms >= elapsed_ms {
                (target_duration_ms - elapsed_ms) / 1000
            } else {
                0
            };
            let mut chars = decimal(remaining_s / 60);
            chars.push(':');
            let mut secs = pad2(decimal(remaining_s % 60));
            let ghost head = chars@;
            chars.append(&mut secs);
            proof {
                assert(chars@ =~= spec_decimal((remaining_s / 60) as nat) + ":"@ + spec_pad2(
                    spec_decimal((remaining_s % 60) as nat),
                )) by {
                    reveal_strlit(":");
                }
            }
            string_from_chars(&chars)
        },
        SessionPhase::Settling { .. } => String::from_str("Settling..."),
        SessionPhase::Sabi => String::from_str("Sabi"),
        SessionPhase::Reverse { .. } => String::from_str("Recovering"),
        SessionPhase::Idle => String::from_str("Idle"),
    }
}

/// Whether a payload's phase differs from the last one emitted (the first
/// always does).
pub fn phase_changed(previous: Option<SessionPhase>, next: SessionPhase) -> (r: bool)
    ensures
        r == match previous {
            Some(p) => spec_phase_label(p) != spec_phase_label(next),
            None => true,
        },
{
    match previous {
        Some(p) => {
            let a = p.label();
            let b = next.label();
            !crate::text::str_eq(a, b)
        },
        None => true,
    }
}

/// The phase a phase moves on to by itself.
pub open spec fn spec_next_phase_kind(p: SessionPhase, q: SessionPhase) -> bool {
    match p {
        SessionPhase::Forward { .. } => q is Forward || q is Sabi,
        SessionPhase::Settling { .. } => q is Settling || q is Sabi,
        SessionPhase::Reverse { .. } => q is Reverse || q is Idle,
        _ => q == p,
    }
}

/// Time moves the session along its cycle only (Forward and Settling to
/// Sabi, Reverse to Idle; Idle and Sabi wait for a request), keeps the
/// session's settings, and restarts the phase clock exactly when the phase
/// changes to Sabi.
pub proof fn lemma_advance_follows_cycle(e: SessionEngine, now_ms: u64, levels: ChannelLevels)
    ensures
        spec_next_phase_kind(e.phase, spec_advance(e, now_ms, levels).0.phase),
        spec_advance(e, now_ms, levels).0.work_duration_minutes == e.work_duration_minutes,
        spec_advance(e, now_ms, levels).0.reverse_max_duration_ms == e.reverse_max_duration_ms,
        spec_advance(e, now_ms, levels).0.phase is Sabi && !(e.phase is Sabi) ==> spec_advance(
            e,
            now_ms,
            levels,
        ).0.phase_started_at_ms == now_ms,
        (spec_advance(e, now_ms, levels).1 is Clear) <==> (e.phase is Reverse && levels.all_spent),
{
}

/// A session started with an accepted length counts down exactly that many
/// minutes, clamped to the supported range.
pub proof fn lemma_started_session_length(minutes: u32)
    requires
        minutes >= MIN_SUPPORTED_WORK_DURATION_MINUTES,
    ensures
        MIN_SUPPORTED_WORK_DURATION_MINUTES <= spec_clamp_minutes(minutes) <= MAX_WORK_DURATION_MINUTES,
        minutes <= MAX_WORK_DURATION_MINUTES ==> spec_clamp_minutes(minutes) == minutes,
{
}

/// How the wall clock moves each phase, with `elapsed` the time since the
/// phase began (none when the clock stands before it).  Work (Forward)
/// records the elapsed time until its target is reached, then the break
/// (Sabi) begins now; Settling does the same with its fixed limit; the
/// fade back (Reverse) records its elapsed time until every channel is
/// spent, then the session is over (Idle) and the channels are dropped.
/// Idle and the break wait for a request.  No step touches the settings.
pub proof fn lemma_advance_timing(e: SessionEngine, now_ms: u64, levels: ChannelLevels)
    ensures
        ({
            let elapsed: int = if now_ms >= e.phase_started_at_ms {
                now_ms - e.phase_started_at_ms
            } else {
                0
            };
            let (e2, effect) = spec_advance(e, now_ms, levels);
            &&& e2.work_duration_minutes == e.work_duration_minutes
            &&& e2.reverse_max_duration_ms == e.reverse_max_duration_ms
            &&& e.phase matches SessionPhase::Forward { target_duration_ms, .. } ==> if elapsed
                >= target_duration_ms {
                e2.phase == SessionPhase::Sabi && e2.phase_started_at_ms == now_ms && effect
                    == ChannelEffect::Keep
            } else {
                e2.phase == (SessionPhase::Forward {
                    elapsed_ms: elapsed as u64,
                    target_duration_ms,
                }) && e2.phase_started_at_ms == e.phase_started_at_ms && effect
                    == ChannelEffect::Keep
            }
            &&& e.phase is Settling ==> if elapsed >= MAX_SETTLING_MS {
                e2.phase == SessionPhase::Sabi && e2.phase_started_at_ms == now_ms && effect
                    == ChannelEffect::Keep
            } else {
                e2.phase == (SessionPhase::Settling { elapsed_ms: elapsed as u64 })
                    && e2.phase_started_at_ms == e.phase_started_at_ms && effect
                    == ChannelEffect::Keep
            }
            &&& e.phase matches SessionPhase::Reverse { max_duration_ms, .. } ==> if levels.all_spent {
                e2.phase == SessionPhase::Idle && effect == ChannelEffect::Clear
            } else {
                e2.phase == (SessionPhase::Reverse { elapsed_ms: elapsed as u64, max_duration_ms })
                    && e2.phase_started_at_ms == e.phase_started_at_ms && effect
                    == ChannelEffect::Keep
            }
            &&& (e.phase is Idle || e.phase is Sabi) ==> e2 == e && effect == ChannelEffect::Keep
        }),
{
}

/// A step fails exactly when Settling has outlived its limit with a
/// channel still short of full, or the fade back has outlived its limit
/// with a channel not yet spent.
pub proof fn lemma_advance_failure(e: SessionEngine, now_ms: u64, levels: ChannelLevels)
    ensures
        ({
            let elapsed: int = if now_ms >= e.phase_started_at_ms {
                now_ms - e.phase_started_at_ms
            } else {
                0
            };
            spec_advance_fails(e, now_ms, levels) <==> ((e.phase is Settling && elapsed
                >= MAX_SETTLING_MS && !levels.all_full) || (e.phase matches SessionPhase::Reverse {
                max_duration_ms,
                ..
            } && elapsed >= max_duration_ms && !levels.all_spent))
        }),
{
}

/// The taskbar shows the share of the work time elapsed, in whole percent
/// rounded down and at most 100; outside work it shows nothing.
pub proof fn lemma_forward_percent(phase: SessionPhase)
    ensures
        !(phase is Forward) ==> spec_forward_progress_percent(phase) == 0,
        phase matches SessionPhase::Forward { elapsed_ms, target_duration_ms } ==> (
        target_duration_ms > 0 ==> {
            let p = spec_forward_progress_percent(phase) as int;
            &&& 0 <= p <= 100
            &&& p * target_duration_ms <= elapsed_ms * 100
            &&& p < 100 ==> elapsed_ms * 100 < (p + 1) * target_duration_ms
        }),
{
    if let SessionPhase::Forward { elapsed_ms, target_duration_ms } = phase {
        if target_duration_ms > 0 {
            let q = (elapsed_ms as int * 100) / (target_duration_ms as int);
            let t = target_duration_ms as int;
            let x = elapsed_ms as int * 100;
            assert(q * t <= x && x < (q + 1) * t) by (nonlinear_arith)
                requires
                    t > 0,
                    q == x / t,
            ;
            assert(q >= 0) by (nonlinear_arith)
                requires
                    t > 0,
                    x >= 0,
                    q == x / t,
            ;
            if q > 100 {
                assert(100 * t <= x) by (nonlinear_arith)
                    requires
                        q > 100,
                        q * t <= x,
                        t > 0,
                ;
            }
        }
    }
}

/// During work the tray title is the time left, whole seconds rounded
/// down, as minutes, a colon and two digits of seconds (under 60).
pub proof fn lemma_tray_title_reads_back(elapsed_ms: u64, target_duration_ms: u64)
    ensures
        ({
            let s = spec_tray_title(SessionPhase::Forward { elapsed_ms, target_duration_ms });
            let minutes = spec_digits_value(s.take(s.len() - 3));
            let seconds = spec_digits_value(s.skip(s.len() - 2));
            let left: int = if elapsed_ms <= target_duration_ms {
                (target_duration_ms - elapsed_ms) / 1000
            } else {
                0
            };
            &&& s.len() >= 4
            &&& s[s.len() - 3] == ':'
            &&& 0 <= seconds < 60
            &&& minutes * 60 + seconds == left
        }),
{
    let remaining: nat = if target_duration_ms >= elapsed_ms {
        ((target_duration_ms - elapsed_ms) / 1000) as nat
    } else {
        0
    };
    let m = remaining / 60;
    let sec = remaining % 60;
    let a = spec_decimal(m);
    let b = spec_pad2(spec_decimal(sec));
    lemma_decimal_reads_back(m);
    lemma_decimal_reads_back(sec);
    lemma_pad2_value(spec_decimal(sec));
    if sec >= 10 {
        lemma_decimal_reads_back(sec / 10);
        assert(spec_decimal(sec).drop_last() =~= spec_decimal(sec / 10));
    }
    assert(b.len() == 2);
    let s = spec_tray_title(SessionPhase::Forward { elapsed_ms, target_duration_ms });
    reveal_strlit(":");
    assert(s =~= a + ":"@ + b);
    assert(s.take(s.len() - 3) =~= a);
    assert(s.skip(s.len() - 2) =~= b);
    assert(m * 60 + sec == remaining);
}

} // verus!
