//! The renderers' decisions: which sub-renderer runs for which channel
//! switches, when a frame is applied or skipped, and the small formats the
//! macOS saturation filter writes (profile names, ICC `XYZ ` tags).  The
//! colour math and the system calls stay with the caller.

use vstd::prelude::*;

use crate::channel_types::ChannelValue;
use crate::engine::RendererEvent;
use crate::text::{
    decimal, lemma_decimal_reads_back, lemma_zeros_prefix_value, spec_decimal, spec_digits_value,
    string_from_chars,
};
use crate::update::Update;

verus! {

/// Name the Windows colour transformer reports in its events.
pub const WIN_MAG_API_RENDERER_NAME: &'static str = "Windows-MagnificationAPI-Color-Transformer";
/// Name the macOS saturation filter reports in its events.
pub const MAC_SATURATION_FILTER_NAME: &'static str = "MacOS-ColorSync-Saturation-Filter";

/// Switch states are indexed Saturation, ColorTemp, Brightness.
pub open spec fn spec_any_on(states: [bool; 3]) -> bool {
    states@[0] || states@[1] || states@[2]
}

/// On Windows one colour transformer serves every channel: it runs when
/// any channel is on.
pub fn windows_renderer_on(states: [bool; 3]) -> (r: bool)
    ensures
        r == spec_any_on(states),
{
    states[0] || states[1] || states[2]
}

/// On macOS the gamma tweaker serves colour temperature and brightness,
/// the saturation filter saturation.
pub fn mac_renderers_on(states: [bool; 3]) -> (r: (bool, bool))
    ensures
        r.0 == (states@[1] || states@[2]),
        r.1 == states@[0],
{
    (states[1] || states[2], states[0])
}

/// What a sub-renderer does with a frame.
#[derive(Debug, Clone, Copy, PartialEq, Eq, Structural)]
pub enum RenderDecision {
    /// It has not started: skip and report it.
    NotStarted,
    /// No channel changed: skip and report it.
    Unchanged,
    /// Compute the colour transform from the three values and apply it.
    Apply,
}

/// The guard in front of every render: a renderer that has not started
/// renders nothing, and a frame in which no channel changed is skipped.
pub fn render_decision(started: bool, frame: &[Update<ChannelValue>; 3]) -> (r: RenderDecision)
    ensures
        !started ==> r == RenderDecision::NotStarted,
        started && !(frame@[0] is Changed || frame@[1] is Changed || frame@[2] is Changed) ==> r
            == RenderDecision::Unchanged,
        started && (frame@[0] is Changed || frame@[1] is Changed || frame@[2] is Changed) ==> r
            == RenderDecision::Apply,
{
    if !started {
        return RenderDecision::NotStarted;
    }
    if !frame[0].is_changed() && !frame[1].is_changed() && !frame[2].is_changed() {
        RenderDecision::Unchanged
    } else {
        RenderDecision::Apply
    }
}

/// The event a skipped render reports.
pub fn skipped_render_event(decision: RenderDecision, renderer_name: &'static str) -> (r: Option<
    RendererEvent,
>)
    ensures
        decision == RenderDecision::NotStarted ==> (r matches Some(
            RendererEvent::RenderUnappliedDueToNotStartupped { renderer_name: n },
        ) && n == renderer_name),
        decision == RenderDecision::Unchanged ==> (r matches Some(
            RendererEvent::RenderUnappliedDueToUnchanged { renderer_name: n },
        ) && n == renderer_name),
        decision == RenderDecision::Apply ==> r is None,
{
    match decision {
        RenderDecision::NotStarted => Some(
            RendererEvent::RenderUnappliedDueToNotStartupped { renderer_name },
        ),
        RenderDecision::Unchanged => Some(RendererEvent::RenderUnappliedDueToUnchanged { renderer_name }),
        RenderDecision::Apply => None,
    }
}

/// The inputs of a colour transform, read from a frame by channel:
/// saturation from the saturation slot, kelvin from the colour-temperature
/// slot, brightness from the brightness slot.
pub open spec fn spec_transform_inputs(frame: [Update<ChannelValue>; 3]) -> Option<(u64, u32, u64)> {
    match (frame@[0].value(), frame@[1].value(), frame@[2].value()) {
        (
            ChannelValue::Saturation(s),
            ChannelValue::ColorTempKelvin(k),
            ChannelValue::Brightness(b),
        ) => Some((s, k, b)),
        _ => None,
    }
}

/// The (saturation, kelvin, brightness) a frame hands to the colour
/// transform; `None` when a slot holds another channel's value.
pub fn transform_inputs(frame: &[Update<ChannelValue>; 3]) -> (r: Option<(u64, u32, u64)>)
    ensures
        r == spec_transform_inputs(*frame),
{
    match (frame[0].get_value(), frame[1].get_value(), frame[2].get_value()) {
        (
            ChannelValue::Saturation(s),
            ChannelValue::ColorTempKelvin(k),
            ChannelValue::Brightness(b),
        ) => Some((*s, *k, *b)),
        _ => None,
    }
}

/// What starting the Windows transformer does.
#[derive(Debug, Clone, Copy, PartialEq, Eq, Structural)]
pub enum StartupPlan {
    /// Already started: nothing.
    AlreadyStarted,
    /// Initialise the API, then apply the identity transform.
    InitialiseThenIdentity,
}

pub fn startup_plan(started: bool) -> (r: StartupPlan)
    ensures
        r == (if started {
            StartupPlan::AlreadyStarted
        } else {
            StartupPlan::InitialiseThenIdentity
        }),
{
    if started {
        StartupPlan::AlreadyStarted
    } else {
        StartupPlan::InitialiseThenIdentity
    }
}

/// What shutting the Windows transformer down does.
#[derive(Debug, Clone, Copy, PartialEq, Eq, Structural)]
pub enum ShutdownPlan {
    /// Never started: report the shutdown complete at once.
    ReportCompleted,
    /// Apply the identity transform, then release the API (which reports
    /// completion).
    IdentityThenRelease,
}

pub fn shutdown_plan(started: bool) -> (r: ShutdownPlan)
    ensures
        r == (if started {
            ShutdownPlan::IdentityThenRelease
        } else {
            ShutdownPlan::ReportCompleted
        }),
{
    if started {
        ShutdownPlan::IdentityThenRelease
    } else {
        ShutdownPlan::ReportCompleted
    }
}

/// The Windows Magnification API colour transformer, as the engine thread
/// sees it; whether the API is initialised is shared with the main thread
/// and passed in where it matters.
#[derive(Debug, Clone, Copy)]
pub struct WinMagAPIColorTransformer {
    pub name: &'static str,
}

impl WinMagAPIColorTransformer {
    pub fn new() -> (r: Self)
        ensures
            r.name@ == WIN_MAG_API_RENDERER_NAME@,
    {
        WinMagAPIColorTransformer { name: WIN_MAG_API_RENDERER_NAME }
    }
}

/// What the macOS saturation filter does with a saturation bucket (the
/// clamped saturation times 100, rounded).
#[derive(Debug, Clone, Copy, PartialEq, Eq, Structural)]
pub enum BucketDecision {
    NotStarted,
    /// The same bucket as the last applied one.
    Unchanged,
    Apply,
}

pub open spec fn spec_bucket_decision(
    switch_on: bool,
    last_bucket: Option<u32>,
    bucket: u32,
) -> BucketDecision {
    if !switch_on {
        BucketDecision::NotStarted
    } else if last_bucket == Some(bucket) {
        BucketDecision::Unchanged
    } else {
        BucketDecision::Apply
    }
}

pub fn bucket_decision(switch_on: bool, last_bucket: Option<u32>, bucket: u32) -> (r: BucketDecision)
    ensures
        r == spec_bucket_decision(switch_on, last_bucket, bucket),
        !switch_on ==> r == BucketDecision::NotStarted,
        switch_on && last_bucket == Some(bucket) ==> r == BucketDecision::Unchanged,
        switch_on && last_bucket != Some(bucket) ==> r == BucketDecision::Apply,
{
    if !switch_on {
        return BucketDecision::NotStarted;
    }
    match last_bucket {
        Some(b) => if b == bucket {
            BucketDecision::Unchanged
        } else {
            BucketDecision::Apply
        },
        None => BucketDecision::Apply,
    }
}

/// The state the macOS saturation filter keeps between frames: whether its
/// startup captured the baseline profile, and the bucket of the last profile
/// ColorSync accepted.
#[derive(Debug, Clone, Copy, PartialEq, Eq, Structural)]
pub struct SaturationFilterState {
    pub switch_on: bool,
    pub last_bucket: Option<u32>,
}

/// The state after a profile for `bucket` was handed to ColorSync: the
/// bucket is remembered only when ColorSync accepted it.
pub open spec fn spec_after_saturation_apply(last: Option<u32>, bucket: u32, ok: bool) -> Option<
    u32,
> {
    if ok {
        Some(bucket)
    } else {
        last
    }
}

pub fn after_saturation_apply(last: Option<u32>, bucket: u32, ok: bool) -> (r: Option<u32>)
    ensures
        r == spec_after_saturation_apply(last, bucket, ok),
{
    if ok {
        Some(bucket)
    } else {
        last
    }
}

impl SaturationFilterState {
    /// Not started, nothing applied.
    pub fn new() -> (r: Self)
        ensures
            !r.switch_on,
            r.last_bucket is None,
    {
        SaturationFilterState { switch_on: false, last_bucket: None }
    }

    /// Startup: when the baseline profile was captured the filter is on and
    /// has applied nothing yet; otherwise the state stays as it was.
    pub fn on_startup(&mut self, captured: bool)
        ensures
            captured ==> final(self).switch_on && final(self).last_bucket is None,
            !captured ==> *final(self) == *old(self),
    {
        if captured {
            self.switch_on = true;
            self.last_bucket = None;
        }
    }

    /// Shutdown: the filter is off and forgets its bucket.  The result says
    /// whether the display profile must be reset (the filter was on).
    pub fn on_shutdown(&mut self) -> (reset: bool)
        ensures
            reset == old(self).switch_on,
            !final(self).switch_on,
            final(self).last_bucket is None,
    {
        let reset = self.switch_on;
        self.switch_on = false;
        self.last_bucket = None;
        reset
    }

    /// What a render with saturation bucket `bucket` does.
    pub fn decide(&self, bucket: u32) -> (r: BucketDecision)
        ensures
            r == spec_bucket_decision(self.switch_on, self.last_bucket, bucket),
    {
        bucket_decision(self.switch_on, self.last_bucket, bucket)
    }

    /// Records ColorSync's answer to the profile for `bucket` and gives the
    /// event the render reports: success remembers the bucket, a failure
    /// (carrying its message) leaves the state as it was.
    pub fn after_apply(&mut self, bucket: u32, outcome: Result<(), String>) -> (event: RendererEvent)
        ensures
            final(self).switch_on == old(self).switch_on,
            final(self).last_bucket == spec_after_saturation_apply(
                old(self).last_bucket,
                bucket,
                outcome is Ok,
            ),
            outcome is Ok ==> event == (RendererEvent::RenderSuccessful {
                renderer_name: MAC_SATURATION_FILTER_NAME,
            }),
            outcome matches Err(e) ==> event == (RendererEvent::RenderFailed {
                renderer_name: MAC_SATURATION_FILTER_NAME,
                error: e,
            }),
    {
        self.last_bucket = after_saturation_apply(self.last_bucket, bucket, outcome.is_ok());
        match outcome {
            Ok(()) => RendererEvent::RenderSuccessful { renderer_name: MAC_SATURATION_FILTER_NAME },
            Err(error) => RendererEvent::RenderFailed {
                renderer_name: MAC_SATURATION_FILTER_NAME,
                error,
            },
        }
    }
}

/// A bucket ColorSync accepted is skipped by the next render with the same
/// bucket; after a failure the same bucket is applied again.
pub proof fn lemma_applied_bucket_is_skipped(state: SaturationFilterState, bucket: u32, ok: bool)
    requires
        spec_bucket_decision(state.switch_on, state.last_bucket, bucket) == BucketDecision::Apply,
    ensures
        spec_bucket_decision(
            state.switch_on,
            spec_after_saturation_apply(state.last_bucket, bucket, ok),
            bucket,
        ) == (if ok {
            BucketDecision::Unchanged
        } else {
            BucketDecision::Apply
        }),
{
}

/// Which profile a display's saturation profiles are built from.
#[derive(Debug, Clone, Copy, PartialEq, Eq, Structural)]
pub enum BaselineChoice {
    /// The display's current profile (it is not one of ours).
    UseCurrent,
    /// The baseline stored for the display.
    UseStored,
    /// Reset the display to its factory profile and use that.
    ResetToFactory,
}

/// A display whose current profile is one of ours still shows a filter
/// left behind: its baseline is the stored one when that can be loaded
/// (known, on disk, a valid URL), else the factory profile.
pub fn baseline_choice(current_is_ours: bool, stored_usable: bool) -> (r: BaselineChoice)
    ensures
        !current_is_ours ==> r == BaselineChoice::UseCurrent,
        current_is_ours && stored_usable ==> r == BaselineChoice::UseStored,
        current_is_ours && !stored_usable ==> r == BaselineChoice::ResetToFactory,
{
    if !current_is_ours {
        BaselineChoice::UseCurrent
    } else if stored_usable {
        BaselineChoice::UseStored
    } else {
        BaselineChoice::ResetToFactory
    }
}

/// `{:03}`: zeros on the left up to three characters.
pub open spec fn spec_pad3(s: Seq<char>) -> Seq<char> {
    if s.len() >= 3 {
        s
    } else {
        Seq::new((3 - s.len()) as nat, |i: int| '0') + s
    }
}

/// File name of the profile for a saturation bucket.
pub open spec fn spec_profile_file_name(bucket: u32) -> Seq<char> {
    "inverse-saturation-"@ + spec_pad3(spec_decimal(bucket as nat)) + ".icc"@
}

/// The profile of a bucket under 1000 is named `inverse-saturation-`, the
/// bucket in three digits, and `.icc`.
pub proof fn lemma_profile_file_name(bucket: u32)
    requires
        bucket < 1000,
    ensures
        ({
            let s = spec_profile_file_name(bucket);
            let digits = s.subrange(19, 22);
            &&& s.len() == 26
            &&& s.take(19) == "inverse-saturation-"@
            &&& s.skip(22) == ".icc"@
            &&& spec_digits_value(digits) == bucket
            &&& forall|i: int| 0 <= i < 3 ==> '0' <= #[trigger] digits[i] <= '9'
        }),
{
    reveal_strlit("inverse-saturation-");
    reveal_strlit(".icc");
    let n = bucket as nat;
    let d = spec_decimal(n);
    lemma_decimal_reads_back(n);
    if n >= 10 {
        lemma_decimal_reads_back(n / 10);
        assert(d.drop_last() =~= spec_decimal(n / 10));
        if n / 10 >= 10 {
            lemma_decimal_reads_back(n / 10 / 10);
            assert(spec_decimal(n / 10).drop_last() =~= spec_decimal(n / 10 / 10));
        }
    }
    assert(d.len() <= 3);
    let p = spec_pad3(d);
    if d.len() < 3 {
        let z = Seq::new((3 - d.len()) as nat, |i: int| '0');
        lemma_zeros_prefix_value(z, d);
        assert(p == z + d);
        assert forall|i: int| 0 <= i < 3 implies '0' <= #[trigger] p[i] <= '9' by {
            if i >= z.len() {
                assert(p[i] == d[i - z.len()]);
            }
        }
    }
    let s = spec_profile_file_name(bucket);
    assert(s.subrange(19, 22) =~= p);
    assert(s.take(19) =~= "inverse-saturation-"@);
    assert(s.skip(22) =~= ".icc"@);
}

fn push_str(v: &mut Vec<char>, s: &str)
    ensures
        final(v)@ == old(v)@ + s@,
{
    let n = s.unicode_len();
    let mut i: usize = 0;
    while i < n
        invariant
            n == s@.len(),
            i <= n,
            v@ == old(v)@ + s@.take(i as int),
        decreases n - i,
    {
        v.push(s.get_char(i));
        proof {
            assert(s@.take(i as int + 1) =~= s@.take(i as int).push(s@[i as int]));
        }
        i += 1;
    }
    proof {
        assert(s@.take(n as int) =~= s@);
    }
}

pub fn profile_file_name(bucket: u32) -> (r: String)
    ensures
        r@ == spec_profile_file_name(bucket),
{
    let mut out: Vec<char> = Vec::new();
    push_str(&mut out, "inverse-saturation-");
    let digits = decimal(bucket as u64);
    let ghost d = digits@;
    if digits.len() < 3 {
        let pad: usize = 3 - digits.len();
        let mut i: usize = 0;
        while i < pad
            invariant
                i <= pad,
                out@ == "inverse-saturation-"@ + Seq::new(i as nat, |k: int| '0'),
            decreases pad - i,
        {
            out.push('0');
            proof {
                assert(out@ =~= "inverse-saturation-"@ + Seq::new((i + 1) as nat, |k: int| '0'));
            }
            i += 1;
        }
    }
    let ghost before = out@;
    let mut j: usize = 0;
    while j < digits.len()
        invariant
            j <= digits@.len(),
            out@ == before + digits@.take(j as int),
        decreases digits.len() - j,
    {
        out.push(digits[j]);
        proof {
            assert(digits@.take(j as int + 1) =~= digits@.take(j as int).push(digits@[j as int]));
        }
        j += 1;
    }
    proof {
        assert(digits@.take(digits@.len() as int) =~= digits@);
    }
    push_str(&mut out, ".icc");
    proof {
        assert(out@ =~= spec_profile_file_name(bucket));
    }
    string_from_chars(&out)
}

/// Whether `path` lies under `dir`, compared component by component.
pub open spec fn spec_is_under(path: Seq<Seq<char>>, dir: Seq<Seq<char>>) -> bool {
    dir.len() <= path.len() && forall|i: int| 0 <= i < dir.len() ==> #[trigger] path[i] == dir[i]
}

/// A display profile is ours when its path lies in our profile directory.
pub fn is_our_profile(path: &Vec<String>, dir: &Vec<String>) -> (r: bool)
    ensures
        r == spec_is_under(path@.map_values(|s: String| s@), dir@.map_values(|s: String| s@)),
{
    let ghost p = path@.map_values(|s: String| s@);
    let ghost d = dir@.map_values(|s: String| s@);
    if dir.len() > path.len() {
        return false;
    }
    let mut i: usize = 0;
    while i < dir.len()
        invariant
            i <= dir@.len(),
            dir@.len() <= path@.len(),
            p == path@.map_values(|s: String| s@),
            d == dir@.map_values(|s: String| s@),
            forall|k: int| 0 <= k < i ==> #[trigger] p[k] == d[k],
        decreases dir.len() - i,
    {
        if !crate::text::str_eq(path[i].as_str(), dir[i].as_str()) {
            proof {
                assert(p[i as int] != d[i as int]);
            }
            return false;
        }
        i += 1;
    }
    true
}

/// Magic of an ICC `XYZ ` tag.
pub open spec fn spec_xyz_magic() -> Seq<u8> {
    seq![0x58u8, 0x59u8, 0x5Au8, 0x20u8]
}

/// The big-endian 32-bit word at `at`, as a signed s15.16 fixed number.
pub open spec fn spec_be_i32(bytes: Seq<u8>, at: int) -> i32 {
    let u: u32 = ((bytes[at] as u32) << 24u32) | ((bytes[at + 1] as u32) << 16u32) | ((bytes[at
        + 2] as u32) << 8u32) | (bytes[at + 3] as u32);
    u as i32
}

/// An ICC `XYZ ` tag: 20 bytes or more, starting with "XYZ ", then four
/// reserved bytes, then X, Y and Z as big-endian s15.16 numbers.
pub open spec fn spec_decode_xyz(bytes: Seq<u8>) -> Option<[i32; 3]> {
    if bytes.len() < 20 || bytes.take(4) != spec_xyz_magic() {
        None
    } else {
        Some([spec_be_i32(bytes, 8), spec_be_i32(bytes, 12), spec_be_i32(bytes, 16)])
    }
}

fn read_be_i32(bytes: &[u8], at: usize) -> (r: i32)
    requires
        at + 4 <= bytes@.len(),
    ensures
        r == spec_be_i32(bytes@, at as int),
{
    let u: u32 = ((bytes[at] as u32) << 24u32) | ((bytes[at + 1] as u32) << 16u32) | ((
    bytes[at + 2] as u32) << 8u32) | (bytes[at + 3] as u32);
    u as i32
}

/// Decodes an ICC `XYZ ` tag into its three s15.16 numbers (the value
/// times 65536).
pub fn decode_xyz_tag(bytes: &[u8]) -> (r: Option<[i32; 3]>)
    ensures
        r == spec_decode_xyz(bytes@),
{
    if bytes.len() < 20 {
        return None;
    }
    if !(bytes[0] == 0x58u8 && bytes[1] == 0x59u8 && bytes[2] == 0x5Au8 && bytes[3] == 0x20u8) {
        proof {
            assert(bytes@.take(4) != spec_xyz_magic()) by {
                if bytes@.take(4) == spec_xyz_magic() {
                    assert(bytes@.take(4)[0] == bytes@[0]);
                    assert(bytes@.take(4)[1] == bytes@[1]);
                    assert(bytes@.take(4)[2] == bytes@[2]);
                    assert(bytes@.take(4)[3] == bytes@[3]);
                }
            }
        }
        return None;
    }
    proof {
        assert(bytes@.take(4) =~= spec_xyz_magic());
    }
    Some([read_be_i32(bytes, 8), read_be_i32(bytes, 12), read_be_i32(bytes, 16)])
}

/// The big-endian bytes of an s15.16 number.
pub open spec fn spec_be_bytes(v: i32) -> Seq<u8> {
    let u = v as u32;
    seq![(u >> 24u32) as u8, (u >> 16u32) as u8, (u >> 8u32) as u8, u as u8]
}

pub open spec fn spec_encode_xyz(xyz: [i32; 3]) -> Seq<u8> {
    spec_xyz_magic() + seq![0u8, 0u8, 0u8, 0u8] + spec_be_bytes(xyz@[0]) + spec_be_bytes(xyz@[1])
        + spec_be_bytes(xyz@[2])
}

/// Encodes three s15.16 numbers as an ICC `XYZ ` tag.
pub fn encode_xyz_tag(xyz: [i32; 3]) -> (r: [u8; 20])
    ensures
        r@ == spec_encode_xyz(xyz),
{
    let x = xyz[0] as u32;
    let y = xyz[1] as u32;
    let z = xyz[2] as u32;
    let r: [u8; 20] = [
        0x58u8,
        0x59u8,
        0x5Au8,
        0x20u8,
        0u8,
        0u8,
        0u8,
        0u8,
        (x >> 24u32) as u8,
        (x >> 16u32) as u8,
        (x >> 8u32) as u8,
        x as u8,
        (y >> 24u32) as u8,
        (y >> 16u32) as u8,
        (y >> 8u32) as u8,
        y as u8,
        (z >> 24u32) as u8,
        (z >> 16u32) as u8,
        (z >> 8u32) as u8,
        z as u8,
    ];
    proof {
        assert(r@ =~= spec_encode_xyz(xyz));
    }
    r
}

proof fn lemma_be_round_trip(v: i32)
    ensures
        ({
            let b = spec_be_bytes(v);
            let u: u32 = ((b[0] as u32) << 24u32) | ((b[1] as u32) << 16u32) | ((b[2] as u32)
                << 8u32) | (b[3] as u32);
            u as i32 == v
        }),
{
    let u = v as u32;
    let b0 = (u >> 24u32) as u8;
    let b1 = (u >> 16u32) as u8;
    let b2 = (u >> 8u32) as u8;
    let b3 = u as u8;
    assert(((b0 as u32) << 24u32) | ((b1 as u32) << 16u32) | ((b2 as u32) << 8u32) | (b3 as u32)
        == u) by (bit_vector)
        requires
            b0 == (u >> 24u32) as u8,
            b1 == (u >> 16u32) as u8,
            b2 == (u >> 8u32) as u8,
            b3 == u as u8,
    ;
    assert((u as i32) == v) by (bit_vector)
        requires
            u == v as u32,
    ;
}

/// An encoded tag is the ASCII "XYZ ", four zero bytes, then X, Y and Z,
/// each most significant byte first (big-endian, two's complement).
pub proof fn lemma_xyz_layout(xyz: [i32; 3], k: int)
    requires
        0 <= k < 3,
    ensures
        ({
            let b = spec_encode_xyz(xyz);
            let at = 8 + 4 * k;
            &&& b.len() == 20
            &&& b[0] == 0x58 && b[1] == 0x59 && b[2] == 0x5A && b[3] == 0x20
            &&& b[4] == 0 && b[5] == 0 && b[6] == 0 && b[7] == 0
            &&& b[at] * 0x100_0000 + b[at + 1] * 0x1_0000 + b[at + 2] * 0x100 + b[at + 3] == (
            xyz@[k] as u32)
        }),
{
    let b = spec_encode_xyz(xyz);
    let u = xyz@[k] as u32;
    let w = spec_be_bytes(xyz@[k]);
    assert(b.subrange(8 + 4 * k, 12 + 4 * k) =~= w);
    assert(b[8 + 4 * k] == w[0] && b[9 + 4 * k] == w[1] && b[10 + 4 * k] == w[2] && b[11 + 4 * k]
        == w[3]);
    assert(((u >> 24u32) as u8) as int * 0x100_0000 + ((u >> 16u32) as u8) as int * 0x1_0000 + ((u
        >> 8u32) as u8) as int * 0x100 + (u as u8) as int == u) by (bit_vector);
}

/// Decoding an encoded tag gives back the three numbers.
pub proof fn lemma_xyz_round_trip(xyz: [i32; 3])
    ensures
        spec_decode_xyz(spec_encode_xyz(xyz)) == Some(xyz),
{
    let bytes = spec_encode_xyz(xyz);
    assert(bytes.take(4) =~= spec_xyz_magic());
    lemma_be_round_trip(xyz@[0]);
    lemma_be_round_trip(xyz@[1]);
    lemma_be_round_trip(xyz@[2]);
    assert(bytes.subrange(8, 12) =~= spec_be_bytes(xyz@[0]));
    assert(bytes[8] == spec_be_bytes(xyz@[0])[0]);
    assert(bytes[9] == spec_be_bytes(xyz@[0])[1]);
    assert(bytes[10] == spec_be_bytes(xyz@[0])[2]);
    assert(bytes[11] == spec_be_bytes(xyz@[0])[3]);
    assert(bytes[12] == spec_be_bytes(xyz@[1])[0]);
    assert(bytes[13] == spec_be_bytes(xyz@[1])[1]);
    assert(bytes[14] == spec_be_bytes(xyz@[1])[2]);
    assert(bytes[15] == spec_be_bytes(xyz@[1])[3]);
    assert(bytes[16] == spec_be_bytes(xyz@[2])[0]);
    assert(bytes[17] == spec_be_bytes(xyz@[2])[1]);
    assert(bytes[18] == spec_be_bytes(xyz@[2])[2]);
    assert(bytes[19] == spec_be_bytes(xyz@[2])[3]);
    let d = [spec_be_i32(bytes, 8), spec_be_i32(bytes, 12), spec_be_i32(bytes, 16)];
    assert(d@ =~= xyz@);
}

/// The gamma tweaker only follows colour temperature and brightness: a
/// frame in which neither changed is skipped.
pub fn gamma_render_decision(
    started: bool,
    color_temperature: &Update<ChannelValue>,
    brightness: &Update<ChannelValue>,
) -> (r: RenderDecision)
    ensures
        !started ==> r == RenderDecision::NotStarted,
        started && !(*color_temperature is Changed || *brightness is Changed) ==> r
            == RenderDecision::Unchanged,
        started && (*color_temperature is Changed || *brightness is Changed) ==> r
            == RenderDecision::Apply,
{
    if !started {
        RenderDecision::NotStarted
    } else if !color_temperature.is_changed() && !brightness.is_changed() {
        RenderDecision::Unchanged
    } else {
        RenderDecision::Apply
    }
}

/// The displays whose baseline is kept: those known that are still
/// connected, in the order known.
pub open spec fn spec_kept_displays(known: Seq<u32>, current: Seq<u32>) -> Seq<u32>
    decreases known.len(),
{
    if known.len() == 0 {
        Seq::empty()
    } else {
        let rest = spec_kept_displays(known.drop_last(), current);
        if current.contains(known.last()) {
            rest.push(known.last())
        } else {
            rest
        }
    }
}

/// The displays to capture a baseline for: those connected that are not
/// known, in the order connected.
pub open spec fn spec_new_displays(known: Seq<u32>, current: Seq<u32>) -> Seq<u32>
    decreases current.len(),
{
    if current.len() == 0 {
        Seq::empty()
    } else {
        let rest = spec_new_displays(known, current.drop_last());
        if known.contains(current.last()) {
            rest
        } else {
            rest.push(current.last())
        }
    }
}

fn contains_id(ids: &Vec<u32>, id: u32) -> (r: bool)
    ensures
        r == ids@.contains(id),
{
    let mut i: usize = 0;
    while i < ids.len()
        invariant
            i <= ids@.len(),
            forall|k: int| 0 <= k < i ==> ids@[k] != id,
        decreases ids.len() - i,
    {
        if ids[i] == id {
            proof {
                assert(ids@[i as int] == id);
            }
            return true;
        }
        i += 1;
    }
    false
}

/// Display hot-plug: which baselines to keep and which displays are new.
/// A baseline is never re-captured for a display already known, so that a
/// display's own tinted table is never taken for its baseline.
pub fn reconcile_displays(known: &Vec<u32>, current: &Vec<u32>) -> (r: (Vec<u32>, Vec<u32>))
    ensures
        r.0@ == spec_kept_displays(known@, current@),
        r.1@ == spec_new_displays(known@, current@),
{
    let mut kept: Vec<u32> = Vec::new();
    let mut i: usize = 0;
    while i < known.len()
        invariant
            i <= known@.len(),
            kept@ == spec_kept_displays(known@.take(i as int), current@),
        decreases known.len() - i,
    {
        proof {
            assert(known@.take(i as int + 1).drop_last() =~= known@.take(i as int));
        }
        if contains_id(current, known[i]) {
            kept.push(known[i]);
        }
        i += 1;
    }
    proof {
        assert(known@.take(known@.len() as int) =~= known@);
    }
    let mut fresh: Vec<u32> = Vec::new();
    let mut j: usize = 0;
    while j < current.len()
        invariant
            j <= current@.len(),
            fresh@ == spec_new_displays(known@, current@.take(j as int)),
        decreases current.len() - j,
    {
        proof {
            assert(current@.take(j as int + 1).drop_last() =~= current@.take(j as int));
        }
        if !contains_id(known, current[j]) {
            fresh.push(current[j]);
        }
        j += 1;
    }
    proof {
        assert(current@.take(current@.len() as int) =~= current@);
    }
    (kept, fresh)
}

/// After a hot-plug, every connected display is either kept or new, and
/// every kept display is connected.
pub proof fn lemma_reconcile_covers_connected(known: Seq<u32>, current: Seq<u32>, id: u32)
    ensures
        current.contains(id) ==> spec_kept_displays(known, current).contains(id) || spec_new_displays(
            known,
            current,
        ).contains(id),
        spec_kept_displays(known, current).contains(id) ==> current.contains(id) && known.contains(
            id,
        ),
        spec_new_displays(known, current).contains(id) ==> current.contains(id) && !known.contains(
            id,
        ),
{
    lemma_kept(known, current, id);
    lemma_new(known, current, id);
}

proof fn lemma_kept(known: Seq<u32>, current: Seq<u32>, id: u32)
    ensures
        spec_kept_displays(known, current).contains(id) <==> (current.contains(id) && known.contains(id)),
    decreases known.len(),
{
    if known.len() > 0 {
        lemma_kept(known.drop_last(), current, id);
        let rest = spec_kept_displays(known.drop_last(), current);
        if known.drop_last().contains(id) {
            let k = choose|k: int| 0 <= k < known.drop_last().len() && known.drop_last()[k] == id;
            assert(known[k] == id);
        }
        if known.contains(id) && !known.drop_last().contains(id) {
            let k = choose|k: int| 0 <= k < known.len() && known[k] == id;
            if k < known.len() - 1 {
                assert(known.drop_last()[k] == id);
            }
        }
        if current.contains(known.last()) {
            assert(rest.push(known.last()).contains(id) <==> (rest.contains(id) || known.last() == id)) by {
                if rest.push(known.last()).contains(id) {
                    let k = choose|k: int| 0 <= k < rest.push(known.last()).len() && rest.push(known.last())[k] == id;
                    if k < rest.len() {
                        assert(rest[k] == id);
                    }
                }
                if rest.contains(id) {
                    let k = choose|k: int| 0 <= k < rest.len() && rest[k] == id;
                    assert(rest.push(known.last())[k] == id);
                }
                if known.last() == id {
                    assert(rest.push(known.last())[rest.len() as int] == id);
                }
            }
        }
        if known.last() == id {
            assert(known[known.len() - 1] == id);
        }
    }
}

proof fn lemma_new(known: Seq<u32>, current: Seq<u32>, id: u32)
    ensures
        spec_new_displays(known, current).contains(id) <==> (current.contains(id) && !known.contains(id)),
    decreases current.len(),
{
    if current.len() > 0 {
        lemma_new(known, current.drop_last(), id);
        let rest = spec_new_displays(known, current.drop_last());
        if current.drop_last().contains(id) {
            let k = choose|k: int| 0 <= k < current.drop_last().len() && current.drop_last()[k] == id;
            assert(current[k] == id);
        }
        if current.contains(id) && !current.drop_last().contains(id) {
            let k = choose|k: int| 0 <= k < current.len() && current[k] == id;
            if k < current.len() - 1 {
                assert(current.drop_last()[k] == id);
            }
        }
        if !known.contains(current.last()) {
            assert(rest.push(current.last()).contains(id) <==> (rest.contains(id) || current.last() == id)) by {
                if rest.push(current.last()).contains(id) {
                    let k = choose|k: int| 0 <= k < rest.push(current.last()).len() && rest.push(current.last())[k] == id;
                    if k < rest.len() {
                        assert(rest[k] == id);
                    }
                }
                if rest.contains(id) {
                    let k = choose|k: int| 0 <= k < rest.len() && rest[k] == id;
                    assert(rest.push(current.last())[k] == id);
                }
                if current.last() == id {
                    assert(rest.push(current.last())[rest.len() as int] == id);
                }
            }
        }
        if current.last() == id {
            assert(current[current.len() - 1] == id);
        }
    }
}

} // verus!
