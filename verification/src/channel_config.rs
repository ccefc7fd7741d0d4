//! Default channel configurations and the start-up normalisation of the
//! persisted switches.

use vstd::prelude::*;

use crate::channel_system::lemma_conflicts_symmetric;
use crate::channel_types::{
    spec_channel_at, spec_channel_index, spec_conflicts, spec_default_curve, ChannelType,
    ChannelValue, Platform, default_normalized_sigmoid_parameters,
};
use crate::channels::{ChannelConfig, PersistentStateParamsTable, DEFAULT_PROGRESS_BEGIN_RATIO};

verus! {

/// Bit pattern of the default saturation target, `0.2`.
pub const DEFAULT_SATURATION_TARGET: u64 = 0x3FC9_9999_9999_999Au64;
/// Default colour temperature target, in kelvin.
pub const DEFAULT_COLOR_TEMP_TARGET_KELVIN: u32 = 2500;
/// Bit pattern of the default brightness target, `0.6`.
pub const DEFAULT_BRIGHTNESS_TARGET: u64 = 0x3FE3_3333_3333_3333u64;

/// Factory configuration of a channel: only colour temperature starts
/// switched on; every phase uses the default sigmoid.
pub open spec fn spec_default_config(t: ChannelType) -> ChannelConfig {
    let (on, target) = match t {
        ChannelType::Saturation => (false, ChannelValue::Saturation(DEFAULT_SATURATION_TARGET)),
        ChannelType::ColorTemp => (
            true,
            ChannelValue::ColorTempKelvin(DEFAULT_COLOR_TEMP_TARGET_KELVIN),
        ),
        ChannelType::Brightness => (false, ChannelValue::Brightness(DEFAULT_BRIGHTNESS_TARGET)),
    };
    ChannelConfig {
        switch_on: on,
        persistent_state_params_table: PersistentStateParamsTable {
            progress_curve_parameters: spec_default_curve(),
            settling_curve_parameters: spec_default_curve(),
            reverse_curve_parameters: spec_default_curve(),
            progress_begin_ratio: DEFAULT_PROGRESS_BEGIN_RATIO,
            target_channel_value: target,
        },
    }
}

/// Factory configuration of one channel.
pub fn default_channel_config(t: ChannelType) -> (r: ChannelConfig)
    ensures
        r == spec_default_config(t),
{
    let (on, target) = match t {
        ChannelType::Saturation => (false, ChannelValue::Saturation(DEFAULT_SATURATION_TARGET)),
        ChannelType::ColorTemp => (
            true,
            ChannelValue::ColorTempKelvin(DEFAULT_COLOR_TEMP_TARGET_KELVIN),
        ),
        ChannelType::Brightness => (false, ChannelValue::Brightness(DEFAULT_BRIGHTNESS_TARGET)),
    };
    ChannelConfig {
        switch_on: on,
        persistent_state_params_table: PersistentStateParamsTable {
            progress_curve_parameters: default_normalized_sigmoid_parameters(),
            settling_curve_parameters: default_normalized_sigmoid_parameters(),
            reverse_curve_parameters: default_normalized_sigmoid_parameters(),
            progress_begin_ratio: DEFAULT_PROGRESS_BEGIN_RATIO,
            target_channel_value: target,
        },
    }
}

/// Factory configurations of all channels, in canonical order.
pub fn default_channel_config_array() -> (r: [ChannelConfig; 3])
    ensures
        forall|i: int| 0 <= i < 3 ==> #[trigger] r@[i] == spec_default_config(spec_channel_at(i)),
{
    [
        default_channel_config(ChannelType::Saturation),
        default_channel_config(ChannelType::ColorTemp),
        default_channel_config(ChannelType::Brightness),
    ]
}

/// Switching off, in order, the listed channels that are on: the
/// configurations afterwards and the channels switched off.
pub open spec fn spec_switch_off(cfgs: Seq<ChannelConfig>, list: Seq<ChannelType>) -> (
    Seq<ChannelConfig>,
    Seq<ChannelType>,
)
    decreases list.len(),
{
    if list.len() == 0 {
        (cfgs, Seq::empty())
    } else {
        let (c1, p1) = spec_switch_off(cfgs, list.drop_last());
        let c = list.last();
        let i = spec_channel_index(c);
        if c1[i].switch_on {
            (c1.update(i, ChannelConfig { switch_on: false, ..c1[i] }), p1.push(c))
        } else {
            (c1, p1)
        }
    }
}

/// Normalisation of the first `k` channels in canonical order: each one
/// that is on switches its conflicts off.
pub open spec fn spec_normalize(cfgs: Seq<ChannelConfig>, platform: Platform, k: nat) -> (
    Seq<ChannelConfig>,
    Seq<ChannelType>,
)
    decreases k,
{
    if k == 0 {
        (cfgs, Seq::empty())
    } else {
        let (c1, p1) = spec_normalize(cfgs, platform, (k - 1) as nat);
        let t = spec_channel_at(k - 1);
        if c1[k - 1].switch_on {
            let (c2, p2) = spec_switch_off(c1, spec_conflicts(t, platform));
            (c2, p1 + p2)
        } else {
            (c1, p1)
        }
    }
}

/// No two conflicting channels are configured on.
pub open spec fn spec_configs_conflict_free(cfgs: Seq<ChannelConfig>, platform: Platform) -> bool {
    forall|a: ChannelType, b: ChannelType|
        #![trigger spec_conflicts(a, platform).contains(b)]
        cfgs[spec_channel_index(a)].switch_on && cfgs[spec_channel_index(b)].switch_on
            ==> !spec_conflicts(a, platform).contains(b)
}

/// Switches off, in canonical order, every channel that conflicts with an
/// earlier channel that is on, and returns the channels switched off (to
/// be persisted).
pub fn normalize_channel_switch_conflicts(configs: &mut [ChannelConfig; 3], platform: Platform) -> (r:
    Vec<ChannelType>)
    ensures
        (final(configs)@, r@) == spec_normalize(old(configs)@, platform, 3),
{
    let ghost c0 = configs@;
    let types = crate::channel_types::sensory_channel_types();
    let mut changed: Vec<ChannelType> = Vec::new();
    let mut k: usize = 0;
    while k < 3
        invariant
            k <= 3,
            c0 == old(configs)@,
            forall|i: int| 0 <= i < 3 ==> #[trigger] types@[i] == spec_channel_at(i),
            (configs@, changed@) == spec_normalize(c0, platform, k as nat),
        decreases 3 - k,
    {
        let channel_type = types[k];
        if configs[k].switch_on {
            let conflicts = channel_type.conflicts(platform);
            let ghost mid = configs@;
            let ghost changed_mid = changed@;
            let mut j: usize = 0;
            while j < conflicts.len()
                invariant
                    j <= conflicts@.len(),
                    conflicts@ == spec_conflicts(spec_channel_at(k as int), platform),
                    mid.len() == 3,
                    configs@ == spec_switch_off(mid, conflicts@.take(j as int)).0,
                    changed@ == changed_mid + spec_switch_off(mid, conflicts@.take(j as int)).1,
                decreases conflicts.len() - j,
            {
                let conflict = conflicts[j];
                let ci = conflict.index();
                proof {
                    assert(conflicts@.take(j as int + 1).drop_last() =~= conflicts@.take(j as int));
                    lemma_switch_off_len(mid, conflicts@.take(j as int));
                }
                if configs[ci].switch_on {
                    let mut cfg = configs[ci];
                    cfg.switch_on = false;
                    configs[ci] = cfg;
                    changed.push(conflict);
                    proof {
                        assert(changed@ =~= changed_mid + spec_switch_off(
                            mid,
                            conflicts@.take(j as int + 1),
                        ).1);
                    }
                }
                j += 1;
            }
            proof {
                assert(conflicts@.take(conflicts@.len() as int) =~= conflicts@);
                assert(changed@ =~= spec_normalize(c0, platform, k as nat + 1).1);
            }
        }
        k += 1;
    }
    changed
}

proof fn lemma_switch_off_len(cfgs: Seq<ChannelConfig>, list: Seq<ChannelType>)
    requires
        cfgs.len() == 3,
    ensures
        spec_switch_off(cfgs, list).0.len() == 3,
    decreases list.len(),
{
    if list.len() > 0 {
        lemma_switch_off_len(cfgs, list.drop_last());
    }
}

/// Switching off the listed channels leaves on exactly those that were on
/// and are not listed.
proof fn lemma_switch_off_switches(cfgs: Seq<ChannelConfig>, list: Seq<ChannelType>)
    requires
        cfgs.len() == 3,
    ensures
        spec_switch_off(cfgs, list).0.len() == 3,
        forall|j: int|
            0 <= j < 3 ==> #[trigger] spec_switch_off(cfgs, list).0[j].switch_on == (
            cfgs[j].switch_on && !list.contains(spec_channel_at(j))),
    decreases list.len(),
{
    if list.len() > 0 {
        let rest = list.drop_last();
        lemma_switch_off_switches(cfgs, rest);
        let c = list.last();
        assert forall|j: int| 0 <= j < 3 implies #[trigger] spec_switch_off(cfgs, list).0[j].switch_on
            == (cfgs[j].switch_on && !list.contains(spec_channel_at(j))) by {
            if spec_channel_at(j) == c {
                assert(list[list.len() - 1] == c);
            } else {
                if list.contains(spec_channel_at(j)) {
                    let k = choose|k: int| 0 <= k < list.len() && list[k] == spec_channel_at(j);
                    assert(rest[k] == spec_channel_at(j));
                }
                if rest.contains(spec_channel_at(j)) {
                    let k = choose|k: int| 0 <= k < rest.len() && rest[k] == spec_channel_at(j);
                    assert(list[k] == spec_channel_at(j));
                }
            }
        }
    }
}

/// After normalising the first `k` channels, each of them that is on has
/// all its conflicts off, and switches only went from on to off.
proof fn lemma_normalize_prefix(cfgs: Seq<ChannelConfig>, platform: Platform, k: nat)
    requires
        cfgs.len() == 3,
        k <= 3,
    ensures
        spec_normalize(cfgs, platform, k).0.len() == 3,
        forall|j: int|
            0 <= j < 3 && #[trigger] spec_normalize(cfgs, platform, k).0[j].switch_on
                ==> cfgs[j].switch_on,
        forall|a: ChannelType, b: ChannelType|
            #![trigger spec_conflicts(a, platform).contains(b)]
            spec_channel_index(a) < k && spec_normalize(cfgs, platform, k).0[spec_channel_index(
                a,
            )].switch_on && spec_conflicts(a, platform).contains(b) ==> !spec_normalize(
                cfgs,
                platform,
                k,
            ).0[spec_channel_index(b)].switch_on,
    decreases k,
{
    if k > 0 {
        lemma_normalize_prefix(cfgs, platform, (k - 1) as nat);
        let c1 = spec_normalize(cfgs, platform, (k - 1) as nat).0;
        let t = spec_channel_at(k - 1);
        if c1[k - 1].switch_on {
            lemma_switch_off_switches(c1, spec_conflicts(t, platform));
            let c2 = spec_normalize(cfgs, platform, k).0;
            assert forall|a: ChannelType, b: ChannelType|
                #![trigger spec_conflicts(a, platform).contains(b)]
                spec_channel_index(a) < k && c2[spec_channel_index(a)].switch_on && spec_conflicts(
                    a,
                    platform,
                ).contains(b) implies !c2[spec_channel_index(b)].switch_on by {
                lemma_conflicts_symmetric(a, b, platform);
                lemma_conflicts_symmetric(a, t, platform);
                assert(spec_channel_at(spec_channel_index(b)) == b);
                assert(spec_channel_at(spec_channel_index(a)) == a);
            }
        }
    }
}

/// What normalisation does: on Windows nothing; on macOS a saturation
/// switched on wins, and colour temperature and brightness are switched
/// off (brightness listed first, then colour temperature, each only if it
/// was on); with saturation off nothing changes.  Only switches change,
/// and none is switched on.
pub proof fn lemma_normalize_outcome(cfgs: Seq<ChannelConfig>, platform: Platform)
    requires
        cfgs.len() == 3,
    ensures
        ({
            let (r, off) = spec_normalize(cfgs, platform, 3);
            &&& r.len() == 3
            &&& forall|i: int|
                0 <= i < 3 ==> #[trigger] r[i].persistent_state_params_table
                    == cfgs[i].persistent_state_params_table
            &&& (platform == Platform::Windows || !cfgs[0].switch_on) ==> r == cfgs && off.len()
                == 0
            &&& (platform == Platform::MacOS && cfgs[0].switch_on) ==> {
                &&& r[0] == cfgs[0]
                &&& !r[1].switch_on
                &&& !r[2].switch_on
                &&& off == (if cfgs[2].switch_on {
                    seq![ChannelType::Brightness]
                } else {
                    Seq::empty()
                }) + (if cfgs[1].switch_on {
                    seq![ChannelType::ColorTemp]
                } else {
                    Seq::empty()
                })
            }
        }),
{
    let e = Seq::<ChannelType>::empty();
    assert(spec_conflicts(ChannelType::ColorTemp, Platform::Windows) =~= e);
    assert(spec_conflicts(ChannelType::Brightness, Platform::Windows) =~= e);
    assert(spec_conflicts(ChannelType::Saturation, Platform::Windows) =~= e);
    assert(spec_switch_off(cfgs, e) == (cfgs, e));
    let (c1, p1) = spec_normalize(cfgs, platform, 1);
    let (c2, p2) = spec_normalize(cfgs, platform, 2);
    let (c3, p3) = spec_normalize(cfgs, platform, 3);
    assert(spec_normalize(cfgs, platform, 0) == (cfgs, e));
    if platform == Platform::MacOS && cfgs[0].switch_on {
        let list = seq![ChannelType::Brightness, ChannelType::ColorTemp];
        assert(spec_conflicts(ChannelType::Saturation, platform) == list);
        assert(list.drop_last() =~= seq![ChannelType::Brightness]);
        assert(seq![ChannelType::Brightness].drop_last() =~= e);
        let (a1, q1) = spec_switch_off(cfgs, seq![ChannelType::Brightness]);
        assert(spec_switch_off(cfgs, e) == (cfgs, e));
        assert(!a1[2].switch_on);
        assert(a1[0] == cfgs[0] && a1[1] == cfgs[1]);
        let (a2, q2) = spec_switch_off(cfgs, list);
        assert(c1 == a2);
        assert(p1 =~= e + q2);
        assert(!c1[1].switch_on && !c1[2].switch_on && c1[0] == cfgs[0]);
        assert(c2 == c1 && p2 == p1);
        assert(c3 == c2 && p3 == p2);
        assert(q2 =~= (if cfgs[2].switch_on {
            seq![ChannelType::Brightness]
        } else {
            Seq::empty()
        }) + (if cfgs[1].switch_on {
            seq![ChannelType::ColorTemp]
        } else {
            Seq::empty()
        }));
        assert(forall|i: int|
            0 <= i < 3 ==> #[trigger] c3[i].persistent_state_params_table
                == cfgs[i].persistent_state_params_table);
    } else {
        if platform == Platform::MacOS {
            assert(c1 == cfgs && p1 == e);
            let lc = seq![ChannelType::Saturation];
            assert(spec_conflicts(ChannelType::ColorTemp, platform) == lc);
            assert(spec_conflicts(ChannelType::Brightness, platform) == lc);
            assert(lc.drop_last() =~= e);
            assert(spec_switch_off(cfgs, lc) == (cfgs, e));
            assert(c2 == cfgs && p2 =~= e);
            assert(c3 == cfgs && p3 =~= e);
        } else {
            assert(c1 == cfgs && p1 =~= e);
            assert(c2 == cfgs && p2 =~= e);
            assert(c3 == cfgs && p3 =~= e);
        }
    }
}

/// After normalisation no two conflicting channels are configured on.
pub proof fn lemma_normalize_conflict_free(cfgs: Seq<ChannelConfig>, platform: Platform)
    requires
        cfgs.len() == 3,
    ensures
        spec_configs_conflict_free(spec_normalize(cfgs, platform, 3).0, platform),
{
    lemma_normalize_prefix(cfgs, platform, 3);
    let r = spec_normalize(cfgs, platform, 3).0;
    assert forall|a: ChannelType, b: ChannelType|
        #![trigger spec_conflicts(a, platform).contains(b)]
        r[spec_channel_index(a)].switch_on && r[spec_channel_index(b)].switch_on implies
        !spec_conflicts(a, platform).contains(b) by {
        assert(spec_channel_index(a) < 3);
    }
}

/// The factory configuration: only colour temperature starts switched on,
/// aiming at 2500 K; saturation and brightness aim at their default levels;
/// every phase uses the default sigmoid, and the session ramp begins at the
/// default ratio.  These switches conflict on no platform.
pub proof fn lemma_factory_configuration(t: ChannelType, platform: Platform)
    ensures
        spec_default_config(t).switch_on == (t == ChannelType::ColorTemp),
        spec_default_config(t).persistent_state_params_table.target_channel_value == match t {
            ChannelType::Saturation => ChannelValue::Saturation(DEFAULT_SATURATION_TARGET),
            ChannelType::ColorTemp => ChannelValue::ColorTempKelvin(2500),
            ChannelType::Brightness => ChannelValue::Brightness(DEFAULT_BRIGHTNESS_TARGET),
        },
        spec_default_config(t).persistent_state_params_table.progress_curve_parameters
            == spec_default_curve(),
        spec_default_config(t).persistent_state_params_table.settling_curve_parameters
            == spec_default_curve(),
        spec_default_config(t).persistent_state_params_table.reverse_curve_parameters
            == spec_default_curve(),
        spec_default_config(t).persistent_state_params_table.progress_begin_ratio
            == DEFAULT_PROGRESS_BEGIN_RATIO,
        spec_configs_conflict_free(
            seq![
                spec_default_config(ChannelType::Saturation),
                spec_default_config(ChannelType::ColorTemp),
                spec_default_config(ChannelType::Brightness),
            ],
            platform,
        ),
{
    let cfgs = seq![
        spec_default_config(ChannelType::Saturation),
        spec_default_config(ChannelType::ColorTemp),
        spec_default_config(ChannelType::Brightness),
    ];
    assert forall|a: ChannelType, b: ChannelType|
        cfgs[spec_channel_index(a)].switch_on && cfgs[spec_channel_index(
            b,
        )].switch_on implies !#[trigger] spec_conflicts(a, platform).contains(b) by {
        assert(a == ChannelType::ColorTemp && b == ChannelType::ColorTemp);
        lemma_conflicts_symmetric(a, b, platform);
    }
}

} // verus!
