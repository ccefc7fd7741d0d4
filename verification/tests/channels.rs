use softwane::channel_config::{default_channel_config, default_channel_config_array, normalize_channel_switch_conflicts};
use softwane::channel_system::{configs_canonical, SensoryChannelsSystem};
use softwane::channel_types::{ChannelCommand, ChannelType, ChannelValue, Platform};
use softwane::channels::{ChannelTarget, SensoryChannel, StateParamsTable};
use softwane::frame::FrameEvents;
use softwane::timer::TimerState;

#[test]
fn conflicts_by_platform() {
    assert!(ChannelType::Saturation.conflicts(Platform::Windows).is_empty());
    assert_eq!(
        ChannelType::Saturation.conflicts(Platform::MacOS),
        vec![ChannelType::Brightness, ChannelType::ColorTemp]
    );
    assert_eq!(ChannelType::ColorTemp.conflicts(Platform::MacOS), vec![ChannelType::Saturation]);
    assert!(ChannelType::Brightness.is_available_on_this_platform());
}

#[test]
fn store_keys_and_neutral_values() {
    assert_eq!(ChannelType::ColorTemp.store_key(), "channels.color_temp");
    assert_eq!(ChannelType::Saturation.neutral_value(), ChannelValue::Saturation(1.0f64.to_bits()));
    assert_eq!(ChannelType::ColorTemp.neutral_value(), ChannelValue::ColorTempKelvin(6500));
    assert_eq!(ChannelValue::Brightness(0.5f64.to_bits()).channel_type(), ChannelType::Brightness);
}

#[test]
fn default_configs() {
    let c = default_channel_config_array();
    assert!(!c[0].switch_on && c[1].switch_on && !c[2].switch_on);
    assert_eq!(
        c[1].persistent_state_params_table.target_channel_value,
        ChannelValue::ColorTempKelvin(2500)
    );
}

#[test]
fn normalization_keeps_the_first_switch_on() {
    let mut c = default_channel_config_array();
    c[0].switch_on = true;
    c[2].switch_on = true;
    let off = normalize_channel_switch_conflicts(&mut c, Platform::MacOS);
    assert_eq!(off, vec![ChannelType::Brightness, ChannelType::ColorTemp]);
    assert!(c[0].switch_on && !c[1].switch_on && !c[2].switch_on);
    let mut c = default_channel_config_array();
    c[0].switch_on = true;
    assert!(normalize_channel_switch_conflicts(&mut c, Platform::Windows).is_empty());
    assert!(c[0].switch_on && c[1].switch_on);
}

#[test]
fn table_round_trip() {
    let p = default_channel_config(ChannelType::Brightness).persistent_state_params_table;
    let t = StateParamsTable::new(&p);
    let q = t.persist();
    assert_eq!(q.target_channel_value, p.target_channel_value);
    assert_eq!(q.progress_begin_ratio, p.progress_begin_ratio);
    assert_eq!(t.reverse.target_value, ChannelValue::Brightness(1.0f64.to_bits()));
}

#[test]
fn switching_on_disables_conflicts_on_macos() {
    let mut s = SensoryChannelsSystem::new(default_channel_config_array(), Platform::MacOS);
    let mut fe = FrameEvents::default();
    fe.channel_commands.push(ChannelCommand::ToggleSwitch { channel_type: ChannelType::Saturation, switch_on: true });
    s.handle_commands(&mut fe);
    assert_eq!(s.switch_states(), [true, false, false]);
    assert!(fe.switch_changed);
    assert!(fe.channel_commands.is_empty());
    assert_eq!(fe.need_persist.channels_system, Some(vec![ChannelType::ColorTemp, ChannelType::Saturation]));
}

#[test]
fn channel_snapshots_its_level_on_entering_reverse() {
    let mut ch = SensoryChannel::new(default_channel_config(ChannelType::ColorTemp));
    ch.finish_tick(ChannelValue::ColorTempKelvin(3000));
    let t = ch.begin_tick(TimerState::Reverse { elapsed_ms: 0, target_duration_ms: 2000 }, true);
    match t {
        ChannelTarget::AtTime { params, elapsed_ms, target_duration_ms } => {
            assert_eq!(params.curve_begin_value, ChannelValue::ColorTempKelvin(3000));
            assert_eq!(params.target_value, ChannelValue::ColorTempKelvin(6500));
            assert_eq!((elapsed_ms, target_duration_ms), (0, 2000));
        }
        other => panic!("unexpected {:?}", other),
    }
    assert!(matches!(ch.begin_tick(TimerState::Idle, false), ChannelTarget::Fixed(ChannelValue::ColorTempKelvin(6500))));
    assert!(matches!(ch.begin_tick(TimerState::Sabi, false), ChannelTarget::Fixed(ChannelValue::ColorTempKelvin(2500))));
}

#[test]
fn configuration_order_is_checked() {
    let mut c = default_channel_config_array();
    assert!(configs_canonical(&c));
    c.swap(0, 2);
    assert!(!configs_canonical(&c));
}

#[test]
fn updates_without_toggle_leave_switches_unmarked() {
    let mut s = SensoryChannelsSystem::new(default_channel_config_array(), Platform::Windows);
    let mut fe = FrameEvents::default();
    fe.channel_commands.push(ChannelCommand::UpdateTargetChannelValue {
        target_channel_value: ChannelValue::Brightness(0.5f64.to_bits()),
    });
    s.handle_commands(&mut fe);
    assert!(!fe.switch_changed);
    assert_eq!(fe.need_persist.channels_system, Some(vec![ChannelType::Brightness]));
}
