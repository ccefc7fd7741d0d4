use softwane::channel_types::ChannelValue;
use softwane::engine::RendererEvent;
use softwane::renderer::{
    gamma_render_decision, reconcile_displays,
    bucket_decision, decode_xyz_tag, encode_xyz_tag, is_our_profile, mac_renderers_on, profile_file_name,
    render_decision, shutdown_plan, skipped_render_event, startup_plan, windows_renderer_on, BucketDecision,
    RenderDecision, ShutdownPlan, StartupPlan, WinMagAPIColorTransformer,
    after_saturation_apply, SaturationFilterState, MAC_SATURATION_FILTER_NAME,
    baseline_choice, transform_inputs, BaselineChoice,
};
use softwane::update::Update;

fn frame(changed: [bool; 3]) -> [Update<ChannelValue>; 3] {
    let v = ChannelValue::ColorTempKelvin(5000);
    [0, 1, 2].map(|i| if changed[i] { Update::Changed(v) } else { Update::Unchanged(v) })
}

#[test]
fn dispatcher_switching() {
    assert!(!windows_renderer_on([false, false, false]));
    assert!(windows_renderer_on([false, false, true]));
    assert_eq!(mac_renderers_on([true, false, false]), (false, true));
    assert_eq!(mac_renderers_on([false, true, false]), (true, false));
    assert_eq!(mac_renderers_on([false, false, true]), (true, false));
}

#[test]
fn render_guards() {
    assert_eq!(render_decision(false, &frame([true, true, true])), RenderDecision::NotStarted);
    assert_eq!(render_decision(true, &frame([false, false, false])), RenderDecision::Unchanged);
    assert_eq!(render_decision(true, &frame([false, true, false])), RenderDecision::Apply);
    let name = WinMagAPIColorTransformer::new().name;
    assert_eq!(name, "Windows-MagnificationAPI-Color-Transformer");
    assert!(matches!(
        skipped_render_event(RenderDecision::Unchanged, name),
        Some(RendererEvent::RenderUnappliedDueToUnchanged { .. })
    ));
    assert!(skipped_render_event(RenderDecision::Apply, name).is_none());
    assert_eq!(startup_plan(true), StartupPlan::AlreadyStarted);
    assert_eq!(startup_plan(false), StartupPlan::InitialiseThenIdentity);
    assert_eq!(shutdown_plan(false), ShutdownPlan::ReportCompleted);
    assert_eq!(shutdown_plan(true), ShutdownPlan::IdentityThenRelease);
}

#[test]
fn saturation_buckets() {
    assert_eq!(bucket_decision(false, None, 20), BucketDecision::NotStarted);
    assert_eq!(bucket_decision(true, Some(20), 20), BucketDecision::Unchanged);
    assert_eq!(bucket_decision(true, Some(21), 20), BucketDecision::Apply);
    assert_eq!(bucket_decision(true, None, 20), BucketDecision::Apply);
    assert_eq!(profile_file_name(7), "inverse-saturation-007.icc");
    assert_eq!(profile_file_name(100), "inverse-saturation-100.icc");
    assert_eq!(profile_file_name(1234), "inverse-saturation-1234.icc");
}

#[test]
fn profile_ownership_by_components() {
    let dir: Vec<String> = vec!["Users".into(), "me".into(), "cache".into()];
    let inside: Vec<String> = vec!["Users".into(), "me".into(), "cache".into(), "a.icc".into()];
    let sibling: Vec<String> = vec!["Users".into(), "me".into(), "cache2".into(), "a.icc".into()];
    assert!(is_our_profile(&inside, &dir));
    assert!(is_our_profile(&dir, &dir));
    assert!(!is_our_profile(&sibling, &dir));
    assert!(!is_our_profile(&vec!["Users".to_string()], &dir));
}

#[test]
fn xyz_tag_round_trip() {
    let values = [0x0000_F6D6, -0x0001_0000, 0x0000_D32D];
    let bytes = encode_xyz_tag(values);
    assert_eq!(&bytes[0..4], b"XYZ ");
    assert_eq!(&bytes[4..8], &[0, 0, 0, 0]);
    assert_eq!(&bytes[12..16], &[0xFF, 0xFF, 0x00, 0x00]);
    assert_eq!(decode_xyz_tag(&bytes), Some(values));
    // The value 0.9642 in s15.16, as ICC writes the D50 white point's X.
    let x = decode_xyz_tag(&bytes).unwrap()[0] as f64 / 65536.0;
    assert!((x - 0.9642).abs() < 0.0001);
}

#[test]
fn xyz_tag_rejects_short_or_foreign_data() {
    assert_eq!(decode_xyz_tag(&[0x58, 0x59, 0x5A, 0x20]), None);
    let mut bytes = encode_xyz_tag([1, 2, 3]);
    bytes[0] = b'x';
    assert_eq!(decode_xyz_tag(&bytes), None);
    let mut long = encode_xyz_tag([1, 2, 3]).to_vec();
    long.extend_from_slice(&[9, 9]);
    assert_eq!(decode_xyz_tag(&long), Some([1, 2, 3]));
}

#[test]
fn hotplug_keeps_known_and_captures_new_displays() {
    let (kept, fresh) = reconcile_displays(&vec![1, 2, 3], &vec![3, 4, 1]);
    assert_eq!(kept, vec![1, 3]);
    assert_eq!(fresh, vec![4]);
    let (kept, fresh) = reconcile_displays(&vec![], &vec![7]);
    assert!(kept.is_empty());
    assert_eq!(fresh, vec![7]);
}

#[test]
fn gamma_follows_temperature_and_brightness_only() {
    let v = ChannelValue::ColorTempKelvin(4000);
    assert_eq!(gamma_render_decision(false, &Update::Changed(v), &Update::Changed(v)), RenderDecision::NotStarted);
    assert_eq!(gamma_render_decision(true, &Update::Unchanged(v), &Update::Unchanged(v)), RenderDecision::Unchanged);
    assert_eq!(gamma_render_decision(true, &Update::Unchanged(v), &Update::Changed(v)), RenderDecision::Apply);
}

#[test]
fn saturation_filter_remembers_only_accepted_buckets() {
    let mut f = SaturationFilterState::new();
    assert!(!f.switch_on && f.last_bucket.is_none());
    assert_eq!(f.decide(50), BucketDecision::NotStarted);
    f.on_startup(false);
    assert_eq!(f, SaturationFilterState::new());
    f.on_startup(true);
    assert!(f.switch_on && f.last_bucket.is_none());
    assert_eq!(f.decide(50), BucketDecision::Apply);

    let e = f.after_apply(50, Err("ColorSync saturation profile apply failed".to_string()));
    match e {
        RendererEvent::RenderFailed { renderer_name, error } => {
            assert_eq!(renderer_name, MAC_SATURATION_FILTER_NAME);
            assert_eq!(error, "ColorSync saturation profile apply failed");
        }
        other => panic!("unexpected event {other:?}"),
    }
    assert!(f.last_bucket.is_none());
    assert_eq!(f.decide(50), BucketDecision::Apply);

    let e = f.after_apply(50, Ok(()));
    assert!(matches!(
        e,
        RendererEvent::RenderSuccessful { renderer_name } if renderer_name == MAC_SATURATION_FILTER_NAME
    ));
    assert_eq!(f.last_bucket, Some(50));
    assert_eq!(f.decide(50), BucketDecision::Unchanged);
    assert_eq!(f.decide(51), BucketDecision::Apply);

    f.after_apply(51, Err("x".to_string()));
    assert_eq!(f.last_bucket, Some(50));

    assert!(f.on_shutdown());
    assert!(!f.switch_on && f.last_bucket.is_none());
    assert!(!f.on_shutdown());
}

#[test]
fn saturation_apply_step() {
    assert_eq!(after_saturation_apply(None, 30, true), Some(30));
    assert_eq!(after_saturation_apply(Some(20), 30, false), Some(20));
    assert_eq!(after_saturation_apply(None, 30, false), None);
}

#[test]
fn transform_reads_each_channel_from_its_own_slot() {
    let frame = [
        Update::Changed(ChannelValue::Saturation(0.4f64.to_bits())),
        Update::Unchanged(ChannelValue::ColorTempKelvin(3200)),
        Update::Changed(ChannelValue::Brightness(0.9f64.to_bits())),
    ];
    assert_eq!(transform_inputs(&frame), Some((0.4f64.to_bits(), 3200, 0.9f64.to_bits())));
    let swapped = [frame[1], frame[0], frame[2]];
    assert_eq!(transform_inputs(&swapped), None);
}

#[test]
fn baseline_of_a_display_left_with_our_profile() {
    assert_eq!(baseline_choice(false, false), BaselineChoice::UseCurrent);
    assert_eq!(baseline_choice(false, true), BaselineChoice::UseCurrent);
    assert_eq!(baseline_choice(true, true), BaselineChoice::UseStored);
    assert_eq!(baseline_choice(true, false), BaselineChoice::ResetToFactory);
}
