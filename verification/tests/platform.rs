use std::cell::RefCell;

use softwane::platform::{
    apply_result, apply_with_recovery, clamp_warmth_kelvin, recovery_frame, recovery_needed,
    should_log_apply, warmth_is_neutral, CompositeFrame, MockPlatformAdapter,
};

fn tinted() -> CompositeFrame {
    CompositeFrame {
        saturation_bits: 0.5f32.to_bits(),
        warmth_kelvin: 3000,
        brightness_bits: 0.7f32.to_bits(),
    }
}

#[test]
fn mock_applies_nothing() {
    let m = MockPlatformAdapter::new();
    assert_eq!(m.backend_name(), "mock");
    assert_eq!(m.try_apply(&tinted()), Ok(false));
    let r = m.apply(&tinted(), false);
    assert!(!r.applied);
    assert_eq!(r.backend, "mock");
    assert!(r.error.is_none() && !r.recovery_attempted);
    assert!(!should_log_apply(&r));
}

#[test]
fn failure_on_a_tinted_frame_recovers_to_neutral() {
    let first: Result<bool, String> = Err("boom".into());
    assert!(recovery_needed(&first, false));
    assert!(!recovery_needed(&first, true));
    assert!(!recovery_needed(&Ok(true), false));
    let r = apply_result("x", first, Some(Ok(true)));
    assert!(!r.applied && r.recovery_attempted && r.recovery_succeeded);
    assert_eq!(r.error.as_deref(), Some("boom"));
    assert!(should_log_apply(&r));
    let r = apply_result("x", Err("a".into()), Some(Err("b".into())));
    assert!(!r.recovery_succeeded);
    assert_eq!(r.recovery_error.as_deref(), Some("b"));
    let r = apply_result("x", Err("a".into()), None);
    assert!(!r.recovery_attempted);
}

#[test]
fn preview_warmth_is_clamped() {
    assert_eq!(clamp_warmth_kelvin(1000), 2000);
    assert_eq!(clamp_warmth_kelvin(9000), 6500);
    assert_eq!(clamp_warmth_kelvin(4000), 4000);
    assert!(warmth_is_neutral(6498));
    assert!(!warmth_is_neutral(6497));
}

#[test]
fn neutral_frame_is_full_saturation_and_brightness_at_6500_kelvin() {
    let n = CompositeFrame::neutral();
    assert_eq!(n.saturation_bits, 1.0f32.to_bits());
    assert_eq!(n.warmth_kelvin, 6500);
    assert_eq!(n.brightness_bits, 1.0f32.to_bits());
}

#[test]
fn recovery_frame_is_neutral_only_after_a_failure_on_a_tinted_frame() {
    let failed: Result<bool, String> = Err("boom".into());
    assert_eq!(recovery_frame(&failed, false), Some(CompositeFrame::neutral()));
    assert_eq!(recovery_frame(&failed, true), None);
    assert_eq!(recovery_frame(&Ok(true), false), None);
    assert_eq!(recovery_frame(&Ok(false), false), None);
}

#[test]
fn failed_apply_retries_once_with_the_neutral_frame() {
    let seen: RefCell<Vec<CompositeFrame>> = RefCell::new(Vec::new());
    let backend = |f: &CompositeFrame| -> Result<bool, String> {
        seen.borrow_mut().push(*f);
        if *f == CompositeFrame::neutral() {
            Ok(true)
        } else {
            Err("gamma table rejected".to_string())
        }
    };
    let r = apply_with_recovery("test", &tinted(), false, &backend);
    assert_eq!(*seen.borrow(), vec![tinted(), CompositeFrame::neutral()]);
    assert!(!r.applied);
    assert_eq!(r.backend, "test");
    assert_eq!(r.error.as_deref(), Some("gamma table rejected"));
    assert!(r.recovery_attempted && r.recovery_succeeded);
    assert!(r.recovery_error.is_none());
}

#[test]
fn failure_on_a_neutral_frame_is_not_retried() {
    let calls = RefCell::new(0u32);
    let backend = |_f: &CompositeFrame| -> Result<bool, String> {
        *calls.borrow_mut() += 1;
        Err("down".to_string())
    };
    let r = apply_with_recovery("test", &CompositeFrame::neutral(), true, &backend);
    assert_eq!(*calls.borrow(), 1);
    assert!(!r.recovery_attempted && !r.recovery_succeeded);
    assert_eq!(r.error.as_deref(), Some("down"));
}

#[test]
fn failed_recovery_reports_both_errors() {
    let backend = |f: &CompositeFrame| -> Result<bool, String> {
        if *f == CompositeFrame::neutral() {
            Err("second".to_string())
        } else {
            Err("first".to_string())
        }
    };
    let r = apply_with_recovery("test", &tinted(), false, backend);
    assert!(r.recovery_attempted && !r.recovery_succeeded);
    assert_eq!(r.error.as_deref(), Some("first"));
    assert_eq!(r.recovery_error.as_deref(), Some("second"));
}

#[test]
fn successful_apply_reports_the_backend_answer() {
    let r = apply_with_recovery("test", &tinted(), false, |_f: &CompositeFrame| Ok(true));
    assert!(r.applied && r.error.is_none() && !r.recovery_attempted);
}
