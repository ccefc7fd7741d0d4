use softwane::channel_types::{ChannelValue, CurveParameters, DEFAULT_SIGMOID_STEEPNESS};
use softwane::observability::ManagedObservability;
use softwane::settings::{default_durations, exit_answer, resolve_bool_setting, validate_preset_durations, ExitAnswer};
use softwane::warmth::{CurvePoint, WarmthChannelCalculator};

#[test]
fn observability_keeps_the_first_path() {
    let mut o = ManagedObservability::new();
    assert_eq!(o.cached_path(), None);
    assert_eq!(o.resolve_log_path(None), None);
    assert_eq!(o.resolve_log_path(Some("/a/observability.jsonl".into())).as_deref(), Some("/a/observability.jsonl"));
    assert_eq!(o.resolve_log_path(Some("/b".into())).as_deref(), Some("/a/observability.jsonl"));
    assert_eq!(o.cached_path().as_deref(), Some("/a/observability.jsonl"));
}

#[test]
fn warmth_calculator_defaults() {
    let w = WarmthChannelCalculator::new();
    assert_eq!(w.curve_parameters, CurveParameters::NormalizedSigmoid { steepness: DEFAULT_SIGMOID_STEEPNESS });
    assert_eq!(f64::from_bits(DEFAULT_SIGMOID_STEEPNESS), 10.0);
    assert_eq!(w.curve_begin_value, ChannelValue::ColorTempKelvin(6500));
    assert_eq!(w.target_value, ChannelValue::ColorTempKelvin(2500));
    assert!(matches!(w.curve_point(5), CurvePoint::Target(ChannelValue::ColorTempKelvin(2500))));
}

#[test]
fn warmth_curve_points() {
    let mut w = WarmthChannelCalculator::new();
    w.curve_begin_time_ms = 100;
    w.target_duration_ms = 1_100;
    assert!(matches!(w.curve_point(50), CurvePoint::Begin(ChannelValue::ColorTempKelvin(6500))));
    assert!(matches!(w.curve_point(600), CurvePoint::Between { elapsed_ms: 500, span_ms: 1_000 }));
    assert!(matches!(w.curve_point(1_100), CurvePoint::Target(_)));
}

#[test]
fn preset_durations() {
    assert_eq!(default_durations(), [25 * 60_000, 50 * 60_000, 90 * 60_000]);
    assert_eq!(validate_preset_durations(&vec![1, 2, 3]), Ok([1, 2, 3]));
    assert_eq!(validate_preset_durations(&vec![1, 2]), Err("expected 3 durations, got 2".to_string()));
    assert_eq!(validate_preset_durations(&vec![]), Err("expected 3 durations, got 0".to_string()));
}

#[test]
fn stored_booleans() {
    let s = resolve_bool_setting(Some(true), false);
    assert!(s.value && !s.rewrite_default);
    let s = resolve_bool_setting(None, false);
    assert!(!s.value && s.rewrite_default);
}

#[test]
fn exit_answers() {
    assert_eq!(exit_answer(None, false), ExitAnswer::Stay);
    assert_eq!(exit_answer(Some(0), false), ExitAnswer::HoldAndCleanUp);
    assert_eq!(exit_answer(Some(0), true), ExitAnswer::Allow);
}
