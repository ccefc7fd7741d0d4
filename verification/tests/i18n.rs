use softwane::i18n::{app_locale_preference, normalize_locale_preference, resolve_locale, tr, tr_format, AppLocale};

#[test]
fn normalizes_supported_locale_preferences() {
    assert_eq!(normalize_locale_preference("zh-Hans-CN"), Some("zh-CN".to_string()));
    assert_eq!(normalize_locale_preference("en-US"), Some("en".to_string()));
    assert_eq!(normalize_locale_preference("system"), Some("system".to_string()));
}

#[test]
fn normalization_trims_and_ignores_case() {
    assert_eq!(normalize_locale_preference("  SYSTEM\n"), Some("system".to_string()));
    assert_eq!(normalize_locale_preference("\tEN-gb "), Some("en".to_string()));
    assert_eq!(normalize_locale_preference("fr-FR"), None);
    assert_eq!(normalize_locale_preference(""), None);
}

#[test]
fn preferences_name_locales_by_prefix() {
    assert_eq!(AppLocale::from_preference("ZH"), Some(AppLocale::ZhCn));
    assert_eq!(AppLocale::from_preference("english"), Some(AppLocale::En));
    assert_eq!(AppLocale::from_preference("de"), None);
    assert_eq!(AppLocale::En.as_str(), "en");
    assert_eq!(AppLocale::ZhCn.as_str(), "zh-CN");
}

#[test]
fn resolution_prefers_stored_then_system_then_english() {
    assert_eq!(resolve_locale(Some("zh-CN"), Some("en-US")), AppLocale::ZhCn);
    assert_eq!(resolve_locale(Some("system"), Some("zh-TW")), AppLocale::ZhCn);
    assert_eq!(resolve_locale(None, Some("ja-JP")), AppLocale::En);
    assert_eq!(resolve_locale(None, None), AppLocale::En);
    assert_eq!(app_locale_preference(Some("EN")), "en");
    assert_eq!(app_locale_preference(Some("klingon")), "system");
    assert_eq!(app_locale_preference(None), "system");
}

#[test]
fn translations_and_placeholders() {
    assert_eq!(tr(AppLocale::En, "tray.quit"), "Quit");
    assert_eq!(tr(AppLocale::ZhCn, "tray.quit"), "退出");
    assert_eq!(tr(AppLocale::En, "no.such.key"), "unknown");
    assert_eq!(
        tr_format(AppLocale::En, "tray.startSession", &[("{minutes}", "25".to_string())]),
        "Start a 25 min session"
    );
    assert_eq!(
        tr_format(AppLocale::En, "tray.stop", &[("", "-".to_string())]),
        "-S-t-o-p-"
    );
}

#[test]
fn normalizing_a_canonical_preference_keeps_it() {
    for v in ["zh-Hans-CN", " EN ", "System", "en", "zh-CN", "system"] {
        let once = normalize_locale_preference(v).unwrap();
        assert_eq!(normalize_locale_preference(&once), Some(once.clone()));
    }
}
