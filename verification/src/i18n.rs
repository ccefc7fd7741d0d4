//! Locales of the tray and their texts.

use vstd::prelude::*;

use crate::text::{
    ascii_lower, chars_of, spec_ascii_lower, spec_is_whitespace, spec_leading_ws, spec_replace,
    spec_starts_with, spec_trailing_ws, spec_trim,
    replace_all, starts_with, str_eq, string_from_chars, trim,
};

verus! {

/// Store key of the user's locale preference.
pub const STORE_KEY_APP_LOCALE: &'static str = "app_locale";
/// The preference that follows the operating system.
pub const APP_LOCALE_SYSTEM: &'static str = "system";

#[derive(Debug, Clone, Copy, PartialEq, Eq, Structural)]
pub enum AppLocale {
    En,
    ZhCn,
}

pub open spec fn spec_locale_str(l: AppLocale) -> Seq<char> {
    match l {
        AppLocale::En => "en"@,
        AppLocale::ZhCn => "zh-CN"@,
    }
}

/// A preference names a locale by its language prefix, in any case and
/// with surrounding whitespace.
pub open spec fn spec_from_preference(v: Seq<char>) -> Option<AppLocale> {
    let n = spec_ascii_lower(spec_trim(v));
    if spec_starts_with(n, "zh"@) {
        Some(AppLocale::ZhCn)
    } else if spec_starts_with(n, "en"@) {
        Some(AppLocale::En)
    } else {
        None
    }
}

/// "system" (in any case, with surrounding whitespace) is kept as
/// "system"; a supported language becomes its canonical tag.
pub open spec fn spec_normalize_preference(v: Seq<char>) -> Option<Seq<char>> {
    if spec_ascii_lower(spec_trim(v)) == spec_ascii_lower("system"@) {
        Some("system"@)
    } else {
        match spec_from_preference(v) {
            Some(l) => Some(spec_locale_str(l)),
            None => None,
        }
    }
}

impl AppLocale {
    pub fn as_str(self) -> (r: &'static str)
        ensures
            r@ == spec_locale_str(self),
    {
        match self {
            AppLocale::En => "en",
            AppLocale::ZhCn => "zh-CN",
        }
    }

    pub fn from_preference(value: &str) -> (r: Option<Self>)
        ensures
            r == spec_from_preference(value@),
    {
        let chars = chars_of(value);
        let normalized = ascii_lower(&trim(&chars));
        if starts_with(&normalized, "zh") {
            Some(AppLocale::ZhCn)
        } else if starts_with(&normalized, "en") {
            Some(AppLocale::En)
        } else {
            None
        }
    }
}

fn chars_eq(a: &Vec<char>, b: &Vec<char>) -> (r: bool)
    ensures
        r == (a@ == b@),
{
    if a.len() != b.len() {
        return false;
    }
    let mut i: usize = 0;
    while i < a.len()
        invariant
            a@.len() == b@.len(),
            i <= a@.len(),
            forall|k: int| 0 <= k < i ==> a@[k] == b@[k],
        decreases a.len() - i,
    {
        if a[i] != b[i] {
            return false;
        }
        i += 1;
    }
    proof {
        assert(a@ =~= b@);
    }
    true
}

/// The canonical form of a locale preference, or `None` when the
/// preference names no supported locale.
pub fn normalize_locale_preference(value: &str) -> (r: Option<String>)
    ensures
        match r {
            Some(s) => spec_normalize_preference(value@) == Some(s@),
            None => spec_normalize_preference(value@) is None,
        },
{
    let lowered = ascii_lower(&trim(&chars_of(value)));
    let system = ascii_lower(&chars_of(APP_LOCALE_SYSTEM));
    if chars_eq(&lowered, &system) {
        return Some(String::from_str(APP_LOCALE_SYSTEM));
    }
    match AppLocale::from_preference(value) {
        Some(l) => Some(String::from_str(l.as_str())),
        None => None,
    }
}

/// The locale in effect: the stored preference when it names a locale,
/// else the operating system's locale (English when that is unknown or
/// unsupported).  A missing preference counts as "system".
pub open spec fn spec_resolve_locale(stored: Option<Seq<char>>, system: Option<Seq<char>>) -> AppLocale {
    let pref = match stored {
        Some(s) => s,
        None => "system"@,
    };
    match spec_from_preference(pref) {
        Some(l) => l,
        None => match spec_from_preference(
            match system {
                Some(s) => s,
                None => "en"@,
            },
        ) {
            Some(l) => l,
            None => AppLocale::En,
        },
    }
}

pub fn resolve_locale(stored: Option<&str>, system: Option<&str>) -> (r: AppLocale)
    ensures
        r == spec_resolve_locale(
            match stored {
                Some(s) => Some(s@),
                None => None,
            },
            match system {
                Some(s) => Some(s@),
                None => None,
            },
        ),
{
    let pref = match stored {
        Some(s) => s,
        None => APP_LOCALE_SYSTEM,
    };
    if let Some(l) = AppLocale::from_preference(pref) {
        return l;
    }
    let sys = match system {
        Some(s) => s,
        None => "en",
    };
    match AppLocale::from_preference(sys) {
        Some(l) => l,
        None => AppLocale::En,
    }
}

/// The preference to report to the frontend: the stored one when it is
/// valid, "system" otherwise.
pub fn app_locale_preference(stored: Option<&str>) -> (r: String)
    ensures
        r@ == (match stored {
            Some(s) => match spec_normalize_preference(s@) {
                Some(n) => n,
                None => "system"@,
            },
            None => match spec_normalize_preference("system"@) {
                Some(n) => n,
                None => "system"@,
            },
        }),
{
    let pref = match stored {
        Some(s) => s,
        None => APP_LOCALE_SYSTEM,
    };
    match normalize_locale_preference(pref) {
        Some(n) => n,
        None => String::from_str(APP_LOCALE_SYSTEM),
    }
}

/// English texts.
pub open spec fn spec_tr_en(key: Seq<char>) -> Seq<char> {
    if key == "tray.crashIndicator"@ {
        "Err"@
    } else if key == "tray.openWindow"@ {
        "Open window"@
    } else if key == "tray.takeBreakNow"@ {
        "Take a break now"@
    } else if key == "tray.stop"@ {
        "Stop"@
    } else if key == "tray.forceReset"@ {
        "Force reset"@
    } else if key == "tray.quit"@ {
        "Quit"@
    } else if key == "tray.status.idle"@ {
        "Idle"@
    } else if key == "tray.status.preview"@ {
        "Preview"@
    } else if key == "tray.status.workLeft"@ {
        "Work left: {time}"@
    } else if key == "tray.status.settling"@ {
        "Settling: {time}"@
    } else if key == "tray.status.rest"@ {
        "Rest"@
    } else if key == "tray.status.resuming"@ {
        "Resuming: {time}"@
    } else if key == "tray.startSession"@ {
        "Start a {minutes} min session"@
    } else {
        "unknown"@
    }
}

/// Simplified Chinese texts.
pub open spec fn spec_tr_zh_cn(key: Seq<char>) -> Seq<char> {
    if key == "tray.crashIndicator"@ {
        "错"@
    } else if key == "tray.openWindow"@ {
        "打开窗口"@
    } else if key == "tray.takeBreakNow"@ {
        "立即休息"@
    } else if key == "tray.stop"@ {
        "停止"@
    } else if key == "tray.forceReset"@ {
        "强制重置"@
    } else if key == "tray.quit"@ {
        "退出"@
    } else if key == "tray.status.idle"@ {
        "空闲"@
    } else if key == "tray.status.preview"@ {
        "预览"@
    } else if key == "tray.status.workLeft"@ {
        "剩余工作时间：{time}"@
    } else if key == "tray.status.settling"@ {
        "缓入休息：{time}"@
    } else if key == "tray.status.rest"@ {
        "休息中"@
    } else if key == "tray.status.resuming"@ {
        "恢复中：{time}"@
    } else if key == "tray.startSession"@ {
        "开始 {minutes} 分钟会话"@
    } else {
        "unknown"@
    }
}

pub open spec fn spec_tr(locale: AppLocale, key: Seq<char>) -> Seq<char> {
    match locale {
        AppLocale::En => spec_tr_en(key),
        AppLocale::ZhCn => spec_tr_zh_cn(key),
    }
}

fn tr_en(key: &str) -> (r: &'static str)
    ensures
        r@ == spec_tr_en(key@),
{
    if str_eq(key, "tray.crashIndicator") {
        "Err"
    } else if str_eq(key, "tray.openWindow") {
        "Open window"
    } else if str_eq(key, "tray.takeBreakNow") {
        "Take a break now"
    } else if str_eq(key, "tray.stop") {
        "Stop"
    } else if str_eq(key, "tray.forceReset") {
        "Force reset"
    } else if str_eq(key, "tray.quit") {
        "Quit"
    } else if str_eq(key, "tray.status.idle") {
        "Idle"
    } else if str_eq(key, "tray.status.preview") {
        "Preview"
    } else if str_eq(key, "tray.status.workLeft") {
        "Work left: {time}"
    } else if str_eq(key, "tray.status.settling") {
        "Settling: {time}"
    } else if str_eq(key, "tray.status.rest") {
        "Rest"
    } else if str_eq(key, "tray.status.resuming") {
        "Resuming: {time}"
    } else if str_eq(key, "tray.startSession") {
        "Start a {minutes} min session"
    } else {
        "unknown"
    }
}

fn tr_zh_cn(key: &str) -> (r: &'static str)
    ensures
        r@ == spec_tr_zh_cn(key@),
{
    if str_eq(key, "tray.crashIndicator") {
        "错"
    } else if str_eq(key, "tray.openWindow") {
        "打开窗口"
    } else if str_eq(key, "tray.takeBreakNow") {
        "立即休息"
    } else if str_eq(key, "tray.stop") {
        "停止"
    } else if str_eq(key, "tray.forceReset") {
        "强制重置"
    } else if str_eq(key, "tray.quit") {
        "退出"
    } else if str_eq(key, "tray.status.idle") {
        "空闲"
    } else if str_eq(key, "tray.status.preview") {
        "预览"
    } else if str_eq(key, "tray.status.workLeft") {
        "剩余工作时间：{time}"
    } else if str_eq(key, "tray.status.settling") {
        "缓入休息：{time}"
    } else if str_eq(key, "tray.status.rest") {
        "休息中"
    } else if str_eq(key, "tray.status.resuming") {
        "恢复中：{time}"
    } else if str_eq(key, "tray.startSession") {
        "开始 {minutes} 分钟会话"
    } else {
        "unknown"
    }
}

/// The text of `key` in `locale`; "unknown" for an unknown key.
pub fn tr(locale: AppLocale, key: &str) -> (r: &'static str)
    ensures
        r@ == spec_tr(locale, key@),
{
    match locale {
        AppLocale::En => tr_en(key),
        AppLocale::ZhCn => tr_zh_cn(key),
    }
}

/// Applying the replacements in order, each to the result of the previous.
pub open spec fn spec_apply_replacements(text: Seq<char>, reps: Seq<(&str, String)>) -> Seq<char>
    decreases reps.len(),
{
    if reps.len() == 0 {
        text
    } else {
        spec_replace(
            spec_apply_replacements(text, reps.drop_last()),
            reps.last().0@,
            reps.last().1@,
        )
    }
}

/// The text of `key` with each placeholder replaced, in order.
pub fn tr_format(locale: AppLocale, key: &str, replacements: &[(&str, String)]) -> (r: String)
    ensures
        r@ == spec_apply_replacements(spec_tr(locale, key@), replacements@),
{
    let mut text = chars_of(tr(locale, key));
    let mut i: usize = 0;
    while i < replacements.len()
        invariant
            i <= replacements@.len(),
            text@ == spec_apply_replacements(spec_tr(locale, key@), replacements@.take(i as int)),
        decreases replacements.len() - i,
    {
        let (needle, value) = &replacements[i];
        text = replace_all(&text, needle, value.as_str());
        proof {
            assert(replacements@.take(i as int + 1).drop_last() =~= replacements@.take(i as int));
        }
        i += 1;
    }
    proof {
        assert(replacements@.take(replacements@.len() as int) =~= replacements@);
    }
    string_from_chars(&text)
}

proof fn lemma_plain_fixed(s: Seq<char>)
    requires
        s.len() > 0,
        !spec_is_whitespace(s[0]),
        !spec_is_whitespace(s.last()),
    ensures
        spec_trim(s) == s,
{
    assert(spec_leading_ws(s) == 0);
    assert(s.skip(0) =~= s);
    assert(spec_trailing_ws(s) == 0);
    assert(s.take(s.len() as int) =~= s);
}

proof fn lemma_canonical_is_fixed(s: Seq<char>)
    requires
        s == "en"@ || s == "zh-CN"@ || s == "system"@,
    ensures
        spec_normalize_preference(s) == Some(s),
{
    reveal_strlit("en");
    reveal_strlit("zh-CN");
    reveal_strlit("system");
    reveal_strlit("zh");
    lemma_plain_fixed(s);
    if s == "en"@ {
        assert(spec_ascii_lower(s) =~= s);
        assert(spec_ascii_lower(s) != spec_ascii_lower("system"@));
        assert(!spec_starts_with(s, "zh"@));
        assert(s.subrange(0, 2) =~= "en"@);
    } else if s == "zh-CN"@ {
        let low = spec_ascii_lower(s);
        assert(low =~= seq!['z', 'h', '-', 'c', 'n']);
        assert(low.len() != spec_ascii_lower("system"@).len());
        assert(low.subrange(0, 2) =~= "zh"@);
    } else {
        assert(spec_ascii_lower(s) =~= s);
        assert(spec_ascii_lower("system"@) =~= s);
    }
}

/// Normalising a locale preference twice changes nothing: the canonical
/// form names itself.
pub proof fn lemma_normalize_idempotent(v: Seq<char>)
    ensures
        spec_normalize_preference(v) matches Some(n) ==> spec_normalize_preference(n) == Some(n),
{
    if let Some(n) = spec_normalize_preference(v) {
        lemma_canonical_is_fixed(n);
    }
}

/// A stored preference that names a locale decides the locale, whatever
/// the operating system says.
pub proof fn lemma_stored_preference_wins(stored: Seq<char>, system: Option<Seq<char>>)
    ensures
        spec_from_preference(stored) matches Some(l) ==> spec_resolve_locale(Some(stored), system)
            == l,
{
}

/// Each locale's own tag names it, and "system" names none (it defers to
/// the operating system).
pub proof fn lemma_locale_tags(l: AppLocale)
    ensures
        spec_from_preference(spec_locale_str(l)) == Some(l),
        spec_from_preference("system"@) is None,
{
    reveal_strlit("en");
    reveal_strlit("zh-CN");
    reveal_strlit("system");
    reveal_strlit("zh");
    lemma_canonical_is_fixed("en"@);
    lemma_canonical_is_fixed("zh-CN"@);
    let sys = "system"@;
    lemma_plain_fixed(sys);
    assert(spec_ascii_lower(sys) =~= sys);
    assert(sys.subrange(0, 2) != "zh"@) by {
        assert(sys.subrange(0, 2)[0] != "zh"@[0]);
    }
    assert(sys.subrange(0, 2) != "en"@) by {
        assert(sys.subrange(0, 2)[0] != "en"@[0]);
    }
    let en = "en"@;
    lemma_plain_fixed(en);
    assert(spec_ascii_lower(en) =~= en);
    assert(en.subrange(0, 2) =~= en);
    assert(en.subrange(0, 2) != "zh"@) by {
        assert(en.subrange(0, 2)[0] != "zh"@[0]);
    }
    let zh = "zh-CN"@;
    lemma_plain_fixed(zh);
    assert(spec_ascii_lower(zh) =~= seq!['z', 'h', '-', 'c', 'n']);
    assert(spec_ascii_lower(zh).subrange(0, 2) =~= "zh"@);
}

/// Without a stored preference, or with "system" stored, the operating
/// system's locale decides; English when it names none or is unknown.
pub proof fn lemma_system_locale_decides(system: Option<Seq<char>>)
    ensures
        ({
            let from_system = match system {
                Some(s) => match spec_from_preference(s) {
                    Some(l) => l,
                    None => AppLocale::En,
                },
                None => AppLocale::En,
            };
            &&& spec_resolve_locale(None, system) == from_system
            &&& spec_resolve_locale(Some("system"@), system) == from_system
        }),
{
    lemma_locale_tags(AppLocale::En);
}

} // verus!
