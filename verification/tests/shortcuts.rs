use global_hotkey::hotkey::{Code, HotKey, Modifiers};
use softwane::shortcuts::{
    action_outcome, begin_apply_bindings, default_shortcut_bindings, pressed_action,
    try_build_by_id_and_shortcuts, ApplyShortcutError, BindingError, BindingSetError, KeyBinding,
    ModifierKey, ShortcutAction, ShortcutBindings, ShortcutOutcome, ShortcutRouter,
};
use softwane::timer::StateCommand;

fn binding(mods: &[ModifierKey], code: &str) -> KeyBinding {
    KeyBinding { modifiers: mods.to_vec(), code: code.to_string() }
}

#[test]
fn all_lists_every_action_once() {
    let all = ShortcutAction::all();
    assert_eq!(all.len(), 8);
    for (i, a) in all.iter().enumerate() {
        for b in all.iter().skip(i + 1) {
            assert_ne!(a, b);
        }
    }
}

#[test]
fn default_bindings_are_alt_shift() {
    let b = default_shortcut_bindings();
    assert_eq!(b.len(), 8);
    let (action, kb) = b.entry(3);
    assert_eq!(action, ShortcutAction::TakeBreakNow);
    assert_eq!(kb.modifiers, vec![ModifierKey::Alt, ModifierKey::Shift]);
    assert_eq!(kb.code, "KeyB");
    assert_eq!(b.get(ShortcutAction::ToggleMainWindow).unwrap().code, "KeyH");
}

#[test]
fn hotkey_id_matches_the_hotkey_crate() {
    let k = binding(&[ModifierKey::Alt, ModifierKey::Shift], "KeyB").to_shortcut().unwrap();
    let expected = HotKey::new(Some(Modifiers::ALT | Modifiers::SHIFT), Code::KeyB);
    assert_eq!(k.id, expected.id());
    assert_eq!(k.code, Code::KeyB as u32);
}

#[test]
fn meta_is_registered_as_super() {
    let k = binding(&[ModifierKey::Meta, ModifierKey::Control], "Digit1").to_shortcut().unwrap();
    let expected = HotKey::new(Some(Modifiers::SUPER | Modifiers::CONTROL), Code::Digit1);
    assert_eq!(k.id, expected.id());
    assert_eq!(k.mods, (Modifiers::META | Modifiers::CONTROL).bits());
}

#[test]
fn binding_without_modifier_is_refused() {
    match binding(&[], "KeyB").to_shortcut() {
        Err(BindingError::EmptyModifiers) => {}
        other => panic!("unexpected {:?}", other),
    }
}

#[test]
fn binding_with_unknown_code_is_refused() {
    match binding(&[ModifierKey::Alt], "NoSuchKey").to_shortcut() {
        Err(BindingError::UnrecognisedCode(c)) => assert_eq!(c, "NoSuchKey"),
        other => panic!("unexpected {:?}", other),
    }
}

#[test]
fn default_bindings_build_eight_routes() {
    let (by_id, keys) = try_build_by_id_and_shortcuts(&default_shortcut_bindings()).unwrap();
    assert_eq!(by_id.len(), 8);
    assert_eq!(keys.len(), 8);
    assert_eq!(by_id.get(&keys[0].id), Some(&ShortcutAction::StartPreset1));
    for k in &keys {
        assert!(by_id.contains_key(&k.id));
    }
}

#[test]
fn a_binding_without_modifier_fails_the_set() {
    let mut b = ShortcutBindings::new();
    b.insert(ShortcutAction::ForceReset, binding(&[ModifierKey::Alt], "KeyF"));
    b.insert(ShortcutAction::StopSession, binding(&[], "KeyQ"));
    match try_build_by_id_and_shortcuts(&b) {
        Err(BindingSetError::Invalid { action, binding, error }) => {
            assert_eq!(action, ShortcutAction::StopSession);
            assert_eq!(binding.code, "KeyQ");
            assert!(matches!(error, BindingError::EmptyModifiers));
        }
        other => panic!("unexpected {:?}", other),
    }
}

#[test]
fn a_binding_with_unknown_code_fails_the_set() {
    let mut b = ShortcutBindings::new();
    b.insert(ShortcutAction::StopSession, binding(&[ModifierKey::Shift], "NotAKey"));
    match try_build_by_id_and_shortcuts(&b) {
        Err(BindingSetError::Invalid { action, error: BindingError::UnrecognisedCode(c), .. }) => {
            assert_eq!(action, ShortcutAction::StopSession);
            assert_eq!(c, "NotAKey");
        }
        other => panic!("unexpected {:?}", other),
    }
}

#[test]
fn shared_key_combination_is_a_collision() {
    let mut b = ShortcutBindings::new();
    b.insert(ShortcutAction::TakeBreakNow, binding(&[ModifierKey::Alt], "KeyB"));
    b.insert(ShortcutAction::ForceReset, binding(&[ModifierKey::Alt], "KeyB"));
    match try_build_by_id_and_shortcuts(&b) {
        Err(BindingSetError::Collision { previous, action, binding }) => {
            assert_eq!(previous, ShortcutAction::TakeBreakNow);
            assert_eq!(action, ShortcutAction::ForceReset);
            assert_eq!(binding.code, "KeyB");
        }
        other => panic!("unexpected {:?}", other),
    }
}

#[test]
fn apply_installs_the_new_table() {
    let mut router = ShortcutRouter::new();
    let u = begin_apply_bindings(&router, default_shortcut_bindings()).unwrap();
    let r = u.on_unregistered(&mut router, Ok(())).unwrap();
    assert_eq!(r.keys().len(), 8);
    assert!(r.on_registered(Ok(())).is_ok());
    assert_eq!(router.routes().len(), 8);
}

#[test]
fn failed_unregister_keeps_the_table() {
    let mut router = ShortcutRouter::new();
    let u = begin_apply_bindings(&router, default_shortcut_bindings()).unwrap();
    match u.on_unregistered(&mut router, Err("busy".into())) {
        Err(ApplyShortcutError::Plugin(m)) => assert_eq!(m, "busy"),
        _ => panic!("expected a plugin error"),
    }
    assert!(router.is_empty());
}

#[test]
fn failed_register_rolls_back_to_the_previous_table() {
    let mut router = ShortcutRouter::new();
    let u = begin_apply_bindings(&router, default_shortcut_bindings()).unwrap();
    u.on_unregistered(&mut router, Ok(())).unwrap().on_registered(Ok(())).unwrap();
    let before = router.routes();
    let mut next = ShortcutBindings::new();
    next.insert(ShortcutAction::StopSession, binding(&[ModifierKey::Control], "KeyX"));
    let u = begin_apply_bindings(&router, next).unwrap();
    let r = u.on_unregistered(&mut router, Ok(())).unwrap();
    assert_eq!(router.routes().len(), 1);
    let back = match r.on_registered(Err("taken".into())) {
        Err(b) => b.restore(&mut router),
        Ok(()) => panic!("expected a rollback"),
    };
    assert!(matches!(back.error, ApplyShortcutError::Plugin(ref m) if m == "taken"));
    assert_eq!(back.restore.unwrap().len(), 8);
    assert_eq!(router.routes(), before);
}

#[test]
fn failed_first_register_clears_the_table() {
    let mut router = ShortcutRouter::new();
    let u = begin_apply_bindings(&router, default_shortcut_bindings()).unwrap();
    let r = u.on_unregistered(&mut router, Ok(())).unwrap();
    let back = match r.on_registered(Err("no".into())) {
        Err(b) => b.restore(&mut router),
        Ok(()) => panic!("expected a rollback"),
    };
    assert!(back.restore.is_none());
    assert!(router.is_empty());
    assert!(router.routes().is_empty());
}

#[test]
fn invalid_sets_are_refused_before_anything_changes() {
    let router = ShortcutRouter::new();
    let mut b = ShortcutBindings::new();
    b.insert(ShortcutAction::StopSession, binding(&[], "KeyQ"));
    assert!(begin_apply_bindings(&router, b).is_err());
}

#[test]
fn insert_replaces_in_place() {
    let mut b = default_shortcut_bindings();
    b.insert(ShortcutAction::StartPreset2, binding(&[ModifierKey::Control], "KeyZ"));
    assert_eq!(b.len(), 8);
    let (a, kb) = b.entry(1);
    assert_eq!(a, ShortcutAction::StartPreset2);
    assert_eq!(kb.code, "KeyZ");
}

#[test]
fn router_routes_pressed_hotkeys_only() {
    let bindings = default_shortcut_bindings();
    let (by_id, keys) = try_build_by_id_and_shortcuts(&bindings).unwrap();
    let mut router = ShortcutRouter::new();
    router.set(by_id, bindings);
    let id = keys[4].id;
    assert_eq!(router.lookup(id), Some(ShortcutAction::StopSession));
    assert_eq!(pressed_action(&router, true, id), Some(ShortcutAction::StopSession));
    assert_eq!(pressed_action(&router, false, id), None);
    assert_eq!(pressed_action(&router, true, 12345), None);
    let snap = router.snapshot();
    router.clear();
    assert_eq!(router.lookup(id), None);
    assert_eq!(snap.lookup(id), Some(ShortcutAction::StopSession));
    assert_eq!(snap.bindings().len(), 8);
}

#[test]
fn preset_actions_start_sessions_of_their_length() {
    let d = [60_000, 120_000, 180_000];
    match action_outcome(ShortcutAction::StartPreset2, d, false) {
        ShortcutOutcome::State(StateCommand::StartSession { target_duration_ms }) => {
            assert_eq!(target_duration_ms, 120_000)
        }
        other => panic!("unexpected {:?}", other),
    }
}

#[test]
fn toggle_preview_depends_on_the_phase() {
    let d = [1, 2, 3];
    assert!(matches!(
        action_outcome(ShortcutAction::TogglePreview, d, true),
        ShortcutOutcome::State(StateCommand::ExitPreview)
    ));
    assert!(matches!(
        action_outcome(ShortcutAction::TogglePreview, d, false),
        ShortcutOutcome::State(StateCommand::EnterPreview)
    ));
    assert!(matches!(
        action_outcome(ShortcutAction::ToggleMainWindow, d, false),
        ShortcutOutcome::ToggleMainWindow
    ));
    assert!(matches!(action_outcome(ShortcutAction::ForceReset, d, false), ShortcutOutcome::ForceReset));
}
