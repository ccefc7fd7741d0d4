//! Global keyboard shortcuts: the fixed set of actions, their configurable
//! bindings, validation of a binding set, and what a key press asks for.

use std::collections::HashMap;

use vstd::prelude::*;

use crate::timer::StateCommand;

verus! {

broadcast use vstd::std_specs::hash::group_hash_axioms;

/// Store key of the persisted bindings.
pub const STORE_KEY_SHORTCUT_BINDINGS: &'static str = "shortcut_bindings";

/// The actions a shortcut can trigger; the set is fixed, the keys are not.
#[derive(Debug, Clone, Copy, PartialEq, Eq, Structural, Hash)]
pub enum ShortcutAction {
    StartPreset1,
    StartPreset2,
    StartPreset3,
    TakeBreakNow,
    StopSession,
    /// Enters Preview, or leaves it when the timer is in Preview.
    TogglePreview,
    ForceReset,
    ToggleMainWindow,
}

impl ShortcutAction {
    /// Every action, in the order the settings list them.
    pub fn all() -> (r: [ShortcutAction; 8])
        ensures
            forall|a: ShortcutAction| #[trigger] r@.contains(a),
    {
        let r = [
            ShortcutAction::StartPreset1,
            ShortcutAction::StartPreset2,
            ShortcutAction::StartPreset3,
            ShortcutAction::TakeBreakNow,
            ShortcutAction::StopSession,
            ShortcutAction::TogglePreview,
            ShortcutAction::ForceReset,
            ShortcutAction::ToggleMainWindow,
        ];
        proof {
            assert forall|a: ShortcutAction| #[trigger] r@.contains(a) by {
                match a {
                    ShortcutAction::StartPreset1 => assert(r@[0] == a),
                    ShortcutAction::StartPreset2 => assert(r@[1] == a),
                    ShortcutAction::StartPreset3 => assert(r@[2] == a),
                    ShortcutAction::TakeBreakNow => assert(r@[3] == a),
                    ShortcutAction::StopSession => assert(r@[4] == a),
                    ShortcutAction::TogglePreview => assert(r@[5] == a),
                    ShortcutAction::ForceReset => assert(r@[6] == a),
                    ShortcutAction::ToggleMainWindow => assert(r@[7] == a),
                }
            }
        }
        r
    }
}

#[derive(Debug, Clone, Copy, PartialEq, Eq, Structural, Hash, PartialOrd, Ord)]
pub enum ModifierKey {
    Alt,
    Shift,
    Control,
    Meta,
}

/// Modifier bits of the keyboard model (`keyboard_types::Modifiers`).
pub const MODIFIER_ALT: u32 = 0x01;
pub const MODIFIER_CONTROL: u32 = 0x08;
pub const MODIFIER_META: u32 = 0x40;
pub const MODIFIER_SHIFT: u32 = 0x200;
pub const MODIFIER_SUPER: u32 = 0x2000;

/// Meta is registered as Super (Windows key, Command key).
pub open spec fn spec_modifier_bits(m: ModifierKey) -> u32 {
    match m {
        ModifierKey::Alt => MODIFIER_ALT,
        ModifierKey::Shift => MODIFIER_SHIFT,
        ModifierKey::Control => MODIFIER_CONTROL,
        ModifierKey::Meta => MODIFIER_SUPER,
    }
}

impl ModifierKey {
    pub fn modifier_bits(&self) -> (r: u32)
        ensures
            r == spec_modifier_bits(*self),
    {
        match self {
            ModifierKey::Alt => MODIFIER_ALT,
            ModifierKey::Shift => MODIFIER_SHIFT,
            ModifierKey::Control => MODIFIER_CONTROL,
            ModifierKey::Meta => MODIFIER_SUPER,
        }
    }
}

/// The union of the modifiers' bits.
pub open spec fn spec_modifiers_union(mods: Seq<ModifierKey>) -> u32
    decreases mods.len(),
{
    if mods.len() == 0 {
        0
    } else {
        spec_modifiers_union(mods.drop_last()) | spec_modifier_bits(mods.last())
    }
}

/// A hotkey holds Super as Meta.
pub open spec fn spec_hotkey_mods(m: u32) -> u32 {
    if m & MODIFIER_SUPER != 0 {
        (m & !MODIFIER_SUPER) | MODIFIER_META
    } else {
        m
    }
}

/// Identifier of a registered hotkey: its modifiers in the high half, its
/// key code in the low half.
pub open spec fn spec_hotkey_id(mods: u32, code: u32) -> u32 {
    (spec_hotkey_mods(mods) << 16u32) | code
}

/// Every modifier has a bit of its own: Alt, Shift and Control their own,
/// Meta that of Super.
pub proof fn lemma_modifier_bits_distinct(a: ModifierKey, b: ModifierKey)
    ensures
        spec_modifier_bits(ModifierKey::Alt) == MODIFIER_ALT,
        spec_modifier_bits(ModifierKey::Shift) == MODIFIER_SHIFT,
        spec_modifier_bits(ModifierKey::Control) == MODIFIER_CONTROL,
        spec_modifier_bits(ModifierKey::Meta) == MODIFIER_SUPER,
        (spec_modifier_bits(a) & spec_modifier_bits(b) != 0) <==> a == b,
        spec_modifier_bits(a) & !(MODIFIER_ALT | MODIFIER_CONTROL | MODIFIER_SHIFT | MODIFIER_SUPER)
            == 0,
{
    let x = spec_modifier_bits(a);
    let y = spec_modifier_bits(b);
    assert(x == 1 || x == 8 || x == 0x200 || x == 0x2000);
    assert(y == 1 || y == 8 || y == 0x200 || y == 0x2000);
    assert((x == 1 || x == 8 || x == 0x200 || x == 0x2000) && (y == 1 || y == 8 || y == 0x200 || y
        == 0x2000) ==> ((x & y != 0) <==> x == y) && x & !(1u32 | 8u32 | 0x200u32 | 0x2000u32)
        == 0) by (bit_vector);
}

/// A binding's modifier bits hold exactly the modifiers it lists, in any
/// order and however often listed, and nothing else.
pub proof fn lemma_modifiers_union(mods: Seq<ModifierKey>, m: ModifierKey)
    ensures
        (spec_modifiers_union(mods) & spec_modifier_bits(m) != 0) <==> mods.contains(m),
        spec_modifiers_union(mods) & !(MODIFIER_ALT | MODIFIER_CONTROL | MODIFIER_SHIFT
            | MODIFIER_SUPER) == 0,
    decreases mods.len(),
{
    let k = spec_modifier_bits(m);
    if mods.len() == 0 {
        assert(0u32 & k == 0) by (bit_vector);
        assert(0u32 & !(0x1u32 | 0x8u32 | 0x200u32 | 0x2000u32) == 0) by (bit_vector);
    } else {
        let init = mods.drop_last();
        lemma_modifiers_union(init, m);
        lemma_modifier_bits_distinct(mods.last(), m);
        let u = spec_modifiers_union(init);
        let b = spec_modifier_bits(mods.last());
        let mask = !(MODIFIER_ALT | MODIFIER_CONTROL | MODIFIER_SHIFT | MODIFIER_SUPER);
        assert(((u | b) & k != 0) <==> (u & k != 0 || b & k != 0)) by (bit_vector);
        assert(u & mask == 0 && b & mask == 0 ==> (u | b) & mask == 0) by (bit_vector);
        assert(mods =~= init.push(mods.last()));
        if init.contains(m) {
            let i = choose|i: int| 0 <= i < init.len() && init[i] == m;
            assert(mods[i] == m);
        }
        if mods.contains(m) && mods.last() != m {
            let i = choose|i: int| 0 <= i < mods.len() && mods[i] == m;
            assert(init[i] == m);
        }
    }
}

/// A hotkey holds Super as Meta: Super's bit is cleared, Meta's is set when
/// either was, and every other bit is kept.
pub proof fn lemma_hotkey_mods(m: u32)
    ensures
        spec_hotkey_mods(m) & MODIFIER_SUPER == 0,
        (spec_hotkey_mods(m) & MODIFIER_META != 0) <==> (m & (MODIFIER_SUPER | MODIFIER_META) != 0),
        spec_hotkey_mods(m) & !(MODIFIER_SUPER | MODIFIER_META) == m & !(MODIFIER_SUPER
            | MODIFIER_META),
{
    let h = spec_hotkey_mods(m);
    if m & 0x2000u32 != 0 {
        assert(h == (m & !0x2000u32) | 0x40u32);
        assert((m & 0x2000u32) != 0 ==> ((m & !0x2000u32) | 0x40u32) & 0x2000u32 == 0 && (((m
            & !0x2000u32) | 0x40u32) & 0x40u32 != 0) && ((m & (0x2000u32 | 0x40u32)) != 0) && ((
        m & !0x2000u32) | 0x40u32) & !(0x2000u32 | 0x40u32) == m & !(0x2000u32 | 0x40u32))
            by (bit_vector);
    } else {
        assert(h == m);
        assert((m & 0x2000u32) == 0 ==> (m & 0x2000u32 == 0) && ((m & 0x40u32 != 0) <==> (m & (
        0x2000u32 | 0x40u32) != 0))) by (bit_vector);
    }
}

/// Two hotkeys get the same identifier exactly when they hold the same
/// modifiers and the same key code (codes and modifier bits fit in 16 bits).
pub proof fn lemma_hotkey_id_injective(m1: u32, c1: u32, m2: u32, c2: u32)
    requires
        c1 < 0x10000,
        c2 < 0x10000,
        m1 < 0x10000,
        m2 < 0x10000,
    ensures
        (spec_hotkey_id(m1, c1) == spec_hotkey_id(m2, c2)) <==> (spec_hotkey_mods(m1)
            == spec_hotkey_mods(m2) && c1 == c2),
{
    let h1 = spec_hotkey_mods(m1);
    let h2 = spec_hotkey_mods(m2);
    assert(m1 < 0x10000 ==> (m1 & !0x2000u32) | 0x40u32 < 0x10000) by (bit_vector);
    assert(m2 < 0x10000 ==> (m2 & !0x2000u32) | 0x40u32 < 0x10000) by (bit_vector);
    assert(h1 < 0x10000 && h2 < 0x10000 && c1 < 0x10000 && c2 < 0x10000 ==> (((h1 << 16u32) | c1
        == (h2 << 16u32) | c2) <==> (h1 == h2 && c1 == c2))) by (bit_vector);
}

/// The key code named by a `KeyboardEvent.code` string (such as "KeyB"),
/// as the code's position in the keyboard model's list of codes; `None`
/// when the name is not a code.
pub uninterp spec fn spec_key_code(name: Seq<char>) -> Option<u32>;

/// Parses a key name by `keyboard_types::Code::from_str` and takes the code
/// as its discriminant (the key code a hotkey identifier carries).
/// Trusted: the result is `spec_key_code` of the name, so it depends on the
/// name alone; which names parse to which codes is not stated.
#[verifier::external_body]
fn parse_key_code(name: &str) -> (r: Option<u32>)
    ensures
        r == spec_key_code(name@),
{
    match name.parse::<keyboard_types::Code>() {
        Ok(code) => Some(code as u32),
        Err(_) => None,
    }
}


/// One binding: modifiers (at least one) and one main key, named as in
/// `KeyboardEvent.code`.
#[derive(Debug, Clone, PartialEq, Eq)]
pub struct KeyBinding {
    pub modifiers: Vec<ModifierKey>,
    pub code: String,
}

impl View for KeyBinding {
    type V = (Seq<ModifierKey>, Seq<char>);

    open spec fn view(&self) -> (Seq<ModifierKey>, Seq<char>) {
        (self.modifiers@, self.code@)
    }
}

/// A hotkey ready for registration.
#[derive(Debug, Clone, Copy, PartialEq, Eq, Structural)]
pub struct ShortcutKey {
    /// Modifier bits as the hotkey holds them.
    pub mods: u32,
    /// Key code.
    pub code: u32,
    pub id: u32,
}

#[derive(Debug, Clone)]
pub enum BindingError {
    EmptyModifiers,
    UnrecognisedCode(String),
}

/// Failure to apply a binding set: it does not validate, or the hotkey
/// service refused it.
#[derive(Debug, Clone)]
pub enum ApplyShortcutError {
    Validation(String),
    Plugin(String),
}

/// Whether a binding becomes a hotkey: `Some` with its modifier bits and
/// key code, or `None` when it has no modifier or names no key.
pub open spec fn spec_binding_key(b: (Seq<ModifierKey>, Seq<char>)) -> Option<ShortcutKey> {
    if b.0.len() == 0 {
        None
    } else {
        match spec_key_code(b.1) {
            None => None,
            Some(code) => Some(
                ShortcutKey {
                    mods: spec_hotkey_mods(spec_modifiers_union(b.0)),
                    code,
                    id: spec_hotkey_id(spec_modifiers_union(b.0), code),
                },
            ),
        }
    }
}

/// The error a binding that does not become a hotkey reports.
pub open spec fn spec_binding_error_matches(b: (Seq<ModifierKey>, Seq<char>), e: BindingError) -> bool {
    if b.0.len() == 0 {
        e is EmptyModifiers
    } else {
        e matches BindingError::UnrecognisedCode(c) && c@ == b.1
    }
}

fn modifiers_union(mods: &Vec<ModifierKey>) -> (r: u32)
    ensures
        r == spec_modifiers_union(mods@),
{
    let mut acc: u32 = 0;
    let mut i: usize = 0;
    while i < mods.len()
        invariant
            i <= mods@.len(),
            acc == spec_modifiers_union(mods@.take(i as int)),
        decreases mods.len() - i,
    {
        acc = acc | mods[i].modifier_bits();
        proof {
            assert(mods@.take(i as int + 1).drop_last() =~= mods@.take(i as int));
        }
        i += 1;
    }
    proof {
        assert(mods@.take(mods@.len() as int) =~= mods@);
    }
    acc
}

fn hotkey_mods(mods: u32) -> (r: u32)
    ensures
        r == spec_hotkey_mods(mods),
{
    if mods & MODIFIER_SUPER != 0 {
        (mods & !MODIFIER_SUPER) | MODIFIER_META
    } else {
        mods
    }
}

impl KeyBinding {
    /// A copy of this binding.
    pub fn copied(&self) -> (r: KeyBinding)
        ensures
            r@ == self@,
    {
        let mut modifiers: Vec<ModifierKey> = Vec::new();
        let mut i: usize = 0;
        while i < self.modifiers.len()
            invariant
                i <= self.modifiers@.len(),
                modifiers@ == self.modifiers@.take(i as int),
            decreases self.modifiers.len() - i,
        {
            modifiers.push(self.modifiers[i]);
            proof {
                assert(self.modifiers@.take(i as int + 1) =~= self.modifiers@.take(i as int).push(
                    self.modifiers@[i as int],
                ));
            }
            i += 1;
        }
        proof {
            assert(self.modifiers@.take(self.modifiers@.len() as int) =~= self.modifiers@);
        }
        KeyBinding { modifiers, code: self.code.clone() }
    }

    /// The hotkey of this binding.
    pub fn to_shortcut(&self) -> (r: Result<ShortcutKey, BindingError>)
        ensures
            match r {
                Ok(k) => spec_binding_key(self@) == Some(k),
                Err(e) => spec_binding_key(self@) is None && spec_binding_error_matches(self@, e),
            },
    {
        if self.modifiers.len() == 0 {
            return Err(BindingError::EmptyModifiers);
        }
        let union = modifiers_union(&self.modifiers);
        match parse_key_code(self.code.as_str()) {
            None => Err(BindingError::UnrecognisedCode(self.code.clone())),
            Some(code) => Ok(
                ShortcutKey { mods: hotkey_mods(union), code, id: (hotkey_mods(union) << 16u32) | code },
            ),
        }
    }
}

/// The bindings seen through their views.
pub open spec fn spec_binding_views(entries: Seq<(ShortcutAction, KeyBinding)>) -> Seq<
    (ShortcutAction, (Seq<ModifierKey>, Seq<char>)),
> {
    Seq::new(entries.len(), |i: int| (entries[i].0, entries[i].1@))
}

/// No action is bound twice.
pub open spec fn spec_actions_distinct(entries: Seq<(ShortcutAction, (Seq<ModifierKey>, Seq<char>))>) -> bool {
    forall|i: int, j: int|
        0 <= i < j < entries.len() ==> #[trigger] entries[i].0 != #[trigger] entries[j].0
}

/// Bindings of actions, at most one per action, in insertion order.
#[derive(Debug)]
pub struct ShortcutBindings {
    entries: Vec<(ShortcutAction, KeyBinding)>,
}

impl ShortcutBindings {
    /// No action is bound twice.
    #[verifier::type_invariant]
    spec fn inv(self) -> bool {
        spec_actions_distinct(spec_binding_views(self.entries@))
    }
}

impl View for ShortcutBindings {
    type V = Seq<(ShortcutAction, (Seq<ModifierKey>, Seq<char>))>;

    closed spec fn view(&self) -> Seq<(ShortcutAction, (Seq<ModifierKey>, Seq<char>))> {
        spec_binding_views(self.entries@)
    }
}

impl ShortcutBindings {
    pub fn new() -> (r: Self)
        ensures
            r@.len() == 0,
            r.wf(),
    {
        ShortcutBindings { entries: Vec::new() }
    }

    /// No action is bound twice; every value of the type has it.
    pub open spec fn wf(self) -> bool {
        spec_actions_distinct(self@)
    }

    pub fn len(&self) -> (r: usize)
        ensures
            r == self@.len(),
    {
        self.entries.len()
    }

    pub fn is_empty(&self) -> (r: bool)
        ensures
            r == (self@.len() == 0),
    {
        self.entries.len() == 0
    }

    /// The `i`-th binding.
    pub fn entry(&self, i: usize) -> (r: (ShortcutAction, KeyBinding))
        requires
            i < self@.len(),
        ensures
            r.0 == self@[i as int].0,
            r.1@ == self@[i as int].1,
    {
        let a = self.entries[i].0;
        let b = self.entries[i].1.copied();
        (a, b)
    }

    /// The binding of `action`.
    pub fn get(&self, action: ShortcutAction) -> (r: Option<KeyBinding>)
        ensures
            match r {
                Some(b) => exists|i: int|
                    0 <= i < self@.len() && #[trigger] self@[i] == (action, b@),
                None => forall|i: int| 0 <= i < self@.len() ==> #[trigger] self@[i].0 != action,
            },
    {
        let mut i: usize = 0;
        while i < self.entries.len()
            invariant
                i <= self@.len(),
                self@.len() == self.entries@.len(),
                forall|k: int| 0 <= k < i ==> #[trigger] self@[k].0 != action,
            decreases self.entries.len() - i,
        {
            if self.entries[i].0 == action {
                let b = self.entries[i].1.copied();
                proof {
                    assert(self@[i as int] == (action, b@));
                }
                return Some(b);
            }
            i += 1;
        }
        None
    }

    /// Where `action` is bound.
    fn position(&self, action: ShortcutAction) -> (r: Option<usize>)
        ensures
            match r {
                Some(i) => i < self@.len() && self@[i as int].0 == action,
                None => forall|i: int| 0 <= i < self@.len() ==> #[trigger] self@[i].0 != action,
            },
    {
        let mut i: usize = 0;
        while i < self.entries.len()
            invariant
                i <= self@.len(),
                self@.len() == self.entries@.len(),
                forall|k: int| 0 <= k < i ==> #[trigger] self@[k].0 != action,
            decreases self.entries.len() - i,
        {
            if self.entries[i].0 == action {
                return Some(i);
            }
            i += 1;
        }
        None
    }

    /// Binds `action` to `binding`, replacing its previous binding in
    /// place, or appending it when the action had none.
    pub fn insert(&mut self, action: ShortcutAction, binding: KeyBinding)
        ensures
            final(self).wf(),
            (exists|i: int| 0 <= i < old(self)@.len() && #[trigger] old(self)@[i].0 == action)
                ==> exists|i: int|
                0 <= i < old(self)@.len() && #[trigger] old(self)@[i].0 == action && final(self)@
                    == old(self)@.update(i, (action, binding@)),
            (forall|i: int| 0 <= i < old(self)@.len() ==> #[trigger] old(self)@[i].0 != action)
                ==> final(self)@ == old(self)@.push((action, binding@)),
    {
        proof {
            use_type_invariant(&*self);
        }
        let ghost before = self@;
        let ghost bv = binding@;
        let pos = self.position(action);
        let mut entries: Vec<(ShortcutAction, KeyBinding)> = Vec::new();
        std::mem::swap(&mut entries, &mut self.entries);
        let ghost old_entries = entries@;
        proof {
            assert(spec_binding_views(old_entries) == before);
        }
        match pos {
            Some(i) => {
                entries.set(i, (action, binding));
                proof {
                    let now = spec_binding_views(entries@);
                    assert forall|k: int| 0 <= k < now.len() implies #[trigger] now[k]
                        == before.update(i as int, (action, bv))[k] by {
                        if k != i {
                            assert(entries@[k] == old_entries[k]);
                        }
                    }
                    assert(now =~= before.update(i as int, (action, bv)));
                    assert forall|a: int, b: int|
                        0 <= a < b < now.len() implies #[trigger] now[a].0 != #[trigger] now[b].0 by {
                        assert(now[a].0 == before[a].0);
                        assert(now[b].0 == before[b].0);
                    }
                }
            },
            None => {
                entries.push((action, binding));
                proof {
                    let now = spec_binding_views(entries@);
                    assert(now =~= before.push((action, bv)));
                    assert forall|a: int, b: int|
                        0 <= a < b < now.len() implies #[trigger] now[a].0 != #[trigger] now[b].0 by {
                        if b == now.len() - 1 {
                            assert(before[a].0 != action);
                        }
                    }
                }
            },
        }
        self.entries = entries;
    }
}

fn alt_shift(code: &str) -> (r: KeyBinding)
    ensures
        r@ == (seq![ModifierKey::Alt, ModifierKey::Shift], code@),
{
    let mut modifiers = Vec::new();
    modifiers.push(ModifierKey::Alt);
    modifiers.push(ModifierKey::Shift);
    proof {
        assert(modifiers@ =~= seq![ModifierKey::Alt, ModifierKey::Shift]);
    }
    KeyBinding { modifiers, code: String::from_str(code) }
}

/// Factory bindings: Alt+Shift with 1, 2, 3, B, Q, T, F and H.
pub fn default_shortcut_bindings() -> (r: ShortcutBindings)
    ensures
        r.wf(),
        r@ == seq![
            (ShortcutAction::StartPreset1, (seq![ModifierKey::Alt, ModifierKey::Shift], "Digit1"@)),
            (ShortcutAction::StartPreset2, (seq![ModifierKey::Alt, ModifierKey::Shift], "Digit2"@)),
            (ShortcutAction::StartPreset3, (seq![ModifierKey::Alt, ModifierKey::Shift], "Digit3"@)),
            (ShortcutAction::TakeBreakNow, (seq![ModifierKey::Alt, ModifierKey::Shift], "KeyB"@)),
            (ShortcutAction::StopSession, (seq![ModifierKey::Alt, ModifierKey::Shift], "KeyQ"@)),
            (ShortcutAction::TogglePreview, (seq![ModifierKey::Alt, ModifierKey::Shift], "KeyT"@)),
            (ShortcutAction::ForceReset, (seq![ModifierKey::Alt, ModifierKey::Shift], "KeyF"@)),
            (ShortcutAction::ToggleMainWindow, (seq![ModifierKey::Alt, ModifierKey::Shift], "KeyH"@)),
        ],
{
    let mut entries: Vec<(ShortcutAction, KeyBinding)> = Vec::new();
    entries.push((ShortcutAction::StartPreset1, alt_shift("Digit1")));
    entries.push((ShortcutAction::StartPreset2, alt_shift("Digit2")));
    entries.push((ShortcutAction::StartPreset3, alt_shift("Digit3")));
    entries.push((ShortcutAction::TakeBreakNow, alt_shift("KeyB")));
    entries.push((ShortcutAction::StopSession, alt_shift("KeyQ")));
    entries.push((ShortcutAction::TogglePreview, alt_shift("KeyT")));
    entries.push((ShortcutAction::ForceReset, alt_shift("KeyF")));
    entries.push((ShortcutAction::ToggleMainWindow, alt_shift("KeyH")));
    let r = ShortcutBindings { entries };
    proof {
        assert(r@ =~= seq![
            (ShortcutAction::StartPreset1, (seq![ModifierKey::Alt, ModifierKey::Shift], "Digit1"@)),
            (ShortcutAction::StartPreset2, (seq![ModifierKey::Alt, ModifierKey::Shift], "Digit2"@)),
            (ShortcutAction::StartPreset3, (seq![ModifierKey::Alt, ModifierKey::Shift], "Digit3"@)),
            (ShortcutAction::TakeBreakNow, (seq![ModifierKey::Alt, ModifierKey::Shift], "KeyB"@)),
            (ShortcutAction::StopSession, (seq![ModifierKey::Alt, ModifierKey::Shift], "KeyQ"@)),
            (ShortcutAction::TogglePreview, (seq![ModifierKey::Alt, ModifierKey::Shift], "KeyT"@)),
            (ShortcutAction::ForceReset, (seq![ModifierKey::Alt, ModifierKey::Shift], "KeyF"@)),
            (ShortcutAction::ToggleMainWindow, (seq![ModifierKey::Alt, ModifierKey::Shift], "KeyH"@)),
        ]);
    }
    r
}

/// A view of one binding.
pub type BindingView = (Seq<ModifierKey>, Seq<char>);

/// The bindings that become hotkeys, in order, with their hotkeys.
pub open spec fn spec_valid_keys(entries: Seq<(ShortcutAction, BindingView)>) -> Seq<
    (ShortcutAction, ShortcutKey),
>
    decreases entries.len(),
{
    if entries.len() == 0 {
        Seq::empty()
    } else {
        let rest = spec_valid_keys(entries.drop_last());
        match spec_binding_key(entries.last().1) {
            Some(k) => rest.push((entries.last().0, k)),
            None => rest,
        }
    }
}

/// When every binding is valid, the hotkeys are the bindings' own, one
/// for each binding, in the same order, each with its binding's action.
pub proof fn lemma_valid_keys_follow_bindings(entries: Seq<(ShortcutAction, BindingView)>)
    requires
        forall|i: int| 0 <= i < entries.len() ==> #[trigger] spec_binding_key(entries[i].1) is Some,
    ensures
        spec_valid_keys(entries).len() == entries.len(),
        forall|i: int|
            0 <= i < entries.len() ==> #[trigger] spec_valid_keys(entries)[i] == (
                entries[i].0,
                spec_binding_key(entries[i].1)->0,
            ),
    decreases entries.len(),
{
    if entries.len() > 0 {
        let init = entries.drop_last();
        assert forall|i: int| 0 <= i < init.len() implies #[trigger] spec_binding_key(init[i].1) is Some by {
            assert(init[i] == entries[i]);
        }
        lemma_valid_keys_follow_bindings(init);
        assert(spec_binding_key(entries[entries.len() - 1].1) is Some);
        assert forall|i: int| 0 <= i < entries.len() implies #[trigger] spec_valid_keys(entries)[i]
            == (entries[i].0, spec_binding_key(entries[i].1)->0) by {
            if i < init.len() {
                assert(init[i] == entries[i]);
            }
        }
    }
}

/// No two hotkeys share an identifier.
pub open spec fn spec_ids_distinct(keys: Seq<(ShortcutAction, ShortcutKey)>) -> bool {
    forall|i: int, j: int|
        0 <= i < j < keys.len() ==> #[trigger] keys[i].1.id != #[trigger] keys[j].1.id
}

/// The routing table of a list of hotkeys: each identifier mapped to its
/// action, a later hotkey overriding an earlier one with the same identifier.
pub open spec fn spec_route_map(keys: Seq<(ShortcutAction, ShortcutKey)>) -> Map<u32, ShortcutAction>
    decreases keys.len(),
{
    if keys.len() == 0 {
        Map::empty()
    } else {
        spec_route_map(keys.drop_last()).insert(keys.last().1.id, keys.last().0)
    }
}

/// An identifier is routed exactly when some hotkey has it, and to the
/// action of such a hotkey.
proof fn lemma_route_map_lookup(keys: Seq<(ShortcutAction, ShortcutKey)>, id: u32)
    ensures
        spec_route_map(keys).contains_key(id) <==> exists|i: int|
            0 <= i < keys.len() && #[trigger] keys[i].1.id == id,
        spec_route_map(keys).contains_key(id) ==> exists|i: int|
            0 <= i < keys.len() && #[trigger] keys[i].1.id == id && keys[i].0 == spec_route_map(
                keys,
            )[id],
    decreases keys.len(),
{
    if keys.len() > 0 {
        let init = keys.drop_last();
        lemma_route_map_lookup(init, id);
        let last = keys.len() - 1;
        if keys[last].1.id == id {
            assert(keys[last].1.id == id);
        } else {
            if spec_route_map(init).contains_key(id) {
                let i = choose|i: int|
                    0 <= i < init.len() && #[trigger] init[i].1.id == id && init[i].0
                        == spec_route_map(init)[id];
                assert(keys[i] == init[i]);
            }
            if exists|i: int| 0 <= i < keys.len() && #[trigger] keys[i].1.id == id {
                let i = choose|i: int| 0 <= i < keys.len() && #[trigger] keys[i].1.id == id;
                assert(init[i] == keys[i]);
            }
        }
    }
}

/// With distinct identifiers every hotkey routes to its own action.
proof fn lemma_route_map_distinct(keys: Seq<(ShortcutAction, ShortcutKey)>, i: int)
    requires
        spec_ids_distinct(keys),
        0 <= i < keys.len(),
    ensures
        spec_route_map(keys).contains_key(keys[i].1.id),
        spec_route_map(keys)[keys[i].1.id] == keys[i].0,
    decreases keys.len(),
{
    let last = keys.len() - 1;
    if i < last {
        let init = keys.drop_last();
        assert(init[i] == keys[i]);
        assert(keys[i].1.id != keys[last].1.id);
        assert forall|a: int, b: int| 0 <= a < b < init.len() implies #[trigger] init[a].1.id
            != #[trigger] init[b].1.id by {
            assert(init[a] == keys[a] && init[b] == keys[b]);
            assert(keys[a].1.id != keys[b].1.id);
        }
        lemma_route_map_distinct(init, i);
    }
}

/// Every binding becomes a hotkey: it has a modifier and names a key.
pub open spec fn spec_all_valid(entries: Seq<(ShortcutAction, BindingView)>) -> bool {
    forall|i: int| 0 <= i < entries.len() ==> #[trigger] spec_binding_key(entries[i].1) is Some
}

/// A binding set validates: every binding becomes a hotkey, and no two
/// hotkeys share their key combination.
pub open spec fn spec_build_ok(entries: Seq<(ShortcutAction, BindingView)>) -> bool {
    spec_all_valid(entries) && spec_ids_distinct(spec_valid_keys(entries))
}

/// Why a binding set does not validate, naming the first binding at fault.
#[derive(Debug, Clone)]
pub enum BindingSetError {
    /// The binding of `action` has no modifier or names no key.
    Invalid { action: ShortcutAction, binding: KeyBinding, error: BindingError },
    /// The binding of `action` repeats the key combination of `previous`.
    Collision { previous: ShortcutAction, action: ShortcutAction, binding: KeyBinding },
}

/// The outcome of validation when the `n`-th binding (counting from 1) is
/// the first at fault: every binding before it is valid and distinct, and
/// it is either invalid or collides with an earlier one.
pub open spec fn spec_error_at(
    entries: Seq<(ShortcutAction, BindingView)>,
    n: int,
    e: BindingSetError,
) -> bool {
    let before = entries.take(n - 1);
    let valid = spec_valid_keys(before);
    &&& 1 <= n <= entries.len()
    &&& spec_build_ok(before)
    &&& match e {
        BindingSetError::Invalid { action, binding, error } => {
            &&& spec_binding_key(entries[n - 1].1) is None
            &&& action == entries[n - 1].0
            &&& binding@ == entries[n - 1].1
            &&& spec_binding_error_matches(entries[n - 1].1, error)
        },
        BindingSetError::Collision { previous, action, binding } => {
            &&& spec_binding_key(entries[n - 1].1) matches Some(k) && exists|i: int|
                0 <= i < valid.len() && #[trigger] valid[i].1.id == k.id && valid[i].0 == previous
            &&& action == entries[n - 1].0
            &&& binding@ == entries[n - 1].1
        },
    }
}

/// Validates a binding set and builds its routing table and hotkeys, in
/// order.  A binding with no modifier or no known key fails the set, and
/// so do two bindings with the same key combination; the error names the
/// first binding at fault.
pub fn try_build_by_id_and_shortcuts(bindings: &ShortcutBindings) -> (r: Result<
    (HashMap<u32, ShortcutAction>, Vec<ShortcutKey>),
    BindingSetError,
>)
    ensures
        r is Ok <==> spec_build_ok(bindings@),
        match r {
            Ok((by_id, keys)) => {
                &&& by_id@ == spec_route_map(spec_valid_keys(bindings@))
                &&& keys@.len() == spec_valid_keys(bindings@).len()
                &&& forall|i: int|
                    0 <= i < keys@.len() ==> #[trigger] keys@[i] == spec_valid_keys(bindings@)[i].1
            },
            Err(e) => exists|n: int| #[trigger] spec_error_at(bindings@, n, e),
        },
{
    let ghost entries = bindings@;
    let n = bindings.len();
    let mut by_id: HashMap<u32, ShortcutAction> = HashMap::with_capacity(n);
    let mut keys: Vec<ShortcutKey> = Vec::new();
    let mut i: usize = 0;
    while i < n
        invariant
            n == entries.len(),
            entries == bindings@,
            i <= n,
            spec_build_ok(entries.take(i as int)),
            by_id@ == spec_route_map(spec_valid_keys(entries.take(i as int))),
            keys@.len() == spec_valid_keys(entries.take(i as int)).len(),
            forall|k: int|
                0 <= k < keys@.len() ==> #[trigger] keys@[k] == spec_valid_keys(
                    entries.take(i as int),
                )[k].1,
        decreases n - i,
    {
        let (action, binding) = bindings.entry(i);
        let ghost prefix = entries.take(i as int);
        proof {
            assert(entries.take(i as int + 1).drop_last() =~= prefix);
            assert(entries.take(i as int + 1).last() == entries[i as int]);
            assert(entries.take(i as int + 1 - 1) =~= prefix);
        }
        match binding.to_shortcut() {
            Err(error) => {
                let e = BindingSetError::Invalid { action, binding, error };
                proof {
                    assert(spec_error_at(entries, i as int + 1, e));
                    lemma_error_fails(entries, i as int + 1, e);
                }
                return Err(e);
            },
            Ok(key) => {
                let id = key.id;
                let ghost valid = spec_valid_keys(prefix);
                proof {
                    lemma_route_map_lookup(valid, id);
                }
                match by_id.insert(id, action) {
                    Some(previous) => {
                        let e = BindingSetError::Collision { previous, action, binding };
                        proof {
                            assert(spec_error_at(entries, i as int + 1, e));
                            lemma_error_fails(entries, i as int + 1, e);
                        }
                        return Err(e);
                    },
                    None => {},
                }
                keys.push(key);
                proof {
                    let next = entries.take(i as int + 1);
                    let v = spec_valid_keys(next);
                    assert(v =~= valid.push((action, key)));
                    assert(v.drop_last() =~= valid);
                    assert(by_id@ == spec_route_map(v));
                    assert forall|a: int, b: int|
                        0 <= a < b < v.len() implies #[trigger] v[a].1.id != #[trigger] v[b].1.id by {
                        if b == v.len() - 1 {
                            assert(v[a] == valid[a]);
                        } else {
                            assert(v[a] == valid[a] && v[b] == valid[b]);
                        }
                    }
                    assert forall|j: int| 0 <= j < next.len() implies #[trigger] spec_binding_key(
                        next[j].1,
                    ) is Some by {
                        if j < i {
                            assert(next[j] == prefix[j]);
                        }
                    }
                }
            },
        }
        i += 1;
    }
    proof {
        assert(entries.take(n as int) =~= entries);
    }
    Ok((by_id, keys))
}

/// The hotkeys of a prefix are a prefix of the hotkeys of the whole.
proof fn lemma_valid_keys_prefix(entries: Seq<(ShortcutAction, BindingView)>, m: int)
    requires
        0 <= m <= entries.len(),
    ensures
        spec_valid_keys(entries.take(m)).len() <= spec_valid_keys(entries).len(),
        spec_valid_keys(entries.take(m)) =~= spec_valid_keys(entries).take(
            spec_valid_keys(entries.take(m)).len() as int,
        ),
    decreases entries.len(),
{
    if m == entries.len() {
        assert(entries.take(m) =~= entries);
    } else {
        assert(entries.drop_last().take(m) =~= entries.take(m));
        lemma_valid_keys_prefix(entries.drop_last(), m);
    }
}

/// A binding at fault fails the whole set.
proof fn lemma_error_fails(entries: Seq<(ShortcutAction, BindingView)>, n: int, e: BindingSetError)
    requires
        spec_error_at(entries, n, e),
    ensures
        !spec_build_ok(entries),
{
    match e {
        BindingSetError::Invalid { .. } => {
            assert(spec_binding_key(entries[n - 1].1) is None);
        },
        BindingSetError::Collision { previous, .. } => {
            let before = entries.take(n - 1);
            let valid = spec_valid_keys(before);
            let k = spec_binding_key(entries[n - 1].1)->0;
            let i = choose|i: int|
                0 <= i < valid.len() && #[trigger] valid[i].1.id == k.id && valid[i].0 == previous;
            assert(entries.take(n).drop_last() =~= before);
            assert(entries.take(n).last() == entries[n - 1]);
            let upto = spec_valid_keys(entries.take(n));
            assert(upto =~= valid.push((entries[n - 1].0, k)));
            lemma_valid_keys_prefix(entries, n);
            let all = spec_valid_keys(entries);
            assert(all[i] == upto[i]);
            assert(all[valid.len() as int] == upto[valid.len() as int]);
            assert(all[i].1.id == all[valid.len() as int].1.id);
        },
    }
}

/// The live routing table from hotkey identifier to action, and the
/// bindings it was built from.
#[derive(Debug)]
pub struct ShortcutRouter {
    by_id: HashMap<u32, ShortcutAction>,
    bindings: ShortcutBindings,
}

/// A routing table built from bindings that validate.
pub open spec fn spec_router_ok(
    by_id: Map<u32, ShortcutAction>,
    bindings: Seq<(ShortcutAction, BindingView)>,
) -> bool {
    spec_build_ok(bindings) && by_id == spec_route_map(spec_valid_keys(bindings))
}

impl ShortcutRouter {
    /// The routes are those built from the bindings, which validate.
    #[verifier::type_invariant]
    spec fn inv(self) -> bool {
        spec_router_ok(self.by_id@, self.bindings@)
    }
}

impl View for ShortcutRouter {
    type V = (Map<u32, ShortcutAction>, Seq<(ShortcutAction, BindingView)>);

    closed spec fn view(&self) -> (Map<u32, ShortcutAction>, Seq<(ShortcutAction, BindingView)>) {
        (self.by_id@, self.bindings@)
    }
}

impl ShortcutBindings {
    /// A copy of these bindings.
    pub fn copied(&self) -> (r: ShortcutBindings)
        ensures
            r@ == self@,
    {
        let mut entries: Vec<(ShortcutAction, KeyBinding)> = Vec::new();
        let mut i: usize = 0;
        while i < self.entries.len()
            invariant
                i <= self.entries@.len(),
                entries@.len() == i,
                forall|k: int| 0 <= k < i ==> #[trigger] spec_binding_views(entries@)[k] == self@[k],
            decreases self.entries.len() - i,
        {
            let a = self.entries[i].0;
            let b = self.entries[i].1.copied();
            let ghost before = entries@;
            entries.push((a, b));
            proof {
                assert forall|k: int| 0 <= k < i + 1 implies #[trigger] spec_binding_views(entries@)[k]
                    == self@[k] by {
                    if k < i {
                        assert(entries@[k] == before[k]);
                        assert(spec_binding_views(before)[k] == self@[k]);
                    }
                }
            }
            i += 1;
        }
        proof {
            use_type_invariant(self);
            assert(spec_binding_views(entries@) =~= self@);
        }
        ShortcutBindings { entries }
    }
}

impl ShortcutRouter {
    /// An empty table.
    pub fn new() -> (r: Self)
        ensures
            r@.0 == Map::<u32, ShortcutAction>::empty(),
            r@.1.len() == 0,
    {
        let bindings = ShortcutBindings::new();
        proof {
            assert(spec_valid_keys(bindings@) =~= Seq::<(ShortcutAction, ShortcutKey)>::empty());
        }
        ShortcutRouter { by_id: HashMap::new(), bindings }
    }

    /// A copy of the table, to roll back to.
    pub fn snapshot(&self) -> (r: ShortcutRouter)
        ensures
            r@ == self@,
    {
        proof {
            use_type_invariant(self);
        }
        let by_id = self.by_id.clone();
        let bindings = self.bindings.copied();
        ShortcutRouter { by_id, bindings }
    }

    /// Installs a routing table and the bindings it was built from.
    pub fn set(&mut self, by_id: HashMap<u32, ShortcutAction>, bindings: ShortcutBindings)
        requires
            spec_router_ok(by_id@, bindings@),
        ensures
            final(self)@ == (by_id@, bindings@),
    {
        *self = ShortcutRouter { by_id, bindings };
    }

    /// Forgets every route and binding.
    pub fn clear(&mut self)
        ensures
            final(self)@.0 == Map::<u32, ShortcutAction>::empty(),
            final(self)@.1.len() == 0,
    {
        *self = ShortcutRouter::new();
    }

    /// The hotkeys of the bindings, in order, to register them again.
    pub fn keys(&self) -> (r: Vec<ShortcutKey>)
        ensures
            r@.len() == spec_valid_keys(self@.1).len(),
            forall|i: int| 0 <= i < r@.len() ==> #[trigger] r@[i] == spec_valid_keys(self@.1)[i].1,
    {
        proof {
            use_type_invariant(self);
        }
        match try_build_by_id_and_shortcuts(&self.bindings) {
            Ok((_, keys)) => keys,
            Err(_) => {
                proof {
                    assert(false);
                }
                Vec::new()
            },
        }
    }

    /// Whether no binding is installed.
    pub fn is_empty(&self) -> (r: bool)
        ensures
            r == (self@.1.len() == 0),
    {
        self.bindings.is_empty()
    }

    /// The routing table.
    pub fn routes(&self) -> (r: HashMap<u32, ShortcutAction>)
        ensures
            r@ == self@.0,
    {
        self.by_id.clone()
    }

    /// The bindings the table was built from.
    pub fn bindings(&self) -> (r: ShortcutBindings)
        ensures
            r@ == self@.1,
    {
        self.bindings.copied()
    }

    /// The action routed from hotkey `id`, if any.
    pub fn lookup(&self, id: u32) -> (r: Option<ShortcutAction>)
        ensures
            match r {
                Some(a) => self@.0.contains_key(id) && self@.0[id] == a,
                None => !self@.0.contains_key(id),
            },
    {
        match self.by_id.get(&id) {
            Some(a) => Some(*a),
            None => None,
        }
    }
}

/// What a shortcut asks for: a timer command, a forced reset, or showing
/// or hiding the main window.
#[derive(Debug, Clone, Copy)]
pub enum ShortcutOutcome {
    State(StateCommand),
    ForceReset,
    ToggleMainWindow,
}

/// The outcome of `action`, given the preset session lengths read when it
/// fires and whether the timer is in Preview.
pub open spec fn spec_action_outcome(
    action: ShortcutAction,
    durations: [u64; 3],
    in_preview: bool,
) -> ShortcutOutcome {
    match action {
        ShortcutAction::StartPreset1 => ShortcutOutcome::State(
            StateCommand::StartSession { target_duration_ms: durations@[0] },
        ),
        ShortcutAction::StartPreset2 => ShortcutOutcome::State(
            StateCommand::StartSession { target_duration_ms: durations@[1] },
        ),
        ShortcutAction::StartPreset3 => ShortcutOutcome::State(
            StateCommand::StartSession { target_duration_ms: durations@[2] },
        ),
        ShortcutAction::TakeBreakNow => ShortcutOutcome::State(StateCommand::TakeBreakNow),
        ShortcutAction::StopSession => ShortcutOutcome::State(StateCommand::StopSession),
        ShortcutAction::ForceReset => ShortcutOutcome::ForceReset,
        ShortcutAction::TogglePreview => if in_preview {
            ShortcutOutcome::State(StateCommand::ExitPreview)
        } else {
            ShortcutOutcome::State(StateCommand::EnterPreview)
        },
        ShortcutAction::ToggleMainWindow => ShortcutOutcome::ToggleMainWindow,
    }
}

pub fn action_outcome(action: ShortcutAction, durations: [u64; 3], in_preview: bool) -> (r:
    ShortcutOutcome)
    ensures
        r == spec_action_outcome(action, durations, in_preview),
{
    match action {
        ShortcutAction::StartPreset1 => ShortcutOutcome::State(
            StateCommand::StartSession { target_duration_ms: durations[0] },
        ),
        ShortcutAction::StartPreset2 => ShortcutOutcome::State(
            StateCommand::StartSession { target_duration_ms: durations[1] },
        ),
        ShortcutAction::StartPreset3 => ShortcutOutcome::State(
            StateCommand::StartSession { target_duration_ms: durations[2] },
        ),
        ShortcutAction::TakeBreakNow => ShortcutOutcome::State(StateCommand::TakeBreakNow),
        ShortcutAction::StopSession => ShortcutOutcome::State(StateCommand::StopSession),
        ShortcutAction::ForceReset => ShortcutOutcome::ForceReset,
        ShortcutAction::TogglePreview => if in_preview {
            ShortcutOutcome::State(StateCommand::ExitPreview)
        } else {
            ShortcutOutcome::State(StateCommand::EnterPreview)
        },
        ShortcutAction::ToggleMainWindow => ShortcutOutcome::ToggleMainWindow,
    }
}

/// The action a hotkey event dispatches: none on the release edge, and
/// none for an identifier with no route (a stale event).
pub fn pressed_action(router: &ShortcutRouter, pressed: bool, id: u32) -> (r: Option<ShortcutAction>)
    ensures
        !pressed ==> r is None,
        pressed ==> match r {
            Some(a) => router@.0.contains_key(id) && router@.0[id] == a,
            None => !router@.0.contains_key(id),
        },
{
    if !pressed {
        return None;
    }
    router.lookup(id)
}

/// What each action asks for: preset `k` starts a session of the `k`-th
/// preset length, the break and stop actions send their own commands, the
/// preview toggle leaves Preview when in it and enters it otherwise, and
/// the reset and window actions are not timer commands.
pub proof fn lemma_action_outcomes(action: ShortcutAction, durations: [u64; 3], in_preview: bool)
    ensures
        ({
            let o = spec_action_outcome(action, durations, in_preview);
            &&& action == ShortcutAction::StartPreset1 ==> o == ShortcutOutcome::State(
                StateCommand::StartSession { target_duration_ms: durations@[0] },
            )
            &&& action == ShortcutAction::StartPreset2 ==> o == ShortcutOutcome::State(
                StateCommand::StartSession { target_duration_ms: durations@[1] },
            )
            &&& action == ShortcutAction::StartPreset3 ==> o == ShortcutOutcome::State(
                StateCommand::StartSession { target_duration_ms: durations@[2] },
            )
            &&& action == ShortcutAction::TakeBreakNow ==> o == ShortcutOutcome::State(
                StateCommand::TakeBreakNow,
            )
            &&& action == ShortcutAction::StopSession ==> o == ShortcutOutcome::State(
                StateCommand::StopSession,
            )
            &&& action == ShortcutAction::TogglePreview ==> o == ShortcutOutcome::State(
                if in_preview {
                    StateCommand::ExitPreview
                } else {
                    StateCommand::EnterPreview
                },
            )
            &&& action == ShortcutAction::ForceReset ==> o == ShortcutOutcome::ForceReset
            &&& action == ShortcutAction::ToggleMainWindow ==> o == ShortcutOutcome::ToggleMainWindow
        }),
{
}

/// Routing a press through a table built by `try_build_by_id_and_shortcuts`
/// finds exactly the action whose binding has that hotkey, and an
/// identifier no binding has finds nothing.
pub proof fn lemma_route_of_built_table(bindings: Seq<(ShortcutAction, BindingView)>, id: u32)
    requires
        spec_ids_distinct(spec_valid_keys(bindings)),
    ensures
        ({
            let keys = spec_valid_keys(bindings);
            let routes = spec_route_map(keys);
            &&& forall|i: int|
                0 <= i < keys.len() && #[trigger] keys[i].1.id == id ==> routes.contains_key(id)
                    && routes[id] == keys[i].0
            &&& (forall|i: int| 0 <= i < keys.len() ==> #[trigger] keys[i].1.id != id)
                ==> !routes.contains_key(id)
        }),
{
    let keys = spec_valid_keys(bindings);
    lemma_route_map_lookup(keys, id);
    assert forall|i: int| 0 <= i < keys.len() && #[trigger] keys[i].1.id == id implies spec_route_map(
        keys,
    ).contains_key(id) && spec_route_map(keys)[id] == keys[i].0 by {
        lemma_route_map_distinct(keys, i);
    }
}

/// A routing table as a value: its routes and the bindings they came from.
pub type RouterView = (Map<u32, ShortcutAction>, Seq<(ShortcutAction, BindingView)>);

/// Applying a new binding set, first step: the set validated and the
/// table in use was kept to roll back to.  Unregister every hotkey, then
/// report how that went.
#[derive(Debug)]
pub struct Unregistering {
    previous: ShortcutRouter,
    routes: HashMap<u32, ShortcutAction>,
    keys: Vec<ShortcutKey>,
    bindings: ShortcutBindings,
}

impl View for Unregistering {
    /// The table to roll back to, and the new bindings.
    type V = (RouterView, Seq<(ShortcutAction, BindingView)>);

    closed spec fn view(&self) -> (RouterView, Seq<(ShortcutAction, BindingView)>) {
        (self.previous@, self.bindings@)
    }
}

impl Unregistering {
    #[verifier::type_invariant]
    spec fn inv(self) -> bool {
        &&& spec_router_ok(self.routes@, self.bindings@)
        &&& self.keys@.len() == spec_valid_keys(self.bindings@).len()
        &&& forall|i: int|
            0 <= i < self.keys@.len() ==> #[trigger] self.keys@[i] == spec_valid_keys(
                self.bindings@,
            )[i].1
    }
}

/// Second step: the new table is installed (before registering, so that
/// no press finds it missing).  Register `keys()`, then report how that
/// went.
#[derive(Debug)]
pub struct Registering {
    previous: ShortcutRouter,
    keys: Vec<ShortcutKey>,
}

impl View for Registering {
    /// The table to roll back to, and the hotkeys to register.
    type V = (RouterView, Seq<ShortcutKey>);

    closed spec fn view(&self) -> (RouterView, Seq<ShortcutKey>) {
        (self.previous@, self.keys@)
    }
}

/// Registering failed: unregister every hotkey (whatever comes of it), then
/// restore the table kept.
#[derive(Debug)]
pub struct RollingBack {
    previous: ShortcutRouter,
    error: String,
}

impl View for RollingBack {
    /// The table to restore, and the failure to report.
    type V = (RouterView, Seq<char>);

    closed spec fn view(&self) -> (RouterView, Seq<char>) {
        (self.previous@, self.error@)
    }
}

/// The end of a failed apply: the error to report, and the hotkeys of the
/// restored table to register again (none when there was no table before).
#[derive(Debug)]
pub struct RolledBack {
    pub restore: Option<Vec<ShortcutKey>>,
    pub error: ApplyShortcutError,
}

/// Starts applying `bindings` over the table `router`: a set that does not
/// validate is refused at once with its first binding at fault.
pub fn begin_apply_bindings(router: &ShortcutRouter, bindings: ShortcutBindings) -> (r: Result<
    Unregistering,
    BindingSetError,
>)
    ensures
        r is Ok <==> spec_build_ok(bindings@),
        match r {
            Ok(u) => u@ == (router@, bindings@),
            Err(e) => exists|n: int| #[trigger] spec_error_at(bindings@, n, e),
        },
{
    match try_build_by_id_and_shortcuts(&bindings) {
        Ok((routes, keys)) => {
            let previous = router.snapshot();
            Ok(Unregistering { previous, routes, keys, bindings })
        },
        Err(e) => Err(e),
    }
}

impl Unregistering {
    /// Unregistering every hotkey went as `result` says: on failure the
    /// apply ends with that error and the table stays as it was; otherwise
    /// the new table is installed.
    pub fn on_unregistered(self, router: &mut ShortcutRouter, result: Result<(), String>) -> (r:
        Result<Registering, ApplyShortcutError>)
        ensures
            match result {
                Err(e) => {
                    &&& final(router)@ == old(router)@
                    &&& r matches Err(ApplyShortcutError::Plugin(m)) && m@ == e@
                },
                Ok(_) => {
                    &&& final(router)@.1 == self@.1
                    &&& final(router)@.0 == spec_route_map(spec_valid_keys(self@.1))
                    &&& r matches Ok(g) && g@.0 == self@.0 && g@.1.len() == spec_valid_keys(
                        self@.1,
                    ).len() && forall|i: int|
                        0 <= i < g@.1.len() ==> #[trigger] g@.1[i] == spec_valid_keys(self@.1)[i].1
                },
            },
    {
        proof {
            use_type_invariant(&self);
        }
        match result {
            Err(e) => Err(ApplyShortcutError::Plugin(e)),
            Ok(_) => {
                let Unregistering { previous, routes, keys, bindings } = self;
                router.set(routes, bindings);
                Ok(Registering { previous, keys })
            },
        }
    }
}

impl Registering {
    /// The hotkeys to register.
    pub fn keys(&self) -> (r: &Vec<ShortcutKey>)
        ensures
            r@ == self@.1,
    {
        &self.keys
    }

    /// Registering went as `result` says: success ends the apply (and only
    /// then are the bindings stored); a failure starts the rollback.
    pub fn on_registered(self, result: Result<(), String>) -> (r: Result<(), RollingBack>)
        ensures
            result is Ok <==> r is Ok,
            result matches Err(e) ==> r matches Err(b) && b@ == (self@.0, e@),
    {
        match result {
            Ok(_) => Ok(()),
            Err(error) => Err(RollingBack { previous: self.previous, error }),
        }
    }
}

impl RollingBack {
    /// Every hotkey was unregistered again: the table kept is restored, or
    /// cleared when there was none, and the apply ends with the failure of
    /// registering.
    pub fn restore(self, router: &mut ShortcutRouter) -> (r: RolledBack)
        ensures
            r.error matches ApplyShortcutError::Plugin(m) && m@ == self@.1,
            self@.0.1.len() > 0 ==> final(router)@ == self@.0,
            self@.0.1.len() > 0 ==> (r.restore matches Some(keys) && keys@.len() == spec_valid_keys(
                self@.0.1,
            ).len() && forall|i: int|
                0 <= i < keys@.len() ==> #[trigger] keys@[i] == spec_valid_keys(self@.0.1)[i].1),
            self@.0.1.len() == 0 ==> final(router)@.0 == Map::<u32, ShortcutAction>::empty()
                && final(router)@.1.len() == 0 && r.restore is None,
    {
        let RollingBack { previous, error } = self;
        if previous.is_empty() {
            router.clear();
            RolledBack { restore: None, error: ApplyShortcutError::Plugin(error) }
        } else {
            let keys = previous.keys();
            *router = previous;
            RolledBack { restore: Some(keys), error: ApplyShortcutError::Plugin(error) }
        }
    }
}

} // verus!
