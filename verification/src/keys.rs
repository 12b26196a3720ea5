//! Keys, modifier flags and hot keys, held as plain values.

use vstd::prelude::*;

verus! {

/// The Alt modifier flag.
pub const ALT: u32 = 0x01;

/// The Control modifier flag.
pub const CONTROL: u32 = 0x08;

/// The Meta modifier flag.
pub const META: u32 = 0x40;

/// The Shift modifier flag.
pub const SHIFT: u32 = 0x200;

/// The modifiers that a hot key compares; all others (such as caps lock) are ignored.
pub const BASE_MODS: u32 = ALT | CONTROL | META | SHIFT;

/// A logical key: either the text that it types, or the name of a non-printing key
/// (such as `Shift`).
pub enum KbKey {
    Character(String),
    Named(String),
}

/// The mathematical value of a key: which kind it is, and its text or name.
pub open spec fn key_value(k: &KbKey) -> (bool, Seq<char>) {
    match k {
        KbKey::Character(s) => (true, s@),
        KbKey::Named(s) => (false, s@),
    }
}

/// The name of the Shift key.
pub open spec fn shift_name() -> Seq<char> {
    seq!['S', 'h', 'i', 'f', 't']
}

/// Whether a key is the Shift key.
pub open spec fn is_shift_key(k: &KbKey) -> bool {
    key_value(k) == (false, shift_name())
}

impl KbKey {
    /// A key that types the given text.
    pub fn character(text: &str) -> (r: KbKey)
        ensures
            key_value(&r) == (true, text@),
    {
        KbKey::Character(text.to_owned())
    }

    /// A non-printing key with the given name.
    pub fn named(name: &str) -> (r: KbKey)
        ensures
            key_value(&r) == (false, name@),
    {
        KbKey::Named(name.to_owned())
    }

    /// Whether two keys are the same key.
    pub fn same_as(&self, other: &KbKey) -> (r: bool)
        ensures
            r == (key_value(self) == key_value(other)),
    {
        match (self, other) {
            (KbKey::Character(a), KbKey::Character(b)) => *a == *b,
            (KbKey::Named(a), KbKey::Named(b)) => *a == *b,
            _ => false,
        }
    }

    /// Whether this is the Shift key.
    pub fn is_shift(&self) -> (r: bool)
        ensures
            r == is_shift_key(self),
    {
        match self {
            KbKey::Named(name) => {
                let shift = "Shift";
                proof {
                    reveal_strlit("Shift");
                    assert(shift@ =~= shift_name());
                }
                name_is(name, shift)
            },
            KbKey::Character(_) => false,
        }
    }
}

/// Whether a string holds exactly the characters of a literal.
fn name_is(s: &String, lit: &str) -> (r: bool)
    ensures
        r == (s@ == lit@),
{
    let owned = lit.to_owned();
    *s == owned
}

/// A key press: the logical key and the modifier flags held down.
pub struct KeyEvent {
    pub key: KbKey,
    pub mods: u32,
}

/// A keyboard shortcut: a key together with an exact set of modifiers.
pub struct HotKey {
    pub mods: u32,
    pub key: KbKey,
}

/// Whether a hot key matches a key press: its modifiers equal the pressed ones, among
/// Shift, Control, Alt and Meta, and its key is the pressed key.
pub open spec fn hotkey_matches(h: &HotKey, e: &KeyEvent) -> bool {
    h.mods == (e.mods & BASE_MODS) && key_value(&h.key) == key_value(&e.key)
}

impl HotKey {
    /// A hot key for the given modifiers and key.
    pub fn new(mods: u32, key: KbKey) -> (r: HotKey)
        ensures
            r.mods == mods,
            key_value(&r.key) == key_value(&key),
    {
        HotKey { mods, key }
    }

    /// Whether this hot key matches a key press.
    pub fn matches(&self, event: &KeyEvent) -> (r: bool)
        ensures
            r == hotkey_matches(self, event),
    {
        self.mods == event.mods & BASE_MODS && self.key.same_as(&event.key)
    }
}

/// A character key's value is its text; a named key's value is its name, and the two
/// kinds never coincide.
pub proof fn lemma_key_values(text: String, name: String)
    ensures
        key_value(&KbKey::Character(text)) == (true, text@),
        key_value(&KbKey::Named(name)) == (false, name@),
        key_value(&KbKey::Character(text)) != key_value(&KbKey::Named(name)),
{
}

/// A key is the Shift key exactly when it is the named key "Shift": no character key,
/// and no other named key, is Shift.
pub proof fn lemma_shift_key_is_named_shift(k: &KbKey)
    ensures
        is_shift_key(k) <==> (k matches KbKey::Named(n) && n@ == "Shift"@),
        k is Character ==> !is_shift_key(k),
{
    reveal_strlit("Shift");
    assert("Shift"@ =~= shift_name());
}

/// A hot key matches a key press exactly when its modifiers equal the pressed ones
/// among Alt (0x01), Control (0x08), Meta (0x40) and Shift (0x200), all other flags
/// being ignored, and its key is the pressed key.
pub proof fn lemma_hotkey_matches_exactly(h: &HotKey, e: &KeyEvent)
    ensures
        hotkey_matches(h, e) <==> (h.mods == (e.mods & 0x249u32) && key_value(&h.key) == key_value(
            &e.key,
        )),
{
    assert(0x01u32 | 0x08u32 | 0x40u32 | 0x200u32 == 0x249u32) by (bit_vector);
}

/// A hot key without modifiers never matches a press with Meta, Control or Alt held,
/// and a hot key whose only modifier is Shift never matches a press without Shift.
pub proof fn lemma_hotkey_modifiers_must_agree(h: &HotKey, e: &KeyEvent)
    ensures
        h.mods == 0 && (e.mods & 0x40u32 != 0 || e.mods & 0x08u32 != 0 || e.mods & 0x01u32 != 0)
            ==> !hotkey_matches(h, e),
        h.mods == 0x200u32 && e.mods & 0x200u32 == 0 ==> !hotkey_matches(h, e),
        h.mods == 0 && e.mods & 0x200u32 != 0 ==> !hotkey_matches(h, e),
{
    lemma_hotkey_matches_exactly(h, e);
    let m = e.mods;
    assert((m & 0x249u32) == 0u32 ==> (m & 0x40u32) == 0u32 && (m & 0x08u32) == 0u32 && (m
        & 0x01u32) == 0u32 && (m & 0x200u32) == 0u32) by (bit_vector);
    assert((m & 0x249u32) == 0x200u32 ==> (m & 0x200u32) != 0u32) by (bit_vector);
}

} // verus!
