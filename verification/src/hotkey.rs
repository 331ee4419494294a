//! The global grab hotkey: Control, Shift and Alt (Option on macOS) with
//! the L key. Three modifiers and a letter make it hard to press by
//! mistake, since the viewer is meant to stay out of the user's way.
use vstd::prelude::*;

use global_hotkey::hotkey::{Code, HotKey, Modifiers};

verus! {

#[verifier::external_type_specification]
#[verifier::external_body]
pub struct ExModifiers(Modifiers);

#[verifier::external_type_specification]
#[verifier::external_body]
pub struct ExCode(Code);

#[verifier::external_type_specification]
#[verifier::external_body]
pub struct ExHotKey(HotKey);

/// Bit of the Alt modifier in `keyboard_types::Modifiers`.
pub const MODIFIER_ALT: u32 = 0x01;

/// Bit of the Control modifier in `keyboard_types::Modifiers`.
pub const MODIFIER_CONTROL: u32 = 0x08;

/// Bit of the Shift modifier in `keyboard_types::Modifiers`.
pub const MODIFIER_SHIFT: u32 = 0x200;

/// Modifiers of the grab hotkey: Control, Shift and Alt, that is
/// `MODIFIER_CONTROL | MODIFIER_SHIFT | MODIFIER_ALT`.
pub const GRAB_MODIFIER_BITS: u32 = 0x209;

/// Whether `keyboard_types::Code::from_str` knows `name` (a result that
/// takes its whole table of key names to state).
pub uninterp spec fn is_key_code_name(name: Seq<char>) -> bool;

/// The modifier set that `Modifiers::from_bits` gives for the bits it
/// accepts.
pub uninterp spec fn modifiers_with_bits(bits: u32) -> Modifiers;

/// The key code that `Code::from_str` gives for a name it knows.
pub uninterp spec fn key_code_named(name: Seq<char>) -> Code;

/// The hotkey that `HotKey::new` makes of optional modifiers and a key.
pub uninterp spec fn hotkey_made_of(mods: Option<Modifiers>, key: Code) -> HotKey;

/// The grab hotkey: the Control, Shift and Alt modifiers with the key named
/// `KeyL`.
pub open spec fn grab_hotkey_spec() -> HotKey {
    hotkey_made_of(Some(modifiers_with_bits(GRAB_MODIFIER_BITS)), key_code_named("KeyL"@))
}

/// `name` is `Key` followed by an upper-case ASCII letter, the name of a
/// letter key.
pub open spec fn is_letter_key_name(name: Seq<char>) -> bool {
    &&& name.len() == 4
    &&& name[0] == 'K' && name[1] == 'e' && name[2] == 'y'
    &&& 0x41 <= (name[3] as u32) <= 0x5a
}

/// Calls `Modifiers::from_bits`, which accepts exactly the bit sets made of
/// the defined modifier flags; these are the fourteen bits `0x1` to
/// `0x2000`.
#[verifier::external_body]
fn modifiers_from_bits(bits: u32) -> (mods: Option<Modifiers>)
    ensures
        mods is Some <==> bits < 0x4000,
        mods matches Some(m) ==> m == modifiers_with_bits(bits),
{
    Modifiers::from_bits(bits)
}

/// Calls `Code::from_str`, which accepts the names of the keyboard codes
/// (`KeyA` to `KeyZ` among them) and refuses all other strings.
#[verifier::external_body]
fn key_code_from_name(name: &str) -> (code: Option<Code>)
    ensures
        code is Some <==> is_key_code_name(name@),
        is_letter_key_name(name@) ==> code is Some,
        code matches Some(c) ==> c == key_code_named(name@),
{
    <Code as std::str::FromStr>::from_str(name).ok()
}

/// Calls `HotKey::new`, whose result depends on its arguments alone. Verus
/// sees nothing inside a `HotKey`, so what it holds (the modifiers, the key,
/// the id made of both) is left unsaid.
#[verifier::external_body]
fn hotkey_new(mods: Option<Modifiers>, key: Code) -> (hotkey: HotKey)
    ensures
        hotkey == hotkey_made_of(mods, key),
{
    HotKey::new(mods, key)
}

/// The grab hotkey: Control, Shift and Alt with the L key.
pub fn build_grab_hotkey() -> (hotkey: HotKey)
    ensures
        hotkey == grab_hotkey_spec(),
{
    let mods = modifiers_from_bits(GRAB_MODIFIER_BITS).unwrap();
    let name = "KeyL";
    proof {
        reveal_strlit("KeyL");
    }
    let key = key_code_from_name(name).unwrap();
    hotkey_new(Some(mods), key)
}

} // verus!
