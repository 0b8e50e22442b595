//! Modifier keys: which combinations the window manager grabs, and which
//! modifiers count when a key press is matched against the bindings.

use vstd::prelude::*;

verus! {

/// The modifier bit of Caps Lock.
pub const MOD_LOCK: u8 = 0b10;

/// The modifier bit of Num Lock.
pub const MOD_2: u8 = 0b10000;

/// The four modifier combinations under which the window manager grabs its
/// keys: the modifier key alone, and with Num Lock, with Caps Lock, and
/// with both, so that the locks do not get in the way.
pub open spec fn spec_grab_masks(mod_key: u8) -> Seq<u32> {
    seq![
        mod_key as u32,
        (mod_key | MOD_2) as u32,
        (mod_key | MOD_LOCK) as u32,
        (mod_key | MOD_2 | MOD_LOCK) as u32,
    ]
}

/// The modifiers of a key press that count for a binding: those of `mods`
/// but the modifier key itself, Num Lock and Caps Lock.
pub open spec fn spec_binding_mods(mods: u8, mod_key: u8) -> u8 {
    mods & !(mod_key | MOD_2 | MOD_LOCK)
}

/// The four modifier combinations to grab; see [`spec_grab_masks`].
pub fn grab_masks(mod_key: u8) -> (masks: [u32; 4])
    ensures
        masks@ == spec_grab_masks(mod_key),
{
    let masks = [
        mod_key as u32,
        (mod_key | MOD_2) as u32,
        (mod_key | MOD_LOCK) as u32,
        (mod_key | MOD_2 | MOD_LOCK) as u32,
    ];
    masks
}

/// The modifiers of a key press that count for a binding; see
/// [`spec_binding_mods`].
pub fn binding_mods(mods: u8, mod_key: u8) -> (r: u8)
    ensures
        r == spec_binding_mods(mods, mod_key),
{
    mods & !(mod_key | MOD_2 | MOD_LOCK)
}

/// The modifiers that count for a binding hold no bit of the modifier key
/// or of the two locks, and every other bit of the key press.
pub proof fn lemma_binding_mods(mods: u8, mod_key: u8)
    ensures
        spec_binding_mods(mods, mod_key) & (mod_key | MOD_2 | MOD_LOCK) == 0,
        spec_binding_mods(mods, mod_key) | (mods & (mod_key | MOD_2 | MOD_LOCK)) == mods,
        spec_binding_mods(mods | MOD_2 | MOD_LOCK, mod_key) == spec_binding_mods(mods, mod_key),
{
    assert((mods & !(mod_key | 0b10000u8 | 0b10u8)) & (mod_key | 0b10000u8 | 0b10u8) == 0)
        by (bit_vector);
    assert((mods & !(mod_key | 0b10000u8 | 0b10u8)) | (mods & (mod_key | 0b10000u8 | 0b10u8))
        == mods) by (bit_vector);
    assert(((mods | 0b10000u8 | 0b10u8) & !(mod_key | 0b10000u8 | 0b10u8)) == (mods & !(mod_key
        | 0b10000u8 | 0b10u8))) by (bit_vector);
}

} // verus!
