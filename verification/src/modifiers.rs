//! Modifier keys that may qualify a global hotkey, and their encoding as the
//! OS-level modifier bit flags.

use vstd::prelude::*;

verus! {

/// A modifier key qualifying a hotkey registration.
#[derive(Clone, Copy, Debug, PartialEq, Eq, Structural)]
pub enum Modifiers {
    Alt,
    Control,
    Shift,
    Win,
}

/// The OS-level modifier flag for each modifier key.
pub open spec fn spec_modifier_flags(modifier: Modifiers) -> u32 {
    match modifier {
        Modifiers::Alt => 0x0001,
        Modifiers::Control => 0x0002,
        Modifiers::Shift => 0x0004,
        Modifiers::Win => 0x0008,
    }
}

/// Converts a modifier key to the OS-level modifier flags used when
/// registering the hotkey.
pub fn modifiers_to_flags(modifier: Modifiers) -> (r: u32)
    ensures
        r == spec_modifier_flags(modifier),
{
    match modifier {
        Modifiers::Alt => 0x0001,
        Modifiers::Control => 0x0002,
        Modifiers::Shift => 0x0004,
        Modifiers::Win => 0x0008,
    }
}

} // verus!
