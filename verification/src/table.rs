//! The translation table: what each key does while the modifier is held.

use crate::keys::{
    PhysicalKeyId, KEY_A, KEY_B, KEY_BACKSPACE, KEY_D, KEY_E, KEY_F, KEY_H, KEY_J, KEY_K, KEY_L,
    KEY_LEFT_CONTROL, KEY_NUMPAD1, KEY_NUMPAD2, KEY_NUMPAD4, KEY_NUMPAD6, KEY_NUMPAD7,
    KEY_NUMPAD8, KEY_NUMPAD_PERIOD, KEY_SPACE,
};
use crate::vkeys::VK_LCONTROL;
use vstd::prelude::*;

verus! {

/// A real modifier key that a chord asserts. The table asserts Control only.
#[derive(Clone, Copy, Debug, PartialEq, Eq, Structural)]
pub enum ModifierKey {
    Control,
}

impl ModifierKey {
    /// The physical key that is injected for the modifier.
    pub open spec fn spec_key_id(self) -> PhysicalKeyId {
        PhysicalKeyId { code: KEY_LEFT_CONTROL }
    }

    /// The virtual key under which the operating system knows the modifier.
    pub open spec fn spec_virtual_key(self) -> u16 {
        VK_LCONTROL
    }

    /// The physical key that is injected for the modifier.
    #[verifier::when_used_as_spec(spec_key_id)]
    pub fn key_id(self) -> (key: PhysicalKeyId)
        ensures
            key == self.spec_key_id(),
    {
        PhysicalKeyId { code: KEY_LEFT_CONTROL }
    }

    /// The virtual key under which the operating system knows the modifier.
    #[verifier::when_used_as_spec(spec_virtual_key)]
    pub fn virtual_key(self) -> (vk: u16)
        ensures
            vk == self.spec_virtual_key(),
    {
        VK_LCONTROL
    }
}

/// The modifier of every chord that has no entry of its own.
pub open spec fn primary_modifier() -> ModifierKey {
    ModifierKey::Control
}

/// What is injected for a key event.
#[derive(Clone, Copy, Debug, PartialEq, Eq, Structural)]
pub enum Action {
    /// The event itself, unchanged.
    Passthrough,
    /// The event under another key, flags kept.
    RemapKey(PhysicalKeyId),
    /// The event under another key, with the flags of an emulated navigation
    /// key.
    RemapWithExtendedFlags(PhysicalKeyId),
    /// The modifier together with a plain key.
    Chord(ModifierKey, PhysicalKeyId),
    /// The modifier together with an emulated navigation key.
    ChordWithExtendedFlags(ModifierKey, PhysicalKeyId),
}

/// The entries that the table spells out, one per key; `None` for every
/// other key.
pub open spec fn bespoke_entry(key_id: PhysicalKeyId) -> Option<Action> {
    if key_id.code == KEY_SPACE {
        Some(Action::RemapKey(PhysicalKeyId { code: KEY_BACKSPACE }))
    } else if key_id.code == KEY_D {
        Some(Action::RemapWithExtendedFlags(PhysicalKeyId { code: KEY_NUMPAD_PERIOD }))
    } else if key_id.code == KEY_A {
        Some(Action::RemapWithExtendedFlags(PhysicalKeyId { code: KEY_NUMPAD7 }))
    } else if key_id.code == KEY_E {
        Some(Action::RemapWithExtendedFlags(PhysicalKeyId { code: KEY_NUMPAD1 }))
    } else if key_id.code == KEY_H {
        Some(Action::RemapWithExtendedFlags(PhysicalKeyId { code: KEY_NUMPAD4 }))
    } else if key_id.code == KEY_L {
        Some(Action::RemapWithExtendedFlags(PhysicalKeyId { code: KEY_NUMPAD6 }))
    } else if key_id.code == KEY_J {
        Some(Action::RemapWithExtendedFlags(PhysicalKeyId { code: KEY_NUMPAD8 }))
    } else if key_id.code == KEY_K {
        Some(Action::RemapWithExtendedFlags(PhysicalKeyId { code: KEY_NUMPAD2 }))
    } else if key_id.code == KEY_B {
        Some(
            Action::ChordWithExtendedFlags(
                ModifierKey::Control,
                PhysicalKeyId { code: KEY_NUMPAD4 },
            ),
        )
    } else if key_id.code == KEY_F {
        Some(
            Action::ChordWithExtendedFlags(
                ModifierKey::Control,
                PhysicalKeyId { code: KEY_NUMPAD6 },
            ),
        )
    } else {
        None
    }
}

/// The table as a function. While the modifier is not held every key passes
/// through. While it is held a key has its own entry or, without one, becomes
/// a chord of the primary modifier and the key itself.
pub open spec fn table_action(key_id: PhysicalKeyId, modifier_held: bool) -> Action {
    if !modifier_held {
        Action::Passthrough
    } else {
        match bespoke_entry(key_id) {
            Some(action) => action,
            None => Action::Chord(primary_modifier(), key_id),
        }
    }
}

/// The action of a key, by the table.
pub fn lookup(key_id: PhysicalKeyId, modifier_held: bool) -> (action: Action)
    ensures
        action == table_action(key_id, modifier_held),
        !modifier_held ==> action == Action::Passthrough,
        modifier_held ==> action != Action::Passthrough,
        modifier_held && bespoke_entry(key_id) is None ==> action == Action::Chord(
            primary_modifier(),
            key_id,
        ),
{
    if !modifier_held {
        return Action::Passthrough;
    }
    let code = key_id.code;
    if code == KEY_SPACE {
        Action::RemapKey(PhysicalKeyId { code: KEY_BACKSPACE })
    } else if code == KEY_D {
        Action::RemapWithExtendedFlags(PhysicalKeyId { code: KEY_NUMPAD_PERIOD })
    } else if code == KEY_A {
        Action::RemapWithExtendedFlags(PhysicalKeyId { code: KEY_NUMPAD7 })
    } else if code == KEY_E {
        Action::RemapWithExtendedFlags(PhysicalKeyId { code: KEY_NUMPAD1 })
    } else if code == KEY_H {
        Action::RemapWithExtendedFlags(PhysicalKeyId { code: KEY_NUMPAD4 })
    } else if code == KEY_L {
        Action::RemapWithExtendedFlags(PhysicalKeyId { code: KEY_NUMPAD6 })
    } else if code == KEY_J {
        Action::RemapWithExtendedFlags(PhysicalKeyId { code: KEY_NUMPAD8 })
    } else if code == KEY_K {
        Action::RemapWithExtendedFlags(PhysicalKeyId { code: KEY_NUMPAD2 })
    } else if code == KEY_B {
        Action::ChordWithExtendedFlags(ModifierKey::Control, PhysicalKeyId { code: KEY_NUMPAD4 })
    } else if code == KEY_F {
        Action::ChordWithExtendedFlags(ModifierKey::Control, PhysicalKeyId { code: KEY_NUMPAD6 })
    } else {
        Action::Chord(ModifierKey::Control, key_id)
    }
}

} // verus!
