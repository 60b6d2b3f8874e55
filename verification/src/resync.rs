//! The stuck-modifier guard: what this layer believes it has asserted, held
//! against what the operating system reports.

use crate::chord::{modifier_event, modifier_key_event};
use crate::event::KeyEvent;
use crate::flags::Direction;
use crate::table::{primary_modifier, ModifierKey};
use vstd::prelude::*;

verus! {

/// This layer believes the modifier is asserted, and the operating system
/// reports it as up.
pub open spec fn is_desynchronized(expected_modifier_asserted: bool, modifier_reported_down: bool) -> bool {
    expected_modifier_asserted && !modifier_reported_down
}

/// The release that is forced on the modifier to bring both views together.
pub open spec fn corrective_release() -> KeyEvent {
    modifier_event(primary_modifier(), Direction::Release, 0)
}

/// Compares the two views of the modifier. Where they disagree the guard
/// returns the corrective release to inject and withdraws the assertion;
/// where they agree it returns nothing and changes nothing.
pub fn resync_guard(expected_modifier_asserted: &mut bool, modifier_reported_down: bool) -> (corrective:
    Option<KeyEvent>)
    ensures
        is_desynchronized(*old(expected_modifier_asserted), modifier_reported_down) ==> corrective
            == Some(corrective_release()) && !*final(expected_modifier_asserted),
        !is_desynchronized(*old(expected_modifier_asserted), modifier_reported_down)
            ==> corrective.is_none() && *final(expected_modifier_asserted) == *old(
            expected_modifier_asserted,
        ),
{
    if *expected_modifier_asserted && !modifier_reported_down {
        *expected_modifier_asserted = false;
        Some(modifier_key_event(ModifierKey::Control, Direction::Release, 0))
    } else {
        None
    }
}

} // verus!
