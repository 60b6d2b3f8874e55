//! The key event: what the driver reports and what is injected.

use crate::flags::{plain_flags, Direction, FlagSet};
use crate::keys::PhysicalKeyId;
use vstd::prelude::*;

verus! {

/// One key event. The direction is carried by the flags: an event is a
/// release exactly when its release bit is set. The payload is opaque and is
/// handed on unchanged.
#[derive(Clone, Copy, Debug, PartialEq, Eq, Structural)]
pub struct KeyEvent {
    pub key_id: PhysicalKeyId,
    pub flags: FlagSet,
    pub payload: u32,
}

impl KeyEvent {
    /// The direction of the event, as its flags encode it.
    pub open spec fn spec_direction(self) -> Direction {
        self.flags.spec_direction()
    }

    /// The same event for another key: flags and payload are kept.
    pub open spec fn retargeted(self, key_id: PhysicalKeyId) -> KeyEvent {
        KeyEvent { key_id, flags: self.flags, payload: self.payload }
    }

    /// An event from its three parts.
    pub fn new(key_id: PhysicalKeyId, flags: FlagSet, payload: u32) -> (event: KeyEvent)
        ensures
            event == (KeyEvent { key_id, flags, payload }),
    {
        KeyEvent { key_id, flags, payload }
    }

    /// A key going down or coming up, with no other flag.
    pub fn plain(key_id: PhysicalKeyId, direction: Direction, payload: u32) -> (event: KeyEvent)
        ensures
            event == plain_event(key_id, direction, payload),
            event.spec_direction() == direction,
    {
        proof {
            lemma_plain_event_direction(key_id, direction, payload);
        }
        KeyEvent { key_id, flags: FlagSet::plain(direction), payload }
    }

    /// The direction of the event.
    #[verifier::when_used_as_spec(spec_direction)]
    pub fn direction(self) -> (direction: Direction)
        ensures
            direction == self.spec_direction(),
    {
        self.flags.direction()
    }

    /// The same event for another key: flags and payload are kept.
    pub fn retarget(self, key_id: PhysicalKeyId) -> (event: KeyEvent)
        ensures
            event == self.retargeted(key_id),
            event.spec_direction() == self.spec_direction(),
    {
        KeyEvent { key_id, flags: self.flags, payload: self.payload }
    }
}

/// The event of a key that carries nothing but its direction.
pub open spec fn plain_event(key_id: PhysicalKeyId, direction: Direction, payload: u32) -> KeyEvent {
    KeyEvent { key_id, flags: plain_flags(direction), payload }
}

/// A plain event has the direction it was made with.
pub proof fn lemma_plain_event_direction(key_id: PhysicalKeyId, direction: Direction, payload: u32)
    ensures
        plain_event(key_id, direction, payload).spec_direction() == direction,
{
    assert(0u16 & 1u16 == 0u16) by (bit_vector);
    assert(1u16 & 1u16 == 1u16) by (bit_vector);
}

} // verus!
