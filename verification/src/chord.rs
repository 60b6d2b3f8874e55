//! From an action and the event that triggered it to the batch that is
//! injected.

use crate::event::KeyEvent;
use crate::flags::{
    compute_flags, extended_flags, lemma_extended_flags, plain_flags, Direction, FlagSet, FLAG_E0,
};
use crate::table::{Action, ModifierKey};
use vstd::prelude::*;

verus! {

/// The flags of an injected modifier: its direction and the extended marker.
pub open spec fn modifier_flags(direction: Direction) -> FlagSet {
    plain_flags(direction).join(FlagSet { bits: FLAG_E0 })
}

/// The event that presses or releases a chord's modifier.
pub open spec fn modifier_event(modifier: ModifierKey, direction: Direction, payload: u32) -> KeyEvent {
    KeyEvent { key_id: modifier.spec_key_id(), flags: modifier_flags(direction), payload }
}

/// The two events of a chord, in the order in which they are injected:
/// modifier first on a press, modifier last on a release.
pub open spec fn chord_batch(modifier: ModifierKey, mapped: KeyEvent) -> Seq<KeyEvent> {
    match mapped.spec_direction() {
        Direction::Press => seq![
            modifier_event(modifier, Direction::Press, mapped.payload),
            mapped,
        ],
        Direction::Release => seq![
            mapped,
            modifier_event(modifier, Direction::Release, mapped.payload),
        ],
    }
}

/// The event of the key that an action puts in place of the incoming one.
pub open spec fn mapped_event(action: Action, event: KeyEvent) -> KeyEvent {
    match action {
        Action::Passthrough => event,
        Action::RemapKey(target) => event.retargeted(target),
        Action::RemapWithExtendedFlags(target) => KeyEvent {
            key_id: target,
            flags: extended_flags(event.spec_direction()),
            payload: event.payload,
        },
        Action::Chord(_, target) => KeyEvent {
            key_id: target,
            flags: plain_flags(event.spec_direction()),
            payload: event.payload,
        },
        Action::ChordWithExtendedFlags(_, target) => KeyEvent {
            key_id: target,
            flags: extended_flags(event.spec_direction()),
            payload: event.payload,
        },
    }
}

/// The batch that an action injects for an event.
pub open spec fn emission(action: Action, event: KeyEvent) -> Seq<KeyEvent> {
    match action {
        Action::Chord(modifier, _) => chord_batch(modifier, mapped_event(action, event)),
        Action::ChordWithExtendedFlags(modifier, _) => chord_batch(
            modifier,
            mapped_event(action, event),
        ),
        _ => seq![mapped_event(action, event)],
    }
}

/// An action that asserts a real modifier.
pub open spec fn is_chord(action: Action) -> bool {
    action is Chord || action is ChordWithExtendedFlags
}

/// Whether a modifier is asserted once the action has been applied to the
/// event: a chord asserts it on a press and withdraws it on a release; any
/// other action leaves it as it was.
pub open spec fn asserted_after(action: Action, event: KeyEvent, before: bool) -> bool {
    if is_chord(action) {
        event.spec_direction() == Direction::Press
    } else {
        before
    }
}

/// The mapped event goes the way the incoming event went.
pub proof fn lemma_mapped_event_direction(action: Action, event: KeyEvent)
    ensures
        mapped_event(action, event).spec_direction() == event.spec_direction(),
        mapped_event(action, event).payload == event.payload,
{
    lemma_extended_flags(event.spec_direction());
    assert(0u16 & 1u16 == 0u16) by (bit_vector);
    assert(1u16 & 1u16 == 1u16) by (bit_vector);
}

/// Every action injects something: one event, or the two of a chord.
pub proof fn lemma_emission_is_not_empty(action: Action, event: KeyEvent)
    ensures
        emission(action, event).len() == if is_chord(action) {
            2nat
        } else {
            1nat
        },
{
}

/// What the modifier's flags amount to bit by bit.
pub proof fn lemma_modifier_flags()
    ensures
        modifier_flags(Direction::Press).bits == 2,
        modifier_flags(Direction::Release).bits == 3,
        modifier_flags(Direction::Press).spec_direction() == Direction::Press,
        modifier_flags(Direction::Release).spec_direction() == Direction::Release,
{
    assert(0u16 | 2u16 == 2u16) by (bit_vector);
    assert(1u16 | 2u16 == 3u16) by (bit_vector);
    assert(2u16 & 1u16 == 0u16) by (bit_vector);
    assert(3u16 & 1u16 == 1u16) by (bit_vector);
}

/// The event that presses or releases a chord's modifier.
pub fn modifier_key_event(modifier: ModifierKey, direction: Direction, payload: u32) -> (event:
    KeyEvent)
    ensures
        event == modifier_event(modifier, direction, payload),
        event.spec_direction() == direction,
{
    proof {
        lemma_modifier_flags();
    }
    let flags = FlagSet::plain(direction).union(FlagSet { bits: FLAG_E0 });
    KeyEvent { key_id: modifier.key_id(), flags, payload }
}

/// Builds the batch of a chord around the mapped key's event and records
/// whether the modifier is asserted afterwards. The batch is meant to be
/// injected whole, in one call.
pub fn emit_chord(modifier: ModifierKey, mapped: KeyEvent, expected_modifier_asserted: &mut bool) -> (batch:
    Vec<KeyEvent>)
    ensures
        batch@ == chord_batch(modifier, mapped),
        batch@.len() == 2,
        *final(expected_modifier_asserted) == (mapped.spec_direction() == Direction::Press),
{
    let mut batch: Vec<KeyEvent> = Vec::new();
    match mapped.direction() {
        Direction::Press => {
            batch.push(modifier_key_event(modifier, Direction::Press, mapped.payload));
            batch.push(mapped);
            *expected_modifier_asserted = true;
        },
        Direction::Release => {
            batch.push(mapped);
            batch.push(modifier_key_event(modifier, Direction::Release, mapped.payload));
            *expected_modifier_asserted = false;
        },
    }
    assert(batch@ =~= chord_batch(modifier, mapped));
    batch
}

/// Applies an action to the event that triggered it: returns the batch to
/// inject and records whether a modifier is asserted afterwards.
pub fn apply_action(action: Action, event: KeyEvent, expected_modifier_asserted: &mut bool) -> (batch:
    Vec<KeyEvent>)
    ensures
        batch@ == emission(action, event),
        *final(expected_modifier_asserted) == asserted_after(
            action,
            event,
            *old(expected_modifier_asserted),
        ),
{
    proof {
        lemma_mapped_event_direction(action, event);
    }
    match action {
        Action::Passthrough => {
            let mut batch: Vec<KeyEvent> = Vec::new();
            batch.push(event);
            assert(batch@ =~= emission(action, event));
            batch
        },
        Action::RemapKey(target) => {
            let mut batch: Vec<KeyEvent> = Vec::new();
            batch.push(event.retarget(target));
            assert(batch@ =~= emission(action, event));
            batch
        },
        Action::RemapWithExtendedFlags(target) => {
            let mut batch: Vec<KeyEvent> = Vec::new();
            batch.push(
                KeyEvent {
                    key_id: target,
                    flags: compute_flags(event.direction()),
                    payload: event.payload,
                },
            );
            assert(batch@ =~= emission(action, event));
            batch
        },
        Action::Chord(modifier, target) => {
            let mapped = KeyEvent::plain(target, event.direction(), event.payload);
            emit_chord(modifier, mapped, expected_modifier_asserted)
        },
        Action::ChordWithExtendedFlags(modifier, target) => {
            let mapped = KeyEvent {
                key_id: target,
                flags: compute_flags(event.direction()),
                payload: event.payload,
            };
            emit_chord(modifier, mapped, expected_modifier_asserted)
        },
    }
}

} // verus!
