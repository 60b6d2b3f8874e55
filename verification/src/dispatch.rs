//! The dispatch step: one event in, one batch out.
//!
//! The caller owns the loop. For each event that the driver reports it asks
//! `wants_modifier_query`, reads the modifier's state from the operating
//! system where that is wanted, hands both to `process_event`, and injects
//! the batch that comes back in one call.

use crate::chord::{apply_action, asserted_after, emission};
use crate::event::KeyEvent;
use crate::flags::Direction;
use crate::guard::{active_after, emits, ActiveKeySet};
use crate::hold::ModifierHoldState;
use crate::keys::{PhysicalKeyId, KEY_CAPS_LOCK};
use crate::resync::{corrective_release, is_desynchronized, resync_guard};
use crate::table::{lookup, table_action};
use vstd::prelude::*;

verus! {

/// The key that serves as the chord modifier of this layer.
pub open spec fn is_modifier_key(key_id: PhysicalKeyId) -> bool {
    key_id.code == KEY_CAPS_LOCK
}

/// Everything the layer remembers between two events.
pub struct RemapperState {
    pub hold: ModifierHoldState,
    pub active: Set<PhysicalKeyId>,
    pub expected_modifier_asserted: bool,
}

impl RemapperState {
    /// The invariant of the state: the hold state is well formed, and no key
    /// is active while the modifier is released.
    pub open spec fn wf(self) -> bool {
        &&& self.hold.wf()
        &&& !self.hold.held ==> self.active == Set::<PhysicalKeyId>::empty()
    }
}

/// The state at start: modifier released, no key active, nothing asserted.
pub open spec fn initial_state() -> RemapperState {
    RemapperState {
        hold: ModifierHoldState { held: false, combo_used: false },
        active: Set::empty(),
        expected_modifier_asserted: false,
    }
}

/// An event of the modifier key itself. It is never forwarded. A press
/// begins a hold. A release ends it, forgets the active keys, and injects
/// Escape if the hold was a bare tap. An event that finds the modifier
/// already where it would take it changes nothing.
pub open spec fn modifier_step(state: RemapperState, event: KeyEvent) -> (RemapperState, Seq<KeyEvent>) {
    match event.spec_direction() {
        Direction::Press => (
            RemapperState { hold: state.hold.after_press(), ..state },
            Seq::empty(),
        ),
        Direction::Release => if state.hold.held {
            (
                RemapperState {
                    hold: state.hold.after_release(),
                    active: Set::empty(),
                    expected_modifier_asserted: state.expected_modifier_asserted,
                },
                state.hold.release_batch(event.payload),
            )
        } else {
            (state, Seq::empty())
        },
    }
}

/// An event of another key while the modifier is held. What the
/// duplicate-press guard lets through is replaced by what the table says;
/// the rest is swallowed and changes nothing.
pub open spec fn held_step(state: RemapperState, event: KeyEvent) -> (RemapperState, Seq<KeyEvent>) {
    if emits(state.active, event.key_id, event.spec_direction()) {
        let action = table_action(event.key_id, true);
        (
            RemapperState {
                hold: state.hold.after_action(action),
                active: active_after(state.active, event.key_id, event.spec_direction()),
                expected_modifier_asserted: asserted_after(
                    action,
                    event,
                    state.expected_modifier_asserted,
                ),
            },
            emission(action, event),
        )
    } else {
        (state, Seq::empty())
    }
}

/// An event of another key while the modifier is released. The event is
/// forwarded as it is; where the stuck-modifier guard finds the two views of
/// the modifier apart, the corrective release goes out ahead of it.
pub open spec fn idle_step(state: RemapperState, event: KeyEvent, modifier_reported_down: bool) -> (
    RemapperState,
    Seq<KeyEvent>,
) {
    if is_desynchronized(state.expected_modifier_asserted, modifier_reported_down) {
        (
            RemapperState { expected_modifier_asserted: false, ..state },
            seq![corrective_release(), event],
        )
    } else {
        (state, seq![event])
    }
}

/// One step of the layer: the state after the event and the batch to inject
/// for it. `modifier_reported_down` is what the operating system says of the
/// real modifier key at this moment.
pub open spec fn step(state: RemapperState, event: KeyEvent, modifier_reported_down: bool) -> (
    RemapperState,
    Seq<KeyEvent>,
) {
    if is_modifier_key(event.key_id) {
        modifier_step(state, event)
    } else if state.hold.held {
        held_step(state, event)
    } else {
        idle_step(state, event, modifier_reported_down)
    }
}

/// Whether a step reads what the operating system reports of the modifier.
pub open spec fn consults_report(state: RemapperState, event: KeyEvent) -> bool {
    &&& !is_modifier_key(event.key_id)
    &&& !state.hold.held
    &&& state.expected_modifier_asserted
}

/// One input of the layer: an event from the driver, and what the operating
/// system says of the real modifier key when the event is taken.
pub struct Input {
    pub event: KeyEvent,
    pub modifier_reported_down: bool,
}

/// The layer run over a sequence of inputs: the state after the last one,
/// and everything that was injected, in order.
pub open spec fn run(state: RemapperState, inputs: Seq<Input>) -> (RemapperState, Seq<KeyEvent>)
    decreases inputs.len(),
{
    if inputs.len() == 0 {
        (state, Seq::empty())
    } else {
        let first = step(state, inputs[0].event, inputs[0].modifier_reported_down);
        let rest = run(first.0, inputs.subrange(1, inputs.len() as int));
        (rest.0, first.1 + rest.1)
    }
}

/// The translation layer: the state of the modifier, the active keys and the
/// modifier assertion, owned in one place and changed by `process_event`
/// only.
#[derive(Debug)]
pub struct Remapper {
    hold: ModifierHoldState,
    active: ActiveKeySet,
    expected_modifier_asserted: bool,
}

impl View for Remapper {
    type V = RemapperState;

    closed spec fn view(&self) -> RemapperState {
        RemapperState {
            hold: self.hold,
            active: self.active@,
            expected_modifier_asserted: self.expected_modifier_asserted,
        }
    }
}

impl Remapper {
    /// The layer at start: modifier released, no key active, nothing
    /// asserted.
    pub fn new() -> (remapper: Remapper)
        ensures
            remapper@ == initial_state(),
            remapper@.wf(),
    {
        Remapper {
            hold: ModifierHoldState::new(),
            active: ActiveKeySet::new(),
            expected_modifier_asserted: false,
        }
    }

    /// Whether the modifier is held.
    pub fn is_held(&self) -> (held: bool)
        ensures
            held == self@.hold.held,
    {
        self.hold.held
    }

    /// Whether a remapped key fired during the current hold.
    pub fn combo_used(&self) -> (used: bool)
        ensures
            used == self@.hold.combo_used,
    {
        self.hold.combo_used
    }

    /// Whether the key has a remapped press outstanding.
    pub fn is_active(&self, key_id: PhysicalKeyId) -> (active: bool)
        ensures
            active == self@.active.contains(key_id),
    {
        self.active.contains(key_id)
    }

    /// Whether this layer believes that it has the real modifier asserted.
    pub fn expected_modifier_asserted(&self) -> (asserted: bool)
        ensures
            asserted == self@.expected_modifier_asserted,
    {
        self.expected_modifier_asserted
    }

    /// Whether the next step reads what the operating system reports of the
    /// modifier. Where it does not, the caller need not ask, and may pass
    /// either value.
    pub fn wants_modifier_query(&self, event: &KeyEvent) -> (wanted: bool)
        ensures
            wanted == consults_report(self@, *event),
            !wanted ==> step(self@, *event, true) == step(self@, *event, false),
    {
        event.key_id.code != KEY_CAPS_LOCK && !self.hold.held && self.expected_modifier_asserted
    }

    /// Takes one event from the driver and returns the batch to inject in
    /// its place, in order and in one call; an empty batch means that the
    /// event is swallowed.
    pub fn process_event(&mut self, event: KeyEvent, modifier_reported_down: bool) -> (batch: Vec<
        KeyEvent,
    >)
        ensures
            (final(self)@, batch@) == step(old(self)@, event, modifier_reported_down),
            old(self)@.wf() ==> final(self)@.wf(),
    {
        if event.key_id.code == KEY_CAPS_LOCK {
            match event.direction() {
                Direction::Press => {
                    self.hold.press();
                    Vec::new()
                },
                Direction::Release => {
                    if self.hold.held {
                        self.active.clear();
                        self.hold.release_with_tap(event.payload)
                    } else {
                        Vec::new()
                    }
                },
            }
        } else if self.hold.held {
            if self.active.should_emit(event.key_id, event.direction()) {
                let action = lookup(event.key_id, true);
                self.hold.note_action(action);
                apply_action(action, event, &mut self.expected_modifier_asserted)
            } else {
                Vec::new()
            }
        } else {
            let corrective = resync_guard(&mut self.expected_modifier_asserted, modifier_reported_down);
            let mut batch: Vec<KeyEvent> = Vec::new();
            match corrective {
                Some(release) => {
                    batch.push(release);
                },
                None => {},
            }
            batch.push(event);
            assert(batch@ =~= step(old(self)@, event, modifier_reported_down).1);
            batch
        }
    }
}

} // verus!
