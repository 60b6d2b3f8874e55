//! The modifier hold tracker: whether the modifier is held, and whether the
//! hold was used for anything.

use crate::event::{lemma_plain_event_direction, plain_event, KeyEvent};
use crate::flags::Direction;
use crate::keys::{PhysicalKeyId, KEY_ESC};
use crate::table::Action;
use vstd::prelude::*;

verus! {

/// The state of the modifier key. `combo_used` says that a remapped key fired
/// during the current hold; it is never set while the modifier is released.
#[derive(Clone, Copy, Debug, PartialEq, Eq, Structural)]
pub struct ModifierHoldState {
    pub held: bool,
    pub combo_used: bool,
}

/// The press and release of Escape that stand for a tap of the modifier.
pub open spec fn escape_tap(payload: u32) -> Seq<KeyEvent> {
    seq![
        plain_event(PhysicalKeyId { code: KEY_ESC }, Direction::Press, payload),
        plain_event(PhysicalKeyId { code: KEY_ESC }, Direction::Release, payload),
    ]
}

impl ModifierHoldState {
    /// The invariant of the state.
    pub open spec fn wf(self) -> bool {
        self.combo_used ==> self.held
    }

    /// The state after the modifier went down: a new hold begins unused; a
    /// press during a hold changes nothing.
    pub open spec fn after_press(self) -> ModifierHoldState {
        if self.held {
            self
        } else {
            ModifierHoldState { held: true, combo_used: false }
        }
    }

    /// The state after the modifier came up: the hold ends and forgets
    /// whether it was used; a release without a hold changes nothing.
    pub open spec fn after_release(self) -> ModifierHoldState {
        if self.held {
            ModifierHoldState { held: false, combo_used: false }
        } else {
            self
        }
    }

    /// A release now would end a hold during which no remapped key fired.
    pub open spec fn is_bare_tap(self) -> bool {
        self.held && !self.combo_used
    }

    /// The state after an action fired: during a hold anything but a
    /// passthrough marks the hold as used.
    pub open spec fn after_action(self, action: Action) -> ModifierHoldState {
        if self.held && action != Action::Passthrough {
            ModifierHoldState { held: true, combo_used: true }
        } else {
            self
        }
    }

    /// What a release injects: Escape for a bare tap, nothing otherwise.
    pub open spec fn release_batch(self, payload: u32) -> Seq<KeyEvent> {
        if self.is_bare_tap() {
            escape_tap(payload)
        } else {
            Seq::empty()
        }
    }

    /// The state at start: released.
    pub fn new() -> (state: ModifierHoldState)
        ensures
            state == (ModifierHoldState { held: false, combo_used: false }),
            state.wf(),
    {
        ModifierHoldState { held: false, combo_used: false }
    }

    /// Records that the modifier went down. The event itself is never
    /// forwarded.
    pub fn press(&mut self)
        ensures
            *final(self) == old(self).after_press(),
            final(self).held,
            old(self).wf() ==> final(self).wf(),
    {
        if !self.held {
            self.held = true;
            self.combo_used = false;
        }
    }

    /// Records that the modifier came up. Returns whether this ended a bare
    /// tap, for which Escape is injected. The event itself is never
    /// forwarded.
    pub fn release(&mut self) -> (bare_tap: bool)
        ensures
            *final(self) == old(self).after_release(),
            bare_tap == old(self).is_bare_tap(),
            !final(self).held,
            old(self).wf() ==> final(self).wf() && !final(self).combo_used,
    {
        let bare_tap = self.held && !self.combo_used;
        if self.held {
            self.held = false;
            self.combo_used = false;
        }
        bare_tap
    }

    /// Records that an action fired for a key other than the modifier.
    pub fn note_action(&mut self, action: Action)
        ensures
            *final(self) == old(self).after_action(action),
            final(self).held == old(self).held,
            old(self).wf() ==> final(self).wf(),
    {
        if self.held {
            match action {
                Action::Passthrough => {},
                _ => {
                    self.combo_used = true;
                },
            }
        }
    }

    /// Handles a release of the modifier as a whole: ends the hold and
    /// returns the batch to inject, which is Escape pressed and released for
    /// a bare tap and empty otherwise.
    pub fn release_with_tap(&mut self, payload: u32) -> (batch: Vec<KeyEvent>)
        ensures
            *final(self) == old(self).after_release(),
            batch@ == old(self).release_batch(payload),
            old(self).wf() ==> final(self).wf(),
    {
        let bare_tap = self.release();
        let mut batch: Vec<KeyEvent> = Vec::new();
        if bare_tap {
            let escape = PhysicalKeyId { code: KEY_ESC };
            batch.push(KeyEvent::plain(escape, Direction::Press, payload));
            batch.push(KeyEvent::plain(escape, Direction::Release, payload));
        }
        assert(batch@ =~= old(self).release_batch(payload));
        batch
    }
}

/// The two events of a tap: Escape goes down, then comes up.
pub proof fn lemma_escape_tap(payload: u32)
    ensures
        escape_tap(payload).len() == 2,
        escape_tap(payload)[0].key_id.code == KEY_ESC,
        escape_tap(payload)[1].key_id.code == KEY_ESC,
        escape_tap(payload)[0].spec_direction() == Direction::Press,
        escape_tap(payload)[1].spec_direction() == Direction::Release,
{
    lemma_plain_event_direction(PhysicalKeyId { code: KEY_ESC }, Direction::Press, payload);
    lemma_plain_event_direction(PhysicalKeyId { code: KEY_ESC }, Direction::Release, payload);
}

} // verus!
