//! The duplicate-press guard: which keys have a remapped press outstanding.

use crate::flags::Direction;
use crate::keys::PhysicalKeyId;
use std::collections::HashSet;
use vstd::prelude::*;

verus! {

/// Whether the guard lets an event through: a press of a key that is not yet
/// active, or a release of a key that is.
pub open spec fn emits(active: Set<PhysicalKeyId>, key_id: PhysicalKeyId, direction: Direction) -> bool {
    match direction {
        Direction::Press => !active.contains(key_id),
        Direction::Release => active.contains(key_id),
    }
}

/// The active keys after the guard saw an event: a press makes the key
/// active, a release ends that.
pub open spec fn active_after(
    active: Set<PhysicalKeyId>,
    key_id: PhysicalKeyId,
    direction: Direction,
) -> Set<PhysicalKeyId> {
    match direction {
        Direction::Press => active.insert(key_id),
        Direction::Release => active.remove(key_id),
    }
}

/// The keys for which an action was injected on a press and whose release
/// has not been seen yet.
#[derive(Debug)]
pub struct ActiveKeySet {
    codes: HashSet<u16>,
}

impl View for ActiveKeySet {
    type V = Set<PhysicalKeyId>;

    closed spec fn view(&self) -> Set<PhysicalKeyId> {
        Set::new(|key_id: PhysicalKeyId| self.codes@.contains(key_id.code))
    }
}

impl ActiveKeySet {
    /// The set with no key in it.
    pub fn new() -> (set: ActiveKeySet)
        ensures
            set@ == Set::<PhysicalKeyId>::empty(),
    {
        let set = ActiveKeySet { codes: HashSet::new() };
        assert(set@ =~= Set::<PhysicalKeyId>::empty());
        set
    }

    /// Whether the key is active.
    pub fn contains(&self, key_id: PhysicalKeyId) -> (active: bool)
        ensures
            active == self@.contains(key_id),
    {
        self.codes.contains(&key_id.code)
    }

    /// Decides whether the event of a key is let through, and keeps the set
    /// up to date. A press is let through, and the key becomes active, unless
    /// it is active already: a repeated press is the keyboard repeating. A
    /// release is let through, and the key stops being active, only if the
    /// key is active: the release of a key whose press never went out is
    /// swallowed.
    pub fn should_emit(&mut self, key_id: PhysicalKeyId, direction: Direction) -> (emit: bool)
        ensures
            emit == emits(old(self)@, key_id, direction),
            final(self)@ == active_after(old(self)@, key_id, direction),
            !emit ==> final(self)@ == old(self)@,
    {
        let emit = match direction {
            Direction::Press => self.codes.insert(key_id.code),
            Direction::Release => self.codes.remove(&key_id.code),
        };
        proof {
            assert(final(self)@ =~= active_after(old(self)@, key_id, direction));
            if !emit {
                assert(final(self)@ =~= old(self)@);
            }
        }
        emit
    }

    /// Forgets every key.
    pub fn clear(&mut self)
        ensures
            final(self)@ == Set::<PhysicalKeyId>::empty(),
    {
        self.codes.clear();
        assert(self@ =~= Set::<PhysicalKeyId>::empty());
    }
}

} // verus!
