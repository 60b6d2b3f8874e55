//! Key directions and the flag bits that travel with a key event.

use vstd::prelude::*;

verus! {

/// Bit of a released key. A pressed key has this bit clear.
pub const FLAG_UP: u16 = 1;

/// Bit of the extended-key marker.
pub const FLAG_E0: u16 = 2;

/// Bits of the second extended marker, as the driver binding numbers it.
pub const FLAG_E1: u16 = 3;

/// Reserved bit mirrored from the hardware report.
pub const FLAG_TERMSRV_SET_LED: u16 = 8;

/// Reserved bit mirrored from the hardware report.
pub const FLAG_TERMSRV_SHADOW: u16 = 16;

/// Reserved bit mirrored from the hardware report.
pub const FLAG_TERMSRV_VKPACKET: u16 = 32;

/// Whether a key goes down or comes up.
#[derive(Clone, Copy, Debug, PartialEq, Eq, Structural)]
pub enum Direction {
    Press,
    Release,
}

/// The flag bits of a key event.
#[derive(Clone, Copy, Debug, PartialEq, Eq, Structural)]
pub struct FlagSet {
    pub bits: u16,
}

impl FlagSet {
    /// Every bit of `other` is set in `self`.
    pub open spec fn has(self, other: FlagSet) -> bool {
        self.bits & other.bits == other.bits
    }

    /// The flags set in `self`, in `other`, or in both.
    pub open spec fn join(self, other: FlagSet) -> FlagSet {
        FlagSet { bits: self.bits | other.bits }
    }

    /// The direction that the flags encode.
    pub open spec fn spec_direction(self) -> Direction {
        if self.has(FlagSet { bits: FLAG_UP }) {
            Direction::Release
        } else {
            Direction::Press
        }
    }

    /// The flags of a raw bit pattern. Every bit is kept, the reserved ones
    /// too.
    pub fn from_bits(bits: u16) -> (r: FlagSet)
        ensures
            r.bits == bits,
    {
        FlagSet { bits }
    }

    /// Whether every bit of `other` is set in `self`.
    pub fn contains(self, other: FlagSet) -> (r: bool)
        ensures
            r == self.has(other),
    {
        self.bits & other.bits == other.bits
    }

    /// The flags set in `self`, in `other`, or in both.
    pub fn union(self, other: FlagSet) -> (r: FlagSet)
        ensures
            r == self.join(other),
    {
        FlagSet { bits: self.bits | other.bits }
    }

    /// The direction that the flags encode: a release if the release bit is
    /// set, a press otherwise.
    #[verifier::when_used_as_spec(spec_direction)]
    pub fn direction(self) -> (r: Direction)
        ensures
            r == self.spec_direction(),
    {
        if self.contains(FlagSet { bits: FLAG_UP }) {
            Direction::Release
        } else {
            Direction::Press
        }
    }

    /// The plain flags of a direction: nothing for a press, the release bit
    /// for a release.
    pub fn plain(direction: Direction) -> (r: FlagSet)
        ensures
            r == plain_flags(direction),
    {
        match direction {
            Direction::Press => FlagSet { bits: 0 },
            Direction::Release => FlagSet { bits: FLAG_UP },
        }
    }
}

/// The flags of a key that carries nothing but its direction.
pub open spec fn plain_flags(direction: Direction) -> FlagSet {
    match direction {
        Direction::Press => FlagSet { bits: 0 },
        Direction::Release => FlagSet { bits: FLAG_UP },
    }
}

/// The flags that make an emulated navigation key read as a real one.
pub open spec fn extended_flags(direction: Direction) -> FlagSet {
    match direction {
        Direction::Press => FlagSet { bits: FLAG_E0 },
        Direction::Release => FlagSet { bits: FLAG_UP }.join(FlagSet { bits: FLAG_E0 }).join(
            FlagSet { bits: FLAG_E1 },
        ),
    }
}

/// Flags for an emulated navigation key: the extended marker alone on a
/// press; the release bit and both extended markers on a release.
pub fn compute_flags(direction: Direction) -> (r: FlagSet)
    ensures
        r == extended_flags(direction),
        r.direction() == direction,
        r.has(FlagSet { bits: FLAG_E0 }),
        direction == Direction::Release ==> r.has(FlagSet { bits: FLAG_E1 }),
{
    proof {
        lemma_extended_flags(direction);
    }
    match direction {
        Direction::Press => FlagSet { bits: FLAG_E0 },
        Direction::Release => FlagSet { bits: FLAG_UP | FLAG_E0 | FLAG_E1 },
    }
}

/// What `extended_flags` amounts to bit by bit.
pub proof fn lemma_extended_flags(direction: Direction)
    ensures
        extended_flags(Direction::Press).bits == 2,
        extended_flags(Direction::Release).bits == 3,
        extended_flags(direction).spec_direction() == direction,
        extended_flags(direction).has(FlagSet { bits: FLAG_E0 }),
        extended_flags(Direction::Release).has(FlagSet { bits: FLAG_E1 }),
        extended_flags(Direction::Release).has(FlagSet { bits: FLAG_UP }),
{
    assert(1u16 | 2u16 | 3u16 == 3u16) by (bit_vector);
    assert(2u16 & 1u16 == 0u16) by (bit_vector);
    assert(3u16 & 1u16 == 1u16) by (bit_vector);
    assert(2u16 & 2u16 == 2u16) by (bit_vector);
    assert(3u16 & 2u16 == 2u16) by (bit_vector);
    assert(3u16 & 3u16 == 3u16) by (bit_vector);
}

} // verus!
