//! The startup gate: reading the operating system's key states before the
//! first event is taken.
//!
//! The operating system answers a key-state query with a signed 16-bit
//! reading. Its sign bit says that the key is down now, its lowest bit that
//! the key was pressed since the last query. The caller makes the queries;
//! this module says which keys to ask for and what the readings mean.
//!
//! Startup goes on only when no key reads as pressed. A key that is down
//! now holds it back, the Control, Shift, Alt and Meta keys among them. The
//! keys of the navigation block are the one exception: their sign bit is not
//! to be trusted, and they are judged by the lowest bit in its place.

use crate::vkeys::{
    VK_DELETE, VK_DOWN, VK_END, VK_HOME, VK_INSERT, VK_LCONTROL, VK_LEFT, VK_LMENU, VK_LSHIFT,
    VK_LWIN, VK_NEXT, VK_PRIOR, VK_RCONTROL, VK_RIGHT, VK_RMENU, VK_RSHIFT, VK_RWIN, VK_UP,
};
use vstd::prelude::*;

verus! {

/// The lowest bit of a reading is set: the key was pressed since the last
/// query.
pub open spec fn latch_set(reading: i16) -> bool {
    reading % 2 != 0
}

/// The navigation keys whose sign bit is not to be trusted: for them
/// `is_key_down` goes by the latch bit.
pub open spec fn is_latched_key(vk: u16) -> bool {
    ||| vk == VK_HOME
    ||| vk == VK_END
    ||| vk == VK_PRIOR
    ||| vk == VK_NEXT
    ||| vk == VK_INSERT
    ||| vk == VK_DELETE
    ||| vk == VK_LEFT
    ||| vk == VK_RIGHT
}

/// What a reading says of a key: for a latched key its latch bit, for any
/// other key its sign.
pub open spec fn reads_down(vk: u16, reading: i16) -> bool {
    if is_latched_key(vk) {
        latch_set(reading)
    } else {
        reading < 0
    }
}

/// The tracked keys of the navigation block. Their sign bit is not to be
/// trusted at startup, so they are judged by the latch bit alone.
pub open spec fn navigation_keys() -> Seq<u16> {
    seq![
        VK_HOME,
        VK_END,
        VK_PRIOR,
        VK_NEXT,
        VK_INSERT,
        VK_DELETE,
        VK_LEFT,
        VK_RIGHT,
        VK_UP,
        VK_DOWN,
    ]
}

/// The tracked modifiers: both Control, Shift, Alt and Meta keys.
pub open spec fn modifier_keys() -> Seq<u16> {
    seq![
        VK_LCONTROL,
        VK_RCONTROL,
        VK_LSHIFT,
        VK_RSHIFT,
        VK_LMENU,
        VK_RMENU,
        VK_LWIN,
        VK_RWIN,
    ]
}

/// The keys that the startup gate tracks, in the order in which they are
/// flushed: the navigation block, then the modifiers.
pub open spec fn tracked_keys() -> Seq<u16> {
    navigation_keys() + modifier_keys()
}

/// The key is one of the tracked keys of the navigation block.
pub open spec fn is_navigation_key(vk: u16) -> bool {
    navigation_keys().contains(vk)
}

/// The key is one of the tracked modifiers.
pub open spec fn is_tracked_modifier(vk: u16) -> bool {
    modifier_keys().contains(vk)
}

/// The key is one of the tracked keys.
pub open spec fn is_tracked_key(vk: u16) -> bool {
    tracked_keys().contains(vk)
}

/// What a reading says of a key at startup. A key of the navigation block
/// reads as pressed by its latch bit alone. A tracked modifier reads as
/// pressed if it is down now or was pressed since the last query. Any other
/// key reads as pressed if it is down now.
pub open spec fn reads_pressed(vk: u16, reading: i16) -> bool {
    if is_navigation_key(vk) {
        latch_set(reading)
    } else if is_tracked_modifier(vk) {
        reading < 0 || latch_set(reading)
    } else {
        reading < 0
    }
}

/// The readings cover the virtual keys 1 to 255, the reading of key `vk` at
/// index `vk - 1`, and none of them reads as pressed.
pub open spec fn all_released(readings: Seq<i16>) -> bool {
    &&& readings.len() >= 255
    &&& forall|vk: u16| 1 <= vk <= 255 ==> !reads_pressed(vk, #[trigger] readings[vk - 1])
}

/// Whether the lowest bit of a reading is set.
fn latch_bit(reading: i16) -> (set: bool)
    ensures
        set == latch_set(reading),
{
    reading % 2 != 0
}

/// Whether a key is down, by the reading that the operating system gave for
/// it.
pub fn is_key_down(vk: u16, reading: i16) -> (down: bool)
    ensures
        down == reads_down(vk, reading),
{
    let latched = vk == VK_HOME || vk == VK_END || vk == VK_PRIOR || vk == VK_NEXT || vk
        == VK_INSERT || vk == VK_DELETE || vk == VK_LEFT || vk == VK_RIGHT;
    if latched {
        latch_bit(reading)
    } else {
        reading < 0
    }
}

/// Whether the key is one of the tracked keys of the navigation block.
pub fn is_navigation(vk: u16) -> (listed: bool)
    ensures
        listed == is_navigation_key(vk),
{
    proof {
        lemma_tracked_keys(vk);
    }
    (VK_PRIOR <= vk && vk <= VK_DOWN) || vk == VK_INSERT || vk == VK_DELETE
}

/// Whether the key is one of the tracked modifiers.
pub fn is_modifier(vk: u16) -> (listed: bool)
    ensures
        listed == is_tracked_modifier(vk),
{
    proof {
        lemma_tracked_keys(vk);
    }
    vk == VK_LWIN || vk == VK_RWIN || (VK_LSHIFT <= vk && vk <= VK_RMENU)
}

/// Whether every key is released, by one round of readings: `readings[vk - 1]`
/// is what the operating system gave for virtual key `vk`, for each `vk` from
/// 1 to 255. A round that does not cover all of them shows nothing, and the
/// answer is `false`. A key that is down now keeps the answer `false`, a
/// tracked modifier among them; only the keys of the navigation block are
/// judged by the latch bit in place of the sign.
pub fn are_all_keys_released(readings: &[i16]) -> (released: bool)
    ensures
        released == all_released(readings@),
{
    if readings.len() < 255 {
        return false;
    }
    let mut vk: u16 = 1;
    while vk <= 255
        invariant
            1 <= vk <= 256,
            readings@.len() >= 255,
            forall|k: u16| 1 <= k < vk ==> !reads_pressed(k, #[trigger] readings@[k - 1]),
        decreases 256 - vk,
    {
        let reading = readings[(vk - 1) as usize];
        let pressed = if is_navigation(vk) {
            latch_bit(reading)
        } else if is_modifier(vk) {
            reading < 0 || latch_bit(reading)
        } else {
            reading < 0
        };
        if pressed {
            return false;
        }
        vk = vk + 1;
    }
    true
}

/// The first step of the startup gate: the keys whose state is to be read
/// once and thrown away, so that what was latched before the process started
/// is not taken for a key press. `flushed` records that the step was taken:
/// the first call returns the tracked keys, every later call returns nothing.
pub fn init_keyboard_state(flushed: &mut bool) -> (keys: Vec<u16>)
    ensures
        *final(flushed),
        !*old(flushed) ==> keys@ == tracked_keys(),
        *old(flushed) ==> keys@ == Seq::<u16>::empty(),
{
    let mut keys: Vec<u16> = Vec::new();
    if !*flushed {
        keys.push(VK_HOME);
        keys.push(VK_END);
        keys.push(VK_PRIOR);
        keys.push(VK_NEXT);
        keys.push(VK_INSERT);
        keys.push(VK_DELETE);
        keys.push(VK_LEFT);
        keys.push(VK_RIGHT);
        keys.push(VK_UP);
        keys.push(VK_DOWN);
        keys.push(VK_LCONTROL);
        keys.push(VK_RCONTROL);
        keys.push(VK_LSHIFT);
        keys.push(VK_RSHIFT);
        keys.push(VK_LMENU);
        keys.push(VK_RMENU);
        keys.push(VK_LWIN);
        keys.push(VK_RWIN);
        assert(keys@ =~= tracked_keys());
        *flushed = true;
    }
    keys
}

/// Where the tracked keys lie among the virtual keys: the navigation block
/// in one run and two keys after it, the modifiers in one run and two keys
/// before it. A tracked key is of one kind or the other, never of both.
pub proof fn lemma_tracked_keys(vk: u16)
    ensures
        tracked_keys().len() == 18,
        is_navigation_key(vk) <==> {
            ||| VK_PRIOR <= vk <= VK_DOWN
            ||| vk == VK_INSERT
            ||| vk == VK_DELETE
        },
        is_tracked_modifier(vk) <==> {
            ||| vk == VK_LWIN
            ||| vk == VK_RWIN
            ||| VK_LSHIFT <= vk <= VK_RMENU
        },
        is_tracked_key(vk) <==> is_navigation_key(vk) || is_tracked_modifier(vk),
        !(is_navigation_key(vk) && is_tracked_modifier(vk)),
{
    let navigation = navigation_keys();
    let modifiers = modifier_keys();
    assert(navigation[0] == VK_HOME && navigation[1] == VK_END && navigation[2] == VK_PRIOR);
    assert(navigation[3] == VK_NEXT && navigation[4] == VK_INSERT && navigation[5] == VK_DELETE);
    assert(navigation[6] == VK_LEFT && navigation[7] == VK_RIGHT && navigation[8] == VK_UP);
    assert(navigation[9] == VK_DOWN);
    assert(modifiers[0] == VK_LCONTROL && modifiers[1] == VK_RCONTROL && modifiers[2] == VK_LSHIFT);
    assert(modifiers[3] == VK_RSHIFT && modifiers[4] == VK_LMENU && modifiers[5] == VK_RMENU);
    assert(modifiers[6] == VK_LWIN && modifiers[7] == VK_RWIN);
    let all = tracked_keys();
    if is_tracked_key(vk) {
        let i = choose|i: int| 0 <= i < all.len() && all[i] == vk;
        if i < 10 {
            assert(navigation[i] == vk);
        } else {
            assert(modifiers[i - 10] == vk);
        }
    }
    if is_navigation_key(vk) {
        let i = choose|i: int| 0 <= i < navigation.len() && navigation[i] == vk;
        assert(all[i] == vk);
    }
    if is_tracked_modifier(vk) {
        let i = choose|i: int| 0 <= i < modifiers.len() && modifiers[i] == vk;
        assert(all[i + 10] == vk);
    }
}

/// A key outside the navigation block that is down now keeps the startup
/// gate closed, whatever the other readings are. The tracked modifiers are
/// such keys.
pub proof fn lemma_key_down_keeps_gate_closed(readings: Seq<i16>, vk: u16)
    requires
        1 <= vk <= 255,
        !is_navigation_key(vk),
        readings.len() >= 255,
        readings[vk - 1] < 0,
    ensures
        reads_pressed(vk, readings[vk - 1]),
        !all_released(readings),
{
}

/// A key that was pressed since the last query keeps the startup gate
/// closed if it is a tracked key, whatever the other readings are.
pub proof fn lemma_latched_key_keeps_gate_closed(readings: Seq<i16>, vk: u16)
    requires
        1 <= vk <= 255,
        is_tracked_key(vk),
        readings.len() >= 255,
        latch_set(readings[vk - 1]),
    ensures
        reads_pressed(vk, readings[vk - 1]),
        !all_released(readings),
{
    lemma_tracked_keys(vk);
}

/// Apart from the Up and Down arrows, a key that `is_key_down` calls down
/// reads as pressed at the startup gate too.
pub proof fn lemma_down_key_reads_pressed(vk: u16, reading: i16)
    requires
        reads_down(vk, reading),
        vk != VK_UP,
        vk != VK_DOWN,
    ensures
        reads_pressed(vk, reading),
{
    lemma_tracked_keys(vk);
}

} // verus!
