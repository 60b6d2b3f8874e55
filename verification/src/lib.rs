//! Key-event translation for a CapsLock remapping layer.
//!
//! The library decides, for each keyboard event that an interception driver
//! reports, which events are injected in its place. CapsLock serves as a
//! chord modifier: held, it turns other keys into navigation keys and
//! Control chords; tapped alone, it yields Escape. The library performs no
//! I/O: the caller reads events from the driver, asks the operating system
//! for a key's state where the library wants it, and injects what the
//! library returns.
//!
//! - `keys`, `vkeys`, `flags`, `event`: the data that travels.
//! - `table`: what each key does while the modifier is held.
//! - `hold`, `guard`, `chord`, `resync`: the parts of the state machine.
//! - `dispatch`: the state machine as a whole, one event at a time.
//! - `startup`: the readings taken before the first event.
//! - `laws`: what is proved of the state machine.

pub mod chord;
pub mod dispatch;
pub mod event;
pub mod flags;
pub mod guard;
pub mod hold;
pub mod keys;
pub mod laws;
pub mod resync;
pub mod startup;
pub mod table;
pub mod vkeys;
