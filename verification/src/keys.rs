//! Physical key identifiers: the scan codes that the keyboard driver reports.

use vstd::prelude::*;

verus! {

/// The lowest scan code that the driver reports.
pub const FIRST_SCAN_CODE: u16 = 0x01;

/// The highest scan code that the driver reports without an extended marker.
pub const LAST_SCAN_CODE: u16 = 0xFF;

pub const KEY_ESC: u16 = 0x01;
pub const KEY_NUM1: u16 = 0x02;
pub const KEY_NUM2: u16 = 0x03;
pub const KEY_NUM3: u16 = 0x04;
pub const KEY_NUM4: u16 = 0x05;
pub const KEY_NUM5: u16 = 0x06;
pub const KEY_NUM6: u16 = 0x07;
pub const KEY_NUM7: u16 = 0x08;
pub const KEY_NUM8: u16 = 0x09;
pub const KEY_NUM9: u16 = 0x0A;
pub const KEY_NUM0: u16 = 0x0B;
pub const KEY_MINUS: u16 = 0x0C;
pub const KEY_EQUALS: u16 = 0x0D;
pub const KEY_BACKSPACE: u16 = 0x0E;
pub const KEY_TAB: u16 = 0x0F;
pub const KEY_Q: u16 = 0x10;
pub const KEY_W: u16 = 0x11;
pub const KEY_E: u16 = 0x12;
pub const KEY_R: u16 = 0x13;
pub const KEY_T: u16 = 0x14;
pub const KEY_Y: u16 = 0x15;
pub const KEY_U: u16 = 0x16;
pub const KEY_I: u16 = 0x17;
pub const KEY_O: u16 = 0x18;
pub const KEY_P: u16 = 0x19;
pub const KEY_LEFT_BRACKET: u16 = 0x1A;
pub const KEY_RIGHT_BRACKET: u16 = 0x1B;
pub const KEY_ENTER: u16 = 0x1C;
pub const KEY_LEFT_CONTROL: u16 = 0x1D;
pub const KEY_A: u16 = 0x1E;
pub const KEY_S: u16 = 0x1F;
pub const KEY_D: u16 = 0x20;
pub const KEY_F: u16 = 0x21;
pub const KEY_G: u16 = 0x22;
pub const KEY_H: u16 = 0x23;
pub const KEY_J: u16 = 0x24;
pub const KEY_K: u16 = 0x25;
pub const KEY_L: u16 = 0x26;
pub const KEY_SEMI_COLON: u16 = 0x27;
pub const KEY_APOSTROPHE: u16 = 0x28;
pub const KEY_GRAVE: u16 = 0x29;
pub const KEY_LEFT_SHIFT: u16 = 0x2A;
pub const KEY_BACK_SLASH: u16 = 0x2B;
pub const KEY_Z: u16 = 0x2C;
pub const KEY_X: u16 = 0x2D;
pub const KEY_C: u16 = 0x2E;
pub const KEY_V: u16 = 0x2F;
pub const KEY_B: u16 = 0x30;
pub const KEY_N: u16 = 0x31;
pub const KEY_M: u16 = 0x32;
pub const KEY_COMMA: u16 = 0x33;
pub const KEY_PERIOD: u16 = 0x34;
pub const KEY_SLASH: u16 = 0x35;
pub const KEY_RIGHT_SHIFT: u16 = 0x36;
pub const KEY_NUMPAD_MULTIPLY: u16 = 0x37;
pub const KEY_LEFT_ALT: u16 = 0x38;
pub const KEY_SPACE: u16 = 0x39;
pub const KEY_CAPS_LOCK: u16 = 0x3A;
pub const KEY_F1: u16 = 0x3B;
pub const KEY_F2: u16 = 0x3C;
pub const KEY_F3: u16 = 0x3D;
pub const KEY_F4: u16 = 0x3E;
pub const KEY_F5: u16 = 0x3F;
pub const KEY_F6: u16 = 0x40;
pub const KEY_F7: u16 = 0x41;
pub const KEY_F8: u16 = 0x42;
pub const KEY_F9: u16 = 0x43;
pub const KEY_F10: u16 = 0x44;
pub const KEY_NUM_LOCK: u16 = 0x45;
pub const KEY_SCROLL_LOCK: u16 = 0x46;
pub const KEY_NUMPAD7: u16 = 0x47;
pub const KEY_NUMPAD8: u16 = 0x48;
pub const KEY_NUMPAD9: u16 = 0x49;
pub const KEY_NUMPAD_MINUS: u16 = 0x4A;
pub const KEY_NUMPAD4: u16 = 0x4B;
pub const KEY_NUMPAD5: u16 = 0x4C;
pub const KEY_NUMPAD6: u16 = 0x4D;
pub const KEY_NUMPAD_PLUS: u16 = 0x4E;
pub const KEY_NUMPAD1: u16 = 0x4F;
pub const KEY_NUMPAD2: u16 = 0x50;
pub const KEY_NUMPAD3: u16 = 0x51;
pub const KEY_NUMPAD0: u16 = 0x52;
pub const KEY_NUMPAD_PERIOD: u16 = 0x53;
pub const KEY_ALT_PRINT_SCREEN: u16 = 0x54;
pub const KEY_INT1: u16 = 0x56;
pub const KEY_F11: u16 = 0x57;
pub const KEY_F12: u16 = 0x58;
pub const KEY_OEM1: u16 = 0x5A;
pub const KEY_OEM2: u16 = 0x5B;
pub const KEY_OEM3: u16 = 0x5C;
pub const KEY_ERASE_EOF: u16 = 0x5D;
pub const KEY_OEM4: u16 = 0x5E;
pub const KEY_OEM5: u16 = 0x5F;
pub const KEY_ZOOM: u16 = 0x62;
pub const KEY_HELP: u16 = 0x63;
pub const KEY_F13: u16 = 0x64;
pub const KEY_F14: u16 = 0x65;
pub const KEY_F15: u16 = 0x66;
pub const KEY_F16: u16 = 0x67;
pub const KEY_F17: u16 = 0x68;
pub const KEY_F18: u16 = 0x69;
pub const KEY_F19: u16 = 0x6A;
pub const KEY_F20: u16 = 0x6B;
pub const KEY_F21: u16 = 0x6C;
pub const KEY_F22: u16 = 0x6D;
pub const KEY_F23: u16 = 0x6E;
pub const KEY_OEM6: u16 = 0x6F;
pub const KEY_KATAKANA: u16 = 0x70;
pub const KEY_OEM7: u16 = 0x71;
pub const KEY_F24: u16 = 0x76;
pub const KEY_SBCS_CHAR: u16 = 0x77;
pub const KEY_CONVERT: u16 = 0x79;
pub const KEY_NON_CONVERT: u16 = 0x7B;

/// A physical key, named by its scan code.
#[derive(Clone, Copy, Debug, PartialEq, Eq, Structural, Hash)]
pub struct PhysicalKeyId {
    pub code: u16,
}

impl PhysicalKeyId {
    /// The key is one that the driver has a scan code for.
    pub open spec fn is_reportable(self) -> bool {
        FIRST_SCAN_CODE <= self.code <= LAST_SCAN_CODE
    }

    /// The key of a scan code.
    pub fn new(code: u16) -> (key: PhysicalKeyId)
        ensures
            key.code == code,
    {
        PhysicalKeyId { code }
    }

    /// The scan code of the key.
    pub fn code(self) -> (code: u16)
        ensures
            code == self.code,
    {
        self.code
    }
}

/// The table of scan codes that the driver reports.
pub open spec fn scan_code_table() -> Seq<PhysicalKeyId> {
    Seq::new(255, |i: int| PhysicalKeyId { code: (i + 1) as u16 })
}

/// Every key that the driver can report, once each, in ascending order of
/// scan code.
pub fn all_scan_codes() -> (codes: Vec<PhysicalKeyId>)
    ensures
        codes@ == scan_code_table(),
        codes@.len() == 255,
        forall|i: int| 0 <= i < 255 ==> (#[trigger] codes@[i]).code == i + 1,
        forall|key: PhysicalKeyId| codes@.contains(key) <==> key.is_reportable(),
{
    let mut codes: Vec<PhysicalKeyId> = Vec::new();
    let mut code: u16 = FIRST_SCAN_CODE;
    while code <= LAST_SCAN_CODE
        invariant
            1 <= code <= 256,
            codes@.len() == code - 1,
            forall|i: int| 0 <= i < codes@.len() ==> (#[trigger] codes@[i]).code == i + 1,
        decreases 256 - code,
    {
        codes.push(PhysicalKeyId { code });
        code = code + 1;
    }
    proof {
        assert(codes@ =~= scan_code_table());
        assert forall|key: PhysicalKeyId| codes@.contains(key) <==> key.is_reportable() by {
            if key.is_reportable() {
                assert(codes@[key.code - 1] == key);
            }
        }
    }
    codes
}

} // verus!
