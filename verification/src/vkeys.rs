//! Virtual keys: the numbers under which the operating system knows the keys
//! and mouse buttons.

use vstd::prelude::*;

verus! {

pub const VK_LBUTTON: u16 = 0x01;
pub const VK_RBUTTON: u16 = 0x02;
pub const VK_CANCEL: u16 = 0x03;
pub const VK_MBUTTON: u16 = 0x04;
pub const VK_XBUTTON1: u16 = 0x05;
pub const VK_XBUTTON2: u16 = 0x06;
pub const VK_BACK: u16 = 0x08;
pub const VK_TAB: u16 = 0x09;
pub const VK_CLEAR: u16 = 0x0C;
pub const VK_RETURN: u16 = 0x0D;
pub const VK_SHIFT: u16 = 0x10;
pub const VK_CONTROL: u16 = 0x11;
pub const VK_MENU: u16 = 0x12;
pub const VK_PAUSE: u16 = 0x13;
pub const VK_CAPITAL: u16 = 0x14;
pub const VK_KANA: u16 = 0x15;
pub const VK_HANGEUL: u16 = 0x15;
pub const VK_HANGUL: u16 = 0x15;
pub const VK_JUNJA: u16 = 0x17;
pub const VK_FINAL: u16 = 0x18;
pub const VK_HANJA: u16 = 0x19;
pub const VK_KANJI: u16 = 0x19;
pub const VK_ESCAPE: u16 = 0x1B;
pub const VK_CONVERT: u16 = 0x1C;
pub const VK_NONCONVERT: u16 = 0x1D;
pub const VK_ACCEPT: u16 = 0x1E;
pub const VK_MODECHANGE: u16 = 0x1F;
pub const VK_SPACE: u16 = 0x20;
pub const VK_PRIOR: u16 = 0x21;
pub const VK_NEXT: u16 = 0x22;
pub const VK_END: u16 = 0x23;
pub const VK_HOME: u16 = 0x24;
pub const VK_LEFT: u16 = 0x25;
pub const VK_UP: u16 = 0x26;
pub const VK_RIGHT: u16 = 0x27;
pub const VK_DOWN: u16 = 0x28;
pub const VK_SELECT: u16 = 0x29;
pub const VK_PRINT: u16 = 0x2A;
pub const VK_EXECUTE: u16 = 0x2B;
pub const VK_SNAPSHOT: u16 = 0x2C;
pub const VK_INSERT: u16 = 0x2D;
pub const VK_DELETE: u16 = 0x2E;
pub const VK_HELP: u16 = 0x2F;
pub const VK_LWIN: u16 = 0x5B;
pub const VK_RWIN: u16 = 0x5C;
pub const VK_APPS: u16 = 0x5D;
pub const VK_SLEEP: u16 = 0x5F;
pub const VK_NUMPAD0: u16 = 0x60;
pub const VK_NUMPAD1: u16 = 0x61;
pub const VK_NUMPAD2: u16 = 0x62;
pub const VK_NUMPAD3: u16 = 0x63;
pub const VK_NUMPAD4: u16 = 0x64;
pub const VK_NUMPAD5: u16 = 0x65;
pub const VK_NUMPAD6: u16 = 0x66;
pub const VK_NUMPAD7: u16 = 0x67;
pub const VK_NUMPAD8: u16 = 0x68;
pub const VK_NUMPAD9: u16 = 0x69;
pub const VK_MULTIPLY: u16 = 0x6A;
pub const VK_ADD: u16 = 0x6B;
pub const VK_SEPARATOR: u16 = 0x6C;
pub const VK_SUBTRACT: u16 = 0x6D;
pub const VK_DECIMAL: u16 = 0x6E;
pub const VK_DIVIDE: u16 = 0x6F;
pub const VK_F1: u16 = 0x70;
pub const VK_F2: u16 = 0x71;
pub const VK_F3: u16 = 0x72;
pub const VK_F4: u16 = 0x73;
pub const VK_F5: u16 = 0x74;
pub const VK_F6: u16 = 0x75;
pub const VK_F7: u16 = 0x76;
pub const VK_F8: u16 = 0x77;
pub const VK_F9: u16 = 0x78;
pub const VK_F10: u16 = 0x79;
pub const VK_F11: u16 = 0x7A;
pub const VK_F12: u16 = 0x7B;
pub const VK_F13: u16 = 0x7C;
pub const VK_F14: u16 = 0x7D;
pub const VK_F15: u16 = 0x7E;
pub const VK_F16: u16 = 0x7F;
pub const VK_F17: u16 = 0x80;
pub const VK_F18: u16 = 0x81;
pub const VK_F19: u16 = 0x82;
pub const VK_F20: u16 = 0x83;
pub const VK_F21: u16 = 0x84;
pub const VK_F22: u16 = 0x85;
pub const VK_F23: u16 = 0x86;
pub const VK_F24: u16 = 0x87;
pub const VK_NAVIGATION_VIEW: u16 = 0x88;
pub const VK_NAVIGATION_MENU: u16 = 0x89;
pub const VK_NAVIGATION_UP: u16 = 0x8A;
pub const VK_NAVIGATION_DOWN: u16 = 0x8B;
pub const VK_NAVIGATION_LEFT: u16 = 0x8C;
pub const VK_NAVIGATION_RIGHT: u16 = 0x8D;
pub const VK_NAVIGATION_ACCEPT: u16 = 0x8E;
pub const VK_NAVIGATION_CANCEL: u16 = 0x8F;
pub const VK_NUMLOCK: u16 = 0x90;
pub const VK_SCROLL: u16 = 0x91;
pub const VK_OEM_NEC_EQUAL: u16 = 0x92;
pub const VK_OEM_FJ_JISHO: u16 = 0x92;
pub const VK_OEM_FJ_MASSHOU: u16 = 0x93;
pub const VK_OEM_FJ_TOUROKU: u16 = 0x94;
pub const VK_OEM_FJ_LOYA: u16 = 0x95;
pub const VK_OEM_FJ_ROYA: u16 = 0x96;
pub const VK_LSHIFT: u16 = 0xA0;
pub const VK_RSHIFT: u16 = 0xA1;
pub const VK_LCONTROL: u16 = 0xA2;
pub const VK_RCONTROL: u16 = 0xA3;
pub const VK_LMENU: u16 = 0xA4;
pub const VK_RMENU: u16 = 0xA5;
pub const VK_BROWSER_BACK: u16 = 0xA6;
pub const VK_BROWSER_FORWARD: u16 = 0xA7;
pub const VK_BROWSER_REFRESH: u16 = 0xA8;
pub const VK_BROWSER_STOP: u16 = 0xA9;
pub const VK_BROWSER_SEARCH: u16 = 0xAA;
pub const VK_BROWSER_FAVORITES: u16 = 0xAB;
pub const VK_BROWSER_HOME: u16 = 0xAC;
pub const VK_VOLUME_MUTE: u16 = 0xAD;
pub const VK_VOLUME_DOWN: u16 = 0xAE;
pub const VK_VOLUME_UP: u16 = 0xAF;
pub const VK_MEDIA_NEXT_TRACK: u16 = 0xB0;
pub const VK_MEDIA_PREV_TRACK: u16 = 0xB1;
pub const VK_MEDIA_STOP: u16 = 0xB2;
pub const VK_MEDIA_PLAY_PAUSE: u16 = 0xB3;
pub const VK_LAUNCH_MAIL: u16 = 0xB4;
pub const VK_LAUNCH_MEDIA_SELECT: u16 = 0xB5;
pub const VK_LAUNCH_APP1: u16 = 0xB6;
pub const VK_LAUNCH_APP2: u16 = 0xB7;
pub const VK_OEM_1: u16 = 0xBA;
pub const VK_OEM_PLUS: u16 = 0xBB;
pub const VK_OEM_COMMA: u16 = 0xBC;
pub const VK_OEM_MINUS: u16 = 0xBD;
pub const VK_OEM_PERIOD: u16 = 0xBE;
pub const VK_OEM_2: u16 = 0xBF;
pub const VK_OEM_3: u16 = 0xC0;
pub const VK_GAMEPAD_A: u16 = 0xC3;
pub const VK_GAMEPAD_B: u16 = 0xC4;
pub const VK_GAMEPAD_X: u16 = 0xC5;
pub const VK_GAMEPAD_Y: u16 = 0xC6;
pub const VK_GAMEPAD_RIGHT_SHOULDER: u16 = 0xC7;
pub const VK_GAMEPAD_LEFT_SHOULDER: u16 = 0xC8;
pub const VK_GAMEPAD_LEFT_TRIGGER: u16 = 0xC9;
pub const VK_GAMEPAD_RIGHT_TRIGGER: u16 = 0xCA;
pub const VK_GAMEPAD_DPAD_UP: u16 = 0xCB;
pub const VK_GAMEPAD_DPAD_DOWN: u16 = 0xCC;
pub const VK_GAMEPAD_DPAD_LEFT: u16 = 0xCD;
pub const VK_GAMEPAD_DPAD_RIGHT: u16 = 0xCE;
pub const VK_GAMEPAD_MENU: u16 = 0xCF;
pub const VK_GAMEPAD_VIEW: u16 = 0xD0;
pub const VK_GAMEPAD_LEFT_THUMBSTICK_BUTTON: u16 = 0xD1;
pub const VK_GAMEPAD_RIGHT_THUMBSTICK_BUTTON: u16 = 0xD2;
pub const VK_GAMEPAD_LEFT_THUMBSTICK_UP: u16 = 0xD3;
pub const VK_GAMEPAD_LEFT_THUMBSTICK_DOWN: u16 = 0xD4;
pub const VK_GAMEPAD_LEFT_THUMBSTICK_RIGHT: u16 = 0xD5;
pub const VK_GAMEPAD_LEFT_THUMBSTICK_LEFT: u16 = 0xD6;
pub const VK_GAMEPAD_RIGHT_THUMBSTICK_UP: u16 = 0xD7;
pub const VK_GAMEPAD_RIGHT_THUMBSTICK_DOWN: u16 = 0xD8;
pub const VK_GAMEPAD_RIGHT_THUMBSTICK_RIGHT: u16 = 0xD9;
pub const VK_GAMEPAD_RIGHT_THUMBSTICK_LEFT: u16 = 0xDA;
pub const VK_OEM_4: u16 = 0xDB;
pub const VK_OEM_5: u16 = 0xDC;
pub const VK_OEM_6: u16 = 0xDD;
pub const VK_OEM_7: u16 = 0xDE;
pub const VK_OEM_8: u16 = 0xDF;
pub const VK_OEM_AX: u16 = 0xE1;
pub const VK_OEM_102: u16 = 0xE2;
pub const VK_ICO_HELP: u16 = 0xE3;
pub const VK_ICO_00: u16 = 0xE4;
pub const VK_PROCESSKEY: u16 = 0xE5;
pub const VK_ICO_CLEAR: u16 = 0xE6;
pub const VK_PACKET: u16 = 0xE7;
pub const VK_OEM_RESET: u16 = 0xE9;
pub const VK_OEM_JUMP: u16 = 0xEA;
pub const VK_OEM_PA1: u16 = 0xEB;
pub const VK_OEM_PA2: u16 = 0xEC;
pub const VK_OEM_PA3: u16 = 0xED;
pub const VK_OEM_WSCTRL: u16 = 0xEE;
pub const VK_OEM_CUSEL: u16 = 0xEF;
pub const VK_OEM_ATTN: u16 = 0xF0;
pub const VK_OEM_FINISH: u16 = 0xF1;
pub const VK_OEM_COPY: u16 = 0xF2;
pub const VK_OEM_AUTO: u16 = 0xF3;
pub const VK_OEM_ENLW: u16 = 0xF4;
pub const VK_OEM_BACKTAB: u16 = 0xF5;
pub const VK_ATTN: u16 = 0xF6;
pub const VK_CRSEL: u16 = 0xF7;
pub const VK_EXSEL: u16 = 0xF8;
pub const VK_EREOF: u16 = 0xF9;
pub const VK_PLAY: u16 = 0xFA;
pub const VK_ZOOM: u16 = 0xFB;
pub const VK_NONAME: u16 = 0xFC;
pub const VK_PA1: u16 = 0xFD;
pub const VK_OEM_CLEAR: u16 = 0xFE;

/// The argument by which the operating system is asked for the name of a
/// key: the virtual key in the upper sixteen bits of a 32-bit word, the lower
/// sixteen bits clear, the word read as a signed number.
pub open spec fn key_name_word(vk_code: u16) -> int {
    if vk_code < 0x8000 {
        vk_code * 0x1_0000
    } else {
        vk_code * 0x1_0000 - 0x1_0000_0000
    }
}

/// Computes the argument of the key-name query for a virtual key.
pub fn key_name_lparam(vk_code: u16) -> (lparam: i32)
    ensures
        lparam == key_name_word(vk_code),
{
    if vk_code < 0x8000 {
        (vk_code as i32) * 0x1_0000
    } else {
        ((vk_code as i64) * 0x1_0000 - 0x1_0000_0000) as i32
    }
}

} // verus!
