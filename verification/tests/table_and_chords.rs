use nuna::chord::{apply_action, emit_chord, modifier_key_event};
use nuna::event::KeyEvent;
use nuna::flags::{Direction, FlagSet};
use nuna::keys::{
    all_scan_codes, PhysicalKeyId, KEY_A, KEY_B, KEY_BACKSPACE, KEY_C, KEY_CAPS_LOCK, KEY_D,
    KEY_E, KEY_F, KEY_H, KEY_J, KEY_K, KEY_L, KEY_LEFT_CONTROL, KEY_LEFT_SHIFT, KEY_NUM1,
    KEY_NUMPAD1, KEY_NUMPAD2, KEY_NUMPAD4, KEY_NUMPAD6, KEY_NUMPAD7, KEY_NUMPAD8,
    KEY_NUMPAD_PERIOD, KEY_Q, KEY_S, KEY_SPACE, KEY_V, KEY_W, KEY_X, KEY_Z,
};
use nuna::table::{lookup, Action, ModifierKey};
use nuna::vkeys::VK_LCONTROL;

fn key(code: u16) -> PhysicalKeyId {
    PhysicalKeyId::new(code)
}

fn bespoke_codes() -> Vec<u16> {
    vec![KEY_SPACE, KEY_D, KEY_A, KEY_E, KEY_H, KEY_L, KEY_J, KEY_K, KEY_B, KEY_F]
}

#[test]
fn lookup_bespoke_entries() {
    assert_eq!(lookup(key(KEY_SPACE), true), Action::RemapKey(key(KEY_BACKSPACE)));
    assert_eq!(lookup(key(KEY_D), true), Action::RemapWithExtendedFlags(key(KEY_NUMPAD_PERIOD)));
    assert_eq!(lookup(key(KEY_A), true), Action::RemapWithExtendedFlags(key(KEY_NUMPAD7)));
    assert_eq!(lookup(key(KEY_E), true), Action::RemapWithExtendedFlags(key(KEY_NUMPAD1)));
    assert_eq!(lookup(key(KEY_H), true), Action::RemapWithExtendedFlags(key(KEY_NUMPAD4)));
    assert_eq!(lookup(key(KEY_L), true), Action::RemapWithExtendedFlags(key(KEY_NUMPAD6)));
    assert_eq!(lookup(key(KEY_J), true), Action::RemapWithExtendedFlags(key(KEY_NUMPAD8)));
    assert_eq!(lookup(key(KEY_K), true), Action::RemapWithExtendedFlags(key(KEY_NUMPAD2)));
    assert_eq!(
        lookup(key(KEY_B), true),
        Action::ChordWithExtendedFlags(ModifierKey::Control, key(KEY_NUMPAD4))
    );
    assert_eq!(
        lookup(key(KEY_F), true),
        Action::ChordWithExtendedFlags(ModifierKey::Control, key(KEY_NUMPAD6))
    );
}

#[test]
fn lookup_unmapped_key_is_chord_of_primary_modifier_and_key() {
    let bespoke = bespoke_codes();
    let mut unmapped = 0;
    for k in all_scan_codes() {
        if bespoke.contains(&k.code) {
            continue;
        }
        unmapped += 1;
        assert_eq!(lookup(k, true), Action::Chord(ModifierKey::Control, k));
    }
    assert_eq!(unmapped, 245);
    for code in [0u16, 256, 0x1234, u16::MAX] {
        assert_eq!(lookup(key(code), true), Action::Chord(ModifierKey::Control, key(code)));
    }
}

#[test]
fn lookup_clipboard_keys_are_chords_of_themselves() {
    for code in [KEY_Z, KEY_X, KEY_C, KEY_V, KEY_W, KEY_S, KEY_Q, KEY_NUM1, KEY_LEFT_SHIFT] {
        assert_eq!(lookup(key(code), true), Action::Chord(ModifierKey::Control, key(code)));
    }
}

#[test]
fn lookup_is_never_passthrough_while_held() {
    for k in all_scan_codes() {
        assert_ne!(lookup(k, true), Action::Passthrough);
    }
}

#[test]
fn lookup_is_passthrough_while_released() {
    for k in all_scan_codes() {
        assert_eq!(lookup(k, false), Action::Passthrough);
    }
    assert_eq!(lookup(key(KEY_CAPS_LOCK), false), Action::Passthrough);
}

#[test]
fn modifier_key_is_left_control() {
    assert_eq!(ModifierKey::Control.key_id(), key(KEY_LEFT_CONTROL));
    assert_eq!(ModifierKey::Control.virtual_key(), VK_LCONTROL);
    assert_eq!(ModifierKey::Control.virtual_key(), 0xA2);
}

#[test]
fn modifier_event_carries_direction_and_extended_marker() {
    let down = modifier_key_event(ModifierKey::Control, Direction::Press, 11);
    let up = modifier_key_event(ModifierKey::Control, Direction::Release, 12);
    assert_eq!(down, KeyEvent { key_id: key(KEY_LEFT_CONTROL), flags: FlagSet { bits: 2 }, payload: 11 });
    assert_eq!(up, KeyEvent { key_id: key(KEY_LEFT_CONTROL), flags: FlagSet { bits: 3 }, payload: 12 });
}

#[test]
fn chord_press_puts_modifier_first_and_asserts_it() {
    let mut asserted = false;
    let mapped = KeyEvent::plain(key(KEY_C), Direction::Press, 4);
    let batch = emit_chord(ModifierKey::Control, mapped, &mut asserted);
    assert_eq!(
        batch,
        vec![
            KeyEvent { key_id: key(KEY_LEFT_CONTROL), flags: FlagSet { bits: 2 }, payload: 4 },
            KeyEvent { key_id: key(KEY_C), flags: FlagSet { bits: 0 }, payload: 4 },
        ]
    );
    assert!(asserted);
}

#[test]
fn chord_release_puts_modifier_last_and_withdraws_it() {
    let mut asserted = true;
    let mapped = KeyEvent::plain(key(KEY_C), Direction::Release, 4);
    let batch = emit_chord(ModifierKey::Control, mapped, &mut asserted);
    assert_eq!(
        batch,
        vec![
            KeyEvent { key_id: key(KEY_C), flags: FlagSet { bits: 1 }, payload: 4 },
            KeyEvent { key_id: key(KEY_LEFT_CONTROL), flags: FlagSet { bits: 3 }, payload: 4 },
        ]
    );
    assert!(!asserted);
}

#[test]
fn apply_passthrough_forwards_the_event_unchanged() {
    let event = KeyEvent::new(key(KEY_A), FlagSet::from_bits(0x2A), 9);
    for before in [false, true] {
        let mut asserted = before;
        assert_eq!(apply_action(Action::Passthrough, event, &mut asserted), vec![event]);
        assert_eq!(asserted, before);
    }
}

#[test]
fn apply_remap_key_keeps_the_flags() {
    let event = KeyEvent::new(key(KEY_SPACE), FlagSet::from_bits(0x29), 9);
    let mut asserted = true;
    let batch = apply_action(Action::RemapKey(key(KEY_BACKSPACE)), event, &mut asserted);
    assert_eq!(
        batch,
        vec![KeyEvent { key_id: key(KEY_BACKSPACE), flags: FlagSet { bits: 0x29 }, payload: 9 }]
    );
    assert!(asserted);
}

#[test]
fn apply_remap_with_extended_flags_overrides_the_flags() {
    let mut asserted = false;
    let press = KeyEvent::new(key(KEY_H), FlagSet::from_bits(0x20), 9);
    let release = KeyEvent::new(key(KEY_H), FlagSet::from_bits(0x21), 9);
    let action = Action::RemapWithExtendedFlags(key(KEY_NUMPAD4));
    assert_eq!(
        apply_action(action, press, &mut asserted),
        vec![KeyEvent { key_id: key(KEY_NUMPAD4), flags: FlagSet { bits: 2 }, payload: 9 }]
    );
    assert_eq!(
        apply_action(action, release, &mut asserted),
        vec![KeyEvent { key_id: key(KEY_NUMPAD4), flags: FlagSet { bits: 3 }, payload: 9 }]
    );
    assert!(!asserted);
}

#[test]
fn apply_chord_emits_plain_target() {
    let mut asserted = false;
    let press = KeyEvent::new(key(KEY_Z), FlagSet::from_bits(0x0A), 3);
    let action = Action::Chord(ModifierKey::Control, key(KEY_Z));
    assert_eq!(
        apply_action(action, press, &mut asserted),
        vec![
            KeyEvent { key_id: key(KEY_LEFT_CONTROL), flags: FlagSet { bits: 2 }, payload: 3 },
            KeyEvent { key_id: key(KEY_Z), flags: FlagSet { bits: 0 }, payload: 3 },
        ]
    );
    assert!(asserted);
    let release = KeyEvent::new(key(KEY_Z), FlagSet::from_bits(0x0B), 3);
    assert_eq!(
        apply_action(action, release, &mut asserted),
        vec![
            KeyEvent { key_id: key(KEY_Z), flags: FlagSet { bits: 1 }, payload: 3 },
            KeyEvent { key_id: key(KEY_LEFT_CONTROL), flags: FlagSet { bits: 3 }, payload: 3 },
        ]
    );
    assert!(!asserted);
}

#[test]
fn apply_chord_with_extended_flags_emits_navigation_target() {
    let mut asserted = false;
    let action = Action::ChordWithExtendedFlags(ModifierKey::Control, key(KEY_NUMPAD6));
    let press = KeyEvent::plain(key(KEY_F), Direction::Press, 3);
    assert_eq!(
        apply_action(action, press, &mut asserted),
        vec![
            KeyEvent { key_id: key(KEY_LEFT_CONTROL), flags: FlagSet { bits: 2 }, payload: 3 },
            KeyEvent { key_id: key(KEY_NUMPAD6), flags: FlagSet { bits: 2 }, payload: 3 },
        ]
    );
    assert!(asserted);
    let release = KeyEvent::plain(key(KEY_F), Direction::Release, 3);
    assert_eq!(
        apply_action(action, release, &mut asserted),
        vec![
            KeyEvent { key_id: key(KEY_NUMPAD6), flags: FlagSet { bits: 3 }, payload: 3 },
            KeyEvent { key_id: key(KEY_LEFT_CONTROL), flags: FlagSet { bits: 3 }, payload: 3 },
        ]
    );
    assert!(!asserted);
}
