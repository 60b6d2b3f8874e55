use nuna::dispatch::Remapper;
use nuna::event::KeyEvent;
use nuna::flags::{Direction, FlagSet, FLAG_E0, FLAG_TERMSRV_SET_LED, FLAG_UP};
use nuna::keys::{
    PhysicalKeyId, KEY_A, KEY_B, KEY_BACKSPACE, KEY_C, KEY_CAPS_LOCK, KEY_D, KEY_ESC, KEY_H, KEY_J,
    KEY_LEFT_CONTROL, KEY_NUMPAD4, KEY_NUMPAD6, KEY_NUMPAD8, KEY_NUMPAD_PERIOD, KEY_SPACE, KEY_Z,
};

fn key(code: u16) -> PhysicalKeyId {
    PhysicalKeyId::new(code)
}

fn down(code: u16) -> KeyEvent {
    KeyEvent::plain(key(code), Direction::Press, 0)
}

fn up(code: u16) -> KeyEvent {
    KeyEvent::plain(key(code), Direction::Release, 0)
}

fn event(code: u16, bits: u16, payload: u32) -> KeyEvent {
    KeyEvent { key_id: key(code), flags: FlagSet { bits }, payload }
}

#[test]
fn remapper_starts_released_with_nothing_asserted() {
    let remapper = Remapper::new();
    assert!(!remapper.is_held());
    assert!(!remapper.combo_used());
    assert!(!remapper.expected_modifier_asserted());
    assert!(!remapper.is_active(key(KEY_H)));
}

#[test]
fn bare_tap_emits_escape_and_suppresses_capslock() {
    let mut remapper = Remapper::new();
    let pressed = remapper.process_event(down(KEY_CAPS_LOCK), true);
    assert_eq!(pressed, vec![]);
    assert!(remapper.is_held());
    assert!(!remapper.combo_used());
    let released = remapper.process_event(up(KEY_CAPS_LOCK), true);
    assert_eq!(released, vec![event(KEY_ESC, 0, 0), event(KEY_ESC, 1, 0)]);
    assert!(!remapper.is_held());
    assert!(!remapper.combo_used());
    for injected in pressed.iter().chain(released.iter()) {
        assert_ne!(injected.key_id.code, KEY_CAPS_LOCK);
    }
}

#[test]
fn bare_tap_escape_carries_the_payload_of_the_release() {
    let mut remapper = Remapper::new();
    assert_eq!(remapper.process_event(event(KEY_CAPS_LOCK, 0, 5), true), vec![]);
    assert_eq!(
        remapper.process_event(event(KEY_CAPS_LOCK, FLAG_UP, 6), true),
        vec![event(KEY_ESC, 0, 6), event(KEY_ESC, 1, 6)]
    );
}

#[test]
fn tap_with_repeated_modifier_press_emits_one_escape_pair() {
    let mut remapper = Remapper::new();
    for _ in 0..5 {
        assert_eq!(remapper.process_event(down(KEY_CAPS_LOCK), true), vec![]);
        assert!(remapper.is_held());
    }
    assert_eq!(
        remapper.process_event(up(KEY_CAPS_LOCK), true),
        vec![event(KEY_ESC, 0, 0), event(KEY_ESC, 1, 0)]
    );
    assert_eq!(remapper.process_event(up(KEY_CAPS_LOCK), true), vec![]);
    assert!(!remapper.is_held());
}

#[test]
fn tap_with_swallowed_release_in_between_still_emits_escape() {
    let mut remapper = Remapper::new();
    assert_eq!(remapper.process_event(down(KEY_A), true), vec![down(KEY_A)]);
    assert_eq!(remapper.process_event(down(KEY_CAPS_LOCK), true), vec![]);
    assert_eq!(remapper.process_event(up(KEY_A), true), vec![]);
    assert!(!remapper.combo_used());
    assert_eq!(
        remapper.process_event(up(KEY_CAPS_LOCK), true),
        vec![event(KEY_ESC, 0, 0), event(KEY_ESC, 1, 0)]
    );
}

#[test]
fn modifier_release_without_hold_is_swallowed() {
    let mut remapper = Remapper::new();
    assert_eq!(remapper.process_event(up(KEY_CAPS_LOCK), false), vec![]);
    assert!(!remapper.is_held());
    assert!(!remapper.combo_used());
}

#[test]
fn hold_with_h_emits_left_down_and_up_and_no_escape() {
    let mut remapper = Remapper::new();
    assert_eq!(remapper.process_event(down(KEY_CAPS_LOCK), true), vec![]);
    assert!(!remapper.combo_used());
    assert_eq!(remapper.process_event(event(KEY_H, 0, 8), true), vec![event(KEY_NUMPAD4, 2, 8)]);
    assert!(remapper.combo_used());
    assert!(remapper.is_active(key(KEY_H)));
    assert_eq!(
        remapper.process_event(event(KEY_H, FLAG_UP, 8), true),
        vec![event(KEY_NUMPAD4, 3, 8)]
    );
    assert!(remapper.combo_used());
    assert!(remapper.is_held());
    assert!(!remapper.is_active(key(KEY_H)));
    assert_eq!(remapper.process_event(up(KEY_CAPS_LOCK), true), vec![]);
    assert!(!remapper.combo_used());
    assert!(!remapper.is_held());
}

#[test]
fn capslock_d_emits_extended_numpad_period_and_no_escape() {
    let mut remapper = Remapper::new();
    let mut injected: Vec<KeyEvent> = Vec::new();
    for input in [down(KEY_CAPS_LOCK), down(KEY_D), up(KEY_D), up(KEY_CAPS_LOCK)] {
        injected.extend(remapper.process_event(input, true));
    }
    assert_eq!(injected, vec![event(KEY_NUMPAD_PERIOD, 2, 0), event(KEY_NUMPAD_PERIOD, 3, 0)]);
    for e in &injected {
        assert_ne!(e.key_id.code, KEY_ESC);
        assert!(e.flags.contains(FlagSet::from_bits(FLAG_E0)));
    }
    assert!(!remapper.is_held());
    assert!(!remapper.combo_used());
}

#[test]
fn capslock_tap_sequence_emits_escape_down_and_up() {
    let mut remapper = Remapper::new();
    let mut injected: Vec<KeyEvent> = Vec::new();
    for input in [down(KEY_CAPS_LOCK), up(KEY_CAPS_LOCK)] {
        injected.extend(remapper.process_event(input, true));
    }
    assert_eq!(injected, vec![down(KEY_ESC), up(KEY_ESC)]);
}

#[test]
fn repeated_press_of_active_key_emits_nothing_more() {
    let mut once = Remapper::new();
    let mut twice = Remapper::new();
    once.process_event(down(KEY_CAPS_LOCK), true);
    twice.process_event(down(KEY_CAPS_LOCK), true);
    let mut out_once = once.process_event(down(KEY_J), true);
    let mut out_twice = twice.process_event(down(KEY_J), true);
    assert_eq!(out_once, vec![event(KEY_NUMPAD8, 2, 0)]);
    for _ in 0..3 {
        out_twice.extend(twice.process_event(down(KEY_J), true));
    }
    assert_eq!(out_once, out_twice);
    assert_eq!(once.is_held(), twice.is_held());
    assert_eq!(once.combo_used(), twice.combo_used());
    assert_eq!(once.is_active(key(KEY_J)), twice.is_active(key(KEY_J)));
    assert_eq!(once.expected_modifier_asserted(), twice.expected_modifier_asserted());
    out_once.extend(once.process_event(up(KEY_J), true));
    out_twice.extend(twice.process_event(up(KEY_J), true));
    assert_eq!(out_once, vec![event(KEY_NUMPAD8, 2, 0), event(KEY_NUMPAD8, 3, 0)]);
    assert_eq!(out_once, out_twice);
}

#[test]
fn repeated_chord_press_does_not_repeat_the_chord() {
    let mut remapper = Remapper::new();
    remapper.process_event(down(KEY_CAPS_LOCK), true);
    assert_eq!(
        remapper.process_event(down(KEY_C), true),
        vec![event(KEY_LEFT_CONTROL, 2, 0), event(KEY_C, 0, 0)]
    );
    assert!(remapper.expected_modifier_asserted());
    assert_eq!(remapper.process_event(down(KEY_C), true), vec![]);
    assert_eq!(remapper.process_event(down(KEY_C), false), vec![]);
    assert!(remapper.expected_modifier_asserted());
    assert_eq!(
        remapper.process_event(up(KEY_C), true),
        vec![event(KEY_C, 1, 0), event(KEY_LEFT_CONTROL, 3, 0)]
    );
    assert!(!remapper.expected_modifier_asserted());
    assert_eq!(remapper.process_event(up(KEY_C), true), vec![]);
}

#[test]
fn space_becomes_backspace_with_flags_kept() {
    let mut remapper = Remapper::new();
    remapper.process_event(down(KEY_CAPS_LOCK), true);
    assert_eq!(
        remapper.process_event(event(KEY_SPACE, FLAG_TERMSRV_SET_LED, 4), true),
        vec![event(KEY_BACKSPACE, FLAG_TERMSRV_SET_LED, 4)]
    );
    assert_eq!(
        remapper.process_event(event(KEY_SPACE, FLAG_TERMSRV_SET_LED | FLAG_UP, 4), true),
        vec![event(KEY_BACKSPACE, FLAG_TERMSRV_SET_LED | FLAG_UP, 4)]
    );
    assert!(remapper.combo_used());
}

#[test]
fn b_and_f_become_control_with_navigation_key() {
    let mut remapper = Remapper::new();
    remapper.process_event(down(KEY_CAPS_LOCK), true);
    assert_eq!(
        remapper.process_event(down(KEY_B), true),
        vec![event(KEY_LEFT_CONTROL, 2, 0), event(KEY_NUMPAD4, 2, 0)]
    );
    assert!(remapper.expected_modifier_asserted());
    assert_eq!(
        remapper.process_event(up(KEY_B), true),
        vec![event(KEY_NUMPAD4, 3, 0), event(KEY_LEFT_CONTROL, 3, 0)]
    );
    assert!(!remapper.expected_modifier_asserted());
    assert_eq!(
        remapper.process_event(down(nuna::keys::KEY_F), true),
        vec![event(KEY_LEFT_CONTROL, 2, 0), event(KEY_NUMPAD6, 2, 0)]
    );
}

#[test]
fn events_pass_through_while_modifier_is_released() {
    let mut remapper = Remapper::new();
    let press = event(KEY_H, FLAG_E0, 17);
    let release = event(KEY_H, FLAG_E0 | FLAG_UP, 17);
    assert_eq!(remapper.process_event(press, true), vec![press]);
    assert_eq!(remapper.process_event(press, false), vec![press]);
    assert_eq!(remapper.process_event(release, false), vec![release]);
    assert!(!remapper.is_active(key(KEY_H)));
    assert!(!remapper.combo_used());
    assert!(!remapper.expected_modifier_asserted());
}

#[test]
fn release_of_untracked_key_is_swallowed_while_held() {
    let mut remapper = Remapper::new();
    remapper.process_event(down(KEY_CAPS_LOCK), true);
    assert_eq!(remapper.process_event(up(KEY_Z), true), vec![]);
    assert!(!remapper.combo_used());
    assert!(!remapper.expected_modifier_asserted());
}

#[test]
fn modifier_release_clears_active_keys() {
    let mut remapper = Remapper::new();
    remapper.process_event(down(KEY_CAPS_LOCK), true);
    remapper.process_event(down(KEY_H), true);
    assert!(remapper.is_active(key(KEY_H)));
    assert_eq!(remapper.process_event(up(KEY_CAPS_LOCK), true), vec![]);
    assert!(!remapper.is_active(key(KEY_H)));
    assert_eq!(remapper.process_event(up(KEY_H), true), vec![up(KEY_H)]);
    remapper.process_event(down(KEY_CAPS_LOCK), true);
    assert_eq!(remapper.process_event(down(KEY_H), true), vec![event(KEY_NUMPAD4, 2, 0)]);
}

#[test]
fn lost_chord_up_is_corrected_once() {
    let mut remapper = Remapper::new();
    remapper.process_event(down(KEY_CAPS_LOCK), true);
    remapper.process_event(down(KEY_Z), true);
    assert!(remapper.expected_modifier_asserted());
    assert_eq!(remapper.process_event(up(KEY_CAPS_LOCK), true), vec![]);
    assert!(remapper.expected_modifier_asserted());

    let next = down(KEY_A);
    assert!(remapper.wants_modifier_query(&next));
    assert_eq!(
        remapper.process_event(next, false),
        vec![event(KEY_LEFT_CONTROL, 3, 0), next]
    );
    assert!(!remapper.expected_modifier_asserted());

    let after = up(KEY_A);
    assert!(!remapper.wants_modifier_query(&after));
    assert_eq!(remapper.process_event(after, false), vec![after]);
    assert!(!remapper.expected_modifier_asserted());
}

#[test]
fn asserted_modifier_reported_down_is_left_alone() {
    let mut remapper = Remapper::new();
    remapper.process_event(down(KEY_CAPS_LOCK), true);
    remapper.process_event(down(KEY_Z), true);
    remapper.process_event(up(KEY_CAPS_LOCK), true);
    let next = down(KEY_A);
    assert_eq!(remapper.process_event(next, true), vec![next]);
    assert!(remapper.expected_modifier_asserted());
}

#[test]
fn guard_is_not_consulted_for_modifier_events_or_during_hold() {
    let mut remapper = Remapper::new();
    remapper.process_event(down(KEY_CAPS_LOCK), true);
    remapper.process_event(down(KEY_Z), true);
    assert!(remapper.expected_modifier_asserted());
    assert!(!remapper.wants_modifier_query(&down(KEY_A)));
    assert!(!remapper.wants_modifier_query(&up(KEY_CAPS_LOCK)));
    assert_eq!(remapper.process_event(down(KEY_CAPS_LOCK), false), vec![]);
    assert_eq!(remapper.process_event(down(KEY_Z), false), vec![]);
    assert!(remapper.expected_modifier_asserted());
    assert_eq!(remapper.process_event(up(KEY_CAPS_LOCK), false), vec![]);
    assert!(remapper.expected_modifier_asserted());
    assert!(!remapper.wants_modifier_query(&down(KEY_CAPS_LOCK)));
    assert!(remapper.wants_modifier_query(&down(KEY_A)));
}

#[test]
fn combo_used_implies_held_along_a_long_run() {
    let mut remapper = Remapper::new();
    let codes = [KEY_CAPS_LOCK, KEY_H, KEY_Z, KEY_CAPS_LOCK, KEY_A, KEY_SPACE, KEY_CAPS_LOCK, KEY_B];
    let mut seed: u32 = 12345;
    for _ in 0..2000 {
        seed = seed.wrapping_mul(1664525).wrapping_add(1013904223);
        let code = codes[(seed >> 8) as usize % codes.len()];
        let direction = if (seed >> 20) & 1 == 0 { Direction::Press } else { Direction::Release };
        let reported = (seed >> 24) & 1 == 0;
        let batch = remapper.process_event(KeyEvent::plain(key(code), direction, seed), reported);
        assert!(!remapper.combo_used() || remapper.is_held());
        if !remapper.is_held() {
            for c in codes {
                assert!(!remapper.is_active(key(c)));
            }
        }
        for e in &batch {
            assert_ne!(e.key_id.code, KEY_CAPS_LOCK);
        }
    }
}
