use whydotool::backend::{KeyboardMessage, VirtualKeyboard};
use whydotool::keyboard::{KeyDirection, KeyEntry, KeyEvent, KeyTable, ModifierSnapshot, SHIFT_KEY};

fn entry(plain: char, shifted: char) -> KeyEntry {
    KeyEntry { plain: Some(plain), shifted: Some(shifted) }
}

/// A small US layout, indexed by 0-based key code.
fn us_entries() -> Vec<KeyEntry> {
    let mut t = vec![KeyEntry { plain: None, shifted: None }; 248];
    let digits = "1234567890";
    let shifted_digits = "!@#$%^&*()";
    for (i, (p, s)) in digits.chars().zip(shifted_digits.chars()).enumerate() {
        t[2 + i] = entry(p, s);
    }
    for (start, row) in [(16, "qwertyuiop"), (30, "asdfghjkl"), (44, "zxcvbnm")] {
        for (i, c) in row.chars().enumerate() {
            t[start + i] = entry(c, c.to_ascii_uppercase());
        }
    }
    t[57] = entry(' ', ' ');
    // keypad digits, above the main row
    t[79] = KeyEntry { plain: Some('1'), shifted: None };
    t
}

fn us_table() -> KeyTable {
    KeyTable::from_table(us_entries()).unwrap()
}

fn snapshot(depressed: u32, latched: u32, locked: u32, group: u32) -> ModifierSnapshot {
    ModifierSnapshot { depressed, latched, locked, group }
}

#[test]
fn table_of_wrong_size_is_refused() {
    assert!(KeyTable::from_table(vec![]).is_none());
    let mut t = us_entries();
    t.push(entry('x', 'X'));
    assert!(KeyTable::from_table(t).is_none());
}

#[test]
fn uppercase_needs_shift_on_the_letter_key() {
    let t = us_table();
    assert_eq!(t.reverse_lookup('A'), Some((30, true)));
    assert_eq!(t.reverse_lookup('a'), Some((30, false)));
}

#[test]
fn lookup_prefers_the_lowest_code() {
    let t = us_table();
    assert_eq!(t.reverse_lookup('1'), Some((2, false)));
    assert_eq!(t.reverse_lookup('!'), Some((2, true)));
}

#[test]
fn unmapped_character_has_no_key() {
    let t = us_table();
    assert_eq!(t.reverse_lookup('é'), None);
    assert_eq!(t.key_events_for_char('é'), vec![]);
}

#[test]
fn every_key_types_back_to_itself() {
    let t = us_table();
    for (k, e) in us_entries().iter().enumerate() {
        if let Some(c) = e.plain {
            let found = t.reverse_lookup(c).unwrap();
            assert!(found.0 as usize <= k);
            if found.0 as usize == k {
                assert_eq!(found, (k as u32, false));
            }
        }
    }
    assert_eq!(t.reverse_lookup('q'), Some((16, false)));
}

#[test]
fn events_for_shifted_character() {
    let t = us_table();
    let down = KeyDirection::Down;
    let up = KeyDirection::Up;
    assert_eq!(
        t.key_events_for_char('A'),
        vec![
            KeyEvent { code: SHIFT_KEY, direction: down },
            KeyEvent { code: 30, direction: down },
            KeyEvent { code: 30, direction: up },
            KeyEvent { code: SHIFT_KEY, direction: up },
        ]
    );
    assert_eq!(
        t.key_events_for_char('a'),
        vec![KeyEvent { code: 30, direction: down }, KeyEvent { code: 30, direction: up }]
    );
}

#[test]
fn state_update_adds_the_offset_once() {
    let vk = VirtualKeyboard::from_wayland(us_table());
    assert_eq!(vk.state_update(30, 1), Some((38, KeyDirection::Down)));
    assert_eq!(vk.state_update(30, 0), Some((38, KeyDirection::Up)));
    assert_eq!(vk.state_update(30, 7), Some((38, KeyDirection::Up)));
    assert_eq!(vk.state_update(u32::MAX - 8, 1), Some((u32::MAX, KeyDirection::Down)));
    assert_eq!(vk.state_update(u32::MAX - 7, 1), None);
}

#[test]
fn native_keyboard_forwards_code_and_modifiers() {
    let vk = VirtualKeyboard::from_wayland(us_table());
    assert_eq!(
        vk.key(42, 1, snapshot(1, 0, 0, 0)),
        KeyboardMessage::Native { key: 42, state: 1, modifiers: snapshot(1, 0, 0, 0) }
    );
    assert_eq!(
        vk.key(58, 0, snapshot(0, 4, 2, 1)),
        KeyboardMessage::Native { key: 58, state: 0, modifiers: snapshot(0, 4, 2, 1) }
    );
}

#[test]
fn portal_keyboard_sends_the_zero_based_code() {
    let vk = VirtualKeyboard::from_portal(us_table());
    assert_eq!(vk.key(30, 1, snapshot(1, 0, 0, 0)), KeyboardMessage::Portal { keycode: 30, state: 1 });
    assert_eq!(vk.key(30, 7, snapshot(0, 0, 0, 0)), KeyboardMessage::Portal { keycode: 30, state: 0 });
    assert_eq!(vk.keycode_from_char('S'), Some((31, true)));
}

#[test]
fn same_lookup_on_both_backends() {
    let native = VirtualKeyboard::from_wayland(us_table());
    let portal = VirtualKeyboard::from_portal(us_table());
    for c in "Hello, World!".chars() {
        assert_eq!(native.keycode_from_char(c), portal.keycode_from_char(c));
    }
}
