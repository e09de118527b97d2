use whydotool::input::{
    click_action, decode_terminal_input, parse_button, parse_keypress, ClickAction, KeyPress, KeyPressError,
    TerminalInput,
};

#[test]
fn keypress_press_and_release() {
    assert_eq!(parse_keypress("30:1"), Ok(KeyPress { keycode: 30, pressed: 1 }));
    assert_eq!(parse_keypress("30:0"), Ok(KeyPress { keycode: 30, pressed: 0 }));
    assert_eq!(parse_keypress("+4294967295:1"), Ok(KeyPress { keycode: u32::MAX, pressed: 1 }));
    assert_eq!(parse_keypress("2:1:extra"), Ok(KeyPress { keycode: 2, pressed: 1 }));
}

#[test]
fn keypress_errors() {
    assert_eq!(parse_keypress(""), Err(KeyPressError::InvalidKeycode));
    assert_eq!(parse_keypress("x:1"), Err(KeyPressError::InvalidKeycode));
    assert_eq!(parse_keypress("4294967296:1"), Err(KeyPressError::InvalidKeycode));
    assert_eq!(parse_keypress("-1:1"), Err(KeyPressError::InvalidKeycode));
    assert_eq!(parse_keypress("+:1"), Err(KeyPressError::InvalidKeycode));
    assert_eq!(parse_keypress("30"), Err(KeyPressError::MissingState));
    assert_eq!(parse_keypress("30:2"), Err(KeyPressError::InvalidState));
    assert_eq!(parse_keypress("30:"), Err(KeyPressError::InvalidState));
    assert_eq!(parse_keypress("30:01"), Err(KeyPressError::InvalidState));
}

#[test]
fn button_arguments() {
    assert_eq!(parse_button("0xC0"), Some(0xC0));
    assert_eq!(parse_button("0Xff"), Some(255));
    assert_eq!(parse_button("192"), Some(192));
    assert_eq!(parse_button("256"), None);
    assert_eq!(parse_button("0x100"), None);
    assert_eq!(parse_button("0x"), None);
    assert_eq!(parse_button("0xg"), None);
    assert_eq!(parse_button(""), None);
    assert_eq!(parse_button("0"), Some(0));
}

#[test]
fn click_bytes() {
    assert_eq!(
        click_action(0xC0),
        ClickAction { button: 0x110, press: true, release: true, pause_after: false }
    );
    assert_eq!(
        click_action(0x41),
        ClickAction { button: 0x111, press: true, release: false, pause_after: false }
    );
    assert_eq!(
        click_action(0x82),
        ClickAction { button: 0x112, press: false, release: true, pause_after: false }
    );
    assert_eq!(
        click_action(0x0F),
        ClickAction { button: 0x11F, press: false, release: false, pause_after: true }
    );
}

#[test]
fn terminal_cursor_keys() {
    assert_eq!(decode_terminal_input(27, 91, 65), TerminalInput::Key(103));
    assert_eq!(decode_terminal_input(27, 91, 66), TerminalInput::Key(108));
    assert_eq!(decode_terminal_input(27, 91, 67), TerminalInput::Key(106));
    assert_eq!(decode_terminal_input(27, 91, 68), TerminalInput::Key(105));
    assert_eq!(decode_terminal_input(27, 91, 70), TerminalInput::Key(107));
    assert_eq!(decode_terminal_input(27, 91, 72), TerminalInput::Key(102));
    assert_eq!(decode_terminal_input(27, 91, 69), TerminalInput::Ignored);
    assert_eq!(decode_terminal_input(27, 91, 76), TerminalInput::Ignored);
}

#[test]
fn terminal_plain_bytes() {
    assert_eq!(decode_terminal_input(b'a', 0, 0), TerminalInput::Char('a'));
    assert_eq!(decode_terminal_input(27, 91, 77), TerminalInput::Char('\u{1b}'));
    assert_eq!(decode_terminal_input(27, 0, 65), TerminalInput::Char('\u{1b}'));
}
