use key_overlay::key::Key;
use key_overlay::key_message::KeyMessage;
use key_overlay::msg_hook::{
    handle_raw_input, RawInput, RawKeyboard, RawMouse, MAKE_CODE_PRINT_SCREEN,
    MAKE_CODE_RIGHT_SHIFT, RI_KEY_BREAK, RI_KEY_E0,
};
use key_overlay::transport::Transport;
use key_overlay::virtual_key_codes::{
    VK_A, VK_CONTROL, VK_MENU, VK_RETURN, VK_SHIFT, VK_SNAPSHOT, VK_UP,
};

fn keyboard(virtual_key: u16, make_code: u16, has_e0: bool, key_is_down: bool) -> RawKeyboard {
    RawKeyboard { virtual_key, make_code, has_e0, key_is_down }
}

fn no_buttons() -> RawMouse {
    RawMouse {
        left_button_down: false,
        right_button_down: false,
        middle_button_down: false,
        ext1_button_down: false,
        ext2_button_down: false,
        left_button_up: false,
        right_button_up: false,
        middle_button_up: false,
        ext1_button_up: false,
        ext2_button_up: false,
    }
}

#[test]
fn flags_tell_direction_and_prefix() {
    assert_eq!((RI_KEY_BREAK, RI_KEY_E0), (1, 2));
    assert_eq!(RawKeyboard::from_flags(VK_A, 0x1E, 0), keyboard(VK_A, 0x1E, false, true));
    assert_eq!(RawKeyboard::from_flags(VK_A, 0x1E, 1), keyboard(VK_A, 0x1E, false, false));
    assert_eq!(RawKeyboard::from_flags(VK_UP, 0x48, 2), keyboard(VK_UP, 0x48, true, true));
    assert_eq!(RawKeyboard::from_flags(VK_UP, 0x48, 3), keyboard(VK_UP, 0x48, true, false));
    assert_eq!(RawKeyboard::from_flags(VK_A, 0x1E, 4), keyboard(VK_A, 0x1E, false, true));
    assert_eq!(RawKeyboard::from_flags(VK_A, 0x1E, 0xFFFF), keyboard(VK_A, 0x1E, true, false));
}

#[test]
fn plain_key_goes_by_its_virtual_key() {
    assert_eq!(keyboard(VK_A, 0x1E, false, true).key(), Key::KeyA);
    assert_eq!(keyboard(VK_RETURN, 0x1C, false, true).key(), Key::Enter);
    assert_eq!(keyboard(VK_RETURN, 0x1C, true, true).key(), Key::NumpadEnter);
    assert_eq!(keyboard(VK_CONTROL, 0x1D, false, true).key(), Key::LeftControl);
    assert_eq!(keyboard(VK_CONTROL, 0x1D, true, true).key(), Key::RightControl);
    assert_eq!(keyboard(VK_MENU, 0x38, true, true).key(), Key::RightAlt);
    assert_eq!(keyboard(VK_UP, 0x48, true, false).key(), Key::Up);
}

#[test]
fn shift_keys_go_by_their_scan_code() {
    assert_eq!(MAKE_CODE_RIGHT_SHIFT, 0x36);
    assert_eq!(keyboard(VK_SHIFT, 0x2A, false, true).key(), Key::LeftShift);
    assert_eq!(keyboard(VK_SHIFT, 0x36, false, true).key(), Key::RightShift);
    assert_eq!(keyboard(VK_SHIFT, 0x2A, true, true).key(), Key::LeftShift);
    assert_eq!(keyboard(VK_SHIFT, 0x36, true, true).key(), Key::RightShift);
}

#[test]
fn print_screen_goes_by_its_scan_code() {
    assert_eq!(MAKE_CODE_PRINT_SCREEN, 0x37);
    assert_eq!(keyboard(VK_SNAPSHOT, 0x37, true, true).key(), Key::PrintScreen);
    assert_eq!(keyboard(0xFF, 0x37, true, true).key(), Key::PrintScreen);
    assert_eq!(keyboard(VK_SNAPSHOT, 0x37, false, true).key(), Key::PrintScreen);
    assert_eq!(keyboard(0xFF, 0x37, false, true).key(), Key::Unknown);
    assert_eq!(keyboard(VK_SNAPSHOT, 0x54, true, true).key(), Key::Unknown);
    assert_eq!(keyboard(VK_SHIFT, 0x37, true, true).key(), Key::LeftShift);
}

#[test]
fn keyboard_input_of_a_known_key_gives_one_message() {
    assert_eq!(
        keyboard(VK_A, 0x1E, false, true).key_message(77),
        Some(KeyMessage::new(Key::KeyA, true, 77))
    );
    assert_eq!(
        keyboard(VK_A, 0x1E, false, false).key_message(78),
        Some(KeyMessage::new(Key::KeyA, false, 78))
    );
    assert_eq!(
        RawInput::Keyboard(keyboard(VK_RETURN, 0x1C, true, true)).key_messages(5),
        vec![KeyMessage::new(Key::NumpadEnter, true, 5)]
    );
}

#[test]
fn keyboard_input_of_an_unknown_key_gives_nothing() {
    assert_eq!(keyboard(0x87, 0, false, true).key(), Key::Unknown);
    assert_eq!(keyboard(0x87, 0, false, true).key_message(1), None);
    assert_eq!(keyboard(VK_A, 0x1E, true, true).key_message(1), None);
    assert_eq!(RawInput::Keyboard(keyboard(0, 0, false, true)).key_messages(1), vec![]);
}

#[test]
fn mouse_input_without_buttons_gives_nothing() {
    assert_eq!(no_buttons().key_messages(9), vec![]);
    assert_eq!(RawInput::Mouse(no_buttons()).key_messages(9), vec![]);
}

#[test]
fn mouse_input_gives_one_message_for_each_button() {
    let mouse = RawMouse { left_button_down: true, ..no_buttons() };
    assert_eq!(mouse.key_messages(9), vec![KeyMessage::new(Key::MouseLeft, true, 9)]);
    let mouse = RawMouse { ext2_button_up: true, ..no_buttons() };
    assert_eq!(mouse.key_messages(9), vec![KeyMessage::new(Key::MouseX2, false, 9)]);
}

#[test]
fn mouse_messages_come_presses_first() {
    let mouse = RawMouse {
        left_button_down: true,
        right_button_down: true,
        middle_button_down: true,
        ext1_button_down: true,
        ext2_button_down: true,
        left_button_up: true,
        right_button_up: true,
        middle_button_up: true,
        ext1_button_up: true,
        ext2_button_up: true,
    };
    let keys = [Key::MouseLeft, Key::MouseRight, Key::MouseMiddle, Key::MouseX1, Key::MouseX2];
    let mut expected: Vec<KeyMessage> =
        keys.iter().map(|key| KeyMessage::new(*key, true, 3)).collect();
    expected.extend(keys.iter().map(|key| KeyMessage::new(*key, false, 3)));
    assert_eq!(RawInput::Mouse(mouse).key_messages(3), expected);
    let some = RawMouse { middle_button_up: true, right_button_down: true, ..no_buttons() };
    assert_eq!(
        some.key_messages(4),
        vec![
            KeyMessage::new(Key::MouseRight, true, 4),
            KeyMessage::new(Key::MouseMiddle, false, 4)
        ]
    );
}

#[test]
fn handle_raw_input_sends_what_the_input_gives() {
    let mut transport = Transport::new(8);
    let input = RawInput::Keyboard(keyboard(VK_A, 0x1E, false, true));
    assert_eq!(handle_raw_input(&input, 11, &mut transport), (1, vec![]));
    let input = RawInput::Keyboard(keyboard(0, 0, false, true));
    assert_eq!(handle_raw_input(&input, 12, &mut transport), (0, vec![]));
    let input = RawInput::Mouse(RawMouse {
        left_button_up: true,
        right_button_down: true,
        ..no_buttons()
    });
    assert_eq!(handle_raw_input(&input, 13, &mut transport), (2, vec![]));
    assert_eq!(
        transport.try_drain(),
        vec![
            KeyMessage::new(Key::KeyA, true, 11),
            KeyMessage::new(Key::MouseRight, true, 13),
            KeyMessage::new(Key::MouseLeft, false, 13)
        ]
    );
}

#[test]
fn handle_raw_input_hands_back_what_was_dropped() {
    let mut transport = Transport::new(2);
    transport.send(KeyMessage::new(Key::KeyZ, true, 1));
    transport.send(KeyMessage::new(Key::KeyZ, false, 2));
    let input = RawInput::Mouse(RawMouse {
        left_button_down: true,
        left_button_up: true,
        ext1_button_down: true,
        ..no_buttons()
    });
    let (sent, dropped) = handle_raw_input(&input, 3, &mut transport);
    assert_eq!(sent, 3);
    assert_eq!(
        dropped,
        vec![
            KeyMessage::new(Key::KeyZ, true, 1),
            KeyMessage::new(Key::KeyZ, false, 2),
            KeyMessage::new(Key::MouseLeft, true, 3)
        ]
    );
    assert_eq!(
        transport.try_drain(),
        vec![KeyMessage::new(Key::MouseX1, true, 3), KeyMessage::new(Key::MouseLeft, false, 3)]
    );
}
