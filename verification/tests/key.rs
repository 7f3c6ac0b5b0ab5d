use key_overlay::key::Key;
use key_overlay::virtual_key_codes;

/// A virtual-key code as Win32 hands it out.
#[allow(non_camel_case_types)]
#[derive(Debug, Clone, Copy, PartialEq, Eq, Default)]
struct VIRTUAL_KEY(pub u16);

// The virtual-key codes of Win32, as its headers give them.
const VK_LBUTTON: VIRTUAL_KEY = VIRTUAL_KEY(1u16);
const VK_RBUTTON: VIRTUAL_KEY = VIRTUAL_KEY(2u16);
const VK_MBUTTON: VIRTUAL_KEY = VIRTUAL_KEY(4u16);
const VK_XBUTTON1: VIRTUAL_KEY = VIRTUAL_KEY(5u16);
const VK_XBUTTON2: VIRTUAL_KEY = VIRTUAL_KEY(6u16);
const VK_BACK: VIRTUAL_KEY = VIRTUAL_KEY(8u16);
const VK_TAB: VIRTUAL_KEY = VIRTUAL_KEY(9u16);
const VK_RETURN: VIRTUAL_KEY = VIRTUAL_KEY(13u16);
const VK_SHIFT: VIRTUAL_KEY = VIRTUAL_KEY(16u16);
const VK_CONTROL: VIRTUAL_KEY = VIRTUAL_KEY(17u16);
const VK_MENU: VIRTUAL_KEY = VIRTUAL_KEY(18u16);
const VK_PAUSE: VIRTUAL_KEY = VIRTUAL_KEY(19u16);
const VK_CAPITAL: VIRTUAL_KEY = VIRTUAL_KEY(20u16);
const VK_ESCAPE: VIRTUAL_KEY = VIRTUAL_KEY(27u16);
const VK_SPACE: VIRTUAL_KEY = VIRTUAL_KEY(32u16);
const VK_PRIOR: VIRTUAL_KEY = VIRTUAL_KEY(33u16);
const VK_NEXT: VIRTUAL_KEY = VIRTUAL_KEY(34u16);
const VK_END: VIRTUAL_KEY = VIRTUAL_KEY(35u16);
const VK_HOME: VIRTUAL_KEY = VIRTUAL_KEY(36u16);
const VK_LEFT: VIRTUAL_KEY = VIRTUAL_KEY(37u16);
const VK_UP: VIRTUAL_KEY = VIRTUAL_KEY(38u16);
const VK_RIGHT: VIRTUAL_KEY = VIRTUAL_KEY(39u16);
const VK_DOWN: VIRTUAL_KEY = VIRTUAL_KEY(40u16);
const VK_SNAPSHOT: VIRTUAL_KEY = VIRTUAL_KEY(44u16);
const VK_INSERT: VIRTUAL_KEY = VIRTUAL_KEY(45u16);
const VK_DELETE: VIRTUAL_KEY = VIRTUAL_KEY(46u16);
const VK_0: VIRTUAL_KEY = VIRTUAL_KEY(48u16);
const VK_1: VIRTUAL_KEY = VIRTUAL_KEY(49u16);
const VK_2: VIRTUAL_KEY = VIRTUAL_KEY(50u16);
const VK_3: VIRTUAL_KEY = VIRTUAL_KEY(51u16);
const VK_4: VIRTUAL_KEY = VIRTUAL_KEY(52u16);
const VK_5: VIRTUAL_KEY = VIRTUAL_KEY(53u16);
const VK_6: VIRTUAL_KEY = VIRTUAL_KEY(54u16);
const VK_7: VIRTUAL_KEY = VIRTUAL_KEY(55u16);
const VK_8: VIRTUAL_KEY = VIRTUAL_KEY(56u16);
const VK_9: VIRTUAL_KEY = VIRTUAL_KEY(57u16);
const VK_A: VIRTUAL_KEY = VIRTUAL_KEY(65u16);
const VK_B: VIRTUAL_KEY = VIRTUAL_KEY(66u16);
const VK_C: VIRTUAL_KEY = VIRTUAL_KEY(67u16);
const VK_D: VIRTUAL_KEY = VIRTUAL_KEY(68u16);
const VK_E: VIRTUAL_KEY = VIRTUAL_KEY(69u16);
const VK_F: VIRTUAL_KEY = VIRTUAL_KEY(70u16);
const VK_G: VIRTUAL_KEY = VIRTUAL_KEY(71u16);
const VK_H: VIRTUAL_KEY = VIRTUAL_KEY(72u16);
const VK_I: VIRTUAL_KEY = VIRTUAL_KEY(73u16);
const VK_J: VIRTUAL_KEY = VIRTUAL_KEY(74u16);
const VK_K: VIRTUAL_KEY = VIRTUAL_KEY(75u16);
const VK_L: VIRTUAL_KEY = VIRTUAL_KEY(76u16);
const VK_M: VIRTUAL_KEY = VIRTUAL_KEY(77u16);
const VK_N: VIRTUAL_KEY = VIRTUAL_KEY(78u16);
const VK_O: VIRTUAL_KEY = VIRTUAL_KEY(79u16);
const VK_P: VIRTUAL_KEY = VIRTUAL_KEY(80u16);
const VK_Q: VIRTUAL_KEY = VIRTUAL_KEY(81u16);
const VK_R: VIRTUAL_KEY = VIRTUAL_KEY(82u16);
const VK_S: VIRTUAL_KEY = VIRTUAL_KEY(83u16);
const VK_T: VIRTUAL_KEY = VIRTUAL_KEY(84u16);
const VK_U: VIRTUAL_KEY = VIRTUAL_KEY(85u16);
const VK_V: VIRTUAL_KEY = VIRTUAL_KEY(86u16);
const VK_W: VIRTUAL_KEY = VIRTUAL_KEY(87u16);
const VK_X: VIRTUAL_KEY = VIRTUAL_KEY(88u16);
const VK_Y: VIRTUAL_KEY = VIRTUAL_KEY(89u16);
const VK_Z: VIRTUAL_KEY = VIRTUAL_KEY(90u16);
const VK_LWIN: VIRTUAL_KEY = VIRTUAL_KEY(91u16);
const VK_RWIN: VIRTUAL_KEY = VIRTUAL_KEY(92u16);
const VK_APPS: VIRTUAL_KEY = VIRTUAL_KEY(93u16);
const VK_NUMPAD0: VIRTUAL_KEY = VIRTUAL_KEY(96u16);
const VK_NUMPAD1: VIRTUAL_KEY = VIRTUAL_KEY(97u16);
const VK_NUMPAD2: VIRTUAL_KEY = VIRTUAL_KEY(98u16);
const VK_NUMPAD3: VIRTUAL_KEY = VIRTUAL_KEY(99u16);
const VK_NUMPAD4: VIRTUAL_KEY = VIRTUAL_KEY(100u16);
const VK_NUMPAD5: VIRTUAL_KEY = VIRTUAL_KEY(101u16);
const VK_NUMPAD6: VIRTUAL_KEY = VIRTUAL_KEY(102u16);
const VK_NUMPAD7: VIRTUAL_KEY = VIRTUAL_KEY(103u16);
const VK_NUMPAD8: VIRTUAL_KEY = VIRTUAL_KEY(104u16);
const VK_NUMPAD9: VIRTUAL_KEY = VIRTUAL_KEY(105u16);
const VK_MULTIPLY: VIRTUAL_KEY = VIRTUAL_KEY(106u16);
const VK_ADD: VIRTUAL_KEY = VIRTUAL_KEY(107u16);
const VK_SEPARATOR: VIRTUAL_KEY = VIRTUAL_KEY(108u16);
const VK_SUBTRACT: VIRTUAL_KEY = VIRTUAL_KEY(109u16);
const VK_DECIMAL: VIRTUAL_KEY = VIRTUAL_KEY(110u16);
const VK_DIVIDE: VIRTUAL_KEY = VIRTUAL_KEY(111u16);
const VK_F1: VIRTUAL_KEY = VIRTUAL_KEY(112u16);
const VK_F2: VIRTUAL_KEY = VIRTUAL_KEY(113u16);
const VK_F3: VIRTUAL_KEY = VIRTUAL_KEY(114u16);
const VK_F4: VIRTUAL_KEY = VIRTUAL_KEY(115u16);
const VK_F5: VIRTUAL_KEY = VIRTUAL_KEY(116u16);
const VK_F6: VIRTUAL_KEY = VIRTUAL_KEY(117u16);
const VK_F7: VIRTUAL_KEY = VIRTUAL_KEY(118u16);
const VK_F8: VIRTUAL_KEY = VIRTUAL_KEY(119u16);
const VK_F9: VIRTUAL_KEY = VIRTUAL_KEY(120u16);
const VK_F10: VIRTUAL_KEY = VIRTUAL_KEY(121u16);
const VK_F11: VIRTUAL_KEY = VIRTUAL_KEY(122u16);
const VK_F12: VIRTUAL_KEY = VIRTUAL_KEY(123u16);
const VK_NUMLOCK: VIRTUAL_KEY = VIRTUAL_KEY(144u16);
const VK_SCROLL: VIRTUAL_KEY = VIRTUAL_KEY(145u16);
const VK_LSHIFT: VIRTUAL_KEY = VIRTUAL_KEY(160u16);
const VK_RSHIFT: VIRTUAL_KEY = VIRTUAL_KEY(161u16);
const VK_LCONTROL: VIRTUAL_KEY = VIRTUAL_KEY(162u16);
const VK_RCONTROL: VIRTUAL_KEY = VIRTUAL_KEY(163u16);
const VK_LMENU: VIRTUAL_KEY = VIRTUAL_KEY(164u16);
const VK_RMENU: VIRTUAL_KEY = VIRTUAL_KEY(165u16);
const VK_OEM_1: VIRTUAL_KEY = VIRTUAL_KEY(186u16);
const VK_OEM_PLUS: VIRTUAL_KEY = VIRTUAL_KEY(187u16);
const VK_OEM_COMMA: VIRTUAL_KEY = VIRTUAL_KEY(188u16);
const VK_OEM_MINUS: VIRTUAL_KEY = VIRTUAL_KEY(189u16);
const VK_OEM_PERIOD: VIRTUAL_KEY = VIRTUAL_KEY(190u16);
const VK_OEM_2: VIRTUAL_KEY = VIRTUAL_KEY(191u16);
const VK_OEM_3: VIRTUAL_KEY = VIRTUAL_KEY(192u16);
const VK_OEM_4: VIRTUAL_KEY = VIRTUAL_KEY(219u16);
const VK_OEM_5: VIRTUAL_KEY = VIRTUAL_KEY(220u16);
const VK_OEM_6: VIRTUAL_KEY = VIRTUAL_KEY(221u16);
const VK_OEM_7: VIRTUAL_KEY = VIRTUAL_KEY(222u16);

fn key_of(virtual_key: VIRTUAL_KEY, is_extend: bool) -> Key {
    Key::from_virtual_key(virtual_key.0, is_extend)
}

/// The table from raw codes to keys, written with the constants of Win32:
/// entry `code + 0x100` is that of `code` with the extended flag.
fn expected_table() -> Vec<Key> {
    let mut lut = vec![Key::Unknown; 0x200];
    lut[VK_ESCAPE.0 as usize] = Key::Escape;
    lut[VK_F1.0 as usize] = Key::F1;
    lut[VK_F2.0 as usize] = Key::F2;
    lut[VK_F3.0 as usize] = Key::F3;
    lut[VK_F4.0 as usize] = Key::F4;
    lut[VK_F5.0 as usize] = Key::F5;
    lut[VK_F6.0 as usize] = Key::F6;
    lut[VK_F7.0 as usize] = Key::F7;
    lut[VK_F8.0 as usize] = Key::F8;
    lut[VK_F9.0 as usize] = Key::F9;
    lut[VK_F10.0 as usize] = Key::F10;
    lut[VK_F11.0 as usize] = Key::F11;
    lut[VK_F12.0 as usize] = Key::F12;
    lut[VK_SNAPSHOT.0 as usize] = Key::PrintScreen;
    lut[VK_SCROLL.0 as usize] = Key::ScrollLock;
    lut[VK_PAUSE.0 as usize] = Key::Pause;
    lut[VK_OEM_3.0 as usize] = Key::BackTick;
    lut[VK_1.0 as usize] = Key::Key1;
    lut[VK_2.0 as usize] = Key::Key2;
    lut[VK_3.0 as usize] = Key::Key3;
    lut[VK_4.0 as usize] = Key::Key4;
    lut[VK_5.0 as usize] = Key::Key5;
    lut[VK_6.0 as usize] = Key::Key6;
    lut[VK_7.0 as usize] = Key::Key7;
    lut[VK_8.0 as usize] = Key::Key8;
    lut[VK_9.0 as usize] = Key::Key9;
    lut[VK_0.0 as usize] = Key::Key0;
    lut[VK_OEM_MINUS.0 as usize] = Key::Minus;
    lut[VK_OEM_PLUS.0 as usize] = Key::Equal;
    lut[VK_BACK.0 as usize] = Key::Backspace;
    lut[VK_INSERT.0 as usize] = Key::Insert;
    lut[VK_DELETE.0 as usize] = Key::Delete;
    lut[VK_HOME.0 as usize] = Key::Home;
    lut[VK_END.0 as usize] = Key::End;
    lut[VK_PRIOR.0 as usize] = Key::PageUp;
    lut[VK_NEXT.0 as usize] = Key::PageDown;
    lut[VK_A.0 as usize] = Key::KeyA;
    lut[VK_B.0 as usize] = Key::KeyB;
    lut[VK_C.0 as usize] = Key::KeyC;
    lut[VK_D.0 as usize] = Key::KeyD;
    lut[VK_E.0 as usize] = Key::KeyE;
    lut[VK_F.0 as usize] = Key::KeyF;
    lut[VK_G.0 as usize] = Key::KeyG;
    lut[VK_H.0 as usize] = Key::KeyH;
    lut[VK_I.0 as usize] = Key::KeyI;
    lut[VK_J.0 as usize] = Key::KeyJ;
    lut[VK_K.0 as usize] = Key::KeyK;
    lut[VK_L.0 as usize] = Key::KeyL;
    lut[VK_M.0 as usize] = Key::KeyM;
    lut[VK_N.0 as usize] = Key::KeyN;
    lut[VK_O.0 as usize] = Key::KeyO;
    lut[VK_P.0 as usize] = Key::KeyP;
    lut[VK_Q.0 as usize] = Key::KeyQ;
    lut[VK_R.0 as usize] = Key::KeyR;
    lut[VK_S.0 as usize] = Key::KeyS;
    lut[VK_T.0 as usize] = Key::KeyT;
    lut[VK_U.0 as usize] = Key::KeyU;
    lut[VK_V.0 as usize] = Key::KeyV;
    lut[VK_W.0 as usize] = Key::KeyW;
    lut[VK_X.0 as usize] = Key::KeyX;
    lut[VK_Y.0 as usize] = Key::KeyY;
    lut[VK_Z.0 as usize] = Key::KeyZ;
    lut[VK_OEM_4.0 as usize] = Key::LeftSquareBracket;
    lut[VK_OEM_6.0 as usize] = Key::RightSquareBracket;
    lut[VK_OEM_5.0 as usize] = Key::BackwardSlash;
    lut[VK_OEM_1.0 as usize] = Key::Semicolon;
    lut[VK_OEM_7.0 as usize] = Key::Apostrophe;
    lut[VK_OEM_COMMA.0 as usize] = Key::Comma;
    lut[VK_OEM_PERIOD.0 as usize] = Key::Period;
    lut[VK_OEM_2.0 as usize] = Key::ForwardSlash;
    lut[VK_RETURN.0 as usize] = Key::Enter;
    lut[VK_RETURN.0 as usize + 0x100] = Key::NumpadEnter;
    lut[VK_CONTROL.0 as usize] = Key::LeftControl;
    lut[VK_CONTROL.0 as usize + 0x100] = Key::RightControl;
    lut[VK_SHIFT.0 as usize] = Key::LeftShift;
    lut[VK_SHIFT.0 as usize + 0x100] = Key::RightShift;
    lut[VK_MENU.0 as usize] = Key::LeftAlt;
    lut[VK_MENU.0 as usize + 0x100] = Key::RightAlt;
    lut[VK_LCONTROL.0 as usize] = Key::LeftControl;
    lut[VK_RCONTROL.0 as usize] = Key::RightControl;
    lut[VK_LSHIFT.0 as usize] = Key::LeftShift;
    lut[VK_RSHIFT.0 as usize] = Key::RightShift;
    lut[VK_LMENU.0 as usize] = Key::LeftAlt;
    lut[VK_RMENU.0 as usize] = Key::RightAlt;
    lut[VK_SPACE.0 as usize] = Key::Space;
    lut[VK_LWIN.0 as usize] = Key::LeftWin;
    lut[VK_RWIN.0 as usize] = Key::RightWin;
    lut[VK_APPS.0 as usize] = Key::Apps;
    lut[VK_TAB.0 as usize] = Key::Tab;
    lut[VK_CAPITAL.0 as usize] = Key::CapsLock;
    lut[VK_UP.0 as usize] = Key::Up;
    lut[VK_UP.0 as usize + 0x100] = Key::Up;
    lut[VK_DOWN.0 as usize] = Key::Down;
    lut[VK_DOWN.0 as usize + 0x100] = Key::Down;
    lut[VK_LEFT.0 as usize] = Key::Left;
    lut[VK_LEFT.0 as usize + 0x100] = Key::Left;
    lut[VK_RIGHT.0 as usize] = Key::Right;
    lut[VK_RIGHT.0 as usize + 0x100] = Key::Right;
    lut[VK_NUMLOCK.0 as usize] = Key::NumLock;
    lut[VK_NUMPAD1.0 as usize] = Key::Numpad1;
    lut[VK_NUMPAD2.0 as usize] = Key::Numpad2;
    lut[VK_NUMPAD3.0 as usize] = Key::Numpad3;
    lut[VK_NUMPAD4.0 as usize] = Key::Numpad4;
    lut[VK_NUMPAD5.0 as usize] = Key::Numpad5;
    lut[VK_NUMPAD6.0 as usize] = Key::Numpad6;
    lut[VK_NUMPAD7.0 as usize] = Key::Numpad7;
    lut[VK_NUMPAD8.0 as usize] = Key::Numpad8;
    lut[VK_NUMPAD9.0 as usize] = Key::Numpad9;
    lut[VK_NUMPAD0.0 as usize] = Key::Numpad0;
    lut[VK_ADD.0 as usize] = Key::NumpadPlus;
    lut[VK_SUBTRACT.0 as usize] = Key::NumpadMinus;
    lut[VK_MULTIPLY.0 as usize] = Key::NumpadMultiply;
    lut[VK_DIVIDE.0 as usize] = Key::NumpadDivide;
    lut[VK_SEPARATOR.0 as usize] = Key::NumpadSeparator;
    lut[VK_DECIMAL.0 as usize] = Key::NumpadDot;
    lut[VK_LBUTTON.0 as usize] = Key::MouseLeft;
    lut[VK_RBUTTON.0 as usize] = Key::MouseRight;
    lut[VK_MBUTTON.0 as usize] = Key::MouseMiddle;
    lut[VK_XBUTTON1.0 as usize] = Key::MouseX1;
    lut[VK_XBUTTON2.0 as usize] = Key::MouseX2;
    lut
}

fn expected_virtual_key(key: Key) -> VIRTUAL_KEY {
    match key {
        Key::Escape => VK_ESCAPE,
        Key::F1 => VK_F1,
        Key::F2 => VK_F2,
        Key::F3 => VK_F3,
        Key::F4 => VK_F4,
        Key::F5 => VK_F5,
        Key::F6 => VK_F6,
        Key::F7 => VK_F7,
        Key::F8 => VK_F8,
        Key::F9 => VK_F9,
        Key::F10 => VK_F10,
        Key::F11 => VK_F11,
        Key::F12 => VK_F12,
        Key::PrintScreen => VK_SNAPSHOT,
        Key::ScrollLock => VK_SCROLL,
        Key::Pause => VK_PAUSE,
        Key::BackTick => VK_OEM_3,
        Key::Key1 => VK_1,
        Key::Key2 => VK_2,
        Key::Key3 => VK_3,
        Key::Key4 => VK_4,
        Key::Key5 => VK_5,
        Key::Key6 => VK_6,
        Key::Key7 => VK_7,
        Key::Key8 => VK_8,
        Key::Key9 => VK_9,
        Key::Key0 => VK_0,
        Key::Minus => VK_OEM_MINUS,
        Key::Equal => VK_OEM_PLUS,
        Key::Backspace => VK_BACK,
        Key::Insert => VK_INSERT,
        Key::Delete => VK_DELETE,
        Key::Home => VK_HOME,
        Key::End => VK_END,
        Key::PageUp => VK_PRIOR,
        Key::PageDown => VK_NEXT,
        Key::KeyA => VK_A,
        Key::KeyB => VK_B,
        Key::KeyC => VK_C,
        Key::KeyD => VK_D,
        Key::KeyE => VK_E,
        Key::KeyF => VK_F,
        Key::KeyG => VK_G,
        Key::KeyH => VK_H,
        Key::KeyI => VK_I,
        Key::KeyJ => VK_J,
        Key::KeyK => VK_K,
        Key::KeyL => VK_L,
        Key::KeyM => VK_M,
        Key::KeyN => VK_N,
        Key::KeyO => VK_O,
        Key::KeyP => VK_P,
        Key::KeyQ => VK_Q,
        Key::KeyR => VK_R,
        Key::KeyS => VK_S,
        Key::KeyT => VK_T,
        Key::KeyU => VK_U,
        Key::KeyV => VK_V,
        Key::KeyW => VK_W,
        Key::KeyX => VK_X,
        Key::KeyY => VK_Y,
        Key::KeyZ => VK_Z,
        Key::LeftSquareBracket => VK_OEM_4,
        Key::RightSquareBracket => VK_OEM_6,
        Key::BackwardSlash => VK_OEM_5,
        Key::Semicolon => VK_OEM_1,
        Key::Apostrophe => VK_OEM_7,
        Key::Comma => VK_OEM_COMMA,
        Key::Period => VK_OEM_PERIOD,
        Key::ForwardSlash => VK_OEM_2,
        Key::Enter => VK_RETURN,
        Key::Space => VK_SPACE,
        Key::LeftControl => VK_LCONTROL,
        Key::RightControl => VK_RCONTROL,
        Key::LeftShift => VK_LSHIFT,
        Key::RightShift => VK_RSHIFT,
        Key::LeftAlt => VK_LMENU,
        Key::RightAlt => VK_RMENU,
        Key::LeftWin => VK_LWIN,
        Key::RightWin => VK_RWIN,
        Key::Apps => VK_APPS,
        Key::Tab => VK_TAB,
        Key::CapsLock => VK_CAPITAL,
        Key::Up => VK_UP,
        Key::Down => VK_DOWN,
        Key::Left => VK_LEFT,
        Key::Right => VK_RIGHT,
        Key::NumLock => VK_NUMLOCK,
        Key::Numpad1 => VK_NUMPAD1,
        Key::Numpad2 => VK_NUMPAD2,
        Key::Numpad3 => VK_NUMPAD3,
        Key::Numpad4 => VK_NUMPAD4,
        Key::Numpad5 => VK_NUMPAD5,
        Key::Numpad6 => VK_NUMPAD6,
        Key::Numpad7 => VK_NUMPAD7,
        Key::Numpad8 => VK_NUMPAD8,
        Key::Numpad9 => VK_NUMPAD9,
        Key::Numpad0 => VK_NUMPAD0,
        Key::NumpadPlus => VK_ADD,
        Key::NumpadMinus => VK_SUBTRACT,
        Key::NumpadMultiply => VK_MULTIPLY,
        Key::NumpadDivide => VK_DIVIDE,
        Key::NumpadSeparator => VK_SEPARATOR,
        Key::NumpadDot => VK_DECIMAL,
        Key::NumpadEnter => VK_RETURN,
        Key::MouseLeft => VK_LBUTTON,
        Key::MouseRight => VK_RBUTTON,
        Key::MouseMiddle => VK_MBUTTON,
        Key::MouseX1 => VK_XBUTTON1,
        Key::MouseX2 => VK_XBUTTON2,
        Key::Unknown => VIRTUAL_KEY::default(),
    }
}

#[test]
fn t1() {
    let vec: Vec<_> = Key::iter()
        .into_iter()
        .map(|x| {
            let k = VIRTUAL_KEY(x.to_virtual_key());
            println!("{:?}", k);
            k
        })
        .collect();
    vec.into_iter()
        .for_each(|vk| println!("{}", Key::from_virtual_key(vk.0, false).to_string()));
}

#[test]
fn t2() {
    let expected = [
        Key::Enter,
        Key::NumpadEnter,
        Key::LeftControl,
        Key::RightControl,
        Key::LeftShift,
        Key::RightShift,
        Key::LeftAlt,
        Key::RightAlt,
    ];
    [
        (VK_RETURN, false),
        (VK_RETURN, true),
        (VK_CONTROL, false),
        (VK_CONTROL, true),
        (VK_SHIFT, false),
        (VK_SHIFT, true),
        (VK_MENU, false),
        (VK_MENU, true),
    ]
    .into_iter()
    .zip(expected)
    .for_each(|((vk, is_extend), expected)| {
        let k = Key::from_virtual_key(vk.0, is_extend);
        println!("{:?}", k);
        assert_eq!(k, expected);
    });
}

#[test]
fn virtual_key_codes_are_those_of_win32() {
    assert_eq!(virtual_key_codes::VK_LBUTTON, VK_LBUTTON.0);
    assert_eq!(virtual_key_codes::VK_RBUTTON, VK_RBUTTON.0);
    assert_eq!(virtual_key_codes::VK_MBUTTON, VK_MBUTTON.0);
    assert_eq!(virtual_key_codes::VK_XBUTTON1, VK_XBUTTON1.0);
    assert_eq!(virtual_key_codes::VK_XBUTTON2, VK_XBUTTON2.0);
    assert_eq!(virtual_key_codes::VK_BACK, VK_BACK.0);
    assert_eq!(virtual_key_codes::VK_TAB, VK_TAB.0);
    assert_eq!(virtual_key_codes::VK_RETURN, VK_RETURN.0);
    assert_eq!(virtual_key_codes::VK_SHIFT, VK_SHIFT.0);
    assert_eq!(virtual_key_codes::VK_CONTROL, VK_CONTROL.0);
    assert_eq!(virtual_key_codes::VK_MENU, VK_MENU.0);
    assert_eq!(virtual_key_codes::VK_PAUSE, VK_PAUSE.0);
    assert_eq!(virtual_key_codes::VK_CAPITAL, VK_CAPITAL.0);
    assert_eq!(virtual_key_codes::VK_ESCAPE, VK_ESCAPE.0);
    assert_eq!(virtual_key_codes::VK_SPACE, VK_SPACE.0);
    assert_eq!(virtual_key_codes::VK_PRIOR, VK_PRIOR.0);
    assert_eq!(virtual_key_codes::VK_NEXT, VK_NEXT.0);
    assert_eq!(virtual_key_codes::VK_END, VK_END.0);
    assert_eq!(virtual_key_codes::VK_HOME, VK_HOME.0);
    assert_eq!(virtual_key_codes::VK_LEFT, VK_LEFT.0);
    assert_eq!(virtual_key_codes::VK_UP, VK_UP.0);
    assert_eq!(virtual_key_codes::VK_RIGHT, VK_RIGHT.0);
    assert_eq!(virtual_key_codes::VK_DOWN, VK_DOWN.0);
    assert_eq!(virtual_key_codes::VK_SNAPSHOT, VK_SNAPSHOT.0);
    assert_eq!(virtual_key_codes::VK_INSERT, VK_INSERT.0);
    assert_eq!(virtual_key_codes::VK_DELETE, VK_DELETE.0);
    assert_eq!(virtual_key_codes::VK_0, VK_0.0);
    assert_eq!(virtual_key_codes::VK_1, VK_1.0);
    assert_eq!(virtual_key_codes::VK_2, VK_2.0);
    assert_eq!(virtual_key_codes::VK_3, VK_3.0);
    assert_eq!(virtual_key_codes::VK_4, VK_4.0);
    assert_eq!(virtual_key_codes::VK_5, VK_5.0);
    assert_eq!(virtual_key_codes::VK_6, VK_6.0);
    assert_eq!(virtual_key_codes::VK_7, VK_7.0);
    assert_eq!(virtual_key_codes::VK_8, VK_8.0);
    assert_eq!(virtual_key_codes::VK_9, VK_9.0);
    assert_eq!(virtual_key_codes::VK_A, VK_A.0);
    assert_eq!(virtual_key_codes::VK_B, VK_B.0);
    assert_eq!(virtual_key_codes::VK_C, VK_C.0);
    assert_eq!(virtual_key_codes::VK_D, VK_D.0);
    assert_eq!(virtual_key_codes::VK_E, VK_E.0);
    assert_eq!(virtual_key_codes::VK_F, VK_F.0);
    assert_eq!(virtual_key_codes::VK_G, VK_G.0);
    assert_eq!(virtual_key_codes::VK_H, VK_H.0);
    assert_eq!(virtual_key_codes::VK_I, VK_I.0);
    assert_eq!(virtual_key_codes::VK_J, VK_J.0);
    assert_eq!(virtual_key_codes::VK_K, VK_K.0);
    assert_eq!(virtual_key_codes::VK_L, VK_L.0);
    assert_eq!(virtual_key_codes::VK_M, VK_M.0);
    assert_eq!(virtual_key_codes::VK_N, VK_N.0);
    assert_eq!(virtual_key_codes::VK_O, VK_O.0);
    assert_eq!(virtual_key_codes::VK_P, VK_P.0);
    assert_eq!(virtual_key_codes::VK_Q, VK_Q.0);
    assert_eq!(virtual_key_codes::VK_R, VK_R.0);
    assert_eq!(virtual_key_codes::VK_S, VK_S.0);
    assert_eq!(virtual_key_codes::VK_T, VK_T.0);
    assert_eq!(virtual_key_codes::VK_U, VK_U.0);
    assert_eq!(virtual_key_codes::VK_V, VK_V.0);
    assert_eq!(virtual_key_codes::VK_W, VK_W.0);
    assert_eq!(virtual_key_codes::VK_X, VK_X.0);
    assert_eq!(virtual_key_codes::VK_Y, VK_Y.0);
    assert_eq!(virtual_key_codes::VK_Z, VK_Z.0);
    assert_eq!(virtual_key_codes::VK_LWIN, VK_LWIN.0);
    assert_eq!(virtual_key_codes::VK_RWIN, VK_RWIN.0);
    assert_eq!(virtual_key_codes::VK_APPS, VK_APPS.0);
    assert_eq!(virtual_key_codes::VK_NUMPAD0, VK_NUMPAD0.0);
    assert_eq!(virtual_key_codes::VK_NUMPAD1, VK_NUMPAD1.0);
    assert_eq!(virtual_key_codes::VK_NUMPAD2, VK_NUMPAD2.0);
    assert_eq!(virtual_key_codes::VK_NUMPAD3, VK_NUMPAD3.0);
    assert_eq!(virtual_key_codes::VK_NUMPAD4, VK_NUMPAD4.0);
    assert_eq!(virtual_key_codes::VK_NUMPAD5, VK_NUMPAD5.0);
    assert_eq!(virtual_key_codes::VK_NUMPAD6, VK_NUMPAD6.0);
    assert_eq!(virtual_key_codes::VK_NUMPAD7, VK_NUMPAD7.0);
    assert_eq!(virtual_key_codes::VK_NUMPAD8, VK_NUMPAD8.0);
    assert_eq!(virtual_key_codes::VK_NUMPAD9, VK_NUMPAD9.0);
    assert_eq!(virtual_key_codes::VK_MULTIPLY, VK_MULTIPLY.0);
    assert_eq!(virtual_key_codes::VK_ADD, VK_ADD.0);
    assert_eq!(virtual_key_codes::VK_SEPARATOR, VK_SEPARATOR.0);
    assert_eq!(virtual_key_codes::VK_SUBTRACT, VK_SUBTRACT.0);
    assert_eq!(virtual_key_codes::VK_DECIMAL, VK_DECIMAL.0);
    assert_eq!(virtual_key_codes::VK_DIVIDE, VK_DIVIDE.0);
    assert_eq!(virtual_key_codes::VK_F1, VK_F1.0);
    assert_eq!(virtual_key_codes::VK_F2, VK_F2.0);
    assert_eq!(virtual_key_codes::VK_F3, VK_F3.0);
    assert_eq!(virtual_key_codes::VK_F4, VK_F4.0);
    assert_eq!(virtual_key_codes::VK_F5, VK_F5.0);
    assert_eq!(virtual_key_codes::VK_F6, VK_F6.0);
    assert_eq!(virtual_key_codes::VK_F7, VK_F7.0);
    assert_eq!(virtual_key_codes::VK_F8, VK_F8.0);
    assert_eq!(virtual_key_codes::VK_F9, VK_F9.0);
    assert_eq!(virtual_key_codes::VK_F10, VK_F10.0);
    assert_eq!(virtual_key_codes::VK_F11, VK_F11.0);
    assert_eq!(virtual_key_codes::VK_F12, VK_F12.0);
    assert_eq!(virtual_key_codes::VK_NUMLOCK, VK_NUMLOCK.0);
    assert_eq!(virtual_key_codes::VK_SCROLL, VK_SCROLL.0);
    assert_eq!(virtual_key_codes::VK_LSHIFT, VK_LSHIFT.0);
    assert_eq!(virtual_key_codes::VK_RSHIFT, VK_RSHIFT.0);
    assert_eq!(virtual_key_codes::VK_LCONTROL, VK_LCONTROL.0);
    assert_eq!(virtual_key_codes::VK_RCONTROL, VK_RCONTROL.0);
    assert_eq!(virtual_key_codes::VK_LMENU, VK_LMENU.0);
    assert_eq!(virtual_key_codes::VK_RMENU, VK_RMENU.0);
    assert_eq!(virtual_key_codes::VK_OEM_1, VK_OEM_1.0);
    assert_eq!(virtual_key_codes::VK_OEM_PLUS, VK_OEM_PLUS.0);
    assert_eq!(virtual_key_codes::VK_OEM_COMMA, VK_OEM_COMMA.0);
    assert_eq!(virtual_key_codes::VK_OEM_MINUS, VK_OEM_MINUS.0);
    assert_eq!(virtual_key_codes::VK_OEM_PERIOD, VK_OEM_PERIOD.0);
    assert_eq!(virtual_key_codes::VK_OEM_2, VK_OEM_2.0);
    assert_eq!(virtual_key_codes::VK_OEM_3, VK_OEM_3.0);
    assert_eq!(virtual_key_codes::VK_OEM_4, VK_OEM_4.0);
    assert_eq!(virtual_key_codes::VK_OEM_5, VK_OEM_5.0);
    assert_eq!(virtual_key_codes::VK_OEM_6, VK_OEM_6.0);
    assert_eq!(virtual_key_codes::VK_OEM_7, VK_OEM_7.0);
}

#[test]
fn from_virtual_key_follows_the_table() {
    let table = expected_table();
    for code in 0u16..0x100 {
        assert_eq!(Key::from_virtual_key(code, false), table[code as usize], "code {code:#x}");
        assert_eq!(
            Key::from_virtual_key(code, true),
            table[code as usize + 0x100],
            "extended code {code:#x}"
        );
    }
}

#[test]
fn from_virtual_key_knows_no_code_above_one_byte() {
    for code in [0x100u16, 0x101, 0x10D, 0x1FF, 0x200, 0x4141, u16::MAX] {
        assert_eq!(Key::from_virtual_key(code, false), Key::Unknown);
        assert_eq!(Key::from_virtual_key(code, true), Key::Unknown);
    }
    assert_eq!(Key::from_virtual_key(0, false), Key::Unknown);
    assert_eq!(Key::from_virtual_key(0, true), Key::Unknown);
}

#[test]
fn extended_flag_picks_the_twin() {
    assert_eq!(key_of(VK_RETURN, true), Key::NumpadEnter);
    assert_eq!(key_of(VK_UP, true), Key::Up);
    assert_eq!(key_of(VK_UP, false), Key::Up);
    assert_eq!(key_of(VK_LEFT, true), Key::Left);
    assert_eq!(key_of(VK_A, false), Key::KeyA);
    assert_eq!(key_of(VK_A, true), Key::Unknown);
    assert_eq!(key_of(VK_INSERT, true), Key::Unknown);
    assert_eq!(key_of(VK_LBUTTON, false), Key::MouseLeft);
}

#[test]
fn to_virtual_key_gives_the_code_of_each_key() {
    for key in Key::iter() {
        assert_eq!(key.to_virtual_key(), expected_virtual_key(key).0, "{key:?}");
    }
    assert_eq!(Key::Unknown.to_virtual_key(), 0);
    assert_eq!(Key::Escape.to_virtual_key(), 0x1B);
    assert_eq!(Key::NumpadEnter.to_virtual_key(), 0x0D);
    assert_eq!(Key::LeftShift.to_virtual_key(), 0xA0);
}

#[test]
fn virtual_key_leads_back_to_the_key() {
    for key in Key::iter() {
        if key == Key::Unknown {
            continue;
        }
        let is_extend = key == Key::NumpadEnter;
        assert_eq!(Key::from_virtual_key(key.to_virtual_key(), is_extend), key);
    }
    assert_eq!(Key::from_virtual_key(Key::NumpadEnter.to_virtual_key(), false), Key::Enter);
}

#[test]
fn iter_lists_every_key_once_in_order() {
    let keys = Key::iter();
    assert_eq!(keys.len(), 111);
    assert_eq!(keys.len(), Key::COUNT);
    assert_eq!(keys[0], Key::Escape);
    assert_eq!(keys[36], Key::KeyA);
    assert_eq!(keys[105], Key::MouseLeft);
    assert_eq!(keys[110], Key::Unknown);
    assert_eq!(*keys.last().unwrap(), Key::LAST_KEY);
    for (index, key) in keys.iter().enumerate() {
        assert_eq!(key.index(), index);
        assert_eq!(Key::from_index(index), *key);
    }
}

#[test]
fn from_index_past_the_end_is_unknown() {
    assert_eq!(Key::from_index(110), Key::Unknown);
    assert_eq!(Key::from_index(111), Key::Unknown);
    assert_eq!(Key::from_index(usize::MAX), Key::Unknown);
    assert_eq!(Key::from_index(109), Key::MouseX2);
}

#[test]
fn to_string_is_the_name_of_the_variant() {
    for key in Key::iter() {
        assert_eq!(key.to_string(), format!("{:?}", key));
    }
    assert_eq!(Key::Escape.to_string(), "Escape");
    assert_eq!(Key::KeyA.to_string(), "KeyA");
    assert_eq!(Key::LeftSquareBracket.to_string(), "LeftSquareBracket");
    assert_eq!(Key::Unknown.to_string(), "Unknown");
}

#[test]
fn default_key_is_unknown() {
    assert_eq!(Key::default(), Key::Unknown);
    assert_eq!(Key::LAST_KEY, Key::Unknown);
}
