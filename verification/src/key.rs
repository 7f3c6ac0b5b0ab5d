use vstd::prelude::*;
use crate::virtual_key_codes::{
    VK_0, VK_1, VK_2, VK_3, VK_4, VK_5, VK_6, VK_7, VK_8, VK_9, VK_A, VK_ADD, VK_APPS, VK_B,
    VK_BACK, VK_C, VK_CAPITAL, VK_CONTROL, VK_D, VK_DECIMAL, VK_DELETE, VK_DIVIDE, VK_DOWN,
    VK_E, VK_END, VK_ESCAPE, VK_F, VK_F1, VK_F10, VK_F11, VK_F12, VK_F2, VK_F3, VK_F4, VK_F5,
    VK_F6, VK_F7, VK_F8, VK_F9, VK_G, VK_H, VK_HOME, VK_I, VK_INSERT, VK_J, VK_K, VK_L,
    VK_LBUTTON, VK_LCONTROL, VK_LEFT, VK_LMENU, VK_LSHIFT, VK_LWIN, VK_M, VK_MBUTTON, VK_MENU,
    VK_MULTIPLY, VK_N, VK_NEXT, VK_NUMLOCK, VK_NUMPAD0, VK_NUMPAD1, VK_NUMPAD2, VK_NUMPAD3,
    VK_NUMPAD4, VK_NUMPAD5, VK_NUMPAD6, VK_NUMPAD7, VK_NUMPAD8, VK_NUMPAD9, VK_O, VK_OEM_1,
    VK_OEM_2, VK_OEM_3, VK_OEM_4, VK_OEM_5, VK_OEM_6, VK_OEM_7, VK_OEM_COMMA, VK_OEM_MINUS,
    VK_OEM_PERIOD, VK_OEM_PLUS, VK_P, VK_PAUSE, VK_PRIOR, VK_Q, VK_R, VK_RBUTTON, VK_RCONTROL,
    VK_RETURN, VK_RIGHT, VK_RMENU, VK_RSHIFT, VK_RWIN, VK_S, VK_SCROLL, VK_SEPARATOR, VK_SHIFT,
    VK_SNAPSHOT, VK_SPACE, VK_SUBTRACT, VK_T, VK_TAB, VK_U, VK_UP, VK_V, VK_W, VK_X,
    VK_XBUTTON1, VK_XBUTTON2, VK_Y, VK_Z,
};

verus! {

/// A physical key or mouse button. `Unknown` stands for every raw code that
/// is none of the others.
///
/// [see also](https://docs.microsoft.com/en-us/windows/win32/inputdev/virtual-key-codes)
#[derive(Clone, Copy, PartialEq, Eq, Hash, Debug, Structural)]
pub enum Key {
    Escape,
    F1,
    F2,
    F3,
    F4,
    F5,
    F6,
    F7,
    F8,
    F9,
    F10,
    F11,
    F12,
    PrintScreen,
    ScrollLock,
    Pause,
    /// ``` `~ ``` key
    BackTick,
    Key1,
    Key2,
    Key3,
    Key4,
    Key5,
    Key6,
    Key7,
    Key8,
    Key9,
    Key0,
    /// `-_` key
    Minus,
    /// `=+` key
    Equal,
    Backspace,
    Insert,
    Delete,
    Home,
    End,
    PageUp,
    PageDown,
    KeyA,
    KeyB,
    KeyC,
    KeyD,
    KeyE,
    KeyF,
    KeyG,
    KeyH,
    KeyI,
    KeyJ,
    KeyK,
    KeyL,
    KeyM,
    KeyN,
    KeyO,
    KeyP,
    KeyQ,
    KeyR,
    KeyS,
    KeyT,
    KeyU,
    KeyV,
    KeyW,
    KeyX,
    KeyY,
    KeyZ,
    /// `[{` key
    LeftSquareBracket,
    /// `]}` key
    RightSquareBracket,
    /// `\|` key
    BackwardSlash,
    /// `;:` key
    Semicolon,
    /// `'"` key
    Apostrophe,
    /// `,<` key
    Comma,
    /// `.>` key
    Period,
    /// `/?` key
    ForwardSlash,
    Enter,
    Space,
    LeftControl,
    RightControl,
    LeftShift,
    RightShift,
    LeftAlt,
    RightAlt,
    LeftWin,
    RightWin,
    Apps,
    Tab,
    CapsLock,
    /// up arrow key
    Up,
    /// down arrow key
    Down,
    /// left arrow key
    Left,
    /// right arrow key
    Right,
    NumLock,
    Numpad1,
    Numpad2,
    Numpad3,
    Numpad4,
    Numpad5,
    Numpad6,
    Numpad7,
    Numpad8,
    Numpad9,
    Numpad0,
    NumpadPlus,
    NumpadMinus,
    NumpadMultiply,
    NumpadDivide,
    NumpadSeparator,
    NumpadDot,
    NumpadEnter,
    // Mouse extend
    MouseLeft,
    MouseRight,
    MouseMiddle,
    MouseX1,
    MouseX2,
    Unknown,
}

impl Default for Key {
    fn default() -> (key: Self)
        ensures
            key == Key::Unknown,
    {
        Key::Unknown
    }
}

impl Key {
    pub const LAST_KEY: Key = Key::Unknown;

    /// The number of keys, `Unknown` among them.
    pub const COUNT: usize = 111;

    /// The place of the key in the order in which the keys are declared,
    /// counted from zero.
    pub open spec fn spec_index(self) -> nat {
        match self {
            Key::Escape => 0,
            Key::F1 => 1,
            Key::F2 => 2,
            Key::F3 => 3,
            Key::F4 => 4,
            Key::F5 => 5,
            Key::F6 => 6,
            Key::F7 => 7,
            Key::F8 => 8,
            Key::F9 => 9,
            Key::F10 => 10,
            Key::F11 => 11,
            Key::F12 => 12,
            Key::PrintScreen => 13,
            Key::ScrollLock => 14,
            Key::Pause => 15,
            Key::BackTick => 16,
            Key::Key1 => 17,
            Key::Key2 => 18,
            Key::Key3 => 19,
            Key::Key4 => 20,
            Key::Key5 => 21,
            Key::Key6 => 22,
            Key::Key7 => 23,
            Key::Key8 => 24,
            Key::Key9 => 25,
            Key::Key0 => 26,
            Key::Minus => 27,
            Key::Equal => 28,
            Key::Backspace => 29,
            Key::Insert => 30,
            Key::Delete => 31,
            Key::Home => 32,
            Key::End => 33,
            Key::PageUp => 34,
            Key::PageDown => 35,
            Key::KeyA => 36,
            Key::KeyB => 37,
            Key::KeyC => 38,
            Key::KeyD => 39,
            Key::KeyE => 40,
            Key::KeyF => 41,
            Key::KeyG => 42,
            Key::KeyH => 43,
            Key::KeyI => 44,
            Key::KeyJ => 45,
            Key::KeyK => 46,
            Key::KeyL => 47,
            Key::KeyM => 48,
            Key::KeyN => 49,
            Key::KeyO => 50,
            Key::KeyP => 51,
            Key::KeyQ => 52,
            Key::KeyR => 53,
            Key::KeyS => 54,
            Key::KeyT => 55,
            Key::KeyU => 56,
            Key::KeyV => 57,
            Key::KeyW => 58,
            Key::KeyX => 59,
            Key::KeyY => 60,
            Key::KeyZ => 61,
            Key::LeftSquareBracket => 62,
            Key::RightSquareBracket => 63,
            Key::BackwardSlash => 64,
            Key::Semicolon => 65,
            Key::Apostrophe => 66,
            Key::Comma => 67,
            Key::Period => 68,
            Key::ForwardSlash => 69,
            Key::Enter => 70,
            Key::Space => 71,
            Key::LeftControl => 72,
            Key::RightControl => 73,
            Key::LeftShift => 74,
            Key::RightShift => 75,
            Key::LeftAlt => 76,
            Key::RightAlt => 77,
            Key::LeftWin => 78,
            Key::RightWin => 79,
            Key::Apps => 80,
            Key::Tab => 81,
            Key::CapsLock => 82,
            Key::Up => 83,
            Key::Down => 84,
            Key::Left => 85,
            Key::Right => 86,
            Key::NumLock => 87,
            Key::Numpad1 => 88,
            Key::Numpad2 => 89,
            Key::Numpad3 => 90,
            Key::Numpad4 => 91,
            Key::Numpad5 => 92,
            Key::Numpad6 => 93,
            Key::Numpad7 => 94,
            Key::Numpad8 => 95,
            Key::Numpad9 => 96,
            Key::Numpad0 => 97,
            Key::NumpadPlus => 98,
            Key::NumpadMinus => 99,
            Key::NumpadMultiply => 100,
            Key::NumpadDivide => 101,
            Key::NumpadSeparator => 102,
            Key::NumpadDot => 103,
            Key::NumpadEnter => 104,
            Key::MouseLeft => 105,
            Key::MouseRight => 106,
            Key::MouseMiddle => 107,
            Key::MouseX1 => 108,
            Key::MouseX2 => 109,
            Key::Unknown => 110,
        }
    }

    /// The key at a place in the order of declaration; `Unknown` past the end.
    pub open spec fn spec_from_index(index: nat) -> Key {
        if index == 0 {
            Key::Escape
        } else if index == 1 {
            Key::F1
        } else if index == 2 {
            Key::F2
        } else if index == 3 {
            Key::F3
        } else if index == 4 {
            Key::F4
        } else if index == 5 {
            Key::F5
        } else if index == 6 {
            Key::F6
        } else if index == 7 {
            Key::F7
        } else if index == 8 {
            Key::F8
        } else if index == 9 {
            Key::F9
        } else if index == 10 {
            Key::F10
        } else if index == 11 {
            Key::F11
        } else if index == 12 {
            Key::F12
        } else if index == 13 {
            Key::PrintScreen
        } else if index == 14 {
            Key::ScrollLock
        } else if index == 15 {
            Key::Pause
        } else if index == 16 {
            Key::BackTick
        } else if index == 17 {
            Key::Key1
        } else if index == 18 {
            Key::Key2
        } else if index == 19 {
            Key::Key3
        } else if index == 20 {
            Key::Key4
        } else if index == 21 {
            Key::Key5
        } else if index == 22 {
            Key::Key6
        } else if index == 23 {
            Key::Key7
        } else if index == 24 {
            Key::Key8
        } else if index == 25 {
            Key::Key9
        } else if index == 26 {
            Key::Key0
        } else if index == 27 {
            Key::Minus
        } else if index == 28 {
            Key::Equal
        } else if index == 29 {
            Key::Backspace
        } else if index == 30 {
            Key::Insert
        } else if index == 31 {
            Key::Delete
        } else if index == 32 {
            Key::Home
        } else if index == 33 {
            Key::End
        } else if index == 34 {
            Key::PageUp
        } else if index == 35 {
            Key::PageDown
        } else if index == 36 {
            Key::KeyA
        } else if index == 37 {
            Key::KeyB
        } else if index == 38 {
            Key::KeyC
        } else if index == 39 {
            Key::KeyD
        } else if index == 40 {
            Key::KeyE
        } else if index == 41 {
            Key::KeyF
        } else if index == 42 {
            Key::KeyG
        } else if index == 43 {
            Key::KeyH
        } else if index == 44 {
            Key::KeyI
        } else if index == 45 {
            Key::KeyJ
        } else if index == 46 {
            Key::KeyK
        } else if index == 47 {
            Key::KeyL
        } else if index == 48 {
            Key::KeyM
        } else if index == 49 {
            Key::KeyN
        } else if index == 50 {
            Key::KeyO
        } else if index == 51 {
            Key::KeyP
        } else if index == 52 {
            Key::KeyQ
        } else if index == 53 {
            Key::KeyR
        } else if index == 54 {
            Key::KeyS
        } else if index == 55 {
            Key::KeyT
        } else if index == 56 {
            Key::KeyU
        } else if index == 57 {
            Key::KeyV
        } else if index == 58 {
            Key::KeyW
        } else if index == 59 {
            Key::KeyX
        } else if index == 60 {
            Key::KeyY
        } else if index == 61 {
            Key::KeyZ
        } else if index == 62 {
            Key::LeftSquareBracket
        } else if index == 63 {
            Key::RightSquareBracket
        } else if index == 64 {
            Key::BackwardSlash
        } else if index == 65 {
            Key::Semicolon
        } else if index == 66 {
            Key::Apostrophe
        } else if index == 67 {
            Key::Comma
        } else if index == 68 {
            Key::Period
        } else if index == 69 {
            Key::ForwardSlash
        } else if index == 70 {
            Key::Enter
        } else if index == 71 {
            Key::Space
        } else if index == 72 {
            Key::LeftControl
        } else if index == 73 {
            Key::RightControl
        } else if index == 74 {
            Key::LeftShift
        } else if index == 75 {
            Key::RightShift
        } else if index == 76 {
            Key::LeftAlt
        } else if index == 77 {
            Key::RightAlt
        } else if index == 78 {
            Key::LeftWin
        } else if index == 79 {
            Key::RightWin
        } else if index == 80 {
            Key::Apps
        } else if index == 81 {
            Key::Tab
        } else if index == 82 {
            Key::CapsLock
        } else if index == 83 {
            Key::Up
        } else if index == 84 {
            Key::Down
        } else if index == 85 {
            Key::Left
        } else if index == 86 {
            Key::Right
        } else if index == 87 {
            Key::NumLock
        } else if index == 88 {
            Key::Numpad1
        } else if index == 89 {
            Key::Numpad2
        } else if index == 90 {
            Key::Numpad3
        } else if index == 91 {
            Key::Numpad4
        } else if index == 92 {
            Key::Numpad5
        } else if index == 93 {
            Key::Numpad6
        } else if index == 94 {
            Key::Numpad7
        } else if index == 95 {
            Key::Numpad8
        } else if index == 96 {
            Key::Numpad9
        } else if index == 97 {
            Key::Numpad0
        } else if index == 98 {
            Key::NumpadPlus
        } else if index == 99 {
            Key::NumpadMinus
        } else if index == 100 {
            Key::NumpadMultiply
        } else if index == 101 {
            Key::NumpadDivide
        } else if index == 102 {
            Key::NumpadSeparator
        } else if index == 103 {
            Key::NumpadDot
        } else if index == 104 {
            Key::NumpadEnter
        } else if index == 105 {
            Key::MouseLeft
        } else if index == 106 {
            Key::MouseRight
        } else if index == 107 {
            Key::MouseMiddle
        } else if index == 108 {
            Key::MouseX1
        } else if index == 109 {
            Key::MouseX2
        } else {
            Key::Unknown
        }
    }

    /// Each key has a place of its own below `COUNT`, `Unknown` the last one,
    /// and is the key at its place.
    pub proof fn lemma_index(self)
        ensures
            self.spec_index() < Self::COUNT,
            Self::spec_from_index(self.spec_index()) == self,
            self.spec_index() == Self::COUNT - 1 <==> self == Key::Unknown,
    {
    }

    /// Every place below `COUNT` is the place of the key that stands at it.
    pub proof fn lemma_from_index(index: nat)
        ensures
            index < Self::COUNT ==> Self::spec_from_index(index).spec_index() == index,
            index >= Self::COUNT - 1 ==> Self::spec_from_index(index) == Key::Unknown,
    {
    }

    /// Two keys with one place are one key.
    pub proof fn lemma_index_injective(self, other: Key)
        requires
            self.spec_index() == other.spec_index(),
        ensures
            self == other,
    {
        self.lemma_index();
        other.lemma_index();
    }

    pub fn index(self) -> (index: usize)
        ensures
            index == self.spec_index(),
    {
        match self {
            Key::Escape => 0,
            Key::F1 => 1,
            Key::F2 => 2,
            Key::F3 => 3,
            Key::F4 => 4,
            Key::F5 => 5,
            Key::F6 => 6,
            Key::F7 => 7,
            Key::F8 => 8,
            Key::F9 => 9,
            Key::F10 => 10,
            Key::F11 => 11,
            Key::F12 => 12,
            Key::PrintScreen => 13,
            Key::ScrollLock => 14,
            Key::Pause => 15,
            Key::BackTick => 16,
            Key::Key1 => 17,
            Key::Key2 => 18,
            Key::Key3 => 19,
            Key::Key4 => 20,
            Key::Key5 => 21,
            Key::Key6 => 22,
            Key::Key7 => 23,
            Key::Key8 => 24,
            Key::Key9 => 25,
            Key::Key0 => 26,
            Key::Minus => 27,
            Key::Equal => 28,
            Key::Backspace => 29,
            Key::Insert => 30,
            Key::Delete => 31,
            Key::Home => 32,
            Key::End => 33,
            Key::PageUp => 34,
            Key::PageDown => 35,
            Key::KeyA => 36,
            Key::KeyB => 37,
            Key::KeyC => 38,
            Key::KeyD => 39,
            Key::KeyE => 40,
            Key::KeyF => 41,
            Key::KeyG => 42,
            Key::KeyH => 43,
            Key::KeyI => 44,
            Key::KeyJ => 45,
            Key::KeyK => 46,
            Key::KeyL => 47,
            Key::KeyM => 48,
            Key::KeyN => 49,
            Key::KeyO => 50,
            Key::KeyP => 51,
            Key::KeyQ => 52,
            Key::KeyR => 53,
            Key::KeyS => 54,
            Key::KeyT => 55,
            Key::KeyU => 56,
            Key::KeyV => 57,
            Key::KeyW => 58,
            Key::KeyX => 59,
            Key::KeyY => 60,
            Key::KeyZ => 61,
            Key::LeftSquareBracket => 62,
            Key::RightSquareBracket => 63,
            Key::BackwardSlash => 64,
            Key::Semicolon => 65,
            Key::Apostrophe => 66,
            Key::Comma => 67,
            Key::Period => 68,
            Key::ForwardSlash => 69,
            Key::Enter => 70,
            Key::Space => 71,
            Key::LeftControl => 72,
            Key::RightControl => 73,
            Key::LeftShift => 74,
            Key::RightShift => 75,
            Key::LeftAlt => 76,
            Key::RightAlt => 77,
            Key::LeftWin => 78,
            Key::RightWin => 79,
            Key::Apps => 80,
            Key::Tab => 81,
            Key::CapsLock => 82,
            Key::Up => 83,
            Key::Down => 84,
            Key::Left => 85,
            Key::Right => 86,
            Key::NumLock => 87,
            Key::Numpad1 => 88,
            Key::Numpad2 => 89,
            Key::Numpad3 => 90,
            Key::Numpad4 => 91,
            Key::Numpad5 => 92,
            Key::Numpad6 => 93,
            Key::Numpad7 => 94,
            Key::Numpad8 => 95,
            Key::Numpad9 => 96,
            Key::Numpad0 => 97,
            Key::NumpadPlus => 98,
            Key::NumpadMinus => 99,
            Key::NumpadMultiply => 100,
            Key::NumpadDivide => 101,
            Key::NumpadSeparator => 102,
            Key::NumpadDot => 103,
            Key::NumpadEnter => 104,
            Key::MouseLeft => 105,
            Key::MouseRight => 106,
            Key::MouseMiddle => 107,
            Key::MouseX1 => 108,
            Key::MouseX2 => 109,
            Key::Unknown => 110,
        }
    }

    pub fn from_index(index: usize) -> (key: Key)
        ensures
            key == Self::spec_from_index(index as nat),
    {
        match index {
            0 => Key::Escape,
            1 => Key::F1,
            2 => Key::F2,
            3 => Key::F3,
            4 => Key::F4,
            5 => Key::F5,
            6 => Key::F6,
            7 => Key::F7,
            8 => Key::F8,
            9 => Key::F9,
            10 => Key::F10,
            11 => Key::F11,
            12 => Key::F12,
            13 => Key::PrintScreen,
            14 => Key::ScrollLock,
            15 => Key::Pause,
            16 => Key::BackTick,
            17 => Key::Key1,
            18 => Key::Key2,
            19 => Key::Key3,
            20 => Key::Key4,
            21 => Key::Key5,
            22 => Key::Key6,
            23 => Key::Key7,
            24 => Key::Key8,
            25 => Key::Key9,
            26 => Key::Key0,
            27 => Key::Minus,
            28 => Key::Equal,
            29 => Key::Backspace,
            30 => Key::Insert,
            31 => Key::Delete,
            32 => Key::Home,
            33 => Key::End,
            34 => Key::PageUp,
            35 => Key::PageDown,
            36 => Key::KeyA,
            37 => Key::KeyB,
            38 => Key::KeyC,
            39 => Key::KeyD,
            40 => Key::KeyE,
            41 => Key::KeyF,
            42 => Key::KeyG,
            43 => Key::KeyH,
            44 => Key::KeyI,
            45 => Key::KeyJ,
            46 => Key::KeyK,
            47 => Key::KeyL,
            48 => Key::KeyM,
            49 => Key::KeyN,
            50 => Key::KeyO,
            51 => Key::KeyP,
            52 => Key::KeyQ,
            53 => Key::KeyR,
            54 => Key::KeyS,
            55 => Key::KeyT,
            56 => Key::KeyU,
            57 => Key::KeyV,
            58 => Key::KeyW,
            59 => Key::KeyX,
            60 => Key::KeyY,
            61 => Key::KeyZ,
            62 => Key::LeftSquareBracket,
            63 => Key::RightSquareBracket,
            64 => Key::BackwardSlash,
            65 => Key::Semicolon,
            66 => Key::Apostrophe,
            67 => Key::Comma,
            68 => Key::Period,
            69 => Key::ForwardSlash,
            70 => Key::Enter,
            71 => Key::Space,
            72 => Key::LeftControl,
            73 => Key::RightControl,
            74 => Key::LeftShift,
            75 => Key::RightShift,
            76 => Key::LeftAlt,
            77 => Key::RightAlt,
            78 => Key::LeftWin,
            79 => Key::RightWin,
            80 => Key::Apps,
            81 => Key::Tab,
            82 => Key::CapsLock,
            83 => Key::Up,
            84 => Key::Down,
            85 => Key::Left,
            86 => Key::Right,
            87 => Key::NumLock,
            88 => Key::Numpad1,
            89 => Key::Numpad2,
            90 => Key::Numpad3,
            91 => Key::Numpad4,
            92 => Key::Numpad5,
            93 => Key::Numpad6,
            94 => Key::Numpad7,
            95 => Key::Numpad8,
            96 => Key::Numpad9,
            97 => Key::Numpad0,
            98 => Key::NumpadPlus,
            99 => Key::NumpadMinus,
            100 => Key::NumpadMultiply,
            101 => Key::NumpadDivide,
            102 => Key::NumpadSeparator,
            103 => Key::NumpadDot,
            104 => Key::NumpadEnter,
            105 => Key::MouseLeft,
            106 => Key::MouseRight,
            107 => Key::MouseMiddle,
            108 => Key::MouseX1,
            109 => Key::MouseX2,
            _ => Key::Unknown,
        }
    }

    /// All keys in the order of their declaration, `Unknown` last.
    pub fn iter() -> (keys: Vec<Key>)
        ensures
            keys@.len() == Self::COUNT,
            forall|i: int| 0 <= i < keys@.len() ==> (#[trigger] keys@[i]).spec_index() == i,
    {
        let mut keys: Vec<Key> = Vec::with_capacity(Self::COUNT);
        let mut index: usize = 0;
        while index < Self::COUNT
            invariant
                index <= Self::COUNT,
                keys@.len() == index,
                forall|i: int| 0 <= i < keys@.len() ==> (#[trigger] keys@[i]).spec_index() == i,
            decreases Self::COUNT - index,
        {
            proof {
                Self::lemma_from_index(index as nat);
            }
            keys.push(Self::from_index(index));
            index = index + 1;
        }
        keys
    }

    /// The name of the key, as it is declared.
    pub open spec fn name(self) -> Seq<char> {
        match self {
            Key::Escape => "Escape"@,
            Key::F1 => "F1"@,
            Key::F2 => "F2"@,
            Key::F3 => "F3"@,
            Key::F4 => "F4"@,
            Key::F5 => "F5"@,
            Key::F6 => "F6"@,
            Key::F7 => "F7"@,
            Key::F8 => "F8"@,
            Key::F9 => "F9"@,
            Key::F10 => "F10"@,
            Key::F11 => "F11"@,
            Key::F12 => "F12"@,
            Key::PrintScreen => "PrintScreen"@,
            Key::ScrollLock => "ScrollLock"@,
            Key::Pause => "Pause"@,
            Key::BackTick => "BackTick"@,
            Key::Key1 => "Key1"@,
            Key::Key2 => "Key2"@,
            Key::Key3 => "Key3"@,
            Key::Key4 => "Key4"@,
            Key::Key5 => "Key5"@,
            Key::Key6 => "Key6"@,
            Key::Key7 => "Key7"@,
            Key::Key8 => "Key8"@,
            Key::Key9 => "Key9"@,
            Key::Key0 => "Key0"@,
            Key::Minus => "Minus"@,
            Key::Equal => "Equal"@,
            Key::Backspace => "Backspace"@,
            Key::Insert => "Insert"@,
            Key::Delete => "Delete"@,
            Key::Home => "Home"@,
            Key::End => "End"@,
            Key::PageUp => "PageUp"@,
            Key::PageDown => "PageDown"@,
            Key::KeyA => "KeyA"@,
            Key::KeyB => "KeyB"@,
            Key::KeyC => "KeyC"@,
            Key::KeyD => "KeyD"@,
            Key::KeyE => "KeyE"@,
            Key::KeyF => "KeyF"@,
            Key::KeyG => "KeyG"@,
            Key::KeyH => "KeyH"@,
            Key::KeyI => "KeyI"@,
            Key::KeyJ => "KeyJ"@,
            Key::KeyK => "KeyK"@,
            Key::KeyL => "KeyL"@,
            Key::KeyM => "KeyM"@,
            Key::KeyN => "KeyN"@,
            Key::KeyO => "KeyO"@,
            Key::KeyP => "KeyP"@,
            Key::KeyQ => "KeyQ"@,
            Key::KeyR => "KeyR"@,
            Key::KeyS => "KeyS"@,
            Key::KeyT => "KeyT"@,
            Key::KeyU => "KeyU"@,
            Key::KeyV => "KeyV"@,
            Key::KeyW => "KeyW"@,
            Key::KeyX => "KeyX"@,
            Key::KeyY => "KeyY"@,
            Key::KeyZ => "KeyZ"@,
            Key::LeftSquareBracket => "LeftSquareBracket"@,
            Key::RightSquareBracket => "RightSquareBracket"@,
            Key::BackwardSlash => "BackwardSlash"@,
            Key::Semicolon => "Semicolon"@,
            Key::Apostrophe => "Apostrophe"@,
            Key::Comma => "Comma"@,
            Key::Period => "Period"@,
            Key::ForwardSlash => "ForwardSlash"@,
            Key::Enter => "Enter"@,
            Key::Space => "Space"@,
            Key::LeftControl => "LeftControl"@,
            Key::RightControl => "RightControl"@,
            Key::LeftShift => "LeftShift"@,
            Key::RightShift => "RightShift"@,
            Key::LeftAlt => "LeftAlt"@,
            Key::RightAlt => "RightAlt"@,
            Key::LeftWin => "LeftWin"@,
            Key::RightWin => "RightWin"@,
            Key::Apps => "Apps"@,
            Key::Tab => "Tab"@,
            Key::CapsLock => "CapsLock"@,
            Key::Up => "Up"@,
            Key::Down => "Down"@,
            Key::Left => "Left"@,
            Key::Right => "Right"@,
            Key::NumLock => "NumLock"@,
            Key::Numpad1 => "Numpad1"@,
            Key::Numpad2 => "Numpad2"@,
            Key::Numpad3 => "Numpad3"@,
            Key::Numpad4 => "Numpad4"@,
            Key::Numpad5 => "Numpad5"@,
            Key::Numpad6 => "Numpad6"@,
            Key::Numpad7 => "Numpad7"@,
            Key::Numpad8 => "Numpad8"@,
            Key::Numpad9 => "Numpad9"@,
            Key::Numpad0 => "Numpad0"@,
            Key::NumpadPlus => "NumpadPlus"@,
            Key::NumpadMinus => "NumpadMinus"@,
            Key::NumpadMultiply => "NumpadMultiply"@,
            Key::NumpadDivide => "NumpadDivide"@,
            Key::NumpadSeparator => "NumpadSeparator"@,
            Key::NumpadDot => "NumpadDot"@,
            Key::NumpadEnter => "NumpadEnter"@,
            Key::MouseLeft => "MouseLeft"@,
            Key::MouseRight => "MouseRight"@,
            Key::MouseMiddle => "MouseMiddle"@,
            Key::MouseX1 => "MouseX1"@,
            Key::MouseX2 => "MouseX2"@,
            Key::Unknown => "Unknown"@,
        }
    }

    pub fn to_string(&self) -> (name: String)
        ensures
            name@ == self.name(),
    {
        match self {
            Key::Escape => "Escape".to_owned(),
            Key::F1 => "F1".to_owned(),
            Key::F2 => "F2".to_owned(),
            Key::F3 => "F3".to_owned(),
            Key::F4 => "F4".to_owned(),
            Key::F5 => "F5".to_owned(),
            Key::F6 => "F6".to_owned(),
            Key::F7 => "F7".to_owned(),
            Key::F8 => "F8".to_owned(),
            Key::F9 => "F9".to_owned(),
            Key::F10 => "F10".to_owned(),
            Key::F11 => "F11".to_owned(),
            Key::F12 => "F12".to_owned(),
            Key::PrintScreen => "PrintScreen".to_owned(),
            Key::ScrollLock => "ScrollLock".to_owned(),
            Key::Pause => "Pause".to_owned(),
            Key::BackTick => "BackTick".to_owned(),
            Key::Key1 => "Key1".to_owned(),
            Key::Key2 => "Key2".to_owned(),
            Key::Key3 => "Key3".to_owned(),
            Key::Key4 => "Key4".to_owned(),
            Key::Key5 => "Key5".to_owned(),
            Key::Key6 => "Key6".to_owned(),
            Key::Key7 => "Key7".to_owned(),
            Key::Key8 => "Key8".to_owned(),
            Key::Key9 => "Key9".to_owned(),
            Key::Key0 => "Key0".to_owned(),
            Key::Minus => "Minus".to_owned(),
            Key::Equal => "Equal".to_owned(),
            Key::Backspace => "Backspace".to_owned(),
            Key::Insert => "Insert".to_owned(),
            Key::Delete => "Delete".to_owned(),
            Key::Home => "Home".to_owned(),
            Key::End => "End".to_owned(),
            Key::PageUp => "PageUp".to_owned(),
            Key::PageDown => "PageDown".to_owned(),
            Key::KeyA => "KeyA".to_owned(),
            Key::KeyB => "KeyB".to_owned(),
            Key::KeyC => "KeyC".to_owned(),
            Key::KeyD => "KeyD".to_owned(),
            Key::KeyE => "KeyE".to_owned(),
            Key::KeyF => "KeyF".to_owned(),
            Key::KeyG => "KeyG".to_owned(),
            Key::KeyH => "KeyH".to_owned(),
            Key::KeyI => "KeyI".to_owned(),
            Key::KeyJ => "KeyJ".to_owned(),
            Key::KeyK => "KeyK".to_owned(),
            Key::KeyL => "KeyL".to_owned(),
            Key::KeyM => "KeyM".to_owned(),
            Key::KeyN => "KeyN".to_owned(),
            Key::KeyO => "KeyO".to_owned(),
            Key::KeyP => "KeyP".to_owned(),
            Key::KeyQ => "KeyQ".to_owned(),
            Key::KeyR => "KeyR".to_owned(),
            Key::KeyS => "KeyS".to_owned(),
            Key::KeyT => "KeyT".to_owned(),
            Key::KeyU => "KeyU".to_owned(),
            Key::KeyV => "KeyV".to_owned(),
            Key::KeyW => "KeyW".to_owned(),
            Key::KeyX => "KeyX".to_owned(),
            Key::KeyY => "KeyY".to_owned(),
            Key::KeyZ => "KeyZ".to_owned(),
            Key::LeftSquareBracket => "LeftSquareBracket".to_owned(),
            Key::RightSquareBracket => "RightSquareBracket".to_owned(),
            Key::BackwardSlash => "BackwardSlash".to_owned(),
            Key::Semicolon => "Semicolon".to_owned(),
            Key::Apostrophe => "Apostrophe".to_owned(),
            Key::Comma => "Comma".to_owned(),
            Key::Period => "Period".to_owned(),
            Key::ForwardSlash => "ForwardSlash".to_owned(),
            Key::Enter => "Enter".to_owned(),
            Key::Space => "Space".to_owned(),
            Key::LeftControl => "LeftControl".to_owned(),
            Key::RightControl => "RightControl".to_owned(),
            Key::LeftShift => "LeftShift".to_owned(),
            Key::RightShift => "RightShift".to_owned(),
            Key::LeftAlt => "LeftAlt".to_owned(),
            Key::RightAlt => "RightAlt".to_owned(),
            Key::LeftWin => "LeftWin".to_owned(),
            Key::RightWin => "RightWin".to_owned(),
            Key::Apps => "Apps".to_owned(),
            Key::Tab => "Tab".to_owned(),
            Key::CapsLock => "CapsLock".to_owned(),
            Key::Up => "Up".to_owned(),
            Key::Down => "Down".to_owned(),
            Key::Left => "Left".to_owned(),
            Key::Right => "Right".to_owned(),
            Key::NumLock => "NumLock".to_owned(),
            Key::Numpad1 => "Numpad1".to_owned(),
            Key::Numpad2 => "Numpad2".to_owned(),
            Key::Numpad3 => "Numpad3".to_owned(),
            Key::Numpad4 => "Numpad4".to_owned(),
            Key::Numpad5 => "Numpad5".to_owned(),
            Key::Numpad6 => "Numpad6".to_owned(),
            Key::Numpad7 => "Numpad7".to_owned(),
            Key::Numpad8 => "Numpad8".to_owned(),
            Key::Numpad9 => "Numpad9".to_owned(),
            Key::Numpad0 => "Numpad0".to_owned(),
            Key::NumpadPlus => "NumpadPlus".to_owned(),
            Key::NumpadMinus => "NumpadMinus".to_owned(),
            Key::NumpadMultiply => "NumpadMultiply".to_owned(),
            Key::NumpadDivide => "NumpadDivide".to_owned(),
            Key::NumpadSeparator => "NumpadSeparator".to_owned(),
            Key::NumpadDot => "NumpadDot".to_owned(),
            Key::NumpadEnter => "NumpadEnter".to_owned(),
            Key::MouseLeft => "MouseLeft".to_owned(),
            Key::MouseRight => "MouseRight".to_owned(),
            Key::MouseMiddle => "MouseMiddle".to_owned(),
            Key::MouseX1 => "MouseX1".to_owned(),
            Key::MouseX2 => "MouseX2".to_owned(),
            Key::Unknown => "Unknown".to_owned(),
        }
    }

    /// The key that a virtual-key code stands for when the extended flag of the
    /// raw input was not set; `Unknown` for a code that stands for none.
    pub open spec fn plain_key(virtual_key: u16) -> Key {
        match virtual_key {
            VK_ESCAPE => Key::Escape,
            VK_F1 => Key::F1,
            VK_F2 => Key::F2,
            VK_F3 => Key::F3,
            VK_F4 => Key::F4,
            VK_F5 => Key::F5,
            VK_F6 => Key::F6,
            VK_F7 => Key::F7,
            VK_F8 => Key::F8,
            VK_F9 => Key::F9,
            VK_F10 => Key::F10,
            VK_F11 => Key::F11,
            VK_F12 => Key::F12,
            VK_SNAPSHOT => Key::PrintScreen,
            VK_SCROLL => Key::ScrollLock,
            VK_PAUSE => Key::Pause,
            VK_OEM_3 => Key::BackTick,
            VK_1 => Key::Key1,
            VK_2 => Key::Key2,
            VK_3 => Key::Key3,
            VK_4 => Key::Key4,
            VK_5 => Key::Key5,
            VK_6 => Key::Key6,
            VK_7 => Key::Key7,
            VK_8 => Key::Key8,
            VK_9 => Key::Key9,
            VK_0 => Key::Key0,
            VK_OEM_MINUS => Key::Minus,
            VK_OEM_PLUS => Key::Equal,
            VK_BACK => Key::Backspace,
            VK_INSERT => Key::Insert,
            VK_DELETE => Key::Delete,
            VK_HOME => Key::Home,
            VK_END => Key::End,
            VK_PRIOR => Key::PageUp,
            VK_NEXT => Key::PageDown,
            VK_A => Key::KeyA,
            VK_B => Key::KeyB,
            VK_C => Key::KeyC,
            VK_D => Key::KeyD,
            VK_E => Key::KeyE,
            VK_F => Key::KeyF,
            VK_G => Key::KeyG,
            VK_H => Key::KeyH,
            VK_I => Key::KeyI,
            VK_J => Key::KeyJ,
            VK_K => Key::KeyK,
            VK_L => Key::KeyL,
            VK_M => Key::KeyM,
            VK_N => Key::KeyN,
            VK_O => Key::KeyO,
            VK_P => Key::KeyP,
            VK_Q => Key::KeyQ,
            VK_R => Key::KeyR,
            VK_S => Key::KeyS,
            VK_T => Key::KeyT,
            VK_U => Key::KeyU,
            VK_V => Key::KeyV,
            VK_W => Key::KeyW,
            VK_X => Key::KeyX,
            VK_Y => Key::KeyY,
            VK_Z => Key::KeyZ,
            VK_OEM_4 => Key::LeftSquareBracket,
            VK_OEM_6 => Key::RightSquareBracket,
            VK_OEM_5 => Key::BackwardSlash,
            VK_OEM_1 => Key::Semicolon,
            VK_OEM_7 => Key::Apostrophe,
            VK_OEM_COMMA => Key::Comma,
            VK_OEM_PERIOD => Key::Period,
            VK_OEM_2 => Key::ForwardSlash,
            VK_RETURN => Key::Enter,
            VK_CONTROL => Key::LeftControl,
            VK_SHIFT => Key::LeftShift,
            VK_MENU => Key::LeftAlt,
            VK_LCONTROL => Key::LeftControl,
            VK_RCONTROL => Key::RightControl,
            VK_LSHIFT => Key::LeftShift,
            VK_RSHIFT => Key::RightShift,
            VK_LMENU => Key::LeftAlt,
            VK_RMENU => Key::RightAlt,
            VK_SPACE => Key::Space,
            VK_LWIN => Key::LeftWin,
            VK_RWIN => Key::RightWin,
            VK_APPS => Key::Apps,
            VK_TAB => Key::Tab,
            VK_CAPITAL => Key::CapsLock,
            VK_UP => Key::Up,
            VK_DOWN => Key::Down,
            VK_LEFT => Key::Left,
            VK_RIGHT => Key::Right,
            VK_NUMLOCK => Key::NumLock,
            VK_NUMPAD1 => Key::Numpad1,
            VK_NUMPAD2 => Key::Numpad2,
            VK_NUMPAD3 => Key::Numpad3,
            VK_NUMPAD4 => Key::Numpad4,
            VK_NUMPAD5 => Key::Numpad5,
            VK_NUMPAD6 => Key::Numpad6,
            VK_NUMPAD7 => Key::Numpad7,
            VK_NUMPAD8 => Key::Numpad8,
            VK_NUMPAD9 => Key::Numpad9,
            VK_NUMPAD0 => Key::Numpad0,
            VK_ADD => Key::NumpadPlus,
            VK_SUBTRACT => Key::NumpadMinus,
            VK_MULTIPLY => Key::NumpadMultiply,
            VK_DIVIDE => Key::NumpadDivide,
            VK_SEPARATOR => Key::NumpadSeparator,
            VK_DECIMAL => Key::NumpadDot,
            VK_LBUTTON => Key::MouseLeft,
            VK_RBUTTON => Key::MouseRight,
            VK_MBUTTON => Key::MouseMiddle,
            VK_XBUTTON1 => Key::MouseX1,
            VK_XBUTTON2 => Key::MouseX2,
            _ => Key::Unknown,
        }
    }

    /// The key that a virtual-key code stands for when the extended flag of the
    /// raw input was set: the right-hand or numpad twin of a key, or an arrow
    /// key; `Unknown` for every other code.
    pub open spec fn extended_key(virtual_key: u16) -> Key {
        match virtual_key {
            VK_RETURN => Key::NumpadEnter,
            VK_CONTROL => Key::RightControl,
            VK_SHIFT => Key::RightShift,
            VK_MENU => Key::RightAlt,
            VK_UP => Key::Up,
            VK_DOWN => Key::Down,
            VK_LEFT => Key::Left,
            VK_RIGHT => Key::Right,
            _ => Key::Unknown,
        }
    }

    /// The key that a virtual-key code and the extended flag stand for.
    pub open spec fn spec_from_virtual_key(virtual_key: u16, is_extend: bool) -> Key {
        if is_extend {
            Self::extended_key(virtual_key)
        } else {
            Self::plain_key(virtual_key)
        }
    }

    pub fn from_virtual_key(virtual_key: u16, is_extend: bool) -> (key: Key)
        ensures
            key == Self::spec_from_virtual_key(virtual_key, is_extend),
    {
        if is_extend {
            match virtual_key {
                VK_RETURN => Key::NumpadEnter,
                VK_CONTROL => Key::RightControl,
                VK_SHIFT => Key::RightShift,
                VK_MENU => Key::RightAlt,
                VK_UP => Key::Up,
                VK_DOWN => Key::Down,
                VK_LEFT => Key::Left,
                VK_RIGHT => Key::Right,
                _ => Key::Unknown,
            }
        } else {
            match virtual_key {
                VK_ESCAPE => Key::Escape,
                VK_F1 => Key::F1,
                VK_F2 => Key::F2,
                VK_F3 => Key::F3,
                VK_F4 => Key::F4,
                VK_F5 => Key::F5,
                VK_F6 => Key::F6,
                VK_F7 => Key::F7,
                VK_F8 => Key::F8,
                VK_F9 => Key::F9,
                VK_F10 => Key::F10,
                VK_F11 => Key::F11,
                VK_F12 => Key::F12,
                VK_SNAPSHOT => Key::PrintScreen,
                VK_SCROLL => Key::ScrollLock,
                VK_PAUSE => Key::Pause,
                VK_OEM_3 => Key::BackTick,
                VK_1 => Key::Key1,
                VK_2 => Key::Key2,
                VK_3 => Key::Key3,
                VK_4 => Key::Key4,
                VK_5 => Key::Key5,
                VK_6 => Key::Key6,
                VK_7 => Key::Key7,
                VK_8 => Key::Key8,
                VK_9 => Key::Key9,
                VK_0 => Key::Key0,
                VK_OEM_MINUS => Key::Minus,
                VK_OEM_PLUS => Key::Equal,
                VK_BACK => Key::Backspace,
                VK_INSERT => Key::Insert,
                VK_DELETE => Key::Delete,
                VK_HOME => Key::Home,
                VK_END => Key::End,
                VK_PRIOR => Key::PageUp,
                VK_NEXT => Key::PageDown,
                VK_A => Key::KeyA,
                VK_B => Key::KeyB,
                VK_C => Key::KeyC,
                VK_D => Key::KeyD,
                VK_E => Key::KeyE,
                VK_F => Key::KeyF,
                VK_G => Key::KeyG,
                VK_H => Key::KeyH,
                VK_I => Key::KeyI,
                VK_J => Key::KeyJ,
                VK_K => Key::KeyK,
                VK_L => Key::KeyL,
                VK_M => Key::KeyM,
                VK_N => Key::KeyN,
                VK_O => Key::KeyO,
                VK_P => Key::KeyP,
                VK_Q => Key::KeyQ,
                VK_R => Key::KeyR,
                VK_S => Key::KeyS,
                VK_T => Key::KeyT,
                VK_U => Key::KeyU,
                VK_V => Key::KeyV,
                VK_W => Key::KeyW,
                VK_X => Key::KeyX,
                VK_Y => Key::KeyY,
                VK_Z => Key::KeyZ,
                VK_OEM_4 => Key::LeftSquareBracket,
                VK_OEM_6 => Key::RightSquareBracket,
                VK_OEM_5 => Key::BackwardSlash,
                VK_OEM_1 => Key::Semicolon,
                VK_OEM_7 => Key::Apostrophe,
                VK_OEM_COMMA => Key::Comma,
                VK_OEM_PERIOD => Key::Period,
                VK_OEM_2 => Key::ForwardSlash,
                VK_RETURN => Key::Enter,
                VK_CONTROL => Key::LeftControl,
                VK_SHIFT => Key::LeftShift,
                VK_MENU => Key::LeftAlt,
                VK_LCONTROL => Key::LeftControl,
                VK_RCONTROL => Key::RightControl,
                VK_LSHIFT => Key::LeftShift,
                VK_RSHIFT => Key::RightShift,
                VK_LMENU => Key::LeftAlt,
                VK_RMENU => Key::RightAlt,
                VK_SPACE => Key::Space,
                VK_LWIN => Key::LeftWin,
                VK_RWIN => Key::RightWin,
                VK_APPS => Key::Apps,
                VK_TAB => Key::Tab,
                VK_CAPITAL => Key::CapsLock,
                VK_UP => Key::Up,
                VK_DOWN => Key::Down,
                VK_LEFT => Key::Left,
                VK_RIGHT => Key::Right,
                VK_NUMLOCK => Key::NumLock,
                VK_NUMPAD1 => Key::Numpad1,
                VK_NUMPAD2 => Key::Numpad2,
                VK_NUMPAD3 => Key::Numpad3,
                VK_NUMPAD4 => Key::Numpad4,
                VK_NUMPAD5 => Key::Numpad5,
                VK_NUMPAD6 => Key::Numpad6,
                VK_NUMPAD7 => Key::Numpad7,
                VK_NUMPAD8 => Key::Numpad8,
                VK_NUMPAD9 => Key::Numpad9,
                VK_NUMPAD0 => Key::Numpad0,
                VK_ADD => Key::NumpadPlus,
                VK_SUBTRACT => Key::NumpadMinus,
                VK_MULTIPLY => Key::NumpadMultiply,
                VK_DIVIDE => Key::NumpadDivide,
                VK_SEPARATOR => Key::NumpadSeparator,
                VK_DECIMAL => Key::NumpadDot,
                VK_LBUTTON => Key::MouseLeft,
                VK_RBUTTON => Key::MouseRight,
                VK_MBUTTON => Key::MouseMiddle,
                VK_XBUTTON1 => Key::MouseX1,
                VK_XBUTTON2 => Key::MouseX2,
                _ => Key::Unknown,
            }
        }
    }

    /// The virtual-key code of the key; zero for `Unknown`.
    pub open spec fn spec_to_virtual_key(self) -> u16 {
        match self {
            Key::Escape => VK_ESCAPE,
            Key::F1 => VK_F1,
            Key::F2 => VK_F2,
            Key::F3 => VK_F3,
            Key::F4 => VK_F4,
            Key::F5 => VK_F5,
            Key::F6 => VK_F6,
            Key::F7 => VK_F7,
            Key::F8 => VK_F8,
            Key::F9 => VK_F9,
            Key::F10 => VK_F10,
            Key::F11 => VK_F11,
            Key::F12 => VK_F12,
            Key::PrintScreen => VK_SNAPSHOT,
            Key::ScrollLock => VK_SCROLL,
            Key::Pause => VK_PAUSE,
            Key::BackTick => VK_OEM_3,
            Key::Key1 => VK_1,
            Key::Key2 => VK_2,
            Key::Key3 => VK_3,
            Key::Key4 => VK_4,
            Key::Key5 => VK_5,
            Key::Key6 => VK_6,
            Key::Key7 => VK_7,
            Key::Key8 => VK_8,
            Key::Key9 => VK_9,
            Key::Key0 => VK_0,
            Key::Minus => VK_OEM_MINUS,
            Key::Equal => VK_OEM_PLUS,
            Key::Backspace => VK_BACK,
            Key::Insert => VK_INSERT,
            Key::Delete => VK_DELETE,
            Key::Home => VK_HOME,
            Key::End => VK_END,
            Key::PageUp => VK_PRIOR,
            Key::PageDown => VK_NEXT,
            Key::KeyA => VK_A,
            Key::KeyB => VK_B,
            Key::KeyC => VK_C,
            Key::KeyD => VK_D,
            Key::KeyE => VK_E,
            Key::KeyF => VK_F,
            Key::KeyG => VK_G,
            Key::KeyH => VK_H,
            Key::KeyI => VK_I,
            Key::KeyJ => VK_J,
            Key::KeyK => VK_K,
            Key::KeyL => VK_L,
            Key::KeyM => VK_M,
            Key::KeyN => VK_N,
            Key::KeyO => VK_O,
            Key::KeyP => VK_P,
            Key::KeyQ => VK_Q,
            Key::KeyR => VK_R,
            Key::KeyS => VK_S,
            Key::KeyT => VK_T,
            Key::KeyU => VK_U,
            Key::KeyV => VK_V,
            Key::KeyW => VK_W,
            Key::KeyX => VK_X,
            Key::KeyY => VK_Y,
            Key::KeyZ => VK_Z,
            Key::LeftSquareBracket => VK_OEM_4,
            Key::RightSquareBracket => VK_OEM_6,
            Key::BackwardSlash => VK_OEM_5,
            Key::Semicolon => VK_OEM_1,
            Key::Apostrophe => VK_OEM_7,
            Key::Comma => VK_OEM_COMMA,
            Key::Period => VK_OEM_PERIOD,
            Key::ForwardSlash => VK_OEM_2,
            Key::Enter => VK_RETURN,
            Key::Space => VK_SPACE,
            Key::LeftControl => VK_LCONTROL,
            Key::RightControl => VK_RCONTROL,
            Key::LeftShift => VK_LSHIFT,
            Key::RightShift => VK_RSHIFT,
            Key::LeftAlt => VK_LMENU,
            Key::RightAlt => VK_RMENU,
            Key::LeftWin => VK_LWIN,
            Key::RightWin => VK_RWIN,
            Key::Apps => VK_APPS,
            Key::Tab => VK_TAB,
            Key::CapsLock => VK_CAPITAL,
            Key::Up => VK_UP,
            Key::Down => VK_DOWN,
            Key::Left => VK_LEFT,
            Key::Right => VK_RIGHT,
            Key::NumLock => VK_NUMLOCK,
            Key::Numpad1 => VK_NUMPAD1,
            Key::Numpad2 => VK_NUMPAD2,
            Key::Numpad3 => VK_NUMPAD3,
            Key::Numpad4 => VK_NUMPAD4,
            Key::Numpad5 => VK_NUMPAD5,
            Key::Numpad6 => VK_NUMPAD6,
            Key::Numpad7 => VK_NUMPAD7,
            Key::Numpad8 => VK_NUMPAD8,
            Key::Numpad9 => VK_NUMPAD9,
            Key::Numpad0 => VK_NUMPAD0,
            Key::NumpadPlus => VK_ADD,
            Key::NumpadMinus => VK_SUBTRACT,
            Key::NumpadMultiply => VK_MULTIPLY,
            Key::NumpadDivide => VK_DIVIDE,
            Key::NumpadSeparator => VK_SEPARATOR,
            Key::NumpadDot => VK_DECIMAL,
            Key::NumpadEnter => VK_RETURN,
            Key::MouseLeft => VK_LBUTTON,
            Key::MouseRight => VK_RBUTTON,
            Key::MouseMiddle => VK_MBUTTON,
            Key::MouseX1 => VK_XBUTTON1,
            Key::MouseX2 => VK_XBUTTON2,
            Key::Unknown => 0,
        }
    }

    pub fn to_virtual_key(self) -> (virtual_key: u16)
        ensures
            virtual_key == self.spec_to_virtual_key(),
    {
        match self {
            Key::Escape => VK_ESCAPE,
            Key::F1 => VK_F1,
            Key::F2 => VK_F2,
            Key::F3 => VK_F3,
            Key::F4 => VK_F4,
            Key::F5 => VK_F5,
            Key::F6 => VK_F6,
            Key::F7 => VK_F7,
            Key::F8 => VK_F8,
            Key::F9 => VK_F9,
            Key::F10 => VK_F10,
            Key::F11 => VK_F11,
            Key::F12 => VK_F12,
            Key::PrintScreen => VK_SNAPSHOT,
            Key::ScrollLock => VK_SCROLL,
            Key::Pause => VK_PAUSE,
            Key::BackTick => VK_OEM_3,
            Key::Key1 => VK_1,
            Key::Key2 => VK_2,
            Key::Key3 => VK_3,
            Key::Key4 => VK_4,
            Key::Key5 => VK_5,
            Key::Key6 => VK_6,
            Key::Key7 => VK_7,
            Key::Key8 => VK_8,
            Key::Key9 => VK_9,
            Key::Key0 => VK_0,
            Key::Minus => VK_OEM_MINUS,
            Key::Equal => VK_OEM_PLUS,
            Key::Backspace => VK_BACK,
            Key::Insert => VK_INSERT,
            Key::Delete => VK_DELETE,
            Key::Home => VK_HOME,
            Key::End => VK_END,
            Key::PageUp => VK_PRIOR,
            Key::PageDown => VK_NEXT,
            Key::KeyA => VK_A,
            Key::KeyB => VK_B,
            Key::KeyC => VK_C,
            Key::KeyD => VK_D,
            Key::KeyE => VK_E,
            Key::KeyF => VK_F,
            Key::KeyG => VK_G,
            Key::KeyH => VK_H,
            Key::KeyI => VK_I,
            Key::KeyJ => VK_J,
            Key::KeyK => VK_K,
            Key::KeyL => VK_L,
            Key::KeyM => VK_M,
            Key::KeyN => VK_N,
            Key::KeyO => VK_O,
            Key::KeyP => VK_P,
            Key::KeyQ => VK_Q,
            Key::KeyR => VK_R,
            Key::KeyS => VK_S,
            Key::KeyT => VK_T,
            Key::KeyU => VK_U,
            Key::KeyV => VK_V,
            Key::KeyW => VK_W,
            Key::KeyX => VK_X,
            Key::KeyY => VK_Y,
            Key::KeyZ => VK_Z,
            Key::LeftSquareBracket => VK_OEM_4,
            Key::RightSquareBracket => VK_OEM_6,
            Key::BackwardSlash => VK_OEM_5,
            Key::Semicolon => VK_OEM_1,
            Key::Apostrophe => VK_OEM_7,
            Key::Comma => VK_OEM_COMMA,
            Key::Period => VK_OEM_PERIOD,
            Key::ForwardSlash => VK_OEM_2,
            Key::Enter => VK_RETURN,
            Key::Space => VK_SPACE,
            Key::LeftControl => VK_LCONTROL,
            Key::RightControl => VK_RCONTROL,
            Key::LeftShift => VK_LSHIFT,
            Key::RightShift => VK_RSHIFT,
            Key::LeftAlt => VK_LMENU,
            Key::RightAlt => VK_RMENU,
            Key::LeftWin => VK_LWIN,
            Key::RightWin => VK_RWIN,
            Key::Apps => VK_APPS,
            Key::Tab => VK_TAB,
            Key::CapsLock => VK_CAPITAL,
            Key::Up => VK_UP,
            Key::Down => VK_DOWN,
            Key::Left => VK_LEFT,
            Key::Right => VK_RIGHT,
            Key::NumLock => VK_NUMLOCK,
            Key::Numpad1 => VK_NUMPAD1,
            Key::Numpad2 => VK_NUMPAD2,
            Key::Numpad3 => VK_NUMPAD3,
            Key::Numpad4 => VK_NUMPAD4,
            Key::Numpad5 => VK_NUMPAD5,
            Key::Numpad6 => VK_NUMPAD6,
            Key::Numpad7 => VK_NUMPAD7,
            Key::Numpad8 => VK_NUMPAD8,
            Key::Numpad9 => VK_NUMPAD9,
            Key::Numpad0 => VK_NUMPAD0,
            Key::NumpadPlus => VK_ADD,
            Key::NumpadMinus => VK_SUBTRACT,
            Key::NumpadMultiply => VK_MULTIPLY,
            Key::NumpadDivide => VK_DIVIDE,
            Key::NumpadSeparator => VK_SEPARATOR,
            Key::NumpadDot => VK_DECIMAL,
            Key::NumpadEnter => VK_RETURN,
            Key::MouseLeft => VK_LBUTTON,
            Key::MouseRight => VK_RBUTTON,
            Key::MouseMiddle => VK_MBUTTON,
            Key::MouseX1 => VK_XBUTTON1,
            Key::MouseX2 => VK_XBUTTON2,
            Key::Unknown => 0,
        }
    }

    /// Whether the virtual-key code of the key stands for it only together
    /// with the extended flag.
    pub open spec fn needs_extended_flag(self) -> bool {
        self == Key::NumpadEnter
    }

    /// The virtual-key code of a key leads back to the key: with the extended
    /// flag for the numpad's enter key, which shares its code with the main
    /// one, and without it for every other key but `Unknown`.
    pub proof fn lemma_virtual_key_round_trip(self)
        requires
            self != Key::Unknown,
        ensures
            Self::spec_from_virtual_key(self.spec_to_virtual_key(), self.needs_extended_flag())
                == self,
    {
    }

    /// No virtual-key code stands for `Unknown`'s code, and none above the
    /// one-byte range stands for a key.
    pub proof fn lemma_virtual_key_range(virtual_key: u16, is_extend: bool)
        ensures
            virtual_key == 0 || virtual_key > 0xFF ==> Self::spec_from_virtual_key(
                virtual_key,
                is_extend,
            ) == Key::Unknown,
    {
    }
}

} // verus!
