use vstd::prelude::*;
use crate::key::Key;
use crate::key_message::KeyMessage;
use crate::transport::{after_sends, dropped_by_sends, Transport};
use crate::virtual_key_codes::VK_SHIFT;

verus! {

/// The bit of a raw keyboard input's flags that says that the key came up.
pub const RI_KEY_BREAK: u16 = 1;

/// The bit of a raw keyboard input's flags that says that the scan code has
/// the prefix E0.
pub const RI_KEY_E0: u16 = 2;

/// The scan code of the right shift key.
pub const MAKE_CODE_RIGHT_SHIFT: u16 = 0x0036;

/// The scan code that, with the prefix E0, is the print-screen key.
pub const MAKE_CODE_PRINT_SCREEN: u16 = 0x0037;

/// What the state engine reads of one raw keyboard input.
#[derive(Debug, Clone, Copy, PartialEq, Eq, Structural)]
pub struct RawKeyboard {
    pub virtual_key: u16,
    pub make_code: u16,
    pub has_e0: bool,
    pub key_is_down: bool,
}

/// What the state engine reads of one raw mouse input: which buttons went
/// down and which came up with it.
#[derive(Debug, Clone, Copy, PartialEq, Eq, Structural)]
pub struct RawMouse {
    pub left_button_down: bool,
    pub right_button_down: bool,
    pub middle_button_down: bool,
    pub ext1_button_down: bool,
    pub ext2_button_down: bool,
    pub left_button_up: bool,
    pub right_button_up: bool,
    pub middle_button_up: bool,
    pub ext1_button_up: bool,
    pub ext2_button_up: bool,
}

/// One raw input of the keyboard or of the mouse.
#[derive(Debug, Clone, Copy, PartialEq, Eq, Structural)]
pub enum RawInput {
    Keyboard(RawKeyboard),
    Mouse(RawMouse),
}

/// The message of a button, where `happened` says that there is one.
pub open spec fn button_message(happened: bool, key: Key, is_pressed: bool, instant: u64) -> Seq<
    KeyMessage,
> {
    if happened {
        seq![KeyMessage { key, is_pressed, instant }]
    } else {
        Seq::empty()
    }
}

/// Whether each of the messages is one of a key that the overlay knows,
/// and bears the instant `instant`.
pub open spec fn known_at(key_messages: Seq<KeyMessage>, instant: u64) -> bool {
    forall|i: int|
        0 <= i < key_messages.len() ==> (#[trigger] key_messages[i]).key != Key::Unknown
            && key_messages[i].instant == instant
}

impl RawKeyboard {
    /// A raw keyboard input by its flags: the key is down unless the flags
    /// say that it came up, and the scan code is prefixed where they say so.
    pub open spec fn spec_from_flags(virtual_key: u16, make_code: u16, flags: u16) -> RawKeyboard {
        RawKeyboard {
            virtual_key,
            make_code,
            has_e0: flags & RI_KEY_E0 != 0,
            key_is_down: flags & RI_KEY_BREAK == 0,
        }
    }

    pub fn from_flags(virtual_key: u16, make_code: u16, flags: u16) -> (keyboard: Self)
        ensures
            keyboard == Self::spec_from_flags(virtual_key, make_code, flags),
    {
        Self {
            virtual_key,
            make_code,
            has_e0: flags & RI_KEY_E0 != 0,
            key_is_down: flags & RI_KEY_BREAK == 0,
        }
    }

    /// Whether the input is that of the right-hand or numpad twin of a key:
    /// for the shift keys the scan code tells, for every other key the
    /// prefix does.
    pub open spec fn is_extend(self) -> bool {
        if self.virtual_key == VK_SHIFT {
            self.make_code == MAKE_CODE_RIGHT_SHIFT
        } else {
            self.has_e0
        }
    }

    /// The key of the input: print screen by its scan code, every other key
    /// by its virtual-key code; `Key::Unknown` for an input of no key that
    /// the overlay knows.
    pub open spec fn spec_key(self) -> Key {
        if self.make_code == MAKE_CODE_PRINT_SCREEN && self.is_extend() {
            Key::PrintScreen
        } else {
            Key::spec_from_virtual_key(self.virtual_key, self.is_extend())
        }
    }

    pub fn key(&self) -> (key: Key)
        ensures
            key == self.spec_key(),
    {
        let is_extend = if self.virtual_key == VK_SHIFT {
            self.make_code == MAKE_CODE_RIGHT_SHIFT
        } else {
            self.has_e0
        };
        if self.make_code == MAKE_CODE_PRINT_SCREEN && is_extend {
            Key::PrintScreen
        } else {
            Key::from_virtual_key(self.virtual_key, is_extend)
        }
    }

    /// The message that the input gives at `instant`; none where its key is
    /// `Key::Unknown`.
    pub open spec fn spec_key_message(self, instant: u64) -> Option<KeyMessage> {
        if self.spec_key() == Key::Unknown {
            None
        } else {
            Some(KeyMessage { key: self.spec_key(), is_pressed: self.key_is_down, instant })
        }
    }

    pub fn key_message(&self, instant: u64) -> (key_message: Option<KeyMessage>)
        ensures
            key_message == self.spec_key_message(instant),
    {
        let key = self.key();
        if key == Key::Unknown {
            None
        } else {
            Some(KeyMessage::new(key, self.key_is_down, instant))
        }
    }
}

impl RawMouse {
    /// The messages that the input gives at `instant`: first the buttons
    /// that went down, then those that came up, each time left, right,
    /// middle, first and second extra button.
    pub open spec fn spec_key_messages(self, instant: u64) -> Seq<KeyMessage> {
        button_message(self.left_button_down, Key::MouseLeft, true, instant) + button_message(
            self.right_button_down,
            Key::MouseRight,
            true,
            instant,
        ) + button_message(self.middle_button_down, Key::MouseMiddle, true, instant)
            + button_message(self.ext1_button_down, Key::MouseX1, true, instant) + button_message(
            self.ext2_button_down,
            Key::MouseX2,
            true,
            instant,
        ) + button_message(self.left_button_up, Key::MouseLeft, false, instant) + button_message(
            self.right_button_up,
            Key::MouseRight,
            false,
            instant,
        ) + button_message(self.middle_button_up, Key::MouseMiddle, false, instant)
            + button_message(self.ext1_button_up, Key::MouseX1, false, instant) + button_message(
            self.ext2_button_up,
            Key::MouseX2,
            false,
            instant,
        )
    }

    pub fn key_messages(&self, instant: u64) -> (key_messages: Vec<KeyMessage>)
        ensures
            key_messages@ == self.spec_key_messages(instant),
    {
        let mut key_messages: Vec<KeyMessage> = Vec::new();
        push_button_message(&mut key_messages, self.left_button_down, Key::MouseLeft, true, instant);
        push_button_message(
            &mut key_messages,
            self.right_button_down,
            Key::MouseRight,
            true,
            instant,
        );
        push_button_message(
            &mut key_messages,
            self.middle_button_down,
            Key::MouseMiddle,
            true,
            instant,
        );
        push_button_message(&mut key_messages, self.ext1_button_down, Key::MouseX1, true, instant);
        push_button_message(&mut key_messages, self.ext2_button_down, Key::MouseX2, true, instant);
        push_button_message(&mut key_messages, self.left_button_up, Key::MouseLeft, false, instant);
        push_button_message(
            &mut key_messages,
            self.right_button_up,
            Key::MouseRight,
            false,
            instant,
        );
        push_button_message(
            &mut key_messages,
            self.middle_button_up,
            Key::MouseMiddle,
            false,
            instant,
        );
        push_button_message(&mut key_messages, self.ext1_button_up, Key::MouseX1, false, instant);
        push_button_message(&mut key_messages, self.ext2_button_up, Key::MouseX2, false, instant);
        key_messages
    }
}

/// A button's message behind messages of known keys leaves messages of
/// known keys.
proof fn lemma_known_at_button(
    key_messages: Seq<KeyMessage>,
    happened: bool,
    key: Key,
    is_pressed: bool,
    instant: u64,
)
    requires
        known_at(key_messages, instant),
        key != Key::Unknown,
    ensures
        known_at(key_messages + button_message(happened, key, is_pressed, instant), instant),
{
}

impl RawMouse {
    /// A raw mouse input gives messages of mouse buttons only, each with
    /// the instant of the input.
    pub proof fn lemma_key_messages(self, instant: u64)
        ensures
            known_at(self.spec_key_messages(instant), instant),
    {
        let m0 = button_message(self.left_button_down, Key::MouseLeft, true, instant);
        let m1 = m0 + button_message(self.right_button_down, Key::MouseRight, true, instant);
        let m2 = m1 + button_message(self.middle_button_down, Key::MouseMiddle, true, instant);
        let m3 = m2 + button_message(self.ext1_button_down, Key::MouseX1, true, instant);
        let m4 = m3 + button_message(self.ext2_button_down, Key::MouseX2, true, instant);
        let m5 = m4 + button_message(self.left_button_up, Key::MouseLeft, false, instant);
        let m6 = m5 + button_message(self.right_button_up, Key::MouseRight, false, instant);
        let m7 = m6 + button_message(self.middle_button_up, Key::MouseMiddle, false, instant);
        let m8 = m7 + button_message(self.ext1_button_up, Key::MouseX1, false, instant);
        lemma_known_at_button(
            Seq::empty(),
            self.left_button_down,
            Key::MouseLeft,
            true,
            instant,
        );
        lemma_known_at_button(m0, self.right_button_down, Key::MouseRight, true, instant);
        lemma_known_at_button(m1, self.middle_button_down, Key::MouseMiddle, true, instant);
        lemma_known_at_button(m2, self.ext1_button_down, Key::MouseX1, true, instant);
        lemma_known_at_button(m3, self.ext2_button_down, Key::MouseX2, true, instant);
        lemma_known_at_button(m4, self.left_button_up, Key::MouseLeft, false, instant);
        lemma_known_at_button(m5, self.right_button_up, Key::MouseRight, false, instant);
        lemma_known_at_button(m6, self.middle_button_up, Key::MouseMiddle, false, instant);
        lemma_known_at_button(m7, self.ext1_button_up, Key::MouseX1, false, instant);
        lemma_known_at_button(m8, self.ext2_button_up, Key::MouseX2, false, instant);
    }
}

fn push_button_message(
    key_messages: &mut Vec<KeyMessage>,
    happened: bool,
    key: Key,
    is_pressed: bool,
    instant: u64,
)
    ensures
        final(key_messages)@ == old(key_messages)@ + button_message(
            happened,
            key,
            is_pressed,
            instant,
        ),
{
    if happened {
        key_messages.push(KeyMessage::new(key, is_pressed, instant));
    }
}

impl RawInput {
    /// The messages that the input gives at `instant`, in the order in
    /// which they are sent.
    pub open spec fn spec_key_messages(self, instant: u64) -> Seq<KeyMessage> {
        match self {
            RawInput::Keyboard(keyboard) => match keyboard.spec_key_message(instant) {
                Some(key_message) => seq![key_message],
                None => Seq::empty(),
            },
            RawInput::Mouse(mouse) => mouse.spec_key_messages(instant),
        }
    }

    pub fn key_messages(&self, instant: u64) -> (key_messages: Vec<KeyMessage>)
        ensures
            key_messages@ == self.spec_key_messages(instant),
    {
        match self {
            RawInput::Keyboard(keyboard) => {
                let mut key_messages: Vec<KeyMessage> = Vec::new();
                match keyboard.key_message(instant) {
                    Some(key_message) => {
                        key_messages.push(key_message);
                    },
                    None => {},
                }
                key_messages
            },
            RawInput::Mouse(mouse) => mouse.key_messages(instant),
        }
    }

    /// No raw input gives a message of `Key::Unknown`, and every message
    /// that it gives bears the instant of the input.
    pub proof fn lemma_key_messages(self, instant: u64)
        ensures
            known_at(self.spec_key_messages(instant), instant),
    {
        match self {
            RawInput::Keyboard(keyboard) => {},
            RawInput::Mouse(mouse) => {
                mouse.lemma_key_messages(instant);
            },
        }
    }
}

/// Sends the messages that `raw_input` gives at `instant` into
/// `msg_sender`. Hands back how many there were, and the older messages
/// that were dropped for them.
pub fn handle_raw_input(raw_input: &RawInput, instant: u64, msg_sender: &mut Transport) -> (handled:
    (usize, Vec<KeyMessage>))
    requires
        old(msg_sender).wf(),
    ensures
        final(msg_sender).wf(),
        final(msg_sender).capacity() == old(msg_sender).capacity(),
        final(msg_sender)@ == after_sends(
            old(msg_sender)@,
            old(msg_sender).capacity(),
            raw_input.spec_key_messages(instant),
        ),
        handled.0 == raw_input.spec_key_messages(instant).len(),
        handled.1@ == dropped_by_sends(
            old(msg_sender)@,
            old(msg_sender).capacity(),
            raw_input.spec_key_messages(instant),
        ),
{
    let key_messages = raw_input.key_messages(instant);
    let dropped = msg_sender.send_all(&key_messages);
    (key_messages.len(), dropped)
}

} // verus!
