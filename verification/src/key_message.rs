use vstd::prelude::*;
use crate::key::Key;

verus! {

/// One transition of a physical key or mouse button.
#[derive(Debug, Clone, Copy, PartialEq, Eq, Structural)]
pub struct KeyMessage {
    pub key: Key,
    pub is_pressed: bool,
    /// Nanoseconds since the caller's epoch.
    pub instant: u64,
}

impl KeyMessage {
    pub fn new(key: Key, is_pressed: bool, instant: u64) -> (message: Self)
        ensures
            message.key == key,
            message.is_pressed == is_pressed,
            message.instant == instant,
    {
        Self { key, is_pressed, instant }
    }
}

} // verus!
