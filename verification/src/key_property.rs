use vstd::prelude::*;
use crate::key::Key;

verus! {

/// A point of the overlay window, counted from its top-left corner.
#[derive(Debug, Clone, Copy, PartialEq, Eq, Structural)]
pub struct Pos2 {
    pub x: i32,
    pub y: i32,
}

impl Pos2 {
    pub fn new(x: i32, y: i32) -> (position: Self)
        ensures
            position.x == x,
            position.y == y,
    {
        Self { x, y }
    }
}

/// The side of its indicator towards which a bar travels.
#[derive(Debug, Clone, Copy, PartialEq, Eq, Hash, Structural)]
pub enum KeyDirection {
    Up,
    Down,
    Left,
    Right,
}

impl Default for KeyDirection {
    fn default() -> (direction: Self)
        ensures
            direction == KeyDirection::Up,
    {
        KeyDirection::Up
    }
}

/// What the state engine reads of one indicator's configuration. Lengths
/// are whole numbers of one unit throughout, and the bar speed is that unit
/// per second.
#[derive(Debug, Clone, Copy, PartialEq, Eq, Structural)]
pub struct KeyProperty {
    /// The key that drives the indicator; `Key::Unknown` for none.
    pub key_bind: Key,
    /// top-left corner
    pub position: Pos2,
    pub width: i32,
    pub height: i32,
    pub bar_speed: u32,
    /// How far a bar stays visible, where that is not left to the window's edge.
    pub max_distance: Option<u32>,
    pub key_direction: KeyDirection,
    /// Whether presses of the key are counted.
    pub key_counter: bool,
}

impl Default for KeyProperty {
    fn default() -> (property: Self)
        ensures
            property == (KeyProperty {
                key_bind: Key::Unknown,
                position: Pos2 { x: 0, y: 0 },
                width: KeyProperty::DEFAULT_WIDTH,
                height: KeyProperty::DEFAULT_HEIGHT,
                bar_speed: KeyProperty::DEFAULT_BAR_SPEED,
                max_distance: None,
                key_direction: KeyDirection::Up,
                key_counter: false,
            }),
    {
        Self {
            key_bind: Key::Unknown,
            position: Pos2 { x: 0, y: 0 },
            width: Self::DEFAULT_WIDTH,
            height: Self::DEFAULT_HEIGHT,
            bar_speed: Self::DEFAULT_BAR_SPEED,
            max_distance: None,
            key_direction: KeyDirection::Up,
            key_counter: false,
        }
    }
}

impl KeyProperty {
    pub const DEFAULT_WIDTH: i32 = 20;

    pub const DEFAULT_HEIGHT: i32 = 20;

    pub const DEFAULT_BAR_SPEED: u32 = 500;

    /// A bar speed of zero gives no time after which a bar has left.
    pub open spec fn wf(&self) -> bool {
        self.bar_speed > 0
    }

    pub fn is_valid(&self) -> (valid: bool)
        ensures
            valid == self.wf(),
    {
        self.bar_speed > 0
    }

    pub fn with_key_bind(self, key_bind: Key) -> (property: Self)
        ensures
            property == (KeyProperty { key_bind, ..self }),
    {
        let mut property = self;
        property.key_bind = key_bind;
        property
    }

    pub fn with_position(self, position: Pos2) -> (property: Self)
        ensures
            property == (KeyProperty { position, ..self }),
    {
        let mut property = self;
        property.position = position;
        property
    }

    pub fn with_width(self, width: i32) -> (property: Self)
        ensures
            property == (KeyProperty { width, ..self }),
    {
        let mut property = self;
        property.width = width;
        property
    }

    pub fn with_height(self, height: i32) -> (property: Self)
        ensures
            property == (KeyProperty { height, ..self }),
    {
        let mut property = self;
        property.height = height;
        property
    }

    pub fn with_bar_speed(self, bar_speed: u32) -> (property: Self)
        ensures
            property == (KeyProperty { bar_speed, ..self }),
    {
        let mut property = self;
        property.bar_speed = bar_speed;
        property
    }

    pub fn with_max_distance(self, max_distance: Option<u32>) -> (property: Self)
        ensures
            property == (KeyProperty { max_distance, ..self }),
    {
        let mut property = self;
        property.max_distance = max_distance;
        property
    }

    pub fn with_key_direction(self, key_direction: KeyDirection) -> (property: Self)
        ensures
            property == (KeyProperty { key_direction, ..self }),
    {
        let mut property = self;
        property.key_direction = key_direction;
        property
    }

    pub fn with_key_counter(self, key_counter: bool) -> (property: Self)
        ensures
            property == (KeyProperty { key_counter, ..self }),
    {
        let mut property = self;
        property.key_counter = key_counter;
        property
    }
}

} // verus!
