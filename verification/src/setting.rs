use vstd::prelude::*;
use crate::key::Key;
use crate::key_property::{KeyDirection, KeyProperty, Pos2};

verus! {

/// The size of the overlay window, in the length unit of the indicators.
#[derive(Debug, Clone, Copy, PartialEq, Eq, Structural)]
pub struct WindowSetting {
    pub width: i32,
    pub height: i32,
}

impl WindowSetting {
    pub const DEFAULT_WIDTH: i32 = 600;

    pub const DEFAULT_HEIGHT: i32 = 600;

    pub fn with_width(self, width: i32) -> (window_setting: Self)
        ensures
            window_setting == (WindowSetting { width, ..self }),
    {
        let mut window_setting = self;
        window_setting.width = width;
        window_setting
    }

    pub fn with_height(self, height: i32) -> (window_setting: Self)
        ensures
            window_setting == (WindowSetting { height, ..self }),
    {
        let mut window_setting = self;
        window_setting.height = height;
        window_setting
    }
}

impl Default for WindowSetting {
    fn default() -> (window_setting: Self)
        ensures
            window_setting == WindowSetting::spec_default(),
    {
        Self { width: Self::DEFAULT_WIDTH, height: Self::DEFAULT_HEIGHT }
    }
}

/// The window and the indicators in it, in the order in which they are numbered.
#[derive(Debug, Clone)]
pub struct Setting {
    pub window_setting: WindowSetting,
    pub key_properties: Vec<KeyProperty>,
}

impl Default for Setting {
    fn default() -> (setting: Self)
        ensures
            setting.wf(),
            setting.window_setting == WindowSetting::spec_default(),
            setting.key_properties@ == Setting::spec_property_zxc(),
    {
        Self::default_zxc()
    }
}

impl WindowSetting {
    /// The window of the built-in settings.
    pub open spec fn spec_default() -> WindowSetting {
        WindowSetting { width: WindowSetting::DEFAULT_WIDTH, height: WindowSetting::DEFAULT_HEIGHT }
    }
}

impl Setting {
    /// The most indicators that a setting may hold: their numbers are handed
    /// on as `u32`.
    pub const MAX_KEY_PROPERTIES: usize = 0xFFFF_FFFF;

    /// The edge of the square indicators of the built-in settings.
    pub const DEFAULT_EDGE: i32 = 100;

    /// Every indicator has a bar speed above zero, and there are no more
    /// indicators than can be numbered.
    pub open spec fn wf(&self) -> bool {
        &&& self.key_properties@.len() <= Self::MAX_KEY_PROPERTIES
        &&& forall|i: int|
            0 <= i < self.key_properties@.len() ==> (#[trigger] self.key_properties@[i]).wf()
    }

    pub fn is_valid(&self) -> (valid: bool)
        ensures
            valid == self.wf(),
    {
        if self.key_properties.len() > Self::MAX_KEY_PROPERTIES {
            return false;
        }
        let mut index: usize = 0;
        while index < self.key_properties.len()
            invariant
                index <= self.key_properties@.len(),
                forall|i: int| 0 <= i < index ==> (#[trigger] self.key_properties@[i]).wf(),
            decreases self.key_properties@.len() - index,
        {
            if !self.key_properties[index].is_valid() {
                return false;
            }
            index = index + 1;
        }
        true
    }

    /// An indicator of the built-in settings: a square of `DEFAULT_EDGE`
    /// with its corner at `(x, y)` that counts the presses of `key_bind`,
    /// everything else as `KeyProperty::default` has it.
    pub open spec fn spec_indicator(
        key_bind: Key,
        x: i32,
        y: i32,
        key_direction: KeyDirection,
    ) -> KeyProperty {
        KeyProperty {
            key_bind,
            position: Pos2 { x, y },
            width: Self::DEFAULT_EDGE,
            height: Self::DEFAULT_EDGE,
            bar_speed: KeyProperty::DEFAULT_BAR_SPEED,
            max_distance: None,
            key_direction,
            key_counter: true,
        }
    }

    fn indicator(key_bind: Key, x: i32, y: i32, key_direction: KeyDirection) -> (key_property:
        KeyProperty)
        ensures
            key_property == Self::spec_indicator(key_bind, x, y, key_direction),
    {
        KeyProperty::default().with_key_bind(key_bind).with_width(Self::DEFAULT_EDGE).with_height(
            Self::DEFAULT_EDGE,
        ).with_position(Pos2::new(x, y)).with_key_direction(key_direction).with_key_counter(true)
    }

    /// Three indicators side by side near the lower edge of the window, for
    /// the keys Z, X and C, with bars that travel up.
    pub open spec fn spec_property_zxc() -> Seq<KeyProperty> {
        seq![
            Self::spec_indicator(Key::KeyZ, 100, 400, KeyDirection::Up),
            Self::spec_indicator(Key::KeyX, 250, 400, KeyDirection::Up),
            Self::spec_indicator(Key::KeyC, 400, 400, KeyDirection::Up),
        ]
    }

    /// The indicators of `spec_property_zxc`, for the left, middle and
    /// right mouse button.
    pub open spec fn spec_property_mouse() -> Seq<KeyProperty> {
        seq![
            Self::spec_indicator(Key::MouseLeft, 100, 400, KeyDirection::Up),
            Self::spec_indicator(Key::MouseMiddle, 250, 400, KeyDirection::Up),
            Self::spec_indicator(Key::MouseRight, 400, 400, KeyDirection::Up),
        ]
    }

    /// Four indicators at the corners of a square, one for each arrow key,
    /// each with bars that travel where its arrow points.
    pub open spec fn spec_property_four_directions() -> Seq<KeyProperty> {
        seq![
            Self::spec_indicator(Key::Left, 150, 150, KeyDirection::Left),
            Self::spec_indicator(Key::Up, 350, 150, KeyDirection::Up),
            Self::spec_indicator(Key::Right, 350, 350, KeyDirection::Right),
            Self::spec_indicator(Key::Down, 150, 350, KeyDirection::Down),
        ]
    }

    fn property_zxc() -> (key_properties: Vec<KeyProperty>)
        ensures
            key_properties@ == Self::spec_property_zxc(),
    {
        let width = Self::DEFAULT_EDGE;
        let height = Self::DEFAULT_EDGE;
        let pos_x = WindowSetting::DEFAULT_WIDTH / 4;
        let pos_x_diff = width / 2;
        let pos_y = WindowSetting::DEFAULT_HEIGHT - height - 100;
        let mut key_properties: Vec<KeyProperty> = Vec::new();
        key_properties.push(Self::indicator(Key::KeyZ, pos_x - pos_x_diff, pos_y, KeyDirection::Up));
        key_properties.push(
            Self::indicator(Key::KeyX, pos_x * 2 - pos_x_diff, pos_y, KeyDirection::Up),
        );
        key_properties.push(
            Self::indicator(Key::KeyC, pos_x * 3 - pos_x_diff, pos_y, KeyDirection::Up),
        );
        key_properties
    }

    fn property_mouse() -> (key_properties: Vec<KeyProperty>)
        ensures
            key_properties@ == Self::spec_property_mouse(),
    {
        let zxc = Self::property_zxc();
        let mut key_properties: Vec<KeyProperty> = Vec::new();
        key_properties.push(zxc[0].with_key_bind(Key::MouseLeft));
        key_properties.push(zxc[1].with_key_bind(Key::MouseMiddle));
        key_properties.push(zxc[2].with_key_bind(Key::MouseRight));
        key_properties
    }

    fn property_four_directions() -> (key_properties: Vec<KeyProperty>)
        ensures
            key_properties@ == Self::spec_property_four_directions(),
    {
        let window_width = WindowSetting::DEFAULT_WIDTH;
        let width = Self::DEFAULT_EDGE;
        let pos_diff: i32 = 150;
        let mut key_properties: Vec<KeyProperty> = Vec::new();
        key_properties.push(Self::indicator(Key::Left, pos_diff, pos_diff, KeyDirection::Left));
        key_properties.push(
            Self::indicator(Key::Up, window_width - pos_diff - width, pos_diff, KeyDirection::Up),
        );
        key_properties.push(
            Self::indicator(
                Key::Right,
                window_width - pos_diff - width,
                window_width - pos_diff - width,
                KeyDirection::Right,
            ),
        );
        key_properties.push(
            Self::indicator(
                Key::Down,
                pos_diff,
                window_width - pos_diff - width,
                KeyDirection::Down,
            ),
        );
        key_properties
    }

    pub fn default_zxc() -> (setting: Self)
        ensures
            setting.wf(),
            setting.window_setting == WindowSetting::spec_default(),
            setting.key_properties@ == Self::spec_property_zxc(),
    {
        Self { window_setting: WindowSetting::default(), key_properties: Self::property_zxc() }
    }

    pub fn default_mouse() -> (setting: Self)
        ensures
            setting.wf(),
            setting.window_setting == WindowSetting::spec_default(),
            setting.key_properties@ == Self::spec_property_mouse(),
    {
        Self { window_setting: WindowSetting::default(), key_properties: Self::property_mouse() }
    }

    pub fn default_four_directions() -> (setting: Self)
        ensures
            setting.wf(),
            setting.window_setting == WindowSetting::spec_default(),
            setting.key_properties@ == Self::spec_property_four_directions(),
    {
        Self {
            window_setting: WindowSetting::default(),
            key_properties: Self::property_four_directions(),
        }
    }
}

} // verus!
