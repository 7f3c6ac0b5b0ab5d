use vstd::prelude::*;

verus! {

/// A colour of four bytes, red, green, blue and alpha, with the alpha not
/// multiplied into the other three.
#[derive(Debug, Clone, Copy, Eq)]
pub struct UColor32(pub [u8; 4]);

impl PartialEq for UColor32 {
    fn eq(&self, other: &Self) -> (equal: bool) {
        self.0[0] == other.0[0] && self.0[1] == other.0[1] && self.0[2] == other.0[2] && self.0[3]
            == other.0[3]
    }
}

impl vstd::std_specs::cmp::PartialEqSpecImpl for UColor32 {
    open spec fn obeys_eq_spec() -> bool {
        true
    }

    open spec fn eq_spec(&self, other: &Self) -> bool {
        self.0[0] == other.0[0] && self.0[1] == other.0[1] && self.0[2] == other.0[2] && self.0[3]
            == other.0[3]
    }
}

impl Default for UColor32 {
    fn default() -> (color: Self)
        ensures
            color.0@ == seq![0u8, 0u8, 0u8, 0u8],
    {
        Self([0, 0, 0, 0])
    }
}

impl UColor32 {
    /// The colour of these four channels.
    pub open spec fn rgba(r: u8, g: u8, b: u8, a: u8) -> Seq<u8> {
        seq![r, g, b, a]
    }

    /// Two colours with the same channels are one colour.
    pub proof fn lemma_same_channels(self, other: UColor32)
        requires
            self.0@ == other.0@,
        ensures
            self == other,
    {
        assert(self.0 =~= other.0);
    }

    pub fn transparent() -> (color: Self)
        ensures
            color.0@ == Self::rgba(0, 0, 0, 0),
    {
        Self([0, 0, 0, 0])
    }

    pub fn black() -> (color: Self)
        ensures
            color.0@ == Self::rgba(0, 0, 0, 255),
    {
        Self([0, 0, 0, 255])
    }

    pub fn dark_gray() -> (color: Self)
        ensures
            color.0@ == Self::rgba(96, 96, 96, 255),
    {
        Self([96, 96, 96, 255])
    }

    pub fn gray() -> (color: Self)
        ensures
            color.0@ == Self::rgba(160, 160, 160, 255),
    {
        Self([160, 160, 160, 255])
    }

    pub fn light_gray() -> (color: Self)
        ensures
            color.0@ == Self::rgba(220, 220, 220, 255),
    {
        Self([220, 220, 220, 255])
    }

    pub fn white() -> (color: Self)
        ensures
            color.0@ == Self::rgba(255, 255, 255, 255),
    {
        Self([255, 255, 255, 255])
    }

    pub fn brown() -> (color: Self)
        ensures
            color.0@ == Self::rgba(165, 42, 42, 255),
    {
        Self([165, 42, 42, 255])
    }

    pub fn dark_red() -> (color: Self)
        ensures
            color.0@ == Self::rgba(139, 0, 0, 255),
    {
        Self([139, 0, 0, 255])
    }

    pub fn red() -> (color: Self)
        ensures
            color.0@ == Self::rgba(255, 0, 0, 255),
    {
        Self([255, 0, 0, 255])
    }

    pub fn light_red() -> (color: Self)
        ensures
            color.0@ == Self::rgba(255, 128, 128, 255),
    {
        Self([255, 128, 128, 255])
    }

    pub fn yellow() -> (color: Self)
        ensures
            color.0@ == Self::rgba(255, 255, 0, 255),
    {
        Self([255, 255, 0, 255])
    }

    pub fn orange() -> (color: Self)
        ensures
            color.0@ == Self::rgba(255, 165, 0, 255),
    {
        Self([255, 165, 0, 255])
    }

    pub fn light_yellow() -> (color: Self)
        ensures
            color.0@ == Self::rgba(255, 255, 224, 255),
    {
        Self([255, 255, 224, 255])
    }

    pub fn khaki() -> (color: Self)
        ensures
            color.0@ == Self::rgba(240, 230, 140, 255),
    {
        Self([240, 230, 140, 255])
    }

    pub fn dark_green() -> (color: Self)
        ensures
            color.0@ == Self::rgba(0, 100, 0, 255),
    {
        Self([0, 100, 0, 255])
    }

    pub fn green() -> (color: Self)
        ensures
            color.0@ == Self::rgba(0, 255, 0, 255),
    {
        Self([0, 255, 0, 255])
    }

    pub fn light_green() -> (color: Self)
        ensures
            color.0@ == Self::rgba(144, 238, 144, 255),
    {
        Self([144, 238, 144, 255])
    }

    pub fn dark_blue() -> (color: Self)
        ensures
            color.0@ == Self::rgba(0, 0, 139, 255),
    {
        Self([0, 0, 139, 255])
    }

    pub fn blue() -> (color: Self)
        ensures
            color.0@ == Self::rgba(0, 0, 255, 255),
    {
        Self([0, 0, 255, 255])
    }

    pub fn light_blue() -> (color: Self)
        ensures
            color.0@ == Self::rgba(173, 216, 230, 255),
    {
        Self([173, 216, 230, 255])
    }

    pub fn gold() -> (color: Self)
        ensures
            color.0@ == Self::rgba(255, 215, 0, 255),
    {
        Self([255, 215, 0, 255])
    }

    #[inline(always)]
    pub fn new(r: u8, g: u8, b: u8, a: u8) -> (color: Self)
        ensures
            color.0@ == Self::rgba(r, g, b, a),
    {
        Self([r, g, b, a])
    }

    #[inline(always)]
    pub fn from_rgb(r: u8, g: u8, b: u8) -> (color: Self)
        ensures
            color.0@ == Self::rgba(r, g, b, 255),
    {
        Self([r, g, b, 255])
    }

    #[inline(always)]
    pub fn with_r(self, r: u8) -> (color: Self)
        ensures
            color.0@ == self.0@.update(0, r),
    {
        let color = Self([r, self.0[1], self.0[2], self.0[3]]);
        color
    }

    #[inline(always)]
    pub fn with_g(self, g: u8) -> (color: Self)
        ensures
            color.0@ == self.0@.update(1, g),
    {
        let color = Self([self.0[0], g, self.0[2], self.0[3]]);
        color
    }

    #[inline(always)]
    pub fn with_b(self, b: u8) -> (color: Self)
        ensures
            color.0@ == self.0@.update(2, b),
    {
        let color = Self([self.0[0], self.0[1], b, self.0[3]]);
        color
    }

    #[inline(always)]
    pub fn with_a(self, a: u8) -> (color: Self)
        ensures
            color.0@ == self.0@.update(3, a),
    {
        let color = Self([self.0[0], self.0[1], self.0[2], a]);
        color
    }

    #[inline(always)]
    pub fn r(&self) -> (r: &u8)
        ensures
            *r == self.0[0],
    {
        &self.0[0]
    }

    #[inline(always)]
    pub fn r_mut(&mut self) -> (r: &mut u8)
        ensures
            *r == old(self).0[0],
            final(self).0@ == old(self).0@.update(0, *final(r)),
    {
        &mut self.0[0]
    }

    #[inline(always)]
    pub fn g(&self) -> (g: &u8)
        ensures
            *g == self.0[1],
    {
        &self.0[1]
    }

    #[inline(always)]
    pub fn g_mut(&mut self) -> (g: &mut u8)
        ensures
            *g == old(self).0[1],
            final(self).0@ == old(self).0@.update(1, *final(g)),
    {
        &mut self.0[1]
    }

    #[inline(always)]
    pub fn b(&self) -> (b: &u8)
        ensures
            *b == self.0[2],
    {
        &self.0[2]
    }

    #[inline(always)]
    pub fn b_mut(&mut self) -> (b: &mut u8)
        ensures
            *b == old(self).0[2],
            final(self).0@ == old(self).0@.update(2, *final(b)),
    {
        &mut self.0[2]
    }

    #[inline(always)]
    pub fn a(&self) -> (a: &u8)
        ensures
            *a == self.0[3],
    {
        &self.0[3]
    }

    #[inline(always)]
    pub fn a_mut(&mut self) -> (a: &mut u8)
        ensures
            *a == old(self).0[3],
            final(self).0@ == old(self).0@.update(3, *final(a)),
    {
        &mut self.0[3]
    }

}

impl From<[u8; 4]> for UColor32 {
    #[inline(always)]
    fn from(value: [u8; 4]) -> (color: Self) {
        Self(value)
    }
}

impl vstd::std_specs::convert::FromSpecImpl<[u8; 4]> for UColor32 {
    open spec fn obeys_from_spec() -> bool {
        true
    }

    open spec fn from_spec(value: [u8; 4]) -> Self {
        UColor32(value)
    }
}

impl From<UColor32> for [u8; 4] {
    #[inline(always)]
    fn from(value: UColor32) -> (channels: Self) {
        value.0
    }
}

impl vstd::std_specs::convert::FromSpecImpl<UColor32> for [u8; 4] {
    open spec fn obeys_from_spec() -> bool {
        true
    }

    open spec fn from_spec(value: UColor32) -> Self {
        value.0
    }
}

impl From<(u8, u8, u8, u8)> for UColor32 {
    #[inline(always)]
    fn from(value: (u8, u8, u8, u8)) -> (color: Self) {
        Self([value.0, value.1, value.2, value.3])
    }
}

impl vstd::std_specs::convert::FromSpecImpl<(u8, u8, u8, u8)> for UColor32 {
    open spec fn obeys_from_spec() -> bool {
        true
    }

    open spec fn from_spec(value: (u8, u8, u8, u8)) -> Self {
        UColor32([value.0, value.1, value.2, value.3])
    }
}

impl From<UColor32> for (u8, u8, u8, u8) {
    #[inline(always)]
    fn from(value: UColor32) -> (channels: Self) {
        (value.0[0], value.0[1], value.0[2], value.0[3])
    }
}

impl vstd::std_specs::convert::FromSpecImpl<UColor32> for (u8, u8, u8, u8) {
    open spec fn obeys_from_spec() -> bool {
        true
    }

    open spec fn from_spec(value: UColor32) -> Self {
        (value.0[0], value.0[1], value.0[2], value.0[3])
    }
}

} // verus!
