//! Packed 5-6-5 colors in the two channel orders of the panel.
//!
//! A [`LogicalColor`] is what the application draws with: red in the low five
//! bits, blue in the high five. A [`NativeColor`] is what the panel driver
//! takes: red in the high five bits, blue in the low five. Both have the same
//! bit layout, so moving between them keeps the bits and exchanges the red and
//! blue fields.

use vstd::prelude::*;

verus! {

/// Low five bits of a packed value.
pub open spec fn low5(bits: u16) -> u16 {
    bits & 0x1f
}

/// Middle six bits of a packed value.
pub open spec fn mid6(bits: u16) -> u16 {
    (bits >> 5u16) & 0x3f
}

/// High five bits of a packed value.
pub open spec fn high5(bits: u16) -> u16 {
    bits >> 11u16
}

/// The packed value with `high` in the top five bits, `mid` in the middle six
/// and `low` in the bottom five.
pub open spec fn pack565(high: u16, mid: u16, low: u16) -> u16 {
    ((high << 11u16) | (mid << 5u16) | low) as u16
}

proof fn lemma_pack565(high: u16, mid: u16, low: u16)
    requires
        high < 32,
        mid < 64,
        low < 32,
    ensures
        high5(pack565(high, mid, low)) == high,
        mid6(pack565(high, mid, low)) == mid,
        low5(pack565(high, mid, low)) == low,
{
    assert(((((high << 11u16) | (mid << 5u16) | low) as u16) >> 11u16) == high) by (bit_vector)
        requires
            high < 32,
            mid < 64,
            low < 32,
    ;
    assert((((((high << 11u16) | (mid << 5u16) | low) as u16) >> 5u16) & 0x3f) == mid)
        by (bit_vector)
        requires
            high < 32,
            mid < 64,
            low < 32,
    ;
    assert(((((high << 11u16) | (mid << 5u16) | low) as u16) & 0x1f) == low) by (bit_vector)
        requires
            high < 32,
            mid < 64,
            low < 32,
    ;
}

/// A color in the order the application draws with (blue, green, red from
/// the high bits down).
#[derive(Clone, Copy, Debug, PartialEq, Eq, Structural)]
pub struct LogicalColor {
    pub bits: u16,
}

/// A color in the order the panel driver takes (red, green, blue from the
/// high bits down).
#[derive(Clone, Copy, Debug, PartialEq, Eq, Structural)]
pub struct NativeColor {
    pub bits: u16,
}

impl LogicalColor {
    pub open spec fn red(self) -> u16 {
        low5(self.bits)
    }

    pub open spec fn green(self) -> u16 {
        mid6(self.bits)
    }

    pub open spec fn blue(self) -> u16 {
        high5(self.bits)
    }

    /// The color with the given 5-bit red, 6-bit green and 5-bit blue.
    pub fn new(r: u8, g: u8, b: u8) -> (c: LogicalColor)
        requires
            r < 32,
            g < 64,
            b < 32,
        ensures
            c.red() == r,
            c.green() == g,
            c.blue() == b,
            c.bits == pack565(b as u16, g as u16, r as u16),
    {
        let bits: u16 = ((b as u16) << 11u16) | ((g as u16) << 5u16) | (r as u16);
        proof {
            lemma_pack565(b as u16, g as u16, r as u16);
        }
        LogicalColor { bits }
    }

    pub fn r(&self) -> (v: u8)
        ensures
            v == self.red(),
    {
        let bits: u16 = self.bits;
        assert(bits & 0x1f < 32) by (bit_vector);
        (bits & 0x1f) as u8
    }

    pub fn g(&self) -> (v: u8)
        ensures
            v == self.green(),
    {
        let bits: u16 = self.bits;
        assert((bits >> 5u16) & 0x3f < 64) by (bit_vector);
        ((bits >> 5u16) & 0x3f) as u8
    }

    pub fn b(&self) -> (v: u8)
        ensures
            v == self.blue(),
    {
        let bits: u16 = self.bits;
        assert(bits >> 11u16 < 32) by (bit_vector);
        (bits >> 11u16) as u8
    }

    pub fn black() -> (c: LogicalColor)
        ensures
            c.red() == 0 && c.green() == 0 && c.blue() == 0,
            c.bits == 0x0000,
    {
        assert(((0u16 << 11u16) | (0u16 << 5u16) | 0u16) as u16 == 0x0000u16) by (bit_vector);
        LogicalColor::new(0, 0, 0)
    }

    pub fn white() -> (c: LogicalColor)
        ensures
            c.red() == 31 && c.green() == 63 && c.blue() == 31,
            c.bits == 0xffff,
    {
        assert(((31u16 << 11u16) | (63u16 << 5u16) | 31u16) as u16 == 0xffffu16) by (bit_vector);
        LogicalColor::new(31, 63, 31)
    }

    pub fn red_color() -> (c: LogicalColor)
        ensures
            c.red() == 31 && c.green() == 0 && c.blue() == 0,
            c.bits == 0x001f,
    {
        assert(((0u16 << 11u16) | (0u16 << 5u16) | 31u16) as u16 == 0x001fu16) by (bit_vector);
        LogicalColor::new(31, 0, 0)
    }

    pub fn blue_color() -> (c: LogicalColor)
        ensures
            c.red() == 0 && c.green() == 0 && c.blue() == 31,
            c.bits == 0xf800,
    {
        assert(((31u16 << 11u16) | (0u16 << 5u16) | 0u16) as u16 == 0xf800u16) by (bit_vector);
        LogicalColor::new(0, 0, 31)
    }

    pub fn yellow() -> (c: LogicalColor)
        ensures
            c.red() == 31 && c.green() == 63 && c.blue() == 0,
            c.bits == 0x07ff,
    {
        assert(((0u16 << 11u16) | (63u16 << 5u16) | 31u16) as u16 == 0x07ffu16) by (bit_vector);
        LogicalColor::new(31, 63, 0)
    }

    /// The CSS color "dark slate gray", (47, 79, 79) in 8-bit channels,
    /// rounded to 5-6-5.
    pub fn dark_slate_gray() -> (c: LogicalColor)
        ensures
            c.red() == 6 && c.green() == 20 && c.blue() == 10,
            c.bits == 0x5286,
    {
        assert(((10u16 << 11u16) | (20u16 << 5u16) | 6u16) as u16 == 0x5286u16) by (bit_vector);
        LogicalColor::new(6, 20, 10)
    }
}

impl NativeColor {
    pub open spec fn red(self) -> u16 {
        high5(self.bits)
    }

    pub open spec fn green(self) -> u16 {
        mid6(self.bits)
    }

    pub open spec fn blue(self) -> u16 {
        low5(self.bits)
    }
}

/// The native color with the same bits as `c`.
pub open spec fn native_of(c: LogicalColor) -> NativeColor {
    NativeColor { bits: c.bits }
}

/// The logical color with the same bits as `n`.
pub open spec fn logical_of(n: NativeColor) -> LogicalColor {
    LogicalColor { bits: n.bits }
}

/// Reinterprets a logical color for the panel driver: the bits stay, so the
/// driver's red field holds the logical blue and its blue field the logical
/// red.
pub fn to_native(c: LogicalColor) -> (n: NativeColor)
    ensures
        n == native_of(c),
        n.bits == c.bits,
        n.red() == c.blue(),
        n.green() == c.green(),
        n.blue() == c.red(),
{
    NativeColor { bits: c.bits }
}

/// Reinterprets a native color in the application's channel order.
pub fn to_logical(n: NativeColor) -> (c: LogicalColor)
    ensures
        c == logical_of(n),
        c.bits == n.bits,
        c.red() == n.blue(),
        c.green() == n.green(),
        c.blue() == n.red(),
{
    LogicalColor { bits: n.bits }
}

/// Moving to the other channel order and back gives the color unchanged, in
/// both directions.
pub proof fn lemma_color_round_trip(n: NativeColor, c: LogicalColor)
    ensures
        native_of(logical_of(n)) == n,
        logical_of(native_of(c)) == c,
{
}

} // verus!
