//! A cell is one character of the terminal grid together with its style.

use vstd::prelude::*;

pub use super::colors;

verus! {

/// Bit positions of the display attributes inside `CellAttrs`.
pub const ATTR_BOLD: u8 = 0;
pub const ATTR_ITALIC: u8 = 1;
pub const ATTR_UNDERLINE: u8 = 2;
pub const ATTR_STRIKETHROUGH: u8 = 3;
pub const ATTR_INVERSE: u8 = 4;
pub const ATTR_BLINK: u8 = 5;
pub const ATTR_DIM: u8 = 6;
pub const ATTR_HIDDEN: u8 = 7;

/// Default foreground color (white, ARGB).
pub const DEFAULT_FG: u32 = 0xFFFFFFFF;
/// Default background color (black, ARGB).
pub const DEFAULT_BG: u32 = 0xFF000000;

/// Whether bit `i` of `bits` is set.
pub open spec fn bit_set(bits: u8, i: u8) -> bool {
    (bits >> i) & 1u8 == 1u8
}

/// `bits` with bit `i` forced to `v`.
pub open spec fn with_bit(bits: u8, i: u8, v: bool) -> u8 {
    if v {
        bits | (1u8 << i)
    } else {
        bits & !(1u8 << i)
    }
}

/// Display attributes of a cell, packed into one byte (one bit per attribute).
#[derive(Clone, Copy, PartialEq, Eq, Structural, Debug)]
pub struct CellAttrs {
    bits: u8,
}

impl View for CellAttrs {
    type V = u8;

    closed spec fn view(&self) -> u8 {
        self.bits
    }
}

/// Two attribute values with the same bits are the same value.
pub broadcast proof fn lemma_attrs_view_injective(a: CellAttrs, b: CellAttrs)
    ensures
        #[trigger] a@ == #[trigger] b@ ==> a == b,
{
}

/// Setting an attribute makes it read back as the value set, and leaves every other
/// attribute as it was.
pub proof fn lemma_set_flag_reads_back(bits: u8, i: u8, j: u8, v: bool)
    requires
        i < 8,
        j < 8,
    ensures
        bit_set(with_bit(bits, i, v), i) == v,
        i != j ==> bit_set(with_bit(bits, i, v), j) == bit_set(bits, j),
{
    if v {
        assert(((bits | (1u8 << i)) >> i) & 1u8 == 1u8) by (bit_vector)
            requires i < 8;
        assert(i != j ==> ((((bits | (1u8 << i)) >> j) & 1u8 == 1u8) == (((bits >> j) & 1u8) == 1u8))) by (bit_vector)
            requires i < 8, j < 8;
    } else {
        assert(((bits & !(1u8 << i)) >> i) & 1u8 != 1u8) by (bit_vector)
            requires i < 8;
        assert(i != j ==> ((((bits & !(1u8 << i)) >> j) & 1u8 == 1u8) == (((bits >> j) & 1u8) == 1u8))) by (bit_vector)
            requires i < 8, j < 8;
    }
}

impl CellAttrs {
    /// The attribute value with no attribute set.
    pub closed spec fn spec_plain() -> CellAttrs {
        CellAttrs { bits: 0 }
    }

    /// Whether attribute `i` (one of the `ATTR_*` positions) is set.
    pub open spec fn has(self, i: u8) -> bool {
        bit_set(self@, i)
    }

    /// The attribute value whose bits are `b`.
    pub closed spec fn from_bits(b: u8) -> CellAttrs {
        CellAttrs { bits: b }
    }

    pub broadcast proof fn lemma_from_bits_view(b: u8)
        ensures
            #[trigger] Self::from_bits(b)@ == b,
    {
    }

    pub proof fn lemma_plain_view()
        ensures
            Self::spec_plain()@ == 0,
    {
    }

    pub fn new() -> (a: Self)
        ensures
            a@ == 0,
    {
        CellAttrs { bits: 0 }
    }

    fn get_bit(&self, i: u8) -> (r: bool)
        requires
            i < 8,
        ensures
            r == self.has(i),
    {
        (self.bits >> i) & 1u8 == 1u8
    }

    fn set_bit(&mut self, i: u8, v: bool)
        requires
            i < 8,
        ensures
            final(self)@ == with_bit(old(self)@, i, v),
    {
        if v {
            self.bits = self.bits | (1u8 << i);
        } else {
            self.bits = self.bits & !(1u8 << i);
        }
    }

    pub fn bold(&self) -> (r: bool)
        ensures
            r == self.has(ATTR_BOLD),
    {
        self.get_bit(ATTR_BOLD)
    }

    pub fn set_bold(&mut self, v: bool)
        ensures
            final(self)@ == with_bit(old(self)@, ATTR_BOLD, v),
    {
        self.set_bit(ATTR_BOLD, v)
    }

    pub fn italic(&self) -> (r: bool)
        ensures
            r == self.has(ATTR_ITALIC),
    {
        self.get_bit(ATTR_ITALIC)
    }

    pub fn set_italic(&mut self, v: bool)
        ensures
            final(self)@ == with_bit(old(self)@, ATTR_ITALIC, v),
    {
        self.set_bit(ATTR_ITALIC, v)
    }

    pub fn underline(&self) -> (r: bool)
        ensures
            r == self.has(ATTR_UNDERLINE),
    {
        self.get_bit(ATTR_UNDERLINE)
    }

    pub fn set_underline(&mut self, v: bool)
        ensures
            final(self)@ == with_bit(old(self)@, ATTR_UNDERLINE, v),
    {
        self.set_bit(ATTR_UNDERLINE, v)
    }

    pub fn strikethrough(&self) -> (r: bool)
        ensures
            r == self.has(ATTR_STRIKETHROUGH),
    {
        self.get_bit(ATTR_STRIKETHROUGH)
    }

    pub fn set_strikethrough(&mut self, v: bool)
        ensures
            final(self)@ == with_bit(old(self)@, ATTR_STRIKETHROUGH, v),
    {
        self.set_bit(ATTR_STRIKETHROUGH, v)
    }

    pub fn inverse(&self) -> (r: bool)
        ensures
            r == self.has(ATTR_INVERSE),
    {
        self.get_bit(ATTR_INVERSE)
    }

    pub fn set_inverse(&mut self, v: bool)
        ensures
            final(self)@ == with_bit(old(self)@, ATTR_INVERSE, v),
    {
        self.set_bit(ATTR_INVERSE, v)
    }

    pub fn blink(&self) -> (r: bool)
        ensures
            r == self.has(ATTR_BLINK),
    {
        self.get_bit(ATTR_BLINK)
    }

    pub fn set_blink(&mut self, v: bool)
        ensures
            final(self)@ == with_bit(old(self)@, ATTR_BLINK, v),
    {
        self.set_bit(ATTR_BLINK, v)
    }

    pub fn dim(&self) -> (r: bool)
        ensures
            r == self.has(ATTR_DIM),
    {
        self.get_bit(ATTR_DIM)
    }

    pub fn set_dim(&mut self, v: bool)
        ensures
            final(self)@ == with_bit(old(self)@, ATTR_DIM, v),
    {
        self.set_bit(ATTR_DIM, v)
    }

    pub fn hidden(&self) -> (r: bool)
        ensures
            r == self.has(ATTR_HIDDEN),
    {
        self.get_bit(ATTR_HIDDEN)
    }

    pub fn set_hidden(&mut self, v: bool)
        ensures
            final(self)@ == with_bit(old(self)@, ATTR_HIDDEN, v),
    {
        self.set_bit(ATTR_HIDDEN, v)
    }

    /// True when no attribute is set.
    pub fn is_default(&self) -> (r: bool)
        ensures
            r == (self@ == 0),
    {
        self.bits == 0
    }

    /// Clears every attribute.
    pub fn reset(&mut self)
        ensures
            final(self)@ == 0,
    {
        self.bits = 0;
    }
}

impl Default for CellAttrs {
    fn default() -> (a: Self)
        ensures
            a@ == 0,
    {
        CellAttrs { bits: 0 }
    }
}

/// A single cell of the terminal grid.
#[derive(Clone, Copy, PartialEq, Eq, Structural, Debug)]
pub struct Cell {
    /// The character in this cell (space if empty).
    pub c: char,
    /// Foreground color (ARGB).
    pub fg: u32,
    /// Background color (ARGB).
    pub bg: u32,
    /// Display attributes.
    pub attrs: CellAttrs,
}

/// The empty cell: a space in the default colors with no attribute.
pub open spec fn blank_cell() -> Cell {
    Cell { c: ' ', fg: DEFAULT_FG, bg: DEFAULT_BG, attrs: CellAttrs::spec_plain() }
}

impl Default for Cell {
    fn default() -> (cell: Self)
        ensures
            cell == blank_cell(),
    {
        Cell { c: ' ', fg: DEFAULT_FG, bg: DEFAULT_BG, attrs: CellAttrs { bits: 0 } }
    }
}

impl Cell {
    /// A cell holding `c` in the default colors with no attribute.
    pub fn new(c: char) -> (cell: Self)
        ensures
            cell == (Cell { c: c, ..blank_cell() }),
    {
        Cell { c, fg: DEFAULT_FG, bg: DEFAULT_BG, attrs: CellAttrs { bits: 0 } }
    }

    /// A cell with every part given.
    pub fn styled(c: char, fg: u32, bg: u32, attrs: CellAttrs) -> (cell: Self)
        ensures
            cell == (Cell { c: c, fg: fg, bg: bg, attrs: attrs }),
    {
        Cell { c, fg, bg, attrs }
    }

    /// Whether this cell is the empty cell.
    pub fn is_empty(&self) -> (r: bool)
        ensures
            r == (*self == blank_cell()),
    {
        proof {
            CellAttrs::lemma_plain_view();
            broadcast use lemma_attrs_view_injective;
        }
        self.c == ' ' && self.fg == DEFAULT_FG && self.bg == DEFAULT_BG && self.attrs.is_default()
    }

    /// Turns this cell into the empty cell.
    pub fn reset(&mut self)
        ensures
            *final(self) == blank_cell(),
    {
        *self = Cell::default();
    }
}

} // verus!
