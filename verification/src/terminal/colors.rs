//! The standard ANSI palette and the xterm 256-color table.

use vstd::prelude::*;

verus! {

pub const BLACK: u32 = 0xFF000000;
pub const RED: u32 = 0xFFCD0000;
pub const GREEN: u32 = 0xFF00CD00;
pub const YELLOW: u32 = 0xFFCDCD00;
pub const BLUE: u32 = 0xFF0000EE;
pub const MAGENTA: u32 = 0xFFCD00CD;
pub const CYAN: u32 = 0xFF00CDCD;
pub const WHITE: u32 = 0xFFE5E5E5;

pub const BRIGHT_BLACK: u32 = 0xFF7F7F7F;
pub const BRIGHT_RED: u32 = 0xFFFF0000;
pub const BRIGHT_GREEN: u32 = 0xFF00FF00;
pub const BRIGHT_YELLOW: u32 = 0xFFFFFF00;
pub const BRIGHT_BLUE: u32 = 0xFF5C5CFF;
pub const BRIGHT_MAGENTA: u32 = 0xFFFF00FF;
pub const BRIGHT_CYAN: u32 = 0xFF00FFFF;
pub const BRIGHT_WHITE: u32 = 0xFFFFFFFF;

/// An opaque ARGB color from its red, green and blue channels.
pub open spec fn rgb(r: int, g: int, b: int) -> int {
    0xFF000000 + r * 0x10000 + g * 0x100 + b
}

/// Intensity of one axis of the 6x6x6 color cube.
pub open spec fn cube_level(v: int) -> int {
    if v == 0 {
        0
    } else {
        v * 40 + 55
    }
}

/// The palette entry of `index`: the 16 named colors, then the 6x6x6 cube for
/// 16..=231, then a 24-step gray ramp for 232..=255.
pub open spec fn palette(index: u8) -> u32 {
    if index == 0 {
        BLACK
    } else if index == 1 {
        RED
    } else if index == 2 {
        GREEN
    } else if index == 3 {
        YELLOW
    } else if index == 4 {
        BLUE
    } else if index == 5 {
        MAGENTA
    } else if index == 6 {
        CYAN
    } else if index == 7 {
        WHITE
    } else if index == 8 {
        BRIGHT_BLACK
    } else if index == 9 {
        BRIGHT_RED
    } else if index == 10 {
        BRIGHT_GREEN
    } else if index == 11 {
        BRIGHT_YELLOW
    } else if index == 12 {
        BRIGHT_BLUE
    } else if index == 13 {
        BRIGHT_MAGENTA
    } else if index == 14 {
        BRIGHT_CYAN
    } else if index == 15 {
        BRIGHT_WHITE
    } else if index <= 231 {
        let n = index - 16;
        rgb(cube_level((n / 36) % 6), cube_level((n / 6) % 6), cube_level(n % 6)) as u32
    } else {
        let v = (index - 232) * 10 + 8;
        rgb(v, v, v) as u32
    }
}

fn channel(v: u8) -> (r: u32)
    requires
        v < 6,
    ensures
        r == cube_level(v as int),
        r < 256,
{
    if v == 0 {
        0
    } else {
        v as u32 * 40 + 55
    }
}

fn pack_rgb(r: u32, g: u32, b: u32) -> (c: u32)
    requires
        r < 256,
        g < 256,
        b < 256,
    ensures
        c == rgb(r as int, g as int, b as int),
{
    assert(0xFF000000u32 | (r << 16u32) | (g << 8u32) | b == 0xFF000000u32 + r * 0x10000 + g * 0x100 + b)
        by (bit_vector)
        requires
            r < 256,
            g < 256,
            b < 256,
    ;
    0xFF000000u32 | (r << 16u32) | (g << 8u32) | b
}

/// The ANSI palette color for `index` (0-255).
pub fn ansi_color(index: u8) -> (c: u32)
    ensures
        c == palette(index),
{
    if index < 16 {
        match index {
            0 => BLACK,
            1 => RED,
            2 => GREEN,
            3 => YELLOW,
            4 => BLUE,
            5 => MAGENTA,
            6 => CYAN,
            7 => WHITE,
            8 => BRIGHT_BLACK,
            9 => BRIGHT_RED,
            10 => BRIGHT_GREEN,
            11 => BRIGHT_YELLOW,
            12 => BRIGHT_BLUE,
            13 => BRIGHT_MAGENTA,
            14 => BRIGHT_CYAN,
            _ => BRIGHT_WHITE,
        }
    } else if index <= 231 {
        let n = index - 16;
        let r = channel((n / 36) % 6);
        let g = channel((n / 6) % 6);
        let b = channel(n % 6);
        pack_rgb(r, g, b)
    } else {
        let v = ((index - 232) * 10 + 8) as u32;
        pack_rgb(v, v, v)
    }
}

} // verus!
