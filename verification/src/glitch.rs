use vstd::prelude::*;
use crate::palette::Palette;

verus! {

/// A horizontal streak of the glitch overlay: a filled rectangle.
#[derive(Clone, Copy, Debug, PartialEq, Eq, Structural)]
pub struct Streak {
    pub x: u64,
    pub y: u64,
    pub w: u64,
    pub h: u64,
    pub color: Palette,
}

/// A vertical drip of the glitch overlay: a line of length `len` downwards
/// from `(x, y)`, drawn `stroke` pixels wide.
#[derive(Clone, Copy, Debug, PartialEq, Eq, Structural)]
pub struct Drip {
    pub x: u64,
    pub y: u64,
    pub len: u64,
    pub stroke: u8,
    pub color: Palette,
}

/// Multiplier that scrambles a streak's time stamp into its seed.
pub const STREAK_MULTIPLIER: u64 = 12345;

/// Multiplier that scrambles a drip's time stamp into its seed.
pub const DRIP_MULTIPLIER: u64 = 54321;

/// Seed of a streak from its time stamp.
pub fn streak_seed(stamp: u64) -> (seed: u64)
    requires
        stamp * STREAK_MULTIPLIER <= u64::MAX,
    ensures
        seed == stamp * STREAK_MULTIPLIER,
{
    stamp * STREAK_MULTIPLIER
}

/// Seed of a drip from its time stamp.
pub fn drip_seed(stamp: u64) -> (seed: u64)
    requires
        stamp * DRIP_MULTIPLIER <= u64::MAX,
    ensures
        seed == stamp * DRIP_MULTIPLIER,
{
    stamp * DRIP_MULTIPLIER
}

/// The streak colour picked by a seed: one of four, by the seed modulo 4.
pub open spec fn streak_color(seed: u64) -> Palette {
    if seed % 4 == 0 {
        Palette::Navy
    } else if seed % 4 == 1 {
        Palette::Gray
    } else if seed % 4 == 2 {
        Palette::White
    } else {
        Palette::Black
    }
}

/// The drip colour at height `y`: navy over the title bar (above row 22),
/// black or gray over the menu bar (above row 45) by the seed's parity, and
/// white, dark gray or black below by the seed modulo 3.
pub open spec fn drip_color(seed: u64, y: u64) -> Palette {
    if y < 22 {
        Palette::Navy
    } else if y < 45 {
        if seed % 2 == 0 { Palette::Black } else { Palette::Gray }
    } else if seed % 3 == 0 {
        Palette::White
    } else if seed % 3 == 1 {
        Palette::DarkGray
    } else {
        Palette::Black
    }
}

/// The colour of a drip by screen row: every drip above row 22 (over the
/// title bar) is navy whatever its seed; between rows 22 and 44 (the menu
/// bar) it is black for an even seed and gray for an odd one; lower down it
/// is white, dark gray or black as the seed is 0, 1 or 2 modulo 3.
pub proof fn lemma_drip_color_by_row(seed: u64, y: u64)
    ensures
        y < 22 ==> drip_color(seed, y) == Palette::Navy,
        22 <= y < 45 ==> drip_color(seed, y) == (if seed % 2 == 0 { Palette::Black } else { Palette::Gray }),
        45 <= y && seed % 3 == 0 ==> drip_color(seed, y) == Palette::White,
        45 <= y && seed % 3 == 1 ==> drip_color(seed, y) == Palette::DarkGray,
        45 <= y && seed % 3 == 2 ==> drip_color(seed, y) == Palette::Black,
{
}

/// The colour of a streak cycles through navy, gray, white and black with
/// the seed modulo 4.
pub proof fn lemma_streak_color_cycle(seed: u64)
    ensures
        seed % 4 == 0 ==> streak_color(seed) == Palette::Navy,
        seed % 4 == 1 ==> streak_color(seed) == Palette::Gray,
        seed % 4 == 2 ==> streak_color(seed) == Palette::White,
        seed % 4 == 3 ==> streak_color(seed) == Palette::Black,
{
}

/// The streak that `seed` places on a `width` x `height` screen.
pub fn glitch_streak(seed: u64, width: u64, height: u64) -> (s: Streak)
    requires
        width > 0,
        height > 0,
    ensures
        s.x == (seed >> 4u64) % width,
        s.y == (seed >> 8u64) % height,
        s.w == (seed >> 12u64) % 150 + 20,
        s.h == (seed >> 16u64) % 8 + 2,
        s.color == streak_color(seed),
        seed % 4 == 0 ==> s.color == Palette::Navy,
        seed % 4 == 1 ==> s.color == Palette::Gray,
        seed % 4 == 2 ==> s.color == Palette::White,
        seed % 4 == 3 ==> s.color == Palette::Black,
        s.x < width,
        s.y < height,
{
    let color = match seed % 4 {
        0 => Palette::Navy,
        1 => Palette::Gray,
        2 => Palette::White,
        _ => Palette::Black,
    };
    Streak {
        x: (seed >> 4u64) % width,
        y: (seed >> 8u64) % height,
        w: (seed >> 12u64) % 150 + 20,
        h: (seed >> 16u64) % 8 + 2,
        color,
    }
}

/// The drip that `seed` places on a `width` x `height` screen.
pub fn glitch_drip(seed: u64, width: u64, height: u64) -> (d: Drip)
    requires
        width > 0,
        height > 0,
    ensures
        d.x == (seed >> 3u64) % width,
        d.y == (seed >> 7u64) % height,
        d.len == (seed >> 11u64) % 60 + 10,
        d.stroke == (if seed % 2 == 0 { 2u8 } else { 4u8 }),
        d.color == drip_color(seed, d.y),
        d.y < 22 ==> d.color == Palette::Navy,
        22 <= d.y < 45 && seed % 2 == 0 ==> d.color == Palette::Black,
        22 <= d.y < 45 && seed % 2 == 1 ==> d.color == Palette::Gray,
        45 <= d.y && seed % 3 == 0 ==> d.color == Palette::White,
        45 <= d.y && seed % 3 == 1 ==> d.color == Palette::DarkGray,
        45 <= d.y && seed % 3 == 2 ==> d.color == Palette::Black,
        d.x < width,
        d.y < height,
{
    let x = (seed >> 3u64) % width;
    let y = (seed >> 7u64) % height;
    let len = (seed >> 11u64) % 60 + 10;
    let color = if y < 22 {
        Palette::Navy
    } else if y < 45 {
        if seed % 2 == 0 { Palette::Black } else { Palette::Gray }
    } else {
        if seed % 3 == 0 {
            Palette::White
        } else if seed % 3 == 1 {
            Palette::DarkGray
        } else {
            Palette::Black
        }
    };
    let stroke: u8 = if seed % 2 == 0 { 2 } else { 4 };
    Drip { x, y, len, stroke, color }
}

} // verus!
