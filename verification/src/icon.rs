use vstd::prelude::*;
use crate::palette::{Color, opaque, from_rgb};

verus! {

/// Side of the square window icon, in pixels.
pub const ICON_SIZE: u32 = 32;

/// An RGBA bitmap: four bytes per pixel, row by row.
pub struct Icon {
    pub rgba: Vec<u8>,
    pub width: u32,
    pub height: u32,
}

/// The notepad icon's pixel at column `x`, row `y` of the 32 x 32 bitmap:
/// a clear two-pixel margin, a dark gray outline, a light page with a blue
/// binding across rows 3 to 9 and three ruled lines on rows 14, 20 and 26
/// between columns 5 and 27.
pub open spec fn icon_pixel(x: int, y: int) -> Color {
    if x < 2 || x >= 30 || y < 2 || y >= 30 {
        Color { r: 0, g: 0, b: 0, a: 0 }
    } else if x == 2 || x == 29 || y == 2 || y == 29 {
        opaque(100, 100, 100)
    } else if 4 < x < 28 && (y == 14 || y == 20 || y == 26) {
        opaque(200, 200, 200)
    } else if 2 < y < 10 {
        opaque(100, 150, 255)
    } else {
        opaque(240, 240, 240)
    }
}

/// Byte `k` (0 red, 1 green, 2 blue, 3 alpha) of a colour.
pub open spec fn channel(c: Color, k: int) -> u8 {
    if k == 0 {
        c.r
    } else if k == 1 {
        c.g
    } else if k == 2 {
        c.b
    } else {
        c.a
    }
}

/// The icon's bytes: byte `i` is channel `i % 4` of pixel `i / 4`, which
/// lies in column `(i / 4) % 32` of row `(i / 4) / 32`.
pub open spec fn icon_rgba() -> Seq<u8> {
    Seq::new(4096, |i: int| channel(icon_pixel((i / 4) % 32, (i / 4) / 32), i % 4))
}

fn icon_pixel_at(x: u32, y: u32, width: u32, height: u32) -> (c: Color)
    requires
        width == 32,
        height == 32,
    ensures
        c == icon_pixel(x as int, y as int),
{
    if x < 2 || x >= width - 2 || y < 2 || y >= height - 2 {
        return Color { r: 0, g: 0, b: 0, a: 0 };
    }
    if x == 2 || x == width - 3 || y == 2 || y == height - 3 {
        return from_rgb(100, 100, 100);
    }
    let mut c = from_rgb(240, 240, 240);
    if y > 2 && y < 10 {
        c = from_rgb(100, 150, 255);
    }
    if x > 4 && x < width - 4 {
        if y == 14 || y == 20 || y == 26 {
            c = from_rgb(200, 200, 200);
        }
    }
    c
}

proof fn lemma_byte_position(x: int, y: int, k: int)
    requires
        0 <= x < 32,
        0 <= y < 32,
        0 <= k < 4,
    ensures
        (128 * y + 4 * x + k) / 4 == 32 * y + x,
        (128 * y + 4 * x + k) % 4 == k,
        (32 * y + x) % 32 == x,
        (32 * y + x) / 32 == y,
{
    vstd::arithmetic::div_mod::lemma_fundamental_div_mod_converse(128 * y + 4 * x + k, 4, 32 * y + x, k);
    vstd::arithmetic::div_mod::lemma_fundamental_div_mod_converse(32 * y + x, 32, y, x);
}

/// The icon's layout, pixel by pixel, as the four bytes of pixel `(x, y)`:
/// a clear margin two pixels wide, a dark gray outline on columns and rows 2
/// and 29, the blue binding filling rows 3 to 9 inside the outline, gray ruled
/// lines on rows 14, 20 and 26 from column 5 to 27 (and that gray nowhere
/// else), and the light page everywhere else inside the outline.
pub proof fn lemma_icon_layout(x: int, y: int)
    requires
        0 <= x < 32,
        0 <= y < 32,
    ensures
        ({
            let p = icon_rgba().subrange(4 * (32 * y + x), 4 * (32 * y + x) + 4);
            &&& (x < 2 || x > 29 || y < 2 || y > 29) ==> p == seq![0u8, 0u8, 0u8, 0u8]
            &&& (2 <= x <= 29 && 2 <= y <= 29 && (x == 2 || x == 29 || y == 2 || y == 29))
                ==> p == seq![100u8, 100u8, 100u8, 255u8]
            &&& (3 <= x <= 28 && 3 <= y <= 9) ==> p == seq![100u8, 150u8, 255u8, 255u8]
            &&& (5 <= x <= 27 && (y == 14 || y == 20 || y == 26)) ==> p == seq![200u8, 200u8, 200u8, 255u8]
            &&& p == seq![200u8, 200u8, 200u8, 255u8] ==> (5 <= x <= 27 && (y == 14 || y == 20 || y == 26))
            &&& (3 <= x <= 28 && 10 <= y <= 28 && !(5 <= x <= 27 && (y == 14 || y == 20 || y == 26)))
                ==> p == seq![240u8, 240u8, 240u8, 255u8]
        }),
{
    lemma_byte_position(x, y, 0);
    lemma_byte_position(x, y, 1);
    lemma_byte_position(x, y, 2);
    lemma_byte_position(x, y, 3);
    let p = icon_rgba().subrange(4 * (32 * y + x), 4 * (32 * y + x) + 4);
    let c = icon_pixel(x, y);
    assert(p =~= seq![c.r, c.g, c.b, c.a]);
    if p == seq![200u8, 200u8, 200u8, 255u8] {
        assert(p[2] == 200u8);
    }
}

/// The 32 x 32 notepad icon of the window.
pub fn generate_icon() -> (icon: Icon)
    ensures
        icon.width == ICON_SIZE,
        icon.height == ICON_SIZE,
        icon.rgba@ == icon_rgba(),
{
    let width: u32 = ICON_SIZE;
    let height: u32 = ICON_SIZE;
    let mut rgba: Vec<u8> = Vec::new();
    let mut y: u32 = 0;
    while y < height
        invariant
            width == 32,
            height == 32,
            y <= height,
            rgba@ == icon_rgba().take(128 * y),
        decreases height - y,
    {
        let mut x: u32 = 0;
        while x < width
            invariant
                width == 32,
                height == 32,
                y < height,
                x <= width,
                rgba@ == icon_rgba().take(128 * y + 4 * x),
            decreases width - x,
        {
            let c = icon_pixel_at(x, y, width, height);
            let ghost base = 128 * y + 4 * x;
            proof {
                lemma_byte_position(x as int, y as int, 0);
                lemma_byte_position(x as int, y as int, 1);
                lemma_byte_position(x as int, y as int, 2);
                lemma_byte_position(x as int, y as int, 3);
            }
            rgba.push(c.r);
            rgba.push(c.g);
            rgba.push(c.b);
            rgba.push(c.a);
            assert(rgba@ =~= icon_rgba().take(base + 4));
            x = x + 1;
        }
        y = y + 1;
    }
    assert(rgba@ =~= icon_rgba());
    Icon { rgba, width, height }
}

} // verus!
