//! The tray icon: a 32×32 clipboard drawn as RGBA pixels.

use vstd::prelude::*;

verus! {

/// Width and height of the icon in pixels.
pub const ICON_SIZE: u32 = 32;

/// The colour of pixel `(x, y)`: the dark clip at the top, the light
/// clipboard body, and transparent elsewhere.
pub open spec fn pixel(x: int, y: int) -> (u8, u8, u8, u8) {
    let in_border = x < 2 || x >= 30 || y < 2 || y >= 30;
    let in_clip = x >= 10 && x <= 22 && y >= 0 && y <= 6;
    let in_body = x >= 4 && x <= 28 && y >= 4 && y <= 28;
    if in_clip {
        (100, 100, 100, 255)
    } else if in_body && in_border {
        (60, 60, 60, 255)
    } else if in_body {
        (220, 220, 240, 255)
    } else {
        (0, 0, 0, 0)
    }
}

/// Channel `k` (red, green, blue, alpha) of a colour.
pub open spec fn channel(c: (u8, u8, u8, u8), k: int) -> u8 {
    if k == 0 { c.0 } else if k == 1 { c.1 } else if k == 2 { c.2 } else { c.3 }
}

/// Byte `i` of the icon, row by row, four channels per pixel.
pub open spec fn icon_byte(i: int) -> u8 {
    channel(pixel((i / 4) % 32, i / 128), i % 4)
}

/// The colour of pixel `(x, y)`.
pub fn pixel_color(x: u32, y: u32) -> (c: (u8, u8, u8, u8))
    ensures
        c == pixel(x as int, y as int),
{
    let in_border = x < 2 || x >= ICON_SIZE - 2 || y < 2 || y >= ICON_SIZE - 2;
    let in_clip = x >= 10 && x <= 22 && y <= 6;
    let in_body = x >= 4 && x <= 28 && y >= 4 && y <= 28;
    if in_clip {
        (100, 100, 100, 255)
    } else if in_body && in_border {
        (60, 60, 60, 255)
    } else if in_body {
        (220, 220, 240, 255)
    } else {
        (0, 0, 0, 0)
    }
}

/// The icon's RGBA bytes, row by row.
pub fn tray_icon_rgba() -> (rgba: Vec<u8>)
    ensures
        rgba@.len() == 4 * 32 * 32,
        forall|i: int| 0 <= i < rgba@.len() ==> rgba@[i] == icon_byte(i),
{
    let mut rgba: Vec<u8> = Vec::new();
    let mut i: u32 = 0;
    while i < 4 * ICON_SIZE * ICON_SIZE
        invariant
            i <= 4096,
            rgba@.len() == i,
            forall|j: int| 0 <= j < i ==> rgba@[j] == icon_byte(j),
        decreases 4096 - i,
    {
        let c = pixel_color((i / 4) % ICON_SIZE, i / (4 * ICON_SIZE));
        let k = i % 4;
        let b = if k == 0 { c.0 } else if k == 1 { c.1 } else if k == 2 { c.2 } else { c.3 };
        rgba.push(b);
        i += 1;
    }
    rgba
}

/// Pixel `(x, y)` of the icon sits at bytes `(y * 32 + x) * 4` to
/// `(y * 32 + x) * 4 + 3`, red first.
pub proof fn lemma_icon_pixel(x: int, y: int, k: int)
    requires
        0 <= x < 32,
        0 <= y < 32,
        0 <= k < 4,
    ensures
        icon_byte((y * 32 + x) * 4 + k) == channel(pixel(x, y), k),
{
    let i = (y * 32 + x) * 4 + k;
    assert(i / 4 == y * 32 + x) by (nonlinear_arith)
        requires i == (y * 32 + x) * 4 + k, 0 <= k < 4, 0 <= x, 0 <= y;
    assert(i % 4 == k) by (nonlinear_arith)
        requires i == (y * 32 + x) * 4 + k, 0 <= k < 4, 0 <= x, 0 <= y;
    assert((y * 32 + x) % 32 == x) by (nonlinear_arith)
        requires 0 <= x < 32, 0 <= y;
    assert(i / 128 == y) by (nonlinear_arith)
        requires i == (y * 32 + x) * 4 + k, 0 <= k < 4, 0 <= x < 32, 0 <= y;
}

} // verus!
