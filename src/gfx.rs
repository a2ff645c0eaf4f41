//! The pixel renderer: a grid of lines every 100 pixels over a dark
//! background, scrolled by the simulation's offsets.

use vstd::prelude::*;

verus! {

/// Packs alpha, red, green and blue bytes into one 32-bit ARGB pixel.
pub open spec fn spec_argb(a: int, r: int, g: int, b: int) -> int {
    a * 0x100_0000 + r * 0x1_0000 + g * 0x100 + b
}

pub fn u32_argb(a: u32, r: u32, g: u32, b: u32) -> (p: u32)
    requires
        a <= 255,
        r <= 255,
        g <= 255,
        b <= 255,
    ensures
        p == spec_argb(a as int, r as int, g as int, b as int),
{
    assert(a << 24u32 == a * 0x100_0000) by (bit_vector)
        requires
            a <= 255,
    ;
    assert(r << 16u32 == r * 0x1_0000) by (bit_vector)
        requires
            r <= 255,
    ;
    assert(g << 8u32 == g * 0x100) by (bit_vector)
        requires
            g <= 255,
    ;
    (a << 24u32) + (r << 16u32) + (g << 8u32) + b
}

/// Spacing of the grid lines in pixels.
pub const GRID_SPACING: i64 = 100;

/// The pixel at column `x`, row `y` lies on a grid line.
pub open spec fn on_grid(x: int, y: int, x_offset: int, y_offset: int) -> bool {
    (x - x_offset) % (GRID_SPACING as int) == 0 || (y - y_offset) % (GRID_SPACING as int) == 0
}

fn is_multiple_of_spacing(d: i64) -> (r: bool)
    ensures
        r == ((d as int) % (GRID_SPACING as int) == 0),
{
    if d >= 0 {
        (d as u64) % (GRID_SPACING as u64) == 0
    } else {
        let e: u64 = (-(d as i128)) as u64;
        proof {
            let m = GRID_SPACING as int;
            vstd::arithmetic::div_mod::lemma_fundamental_div_mod(e as int, m);
            vstd::arithmetic::div_mod::lemma_mod_bound(e as int, m);
            let q = (e as int) / m;
            let rem = (e as int) % m;
            assert(d == m * (-q) - rem) by (nonlinear_arith)
                requires
                    e == m * q + rem,
                    d == -e,
            ;
            if rem == 0 {
                vstd::arithmetic::div_mod::lemma_mod_multiples_basic(-q, m);
                assert(m * (-q) == (-q) * m) by (nonlinear_arith);
            } else {
                assert(d == (m - rem) + m * (-q - 1)) by (nonlinear_arith)
                    requires
                        d == m * (-q) - rem,
                ;
                vstd::arithmetic::div_mod::lemma_mod_multiples_vanish(-q - 1, m - rem, m);
                vstd::arithmetic::div_mod::lemma_small_mod((m - rem) as nat, m as nat);
            }
        }
        e % (GRID_SPACING as u64) == 0
    }
}

/// Draws the grid into `mem`, a `w` by `h` picture stored row after row; an
/// empty picture (either side not positive) leaves `mem` as it was.
/// Each pixel gets the colour that `build_pixel` makes for opaque green on a
/// grid line and for opaque black elsewhere, given as (alpha, red, green,
/// blue).
pub fn render_gfx<F: Fn(u32, u32, u32, u32) -> u32>(
    mem: &mut Vec<u32>,
    w: i32,
    h: i32,
    x_offset: i32,
    y_offset: i32,
    build_pixel: F,
)
    requires
        w <= 0 || h <= 0 || w * h <= old(mem)@.len(),
        build_pixel.requires((255u32, 0u32, 255u32, 0u32)),
        build_pixel.requires((255u32, 0u32, 0u32, 0u32)),
    ensures
        final(mem)@.len() == old(mem)@.len(),
        forall|x: int, y: int|
            0 <= x < w && 0 <= y < h ==> {
                let p = #[trigger] final(mem)@[y * w + x];
                if on_grid(x, y, x_offset as int, y_offset as int) {
                    build_pixel.ensures((255u32, 0u32, 255u32, 0u32), p)
                } else {
                    build_pixel.ensures((255u32, 0u32, 0u32, 0u32), p)
                }
            },
        forall|i: int|
            0 <= i < old(mem)@.len() && (w <= 0 || h <= 0 || w * h <= i)
                ==> #[trigger] final(mem)@[i] == old(mem)@[i],
{
    if w <= 0 || h <= 0 {
        return;
    }
    let ghost wi: int = w as int;
    let ghost hi: int = h as int;
    let wu: usize = w as usize;
    let total: usize = mem.len();
    let mut y: i32 = 0;
    while y < h
        invariant
            0 <= y <= h,
            w >= 0,
            h >= 0,
            wu == w,
            total == mem@.len(),
            w * h <= old(mem)@.len(),
            mem@.len() == old(mem)@.len(),
            build_pixel.requires((255u32, 0u32, 255u32, 0u32)),
            build_pixel.requires((255u32, 0u32, 0u32, 0u32)),
            forall|xx: int, yy: int|
                0 <= xx < w && 0 <= yy < y ==> {
                    let p = #[trigger] mem@[yy * w + xx];
                    if on_grid(xx, yy, x_offset as int, y_offset as int) {
                        build_pixel.ensures((255u32, 0u32, 255u32, 0u32), p)
                    } else {
                        build_pixel.ensures((255u32, 0u32, 0u32, 0u32), p)
                    }
                },
            forall|i: int| w * h <= i < old(mem)@.len() ==> #[trigger] mem@[i] == old(mem)@[i],
        decreases h - y,
    {
        proof {
            assert((y + 1) * w <= h * w) by (nonlinear_arith)
                requires
                    y < h,
                    w >= 0,
            ;
            assert(h * w == w * h) by (nonlinear_arith);
            assert(y * w + w == (y + 1) * w) by (nonlinear_arith);
            assert(0 <= y * w) by (nonlinear_arith)
                requires
                    y >= 0,
                    w >= 0,
            ;
        }
        let row_start: usize = y as usize * wu;
        let on_row: bool = is_multiple_of_spacing(y as i64 - y_offset as i64);
        let mut x: i32 = 0;
        while x < w
            invariant
                0 <= x <= w,
                0 <= y < h,
                w >= 0,
                wu == w,
                total == mem@.len(),
                row_start == y * w,
                y * w + w <= w * h,
                w * h <= old(mem)@.len(),
                mem@.len() == old(mem)@.len(),
                on_row == ((y - y_offset) % (GRID_SPACING as int) == 0),
                build_pixel.requires((255u32, 0u32, 255u32, 0u32)),
                build_pixel.requires((255u32, 0u32, 0u32, 0u32)),
                forall|xx: int, yy: int|
                    0 <= xx < w && 0 <= yy < y ==> {
                        let p = #[trigger] mem@[yy * w + xx];
                        if on_grid(xx, yy, x_offset as int, y_offset as int) {
                            build_pixel.ensures((255u32, 0u32, 255u32, 0u32), p)
                        } else {
                            build_pixel.ensures((255u32, 0u32, 0u32, 0u32), p)
                        }
                    },
                forall|xx: int|
                    0 <= xx < x ==> {
                        let p = #[trigger] mem@[y * w + xx];
                        if on_grid(xx, y as int, x_offset as int, y_offset as int) {
                            build_pixel.ensures((255u32, 0u32, 255u32, 0u32), p)
                        } else {
                            build_pixel.ensures((255u32, 0u32, 0u32, 0u32), p)
                        }
                    },
                forall|i: int| w * h <= i < old(mem)@.len() ==> #[trigger] mem@[i] == old(mem)@[i],
            decreases w - x,
        {
            let idx: usize = row_start + x as usize;
            let line: bool = on_row || is_multiple_of_spacing(x as i64 - x_offset as i64);
            let pixel: u32 = if line {
                build_pixel(255, 0, 255, 0)
            } else {
                build_pixel(255, 0, 0, 0)
            };
            proof {
                assert forall|xx: int, yy: int| 0 <= xx < w && 0 <= yy < y implies #[trigger] (yy * w + xx)
                    < y * w by {
                    assert(yy * w + xx < y * w) by (nonlinear_arith)
                        requires
                            0 <= xx < w,
                            yy < y,
                            yy >= 0,
                    ;
                }
            }
            mem.set(idx, pixel);
            x = x + 1;
        }
        proof {
            assert forall|xx: int, yy: int| 0 <= xx < w && 0 <= yy < y + 1 implies {
                let p = #[trigger] mem@[yy * w + xx];
                if on_grid(xx, yy, x_offset as int, y_offset as int) {
                    build_pixel.ensures((255u32, 0u32, 255u32, 0u32), p)
                } else {
                    build_pixel.ensures((255u32, 0u32, 0u32, 0u32), p)
                }
            } by {
                if yy == y {
                    assert(mem@[y * w + xx] == mem@[yy * w + xx]);
                }
            }
        }
        y = y + 1;
    }
}

/// A blank picture of `width` by `height` pixels, all zero.
pub fn new_pixel_buffer(width: u32, height: u32) -> (r: Vec<u32>)
    requires
        width * height <= usize::MAX,
    ensures
        r@.len() == width * height,
        forall|i: int| 0 <= i < r@.len() ==> #[trigger] r@[i] == 0,
{
    let n: usize = (width as u64 * height as u64) as usize;
    let mut v: Vec<u32> = Vec::new();
    let mut i: usize = 0;
    while i < n
        invariant
            0 <= i <= n,
            v@.len() == i,
            forall|k: int| 0 <= k < i ==> #[trigger] v@[k] == 0,
        decreases n - i,
    {
        v.push(0);
        i = i + 1;
    }
    v
}

} // verus!
