//! Camera fitter: the orthographic box that shows the whole level in a window
//! of a given shape.
//!
//! The box keeps the window's aspect ratio. One of its extents is the level's
//! own; the other is as large as the window's shape asks, rounded to the
//! nearest pixel. All ratios are taken exactly, over whole pixel counts.

use vstd::arithmetic::div_mod::{lemma_fundamental_div_mod, lemma_mod_bound};
use vstd::prelude::*;

verus! {

/// Size of the window, in pixels.
#[derive(Clone, Copy, Debug, PartialEq, Eq, Structural)]
pub struct WindowSize {
    pub width: u32,
    pub height: u32,
}

/// Size of a level, in pixels.
#[derive(Clone, Copy, Debug, PartialEq, Eq, Structural)]
pub struct LevelBounds {
    pub pixel_width: u32,
    pub pixel_height: u32,
}

/// An orthographic projection box, in level pixels.
#[derive(Clone, Copy, Debug, PartialEq, Eq, Structural)]
pub struct Projection {
    pub left: u64,
    pub right: u64,
    pub bottom: u64,
    pub top: u64,
}

/// `n / d` rounded to the nearest integer, a half rounded up; for `n >= 0`
/// and `d > 0`.
pub open spec fn round_div(n: int, d: int) -> int {
    (2 * n + d) / (2 * d)
}

impl WindowSize {
    /// The window has an aspect ratio: neither side is zero.
    pub open spec fn has_area(self) -> bool {
        self.width > 0 && self.height > 0
    }
}

impl LevelBounds {
    /// The level is narrower than the window: its aspect ratio, width over
    /// height, is strictly below the window's. A level without height counts
    /// as wider than any window.
    pub open spec fn narrower_than(self, window: WindowSize) -> bool {
        self.pixel_width * window.height < self.pixel_height * window.width
    }

    /// Width of the box that shows this level in `window`.
    pub open spec fn horizontal_extent(self, window: WindowSize) -> int {
        if self.narrower_than(window) {
            round_div(self.pixel_height * window.width, window.height as int)
        } else {
            self.pixel_width as int
        }
    }

    /// Height of the box that shows this level in `window`.
    pub open spec fn vertical_extent(self, window: WindowSize) -> int {
        if self.narrower_than(window) {
            self.pixel_height as int
        } else {
            round_div(self.pixel_width * window.height, window.width as int)
        }
    }
}

impl Projection {
    /// This is the box that shows `level` in `window`: its lower left corner
    /// is the level's, and it reaches right and up by the two extents.
    pub open spec fn fits(self, window: WindowSize, level: LevelBounds) -> bool {
        &&& self.left == 0
        &&& self.bottom == 0
        &&& self.right == level.horizontal_extent(window)
        &&& self.top == level.vertical_extent(window)
    }
}

/// The product of two 32-bit counts fits in 64 bits.
proof fn lemma_product_fits(a: u32, b: u32)
    ensures
        0 <= a * b <= 0xffff_ffff * 0xffff_ffff,
{
    assert(0 <= a * b <= 0xffff_ffff * 0xffff_ffff) by (nonlinear_arith)
        requires
            0 <= a <= 0xffff_ffff,
            0 <= b <= 0xffff_ffff,
    ;
}

/// A rounded quotient is the nearest integer to the exact one, and of two
/// nearest integers the upper one.
pub proof fn lemma_round_div_is_nearest(n: int, d: int)
    requires
        0 <= n,
        0 < d,
    ensures
        0 <= round_div(n, d) <= n,
        2 * n - d < 2 * (round_div(n, d) * d) <= 2 * n + d,
{
    let q = round_div(n, d);
    let r = (2 * n + d) % (2 * d);
    lemma_fundamental_div_mod(2 * n + d, 2 * d);
    lemma_mod_bound(2 * n + d, 2 * d);
    assert(2 * n + d == (2 * d) * q + r);
    assert((2 * d) * q == 2 * (q * d)) by (nonlinear_arith);
    assert(0 <= q <= n) by (nonlinear_arith)
        requires
            2 * n + d == 2 * (q * d) + r,
            0 <= r < 2 * d,
            0 <= n,
            0 < d,
    ;
}

/// A rounded quotient is not below an integer that the exact quotient
/// reaches.
pub proof fn lemma_round_div_reaches(n: int, d: int, k: int)
    requires
        0 <= n,
        0 < d,
        k * d <= n,
    ensures
        k <= round_div(n, d),
{
    let q = round_div(n, d);
    lemma_round_div_is_nearest(n, d);
    assert(k <= q) by (nonlinear_arith)
        requires
            2 * n - d < 2 * (q * d),
            k * d <= n,
            0 < d,
    ;
}

/// The fitted box shows the whole level, and on one axis nothing more: it is
/// at least as wide and as high as the level, and as wide or as high.
pub proof fn lemma_fit_shows_whole_level(window: WindowSize, level: LevelBounds)
    requires
        window.has_area(),
    ensures
        level.pixel_width <= level.horizontal_extent(window) <= u64::MAX,
        level.pixel_height <= level.vertical_extent(window) <= u64::MAX,
        level.horizontal_extent(window) == level.pixel_width || level.vertical_extent(window)
            == level.pixel_height,
{
    let lw = level.pixel_width as int;
    let lh = level.pixel_height as int;
    let ww = window.width as int;
    let wh = window.height as int;
    lemma_product_fits(level.pixel_height, window.width);
    lemma_product_fits(level.pixel_width, window.height);
    lemma_round_div_is_nearest(lh * ww, wh);
    lemma_round_div_is_nearest(lw * wh, ww);
    if level.narrower_than(window) {
        lemma_round_div_reaches(lh * ww, wh, lw);
    } else {
        assert(lh * ww <= lw * wh);
        lemma_round_div_reaches(lw * wh, ww, lh);
    }
}

/// A level of the window's own shape is shown exactly: the box is the level.
pub proof fn lemma_fit_is_exact_for_equal_shapes(window: WindowSize, level: LevelBounds)
    requires
        window.has_area(),
        level.pixel_width * window.height == level.pixel_height * window.width,
    ensures
        level.horizontal_extent(window) == level.pixel_width,
        level.vertical_extent(window) == level.pixel_height,
{
    let lw = level.pixel_width as int;
    let lh = level.pixel_height as int;
    let ww = window.width as int;
    let n = lw * window.height;
    let q = round_div(n, ww);
    lemma_product_fits(level.pixel_width, window.height);
    lemma_round_div_is_nearest(n, ww);
    assert(q == lh) by (nonlinear_arith)
        requires
            n == lh * ww,
            2 * n - ww < 2 * (q * ww) <= 2 * n + ww,
            0 < ww,
    ;
}

/// The fitted box has the window's shape, as nearly as whole pixels allow:
/// the extent that is not the level's own is within half a pixel of what the
/// window's aspect ratio asks.
pub proof fn lemma_fit_keeps_window_shape(window: WindowSize, level: LevelBounds)
    requires
        window.has_area(),
    ensures
        level.narrower_than(window) ==> {
            let gap = 2 * (level.horizontal_extent(window) * window.height) - 2 * (
            level.vertical_extent(window) * window.width);
            -(window.height as int) < gap <= window.height
        },
        !level.narrower_than(window) ==> {
            let gap = 2 * (level.vertical_extent(window) * window.width) - 2 * (
            level.horizontal_extent(window) * window.height);
            -(window.width as int) < gap <= window.width
        },
{
    let lw = level.pixel_width as int;
    let lh = level.pixel_height as int;
    let ww = window.width as int;
    let wh = window.height as int;
    lemma_product_fits(level.pixel_height, window.width);
    lemma_product_fits(level.pixel_width, window.height);
    lemma_round_div_is_nearest(lh * ww, wh);
    lemma_round_div_is_nearest(lw * wh, ww);
}

/// `n / d` rounded to the nearest integer, a half rounded up.
fn rounded_quotient(n: u64, d: u32) -> (q: u64)
    requires
        d > 0,
    ensures
        q == round_div(n as int, d as int),
{
    proof {
        lemma_round_div_is_nearest(n as int, d as int);
    }
    let twice: u128 = 2 * (n as u128) + (d as u128);
    let q: u128 = twice / (2 * (d as u128));
    q as u64
}

/// Fits the camera to the selected level.
///
/// With a level and a window that has an area, the result is the box that
/// shows the level: where the level is narrower than the window, as high as
/// the level and as wide as the window's shape asks; else as wide as the
/// level and as high as the window's shape asks. Without a level, as long as
/// none is loaded, or with a window that has no area, there is nothing to fit
/// and the camera is to be left alone.
pub fn fit_camera(window: WindowSize, level: Option<LevelBounds>) -> (fitted: Option<Projection>)
    ensures
        match fitted {
            Some(projection) => level is Some && window.has_area() && projection.fits(
                window,
                level->0,
            ),
            None => level is None || !window.has_area(),
        },
{
    let bounds: LevelBounds = match level {
        Some(bounds) => bounds,
        None => {
            return None;
        },
    };
    if window.width == 0 || window.height == 0 {
        return None;
    }
    assert(bounds.pixel_width * window.height <= u64::MAX && bounds.pixel_height * window.width
        <= u64::MAX) by {
        lemma_product_fits(bounds.pixel_width, window.height);
        lemma_product_fits(bounds.pixel_height, window.width);
    }
    let level_by_window: u64 = (bounds.pixel_width as u64) * (window.height as u64);
    let window_by_level: u64 = (bounds.pixel_height as u64) * (window.width as u64);
    if level_by_window < window_by_level {
        Some(
            Projection {
                left: 0,
                bottom: 0,
                right: rounded_quotient(window_by_level, window.height),
                top: bounds.pixel_height as u64,
            },
        )
    } else {
        Some(
            Projection {
                left: 0,
                bottom: 0,
                right: bounds.pixel_width as u64,
                top: rounded_quotient(level_by_window, window.width),
            },
        )
    }
}

} // verus!
