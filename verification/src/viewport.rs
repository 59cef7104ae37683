//! Viewport fitting: the letterbox/pillarbox rectangle that preserves the
//! aspect ratio of a fixed logical canvas when the physical window is resized.
//!
//! The rectangle is kept as exact fractions over a shared denominator, so the
//! fitting computation is exact and every stated property holds with no
//! rounding tolerance.

use vstd::prelude::*;

verus! {

/// Fixed logical coordinate space, chosen at startup from the display's
/// native resolution and never changed afterwards. Both dimensions are
/// positive.
#[derive(Clone, Copy, Debug, PartialEq, Eq, Structural)]
pub struct LogicalCanvas {
    pub width: u32,
    pub height: u32,
}

impl LogicalCanvas {
    pub open spec fn wf(self) -> bool {
        self.width > 0 && self.height > 0
    }
}

/// A rectangle in normalized window-fraction coordinates: the rectangle is
/// `(left/den, top/den, width/den, height/den)` with `den > 0`, each
/// coordinate lying in `[0, 1]`. Keeping exact fractions instead of rounded
/// values lets the fitting guarantees hold exactly.
#[derive(Clone, Copy, Debug, PartialEq, Eq, Structural)]
pub struct Viewport {
    pub left: u128,
    pub top: u128,
    pub width: u128,
    pub height: u128,
    pub den: u128,
}

impl Viewport {
    /// The rectangle stays inside the unit square.
    pub open spec fn wf(self) -> bool {
        &&& self.den > 0
        &&& self.left + self.width <= self.den
        &&& self.top + self.height <= self.den
    }

    /// The full unit rectangle `{0, 0, 1, 1}`: no black bars.
    pub open spec fn is_unit(self) -> bool {
        &&& self.left == 0
        &&& self.top == 0
        &&& self.width == self.den
        &&& self.height == self.den
    }

    /// The degenerate rectangle `{0, 0, 0, 0}`, produced for a zero-sized
    /// window (a legitimate transient state, e.g. minimization).
    pub open spec fn is_degenerate(self) -> bool {
        &&& self.left == 0
        &&& self.top == 0
        &&& self.width == 0
        &&& self.height == 0
    }
}

/// The fitted viewport as a mathematical function of the window and canvas
/// sizes. With `a = win_w * canvas.height` and `b = win_h * canvas.width`
/// (the two window/canvas ratios brought to a common scale):
/// a window proportionally wider than the canvas (`a > b`) is pillarboxed to
/// width `b/a`, centered horizontally; a proportionally taller one is
/// letterboxed to height `a/b`, centered vertically; equal ratios give the
/// full unit rectangle, and a zero-sized window the degenerate rectangle.
pub open spec fn spec_fit_viewport(win_w: u32, win_h: u32, canvas: LogicalCanvas) -> Viewport {
    let a = win_w as int * canvas.height as int;
    let b = win_h as int * canvas.width as int;
    if win_w == 0 || win_h == 0 {
        Viewport { left: 0, top: 0, width: 0, height: 0, den: 1 }
    } else if a > b {
        Viewport {
            left: (a - b) as u128,
            top: 0,
            width: (2 * b) as u128,
            height: (2 * a) as u128,
            den: (2 * a) as u128,
        }
    } else if a < b {
        Viewport {
            left: 0,
            top: (b - a) as u128,
            width: (2 * b) as u128,
            height: (2 * a) as u128,
            den: (2 * b) as u128,
        }
    } else {
        Viewport { left: 0, top: 0, width: 1, height: 1, den: 1 }
    }
}

/// Computes the letterbox/pillarbox viewport for a physical window of
/// `win_w x win_h` over `canvas`. Pure; exact in every coordinate.
pub fn fit_viewport(win_w: u32, win_h: u32, canvas: &LogicalCanvas) -> (r: Viewport)
    requires
        canvas.wf(),
    ensures
        r == spec_fit_viewport(win_w, win_h, *canvas),
        r.wf(),
        // a zero-sized window, and only it, yields the degenerate rectangle
        (win_w == 0 || win_h == 0) <==> r.is_degenerate(),
        // equal window/canvas ratios, and only they, yield the full rectangle
        (win_w != 0 && win_h != 0
            && win_w as int * canvas.height as int == win_h as int * canvas.width as int)
            <==> r.is_unit(),
        // proportionally wider window: pillarbox with full height, the width
        // shrunk to exactly b/a and centered horizontally
        (win_w != 0 && win_h != 0
            && win_w as int * canvas.height as int > win_h as int * canvas.width as int)
            ==> {
                &&& r.top == 0
                &&& r.height == r.den
                &&& r.width < r.den
                &&& r.width > 0
                &&& 2 * r.left + r.width == r.den
                &&& r.width * (win_w as int * canvas.height as int)
                    == (win_h as int * canvas.width as int) * r.den
            },
        // proportionally taller window: letterbox, symmetrically
        (win_w != 0 && win_h != 0
            && (win_w as int * canvas.height as int) < win_h as int * canvas.width as int)
            ==> {
                &&& r.left == 0
                &&& r.width == r.den
                &&& r.height < r.den
                &&& r.height > 0
                &&& 2 * r.top + r.height == r.den
                &&& r.height * (win_h as int * canvas.width as int)
                    == (win_w as int * canvas.height as int) * r.den
            },
{
    if win_w == 0 || win_h == 0 {
        return Viewport { left: 0, top: 0, width: 0, height: 0, den: 1 };
    }
    proof {
        assert(win_w as int * canvas.height as int <= 0xFFFF_FFFF * 0xFFFF_FFFF)
            by (nonlinear_arith)
            requires
                win_w <= 0xFFFF_FFFFu32,
                canvas.height <= 0xFFFF_FFFFu32,
        ;
        assert(win_h as int * canvas.width as int <= 0xFFFF_FFFF * 0xFFFF_FFFF)
            by (nonlinear_arith)
            requires
                win_h <= 0xFFFF_FFFFu32,
                canvas.width <= 0xFFFF_FFFFu32,
        ;
        assert(win_w as int * canvas.height as int > 0) by (nonlinear_arith)
            requires
                win_w > 0,
                canvas.height > 0,
        ;
        assert(win_h as int * canvas.width as int > 0) by (nonlinear_arith)
            requires
                win_h > 0,
                canvas.width > 0,
        ;
    }
    let a: u64 = (win_w as u64) * (canvas.height as u64);
    let b: u64 = (win_h as u64) * (canvas.width as u64);
    if a > b {
        let r = Viewport {
            left: (a - b) as u128,
            top: 0,
            width: 2 * (b as u128),
            height: 2 * (a as u128),
            den: 2 * (a as u128),
        };
        proof {
            assert(r.width * (a as int) == (b as int) * r.den) by (nonlinear_arith)
                requires
                    r.width == 2 * (b as int),
                    r.den == 2 * (a as int),
            ;
        }
        r
    } else if a < b {
        let r = Viewport {
            left: 0,
            top: (b - a) as u128,
            width: 2 * (b as u128),
            height: 2 * (a as u128),
            den: 2 * (b as u128),
        };
        proof {
            assert(r.height * (b as int) == (a as int) * r.den) by (nonlinear_arith)
                requires
                    r.height == 2 * (a as int),
                    r.den == 2 * (b as int),
            ;
        }
        r
    } else {
        Viewport { left: 0, top: 0, width: 1, height: 1, den: 1 }
    }
}

} // verus!
