//! Image placement: the transform (uniform scale plus integer pixel offset)
//! that centers the image and maximizes it within the window while keeping
//! its aspect ratio.
//!
//! The scale is kept as an exact fraction, so on the limiting axis the scaled
//! image fills the window exactly, and on the other axis it never exceeds it.

use vstd::prelude::*;

verus! {

/// Pixel dimensions of the loaded source image. Both are positive: a caller
/// only builds one from a successfully decoded image.
#[derive(Clone, Copy, Debug, PartialEq, Eq, Structural)]
pub struct ImageSize {
    pub width: u32,
    pub height: u32,
}

impl ImageSize {
    pub open spec fn wf(self) -> bool {
        self.width > 0 && self.height > 0
    }
}

/// The transform applied to the source image: a uniform scale
/// `scale_num / scale_den` (the same on both axes) and a non-negative pixel
/// offset of the image's top-left corner.
#[derive(Clone, Copy, Debug, PartialEq, Eq, Structural)]
pub struct ImagePlacement {
    pub pos_x: u32,
    pub pos_y: u32,
    pub scale_num: u32,
    pub scale_den: u32,
}

impl ImagePlacement {
    pub open spec fn wf(self) -> bool {
        self.scale_den > 0
    }
}

/// The centered, maximized placement as a mathematical function of the window
/// and image sizes. The scale is the smaller of the two per-axis ratios
/// `win_h / img_h` and `win_w / img_w`; the image is centered along the
/// non-limiting axis with offset `(window - scaled_image) / 2` (integer
/// division), and sits at offset 0 on the limiting axis.
pub open spec fn spec_center_and_maximize(win_w: u32, win_h: u32, img: ImageSize)
    -> ImagePlacement {
    if (win_h as int * img.width as int) < win_w as int * img.height as int {
        // height is the tighter constraint: scale = win_h / img_h
        let scaled_w = (win_h as int * img.width as int) / (img.height as int);
        ImagePlacement {
            pos_x: ((win_w - scaled_w) / 2) as u32,
            pos_y: 0,
            scale_num: win_h,
            scale_den: img.height,
        }
    } else {
        // width is the tighter constraint (or the ratios tie): scale = win_w / img_w
        let scaled_h = (win_w as int * img.height as int) / (img.width as int);
        ImagePlacement {
            pos_x: 0,
            pos_y: ((win_h - scaled_h) / 2) as u32,
            scale_num: win_w,
            scale_den: img.width,
        }
    }
}

/// Computes the placement that fills the window on its limiting axis while
/// preserving the image's aspect ratio, centered along the other axis.
/// Called at startup and on an explicit reset-view command.
pub fn center_and_maximize(win_w: u32, win_h: u32, img: &ImageSize) -> (r: ImagePlacement)
    requires
        win_w > 0,
        win_h > 0,
        img.wf(),
    ensures
        r == spec_center_and_maximize(win_w, win_h, *img),
        r.wf(),
        r.scale_num > 0,
        // the scaled image never exceeds the window, on either axis, exactly
        r.scale_num as int * img.width as int <= win_w as int * r.scale_den as int,
        r.scale_num as int * img.height as int <= win_h as int * r.scale_den as int,
        // the limiting axis is filled exactly and has offset 0; the other
        // axis is centered by integer division
        ((win_h as int * img.width as int) < win_w as int * img.height as int) ==> {
            &&& r.scale_num == win_h
            &&& r.scale_den == img.height
            &&& r.pos_y == 0
            &&& r.pos_x as int
                == (win_w as int - (win_h as int * img.width as int) / (img.height as int)) / 2
        },
        ((win_h as int * img.width as int) >= win_w as int * img.height as int) ==> {
            &&& r.scale_num == win_w
            &&& r.scale_den == img.width
            &&& r.pos_x == 0
            &&& r.pos_y as int
                == (win_h as int - (win_w as int * img.height as int) / (img.width as int)) / 2
        },
{
    proof {
        assert(win_h as int * img.width as int <= 0xFFFF_FFFF * 0xFFFF_FFFF)
            by (nonlinear_arith)
            requires
                win_h <= 0xFFFF_FFFFu32,
                img.width <= 0xFFFF_FFFFu32,
        ;
        assert(win_w as int * img.height as int <= 0xFFFF_FFFF * 0xFFFF_FFFF)
            by (nonlinear_arith)
            requires
                win_w <= 0xFFFF_FFFFu32,
                img.height <= 0xFFFF_FFFFu32,
        ;
    }
    let p: u64 = (win_h as u64) * (img.width as u64);
    let q: u64 = (win_w as u64) * (img.height as u64);
    if p < q {
        let scaled_w: u64 = p / (img.height as u64);
        proof {
            // p < win_w * img_h and img_h > 0 force floor(p / img_h) < win_w
            assert(p as int / (img.height as int) < win_w as int) by (nonlinear_arith)
                requires
                    (p as int) < win_w as int * img.height as int,
                    img.height > 0,
            ;
        }
        let r = ImagePlacement {
            pos_x: ((win_w - (scaled_w as u32)) / 2),
            pos_y: 0,
            scale_num: win_h,
            scale_den: img.height,
        };
        r
    } else {
        let scaled_h: u64 = q / (img.width as u64);
        proof {
            // q <= win_h * img_w and img_w > 0 force floor(q / img_w) <= win_h
            assert(q as int / (img.width as int) <= win_h as int) by (nonlinear_arith)
                requires
                    q as int <= win_h as int * img.width as int,
                    img.width > 0,
            ;
        }
        let r = ImagePlacement {
            pos_x: 0,
            pos_y: ((win_h - (scaled_h as u32)) / 2),
            scale_num: win_w,
            scale_den: img.width,
        };
        r
    }
}

/// Sets the scale back to unit (actual size) while keeping the current
/// position: a quick "actual size" command, deliberately distinct from
/// `center_and_maximize`.
pub fn reset_zoom(p: &ImagePlacement) -> (r: ImagePlacement)
    ensures
        r.pos_x == p.pos_x,
        r.pos_y == p.pos_y,
        r.scale_num == 1,
        r.scale_den == 1,
        r.wf(),
{
    ImagePlacement { pos_x: p.pos_x, pos_y: p.pos_y, scale_num: 1, scale_den: 1 }
}

} // verus!
