//! Cover-fit arithmetic: how large an image must become to fill a viewport,
//! and where the viewport-sized window sits inside the enlarged image.

use vstd::prelude::*;

verus! {

/// The exact cover-fit size of a `iw` x `ih` image for a `sw` x `sh` viewport.
///
/// The image is scaled uniformly. When the viewport is relatively taller than
/// the image (`sh / sw > ih / iw`, compared without division) the scale factor
/// is `sh / ih`, otherwise it is `sw / iw`. Each scaled dimension is rounded
/// toward zero; the dimension on the binding axis is the viewport's own.
pub open spec fn cover_fit(sw: int, sh: int, iw: int, ih: int) -> (int, int) {
    if sh * iw > ih * sw {
        ((iw * sh) / ih, sh)
    } else {
        (sw, (ih * sw) / iw)
    }
}

/// A dimension as it is stored in 32 bits: values past `u32::MAX` stay at `u32::MAX`.
pub open spec fn saturate(v: int) -> int {
    if v > u32::MAX {
        u32::MAX as int
    } else {
        v
    }
}

/// The offset that centers a window of `screen` pixels inside `resized` pixels
/// along one axis: half of the overflow, rounded down, or zero without overflow.
pub open spec fn crop_offset(screen: int, resized: int) -> int {
    if resized > screen {
        (resized - screen) / 2
    } else {
        0
    }
}

/// A quotient is at least `bound` when its dividend is at least `bound * d`.
proof fn lemma_quotient_at_least(n: int, d: int, bound: int)
    by (nonlinear_arith)
    requires
        d > 0,
        n >= bound * d,
    ensures
        n / d >= bound,
{
}

/// Cover-fit: the scaled image is at least as large as the viewport on both axes.
pub proof fn lemma_cover_fit_covers(sw: int, sh: int, iw: int, ih: int)
    requires
        sw > 0,
        sh > 0,
        iw > 0,
        ih > 0,
    ensures
        cover_fit(sw, sh, iw, ih).0 >= sw,
        cover_fit(sw, sh, iw, ih).1 >= sh,
{
    if sh * iw > ih * sw {
        assert(iw * sh == sh * iw) by (nonlinear_arith);
        assert(ih * sw == sw * ih) by (nonlinear_arith);
        lemma_quotient_at_least(iw * sh, ih, sw);
    } else {
        assert(ih * sw == sw * ih) by (nonlinear_arith);
        lemma_quotient_at_least(ih * sw, iw, sh);
    }
}

/// Tight fit: on at least one axis the scaled image is exactly as large as the viewport.
pub proof fn lemma_cover_fit_is_tight(sw: int, sh: int, iw: int, ih: int)
    requires
        sw > 0,
        sh > 0,
        iw > 0,
        ih > 0,
    ensures
        cover_fit(sw, sh, iw, ih).0 == sw || cover_fit(sw, sh, iw, ih).1 == sh,
{
}

/// A centered crop never starts before the image and, where the image
/// overflows the viewport, the window ends inside the image.
pub proof fn lemma_crop_offset_stays_inside(screen: int, resized: int)
    requires
        screen > 0,
        resized > 0,
    ensures
        crop_offset(screen, resized) >= 0,
        resized > screen ==> crop_offset(screen, resized) + screen <= resized,
{
}

/// The window that is cut out of a cover-fit image lies inside the image: on
/// both axes the crop offset and the viewport together stay within the
/// resized dimension, also where that dimension stopped at `u32::MAX`.
pub proof fn lemma_crop_window_fits_cover(sw: int, sh: int, iw: int, ih: int)
    requires
        0 < sw <= i32::MAX,
        0 < sh <= i32::MAX,
        iw > 0,
        ih > 0,
    ensures
        crop_offset(sw, saturate(cover_fit(sw, sh, iw, ih).0)) + sw <= saturate(
            cover_fit(sw, sh, iw, ih).0,
        ),
        crop_offset(sh, saturate(cover_fit(sw, sh, iw, ih).1)) + sh <= saturate(
            cover_fit(sw, sh, iw, ih).1,
        ),
{
    lemma_cover_fit_covers(sw, sh, iw, ih);
}

/// Scales one image dimension by `num / den`, rounding toward zero and
/// saturating at `u32::MAX`.
fn scale_dimension(dim: u32, num: u32, den: u32) -> (r: u32)
    requires
        den > 0,
    ensures
        r == saturate((dim * num) / (den as int)),
{
    assert(dim * num <= u64::MAX) by (nonlinear_arith)
        requires
            dim <= u32::MAX,
            num <= u32::MAX,
    ;
    let scaled: u64 = (dim as u64) * (num as u64) / (den as u64);
    if scaled > u32::MAX as u64 {
        u32::MAX
    } else {
        scaled as u32
    }
}

/// Computes the size to which an image of `img_size` is resized so that it
/// covers a screen of `screen_size` on both axes, overflowing on at most one.
pub fn calculate_resize_of_image(screen_size: (i32, i32), img_size: (u32, u32)) -> (r: (u32, u32))
    requires
        screen_size.0 > 0,
        screen_size.1 > 0,
        img_size.0 > 0,
        img_size.1 > 0,
    ensures
        r.0 == saturate(cover_fit(screen_size.0 as int, screen_size.1 as int, img_size.0 as int, img_size.1 as int).0),
        r.1 == saturate(cover_fit(screen_size.0 as int, screen_size.1 as int, img_size.0 as int, img_size.1 as int).1),
        r.0 >= screen_size.0,
        r.1 >= screen_size.1,
        r.0 == screen_size.0 || r.1 == screen_size.1,
{
    let sw: u32 = screen_size.0 as u32;
    let sh: u32 = screen_size.1 as u32;
    let (iw, ih) = img_size;
    proof {
        lemma_cover_fit_covers(sw as int, sh as int, iw as int, ih as int);
        assert(sh * iw <= u64::MAX && ih * sw <= u64::MAX) by (nonlinear_arith)
            requires
                sh <= u32::MAX,
                iw <= u32::MAX,
                ih <= u32::MAX,
                sw <= u32::MAX,
        ;
    }
    if (sh as u64) * (iw as u64) > (ih as u64) * (sw as u64) {
        (scale_dimension(iw, sh, ih), sh)
    } else {
        (sw, scale_dimension(ih, sw, iw))
    }
}

/// Computes the top-left corner of the screen-sized window that is cut out
/// of the resized image, centered on each axis where the image overflows.
pub fn calculate_crop_x_y(screen_size: (i32, i32), img_size: (u32, u32)) -> (r: (u32, u32))
    requires
        screen_size.0 > 0,
        screen_size.1 > 0,
    ensures
        r.0 == crop_offset(screen_size.0 as int, img_size.0 as int),
        r.1 == crop_offset(screen_size.1 as int, img_size.1 as int),
        img_size.0 >= screen_size.0 ==> r.0 + screen_size.0 <= img_size.0,
        img_size.1 >= screen_size.1 ==> r.1 + screen_size.1 <= img_size.1,
{
    let (img_width, img_height) = img_size;
    let sc_width: u32 = screen_size.0 as u32;
    let sc_height: u32 = screen_size.1 as u32;
    let x: u32 = if img_width > sc_width {
        (img_width - sc_width) / 2
    } else {
        0
    };
    let y: u32 = if img_height > sc_height {
        (img_height - sc_height) / 2
    } else {
        0
    };
    (x, y)
}

} // verus!
