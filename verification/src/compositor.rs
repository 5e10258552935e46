//! Blending a translucent color into a rectangle of a canvas.

use vstd::prelude::*;
use crate::canvas::{
    canvas_height, canvas_pixels, canvas_width, image_get_pixel, image_put_pixel, Canvas,
};
use crate::color::{composite, Color};
use crate::geometry::{intersection, lemma_intersection_is_shared_pixels, Rect};

verus! {

/// The rectangle of all pixels of a canvas of `width` by `height` pixels.
pub open spec fn canvas_bounds(width: nat, height: nat) -> Rect {
    Rect { left: 0, top: 0, width: width as u32, height: height as u32 }
}

/// The pixels of a canvas of `width` by `height` pixels that `rect` covers,
/// as a rectangle, or `None` when it covers none.
pub open spec fn clip(rect: Rect, width: nat, height: nat) -> Option<Rect> {
    intersection(canvas_bounds(width, height), rect)
}

/// Whether `rect` covers the pixel `(x, y)` of a canvas of `width` by `height`
/// pixels.
pub open spec fn covers(rect: Rect, width: nat, height: nat, x: int, y: int) -> bool {
    0 <= x < width && 0 <= y < height && rect.contains(x, y)
}

/// Whether `rect` lies fully outside a canvas of `width` by `height` pixels.
pub open spec fn outside(rect: Rect, width: nat, height: nat) -> bool {
    forall|x: int, y: int| !covers(rect, width, height, x, y)
}

/// The clipped rectangle holds exactly the pixels of the canvas that the
/// rectangle covers.
pub proof fn lemma_clip_is_covered_pixels(rect: Rect, width: nat, height: nat, x: int, y: int)
    requires
        width <= u32::MAX,
        height <= u32::MAX,
    ensures
        match clip(rect, width, height) {
            Some(shared) => shared.contains(x, y) <==> covers(rect, width, height, x, y),
            None => !covers(rect, width, height, x, y),
        },
{
    lemma_intersection_is_shared_pixels(canvas_bounds(width, height), rect, x, y);
}

/// Nothing is left of a rectangle after clipping exactly when it lies fully
/// outside the canvas.
pub proof fn lemma_clip_is_none_iff_outside(rect: Rect, width: nat, height: nat)
    requires
        width <= u32::MAX,
        height <= u32::MAX,
    ensures
        clip(rect, width, height) is None <==> outside(rect, width, height),
{
    match clip(rect, width, height) {
        Some(shared) => {
            lemma_clip_is_covered_pixels(rect, width, height, shared.left as int, shared.top as int);
            assert(shared.contains(shared.left as int, shared.top as int));
            assert(covers(rect, width, height, shared.left as int, shared.top as int));
        },
        None => {
            assert forall|x: int, y: int| !covers(rect, width, height, x, y) by {
                lemma_clip_is_covered_pixels(rect, width, height, x, y);
            }
        },
    }
}

/// Blends `color` into every pixel of `image` that `rect` covers and leaves
/// the other pixels as they are. The rectangle may lie anywhere and have any
/// size: what falls outside the canvas is clipped away, and a rectangle
/// without pixels paints nothing.
pub fn draw_blended_rect_mut(image: &mut Canvas, rect: Rect, color: Color)
    ensures
        canvas_width(*final(image)) == canvas_width(*old(image)),
        canvas_height(*final(image)) == canvas_height(*old(image)),
        forall|x: int, y: int|
            old(image).in_bounds(x, y) ==> #[trigger] final(image).pixel(x, y) == if rect.contains(
                x,
                y,
            ) {
                composite(old(image).pixel(x, y), color)
            } else {
                old(image).pixel(x, y)
            },
        outside(rect, canvas_width(*old(image)), canvas_height(*old(image))) ==> *final(image)
            == *old(image),
        color.alpha == 255 ==> forall|x: int, y: int|
            old(image).in_bounds(x, y) && rect.contains(x, y) ==> #[trigger] final(image).pixel(
                x,
                y,
            ) == color,
        color.alpha == 0 ==> forall|x: int, y: int|
            old(image).in_bounds(x, y) ==> #[trigger] final(image).pixel(x, y) == old(image).pixel(
                x,
                y,
            ),
{
    let width = image.width();
    let height = image.height();
    proof {
        lemma_clip_is_none_iff_outside(rect, width as nat, height as nat);
    }
    let image_bounds = Rect { left: 0, top: 0, width, height };
    if let Some(shared) = image_bounds.intersect(rect) {
        let left: u32 = shared.left as u32;
        let top: u32 = shared.top as u32;
        assert forall|x: int, y: int| shared.contains(x, y) <==> covers(
            rect,
            width as nat,
            height as nat,
            x,
            y,
        ) by {
            lemma_clip_is_covered_pixels(rect, width as nat, height as nat, x, y);
        }
        let mut dy: u32 = 0;
        while dy < shared.height
            invariant
                dy <= shared.height,
                shared.left == left,
                shared.top == top,
                left + shared.width <= width,
                top + shared.height <= height,
                width == canvas_width(*old(image)),
                height == canvas_height(*old(image)),
                canvas_width(*image) == width,
                canvas_height(*image) == height,
                forall|x: int, y: int|
                    shared.contains(x, y) <==> covers(rect, width as nat, height as nat, x, y),
                forall|x: int, y: int|
                    old(image).in_bounds(x, y) ==> #[trigger] image.pixel(x, y) == if shared.contains(
                        x,
                        y,
                    ) && y < top + dy {
                        composite(old(image).pixel(x, y), color)
                    } else {
                        old(image).pixel(x, y)
                    },
            decreases shared.height - dy,
        {
            let y: u32 = top + dy;
            let mut dx: u32 = 0;
            while dx < shared.width
                invariant
                    dx <= shared.width,
                    dy < shared.height,
                    y == top + dy,
                    shared.left == left,
                    shared.top == top,
                    left + shared.width <= width,
                    top + shared.height <= height,
                    width == canvas_width(*old(image)),
                    height == canvas_height(*old(image)),
                    canvas_width(*image) == width,
                    canvas_height(*image) == height,
                    forall|x: int, y: int|
                        shared.contains(x, y) <==> covers(rect, width as nat, height as nat, x, y),
                    forall|i: int, j: int|
                        old(image).in_bounds(i, j) ==> #[trigger] image.pixel(i, j) == if shared.contains(
                            i,
                            j,
                        ) && (j < y || (j == y && i < left + dx)) {
                            composite(old(image).pixel(i, j), color)
                        } else {
                            old(image).pixel(i, j)
                        },
                decreases shared.width - dx,
            {
                let x: u32 = left + dx;
                assert(shared.contains(x as int, y as int));
                assert(covers(rect, width as nat, height as nat, x as int, y as int));
                let ghost before = *image;
                let pixel = image_get_pixel(image, x, y);
                image_put_pixel(image, x, y, pixel.blend(color));
                assert forall|i: int, j: int| before.in_bounds(i, j) implies #[trigger] image.pixel(
                    i,
                    j,
                ) == if i == x && j == y {
                    composite(before.pixel(i, j), color)
                } else {
                    before.pixel(i, j)
                } by {
                    if i != x || j != y {
                        assert(canvas_pixels(*image)[(i, j)] == canvas_pixels(before)[(i, j)]);
                    }
                }
                dx = dx + 1;
            }
            dy = dy + 1;
        }
    }
}

} // verus!
