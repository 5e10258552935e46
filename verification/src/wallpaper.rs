//! The steps that turn a picture into a lock-screen wallpaper: choosing the
//! screen, covering it with the picture, and placing the caption box.

use vstd::prelude::*;
use crate::canvas::{
    allocatable, canvas_height, canvas_width, image_crop, image_resize_nearest, sampled, Canvas,
};
use crate::color::Color;
use crate::geometry::Rect;
use crate::planner::{
    calculate_crop_x_y, calculate_resize_of_image, cover_fit, crop_offset, saturate,
};

verus! {

/// The screen that the wallpaper is made for: the first one that the display
/// server reports, or `None` when it reports none.
pub fn primary_screen(resolutions: &Vec<(i32, i32)>) -> (r: Option<(i32, i32)>)
    ensures
        r == if resolutions@.len() > 0 {
            Some(resolutions@[0])
        } else {
            None::<(i32, i32)>
        },
{
    if resolutions.len() > 0 {
        Some(resolutions[0])
    } else {
        None
    }
}

/// The size to which a picture of `width` by `height` pixels is resized for
/// `screen`: its cover-fit size, as 32 bits hold it.
pub open spec fn resize_target(screen: (i32, i32), width: nat, height: nat) -> (nat, nat) {
    let fit = cover_fit(screen.0 as int, screen.1 as int, width as int, height as int);
    (saturate(fit.0) as nat, saturate(fit.1) as nat)
}

/// Whether a picture of `width` by `height` pixels can be made to cover
/// `screen`: it has pixels, and the buffers of the resize can be allocated.
pub open spec fn can_cover(screen: (i32, i32), width: nat, height: nat) -> bool {
    let target = resize_target(screen, width, height);
    &&& width > 0
    &&& height > 0
    &&& allocatable(width, target.1)
    &&& allocatable(target.0, target.1)
}

/// Whether a buffer of `width` by `height` RGBA pixels can be allocated.
fn fits_allocation(width: u32, height: u32) -> (r: bool)
    ensures
        r == allocatable(width as nat, height as nat),
{
    assert(4 * width * height <= 4 * 0xffff_ffff * 0xffff_ffff) by (nonlinear_arith)
        requires
            width <= 0xffff_ffff,
            height <= 0xffff_ffff,
    ;
    let row: u128 = 4 * (width as u128);
    let bytes: u128 = row * (height as u128);
    row <= usize::MAX as u128 && bytes <= isize::MAX as u128
}

/// Resizes `image` with nearest-neighbor sampling until it covers a screen of
/// `screen_size` on both axes, then cuts the centered screen-sized window out
/// of it. `None` when the picture is empty or too large to be resized.
pub fn cover_screen(image: &Canvas, screen_size: (i32, i32)) -> (r: Option<Canvas>)
    requires
        screen_size.0 > 0,
        screen_size.1 > 0,
    ensures
        r is Some <==> can_cover(screen_size, canvas_width(*image), canvas_height(*image)),
        r matches Some(cover) ==> {
            let target = resize_target(screen_size, canvas_width(*image), canvas_height(*image));
            let crop_x = crop_offset(screen_size.0 as int, target.0 as int);
            let crop_y = crop_offset(screen_size.1 as int, target.1 as int);
            &&& canvas_width(cover) == screen_size.0
            &&& canvas_height(cover) == screen_size.1
            &&& forall|x: int, y: int|
                0 <= x < screen_size.0 && 0 <= y < screen_size.1 ==> #[trigger] cover.pixel(x, y)
                    == image.pixel(
                    sampled(canvas_width(*image), target.0, (x + crop_x) as nat) as int,
                    sampled(canvas_height(*image), target.1, (y + crop_y) as nat) as int,
                )
        },
{
    let width = image.width();
    let height = image.height();
    if width == 0 || height == 0 {
        return None;
    }
    let (to_width, to_height) = calculate_resize_of_image(screen_size, (width, height));
    if !fits_allocation(width, to_height) || !fits_allocation(to_width, to_height) {
        return None;
    }
    let resized = image_resize_nearest(image, to_width, to_height);
    let (crop_x, crop_y) = calculate_crop_x_y(screen_size, (to_width, to_height));
    let cover = image_crop(
        resized,
        crop_x,
        crop_y,
        screen_size.0 as u32,
        screen_size.1 as u32,
    );
    assert forall|x: int, y: int|
        0 <= x < screen_size.0 && 0 <= y < screen_size.1 implies #[trigger] cover.pixel(x, y)
        == image.pixel(
        sampled(canvas_width(*image), to_width as nat, (x + crop_x) as nat) as int,
        sampled(canvas_height(*image), to_height as nat, (y + crop_y) as nat) as int,
    ) by {
        assert(cover.pixel(x, y) == resized.pixel(x + crop_x, y + crop_y));
    }
    Some(cover)
}

/// The caption box: 300 by 80 pixels, 30 pixels from the left edge of the
/// screen and 110 pixels above its bottom edge.
pub open spec fn caption_box_for(screen_height: i32) -> Rect {
    Rect { left: 30, top: (screen_height - 110) as i32, width: 300, height: 80 }
}

/// The rectangle behind the caption, for a screen of `screen_size`. On a
/// screen lower than 110 pixels it starts above the top edge.
pub fn caption_box(screen_size: (i32, i32)) -> (r: Rect)
    requires
        screen_size.0 > 0,
        screen_size.1 > 0,
    ensures
        r == caption_box_for(screen_size.1),
        r.top == screen_size.1 - 110,
{
    Rect::at(30, screen_size.1 - 110).of_size(300, 80)
}

/// The color of the caption box: black, half transparent.
pub fn caption_box_color() -> (c: Color)
    ensures
        c == (Color { red: 0, green: 0, blue: 0, alpha: 128 }),
{
    Color::new(0, 0, 0, 128)
}

/// The color of the caption: white, half transparent.
pub fn caption_color() -> (c: Color)
    ensures
        c == (Color { red: 255, green: 255, blue: 255, alpha: 128 }),
{
    Color::new(255, 255, 255, 128)
}

/// Where the caption is drawn: 60 pixels left of and 100 pixels above the
/// middle of the screen. `None` on a screen too small to hold that point,
/// which then gets no caption.
pub fn caption_origin(screen_size: (i32, i32)) -> (r: Option<(u32, u32)>)
    requires
        screen_size.0 > 0,
        screen_size.1 > 0,
    ensures
        r == if screen_size.0 / 2 >= 60 && screen_size.1 / 2 >= 100 {
            Some(((screen_size.0 / 2 - 60) as u32, (screen_size.1 / 2 - 100) as u32))
        } else {
            None::<(u32, u32)>
        },
{
    let half_width: u32 = screen_size.0 as u32 / 2;
    let half_height: u32 = screen_size.1 as u32 / 2;
    if half_width >= 60 && half_height >= 100 {
        Some((half_width - 60, half_height - 100))
    } else {
        None
    }
}

} // verus!
