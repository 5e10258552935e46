//! Lock-screen wallpaper composition: cover-fit planning and translucent overlays.

pub mod canvas;
pub mod caption;
pub mod color;
pub mod compositor;
pub mod geometry;
pub mod planner;
pub mod wallpaper;

pub use canvas::Canvas;
pub use caption::{choose_caption, select_caption};
pub use color::Color;
pub use compositor::draw_blended_rect_mut;
pub use geometry::{Rect, RectPosition};
pub use planner::{calculate_crop_x_y, calculate_resize_of_image};
pub use wallpaper::{
    caption_box, caption_box_color, caption_color, caption_origin, cover_screen, primary_screen,
};
