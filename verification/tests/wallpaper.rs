use ilock::{
    caption_box, caption_box_color, caption_color, caption_origin, choose_caption, cover_screen,
    draw_blended_rect_mut, primary_screen, select_caption, Canvas, Color, Rect,
};

fn row_of(colors: &[Color], rows: u32) -> Canvas {
    let mut data = Vec::new();
    for _ in 0..rows {
        for c in colors.iter() {
            data.push(c.red);
            data.push(c.green);
            data.push(c.blue);
            data.push(c.alpha);
        }
    }
    Canvas::from_raw(colors.len() as u32, rows, data).unwrap()
}

fn shade(n: u8) -> Color {
    Color::new(n, n, n, 255)
}

#[test]
fn primary_screen_is_the_first_one() {
    assert_eq!(primary_screen(&vec![(1920, 1080), (1280, 1024)]), Some((1920, 1080)));
    assert_eq!(primary_screen(&vec![(800, 600)]), Some((800, 600)));
}

#[test]
fn primary_screen_of_no_display_is_none() {
    assert_eq!(primary_screen(&Vec::new()), None);
}

#[test]
fn cover_screen_enlarges_a_small_picture() {
    let picture = row_of(&[shade(1), shade(2)], 1);
    let cover = cover_screen(&picture, (4, 2)).unwrap();
    assert_eq!((cover.width(), cover.height()), (4, 2));
    for y in 0..2 {
        assert_eq!(cover.get_pixel(0, y), Some(shade(1)));
        assert_eq!(cover.get_pixel(1, y), Some(shade(1)));
        assert_eq!(cover.get_pixel(2, y), Some(shade(2)));
        assert_eq!(cover.get_pixel(3, y), Some(shade(2)));
    }
}

#[test]
fn cover_screen_cuts_the_centered_window() {
    // 4 x 1 becomes 8 x 2; the window of 2 x 2 starts at column 3
    let picture = row_of(&[shade(1), shade(2), shade(3), shade(4)], 1);
    let cover = cover_screen(&picture, (2, 2)).unwrap();
    assert_eq!((cover.width(), cover.height()), (2, 2));
    for y in 0..2 {
        assert_eq!(cover.get_pixel(0, y), Some(shade(2)));
        assert_eq!(cover.get_pixel(1, y), Some(shade(3)));
    }
}

#[test]
fn cover_screen_shrinks_a_large_picture() {
    let picture = row_of(&[shade(1), shade(2), shade(3), shade(4)], 4);
    let cover = cover_screen(&picture, (2, 2)).unwrap();
    assert_eq!((cover.width(), cover.height()), (2, 2));
    assert_eq!(cover.get_pixel(0, 0), Some(shade(2)));
    assert_eq!(cover.get_pixel(1, 0), Some(shade(4)));
    assert_eq!(cover.get_pixel(0, 1), Some(shade(2)));
    assert_eq!(cover.get_pixel(1, 1), Some(shade(4)));
}

#[test]
fn cover_screen_has_the_size_of_the_screen() {
    let picture = row_of(&[shade(1), shade(2), shade(3)], 5);
    for screen in [(1, 1), (7, 3), (3, 7), (16, 9), (40, 30)].iter() {
        let cover = cover_screen(&picture, *screen).unwrap();
        assert_eq!((cover.width() as i32, cover.height() as i32), *screen);
    }
}

#[test]
fn cover_screen_refuses_an_empty_picture() {
    let picture = Canvas::from_raw(0, 0, Vec::new()).unwrap();
    assert!(cover_screen(&picture, (4, 2)).is_none());
    let picture = Canvas::from_raw(3, 0, Vec::new()).unwrap();
    assert!(cover_screen(&picture, (4, 2)).is_none());
}

#[test]
fn cover_screen_refuses_a_screen_beyond_memory() {
    let picture = row_of(&[shade(1)], 1);
    assert!(cover_screen(&picture, (i32::MAX, i32::MAX)).is_none());
}

#[test]
fn caption_box_sits_near_the_bottom_left() {
    assert_eq!(caption_box((1920, 1080)), Rect { left: 30, top: 970, width: 300, height: 80 });
    assert_eq!(caption_box((200, 110)), Rect { left: 30, top: 0, width: 300, height: 80 });
    assert_eq!(caption_box((1, 1)), Rect { left: 30, top: -109, width: 300, height: 80 });
    assert_eq!(
        caption_box((i32::MAX, i32::MAX)),
        Rect { left: 30, top: i32::MAX - 110, width: 300, height: 80 }
    );
}

#[test]
fn caption_colors_are_half_transparent() {
    assert_eq!(caption_box_color(), Color::new(0, 0, 0, 128));
    assert_eq!(caption_color(), Color::new(255, 255, 255, 128));
}

#[test]
fn caption_box_is_clipped_on_a_small_screen() {
    let white = Color::new(255, 255, 255, 255);
    let mut canvas = row_of(&vec![white; 40], 35);
    draw_blended_rect_mut(&mut canvas, caption_box((40, 35)), Color::new(0, 0, 0, 255));
    // the box spans columns 30.. and rows -75..=4
    for y in 0..35 {
        for x in 0..40 {
            let expected = if x >= 30 && y <= 4 { Color::new(0, 0, 0, 255) } else { white };
            assert_eq!(canvas.get_pixel(x, y), Some(expected));
        }
    }
}

#[test]
fn caption_box_darkens_the_picture() {
    let white = Color::new(255, 255, 255, 255);
    let mut canvas = row_of(&vec![white; 400], 200);
    draw_blended_rect_mut(&mut canvas, caption_box((400, 200)), caption_box_color());
    assert_eq!(canvas.get_pixel(29, 90), Some(white));
    assert_eq!(canvas.get_pixel(30, 89), Some(white));
    assert_eq!(canvas.get_pixel(30, 90).unwrap().red, 127);
    assert_eq!(canvas.get_pixel(329, 169).unwrap().red, 127);
    assert_eq!(canvas.get_pixel(330, 169), Some(white));
    assert_eq!(canvas.get_pixel(329, 170), Some(white));
}

#[test]
fn caption_origin_is_left_of_and_above_the_middle() {
    assert_eq!(caption_origin((1920, 1080)), Some((900, 440)));
    assert_eq!(caption_origin((120, 200)), Some((0, 0)));
    assert_eq!(caption_origin((121, 201)), Some((0, 0)));
    assert_eq!(caption_origin((i32::MAX, i32::MAX)), Some((1073741763, 1073741723)));
}

#[test]
fn caption_origin_of_a_small_screen_is_none() {
    assert_eq!(caption_origin((119, 1080)), None);
    assert_eq!(caption_origin((1920, 199)), None);
    assert_eq!(caption_origin((1, 1)), None);
}

#[test]
fn select_caption_takes_the_captions_in_turn() {
    assert_eq!(select_caption(0), "\u{f83d}");
    assert_eq!(select_caption(1), "\u{f840}");
    assert_eq!(select_caption(2), "\u{f456}");
    assert_eq!(select_caption(3), "\u{f83d}");
    assert_eq!(select_caption(u32::MAX), "\u{f83d}");
    assert_eq!(select_caption(u32::MAX - 1), "\u{f456}");
}

#[test]
fn choose_caption_gives_one_of_the_captions() {
    for _ in 0..50 {
        let caption = choose_caption();
        assert!(caption == "\u{f83d}" || caption == "\u{f840}" || caption == "\u{f456}");
    }
}
