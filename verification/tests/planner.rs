use ilock::{calculate_crop_x_y, calculate_resize_of_image};

#[test]
fn calculate_resize_of_image_test() {
    let (w, h) = calculate_resize_of_image((200, 110), (100, 50));
    assert_eq!(h, 110);
    assert_eq!(w, 220);

    let (w, h) = calculate_resize_of_image((200, 90), (100, 50));
    assert_eq!(w, 200);
    assert_eq!(h, 100);

    let (w, h) = calculate_resize_of_image((100, 50), (200, 110));
    assert_eq!(h, 55);
    assert_eq!(w, 100);

    let (w, h) = calculate_resize_of_image((100, 50), (200, 90));
    assert_eq!(w, 111);
    assert_eq!(h, 50);
}

#[test]
fn calculate_crop_x_y_test() {
    let (x, y) = calculate_crop_x_y((200, 110), (210, 150));
    assert_eq!(x, 5);
    assert_eq!(y, 20);
}

#[test]
fn resize_then_crop_of_a_wide_screen() {
    let target = calculate_resize_of_image((200, 110), (100, 50));
    assert_eq!(target, (220, 110));
    assert_eq!(calculate_crop_x_y((200, 110), target), (10, 0));
}

#[test]
fn resize_keeps_an_image_of_the_screens_shape() {
    assert_eq!(calculate_resize_of_image((1920, 1080), (1920, 1080)), (1920, 1080));
    assert_eq!(calculate_resize_of_image((1920, 1080), (960, 540)), (1920, 1080));
    assert_eq!(calculate_resize_of_image((1920, 1080), (3840, 2160)), (1920, 1080));
}

#[test]
fn resize_rounds_toward_zero() {
    // 7 * 10 / 3 = 23.33..
    assert_eq!(calculate_resize_of_image((10, 10), (3, 7)), (10, 23));
    // 7 * 10 / 3 = 23.33.. on the other axis
    assert_eq!(calculate_resize_of_image((10, 10), (7, 3)), (23, 10));
    // 1000 * 3 / 999 = 3.003..
    assert_eq!(calculate_resize_of_image((3, 3), (1000, 999)), (3, 3));
}

#[test]
fn resize_of_a_single_pixel() {
    assert_eq!(calculate_resize_of_image((1, 1), (1, 1)), (1, 1));
    assert_eq!(calculate_resize_of_image((640, 480), (1, 1)), (640, 640));
    assert_eq!(calculate_resize_of_image((480, 640), (1, 1)), (640, 640));
}

#[test]
fn resize_covers_the_screen_and_binds_one_axis() {
    let screens = [(1, 1), (200, 110), (1366, 768), (1080, 1920), (3, 1000), (i32::MAX, 1)];
    let images = [(1, 1), (100, 50), (50, 100), (4000, 3000), (7, 5000), (u32::MAX, 3)];
    for screen in screens.iter() {
        for image in images.iter() {
            let (w, h) = calculate_resize_of_image(*screen, *image);
            assert!(w >= screen.0 as u32);
            assert!(h >= screen.1 as u32);
            assert!(w == screen.0 as u32 || h == screen.1 as u32);
        }
    }
}

#[test]
fn resize_stops_at_the_largest_dimension() {
    // 4_000_000_000 * 2 / 1 does not fit in 32 bits
    assert_eq!(calculate_resize_of_image((1, 2), (4_000_000_000, 1)), (u32::MAX, 2));
    assert_eq!(calculate_resize_of_image((2, 1), (1, 4_000_000_000)), (2, u32::MAX));
    assert_eq!(
        calculate_resize_of_image((i32::MAX, i32::MAX), (u32::MAX, 1)),
        (u32::MAX, i32::MAX as u32)
    );
}

#[test]
fn crop_is_centered_where_the_image_overflows() {
    assert_eq!(calculate_crop_x_y((200, 110), (220, 110)), (10, 0));
    assert_eq!(calculate_crop_x_y((200, 110), (200, 111)), (0, 0));
    assert_eq!(calculate_crop_x_y((200, 110), (201, 113)), (0, 1));
    assert_eq!(calculate_crop_x_y((1, 1), (u32::MAX, u32::MAX)), (2147483647, 2147483647));
}

#[test]
fn crop_is_zero_where_the_image_does_not_overflow() {
    assert_eq!(calculate_crop_x_y((200, 110), (200, 110)), (0, 0));
    assert_eq!(calculate_crop_x_y((200, 110), (100, 50)), (0, 0));
    assert_eq!(calculate_crop_x_y((200, 110), (0, 0)), (0, 0));
}

#[test]
fn crop_window_ends_inside_the_image() {
    let screens = [(1, 1), (200, 110), (1366, 768), (i32::MAX, i32::MAX)];
    let images = [(1, 1), (201, 111), (220, 110), (5000, 769), (u32::MAX, u32::MAX)];
    for screen in screens.iter() {
        for image in images.iter() {
            let (x, y) = calculate_crop_x_y(*screen, *image);
            if image.0 > screen.0 as u32 {
                assert!(x as u64 + screen.0 as u64 <= image.0 as u64);
            } else {
                assert_eq!(x, 0);
            }
            if image.1 > screen.1 as u32 {
                assert!(y as u64 + screen.1 as u64 <= image.1 as u64);
            } else {
                assert_eq!(y, 0);
            }
        }
    }
}
