use vimg::placement::{center_and_maximize, reset_zoom, ImagePlacement, ImageSize};

#[test]
fn startup_scenario_full_hd_image_on_1440p_display() {
    // 1920x1080 image on a 2560x1440 window: both ratios are 4/3, the
    // width branch wins the tie; the image fills the window exactly and
    // sits at the origin
    let p = center_and_maximize(2560, 1440, &ImageSize { width: 1920, height: 1080 });
    assert_eq!(p.scale_num, 2560);
    assert_eq!(p.scale_den, 1920);
    // the scale is exactly 4/3 == 1440/1080
    assert_eq!(p.scale_num as u64 * 1080, p.scale_den as u64 * 1440);
    assert_eq!((p.pos_x, p.pos_y), (0, 0));
}

#[test]
fn height_limited_image_is_centered_horizontally() {
    // square image on a wide window: height limits, scale = 1440/1000,
    // scaled width = 1440, centered: (2560 - 1440)/2 = 560
    let p = center_and_maximize(2560, 1440, &ImageSize { width: 1000, height: 1000 });
    assert_eq!(p.scale_num, 1440);
    assert_eq!(p.scale_den, 1000);
    assert_eq!((p.pos_x, p.pos_y), (560, 0));
}

#[test]
fn width_limited_image_is_centered_vertically() {
    // wide image on a narrow window: width limits, scale = 1000/1000,
    // scaled height = 500, centered: (1440 - 500)/2 = 470
    let p = center_and_maximize(1000, 1440, &ImageSize { width: 1000, height: 500 });
    assert_eq!(p.scale_num, 1000);
    assert_eq!(p.scale_den, 1000);
    assert_eq!((p.pos_x, p.pos_y), (0, 470));
}

#[test]
fn scaled_image_never_exceeds_window() {
    // odd sizes with truncating division; the scaled image fits on both axes
    for &(ww, wh, iw, ih) in &[
        (1000u32, 777u32, 333u32, 222u32),
        (1, 1, 4096, 4096),
        (123, 4567, 89, 1011),
        (2560, 1440, 2560, 1440),
    ] {
        let p = center_and_maximize(ww, wh, &ImageSize { width: iw, height: ih });
        let scaled_w = (iw as u64 * p.scale_num as u64) / p.scale_den as u64;
        let scaled_h = (ih as u64 * p.scale_num as u64) / p.scale_den as u64;
        assert!(scaled_w <= ww as u64);
        assert!(scaled_h <= wh as u64);
        // centered along the non-limiting axis, at 0 on the limiting one
        assert!(p.pos_x as u64 == (ww as u64 - scaled_w) / 2 || p.pos_x == 0);
        assert!(p.pos_y as u64 == (wh as u64 - scaled_h) / 2 || p.pos_y == 0);
    }
}

#[test]
fn reset_zoom_keeps_position_and_unit_scale() {
    let p = ImagePlacement { pos_x: 560, pos_y: 12, scale_num: 1440, scale_den: 1000 };
    let r = reset_zoom(&p);
    assert_eq!(r, ImagePlacement { pos_x: 560, pos_y: 12, scale_num: 1, scale_den: 1 });
}
