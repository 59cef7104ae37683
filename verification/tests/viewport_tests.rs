use vimg::viewport::{fit_viewport, LogicalCanvas, Viewport};

fn canvas_1440p() -> LogicalCanvas {
    LogicalCanvas { width: 2560, height: 1440 }
}

#[test]
fn equal_ratio_gives_full_rectangle() {
    // window with exactly the canvas ratio: no black bars
    let v = fit_viewport(1280, 720, &canvas_1440p());
    assert_eq!(v, Viewport { left: 0, top: 0, width: 1, height: 1, den: 1 });
}

#[test]
fn same_size_as_canvas_gives_full_rectangle() {
    let v = fit_viewport(2560, 1440, &canvas_1440p());
    assert_eq!(v, Viewport { left: 0, top: 0, width: 1, height: 1, den: 1 });
}

#[test]
fn double_resolution_keeps_full_rectangle() {
    // resizing to exactly double the desktop resolution preserves the ratio
    let v = fit_viewport(5120, 2880, &canvas_1440p());
    assert_eq!(v, Viewport { left: 0, top: 0, width: 1, height: 1, den: 1 });
}

#[test]
fn zero_width_gives_degenerate_rectangle() {
    let v = fit_viewport(0, 1440, &canvas_1440p());
    assert_eq!((v.left, v.top, v.width, v.height), (0, 0, 0, 0));
}

#[test]
fn zero_height_gives_degenerate_rectangle() {
    let v = fit_viewport(2560, 0, &canvas_1440p());
    assert_eq!((v.left, v.top, v.width, v.height), (0, 0, 0, 0));
}

#[test]
fn wider_window_is_pillarboxed_and_centered() {
    // window 3200x1440 over a 2560x1440 canvas: a = 3200*1440, b = 1440*2560
    // width = b/a = 2560/3200 = 4/5, left = (1 - 4/5)/2 = 1/10
    let v = fit_viewport(3200, 1440, &canvas_1440p());
    assert_eq!(v.den, 2 * 3200 * 1440);
    assert_eq!(v.width, 2 * 1440 * 2560);
    assert_eq!(v.left, 3200u128 * 1440 - 1440 * 2560);
    assert_eq!(v.top, 0);
    assert_eq!(v.height, v.den);
    // exact values: width/den == 4/5, left/den == 1/10
    assert_eq!(v.width * 5, v.den * 4);
    assert_eq!(v.left * 10, v.den);
    // centered: left == (den - width)/2
    assert_eq!(2 * v.left + v.width, v.den);
}

#[test]
fn taller_window_is_letterboxed_and_centered() {
    // window 1280x1440 over a 2560x1440 canvas: a = 1280*1440, b = 1440*2560
    // height = a/b = 1/2, top = (1 - 1/2)/2 = 1/4
    let v = fit_viewport(1280, 1440, &canvas_1440p());
    assert_eq!(v.den, 2 * 1440 * 2560);
    assert_eq!(v.height, 2 * 1280 * 1440);
    assert_eq!(v.left, 0);
    assert_eq!(v.width, v.den);
    assert_eq!(v.height * 2, v.den);
    assert_eq!(v.top * 4, v.den);
    assert_eq!(2 * v.top + v.height, v.den);
}

#[test]
fn rectangle_stays_inside_unit_square() {
    // odd sizes; the fitted rectangle never leaves [0,1] x [0,1]
    let canvas = LogicalCanvas { width: 1366, height: 768 };
    for &(w, h) in &[(1u32, 1u32), (97, 1021), (5000, 3), (1366, 768), (0, 7)] {
        let v = fit_viewport(w, h, &canvas);
        assert!(v.den > 0);
        assert!(v.left + v.width <= v.den);
        assert!(v.top + v.height <= v.den);
    }
}
