use tft_ui::color::{LogicalColor, NativeColor};
use tft_ui::geometry::{mirror_x, Point, Rectangle, Size};
use tft_ui::surface::{
    flip_fill_contiguous, flip_fill_solid, flip_pixel, flip_pixels, LogicalPixel, NativePixel,
};

fn px(x: i32, y: i32, bits: u16) -> LogicalPixel {
    LogicalPixel { point: Point { x, y }, color: LogicalColor { bits } }
}

fn npx(x: i32, y: i32, bits: u16) -> NativePixel {
    NativePixel { point: Point { x, y }, color: NativeColor { bits } }
}

fn rect(x: i32, y: i32, w: u32, h: u32) -> Rectangle {
    Rectangle { top_left: Point { x, y }, size: Size { width: w, height: h } }
}

#[test]
fn mirror_is_width_minus_x_minus_one() {
    assert_eq!(mirror_x(240, 0), Some(239));
    assert_eq!(mirror_x(240, 239), Some(0));
    assert_eq!(mirror_x(320, 100), Some(219));
    for x in 0..240 {
        let m = mirror_x(240, x).unwrap();
        assert_eq!(mirror_x(240, m), Some(x));
    }
}

#[test]
fn mirror_out_of_i32_is_none() {
    assert_eq!(mirror_x(u32::MAX, 0), None);
    assert_eq!(mirror_x(0, i32::MIN), Some(i32::MAX));
    assert_eq!(mirror_x(1, i32::MIN), None);
}

#[test]
fn origin_pixel_lands_in_last_column() {
    let q = flip_pixel(240, px(0, 0, 0x1234)).unwrap();
    assert_eq!(q, npx(239, 0, 0x1234));
}

#[test]
fn pixel_order_is_kept() {
    let pixels = vec![px(5, 1, 1), px(5, 1, 2), px(0, 7, 3), px(i32::MIN, 0, 4), px(9, 9, 5)];
    let out = flip_pixels(10, &pixels);
    assert_eq!(out, vec![npx(4, 1, 1), npx(4, 1, 2), npx(9, 7, 3), npx(0, 9, 5)]);
}

#[test]
fn contiguous_fill_mirrors_each_pixel_in_raster_order() {
    let colors = vec![LogicalColor { bits: 1 }, LogicalColor { bits: 2 }, LogicalColor { bits: 3 }, LogicalColor { bits: 4 }];
    let out = flip_fill_contiguous(4, rect(0, 5, 2, 2), &colors);
    assert_eq!(out, vec![npx(3, 5, 1), npx(2, 5, 2), npx(3, 6, 3), npx(2, 6, 4)]);
}

#[test]
fn contiguous_fill_stops_at_shorter_of_area_and_colors() {
    let colors = vec![LogicalColor { bits: 7 }; 3];
    let out = flip_fill_contiguous(10, rect(1, 0, 3, 3), &colors);
    assert_eq!(out, vec![npx(8, 0, 7), npx(7, 0, 7), npx(6, 0, 7)]);
    let many = vec![LogicalColor { bits: 9 }; 10];
    assert_eq!(flip_fill_contiguous(10, rect(0, 0, 2, 1), &many).len(), 2);
    assert!(flip_fill_contiguous(10, rect(0, 0, 0, 5), &many).is_empty());
}

#[test]
fn solid_fill_lands_on_the_mirror_image() {
    let (area, color) = flip_fill_solid(320, rect(10, 4, 20, 3), LogicalColor { bits: 0x001f }).unwrap();
    assert_eq!(area, rect(290, 4, 20, 3));
    assert_eq!(color, NativeColor { bits: 0x001f });
}

#[test]
fn solid_fill_is_cut_to_the_surface() {
    let (area, _) = flip_fill_solid(100, rect(-5, 0, 10, 2), LogicalColor { bits: 1 }).unwrap();
    assert_eq!(area, rect(95, 0, 5, 2));
    let (area, _) = flip_fill_solid(100, rect(90, 0, 50, 2), LogicalColor { bits: 1 }).unwrap();
    assert_eq!(area, rect(0, 0, 10, 2));
    assert_eq!(flip_fill_solid(100, rect(100, 0, 5, 5), LogicalColor { bits: 1 }), None);
    assert_eq!(flip_fill_solid(100, rect(-10, 0, 10, 5), LogicalColor { bits: 1 }), None);
}

#[test]
fn full_width_fill_covers_the_same_columns() {
    let (area, _) = flip_fill_solid(240, rect(0, 10, 240, 20), LogicalColor { bits: 0 }).unwrap();
    assert_eq!(area, rect(0, 10, 240, 20));
}
