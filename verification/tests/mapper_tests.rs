use pixel_picker::buffer::OutOfBounds;
use pixel_picker::mapper::{map_pointer, DisplayRect, Point, PointerEvent};

fn press(x: i64, y: i64) -> PointerEvent {
    PointerEvent { position: Point { x, y } }
}

fn rect(x: i64, y: i64, width: u64, height: u64) -> DisplayRect {
    DisplayRect { origin: Point { x, y }, width, height }
}

#[test]
fn press_at_the_origin_maps_to_the_first_pixel() {
    assert_eq!(map_pointer(press(40, 70), rect(40, 70, 500, 250), (1000, 500)), Ok(0));
    assert_eq!(map_pointer(press(-5, -9), rect(-5, -9, 3, 3), (1, 1)), Ok(0));
}

#[test]
fn press_just_inside_the_far_corner_maps_to_the_last_pixel() {
    assert_eq!(map_pointer(press(40 + 199, 70 + 99), rect(40, 70, 200, 100), (100, 50)), Ok(4999));
    assert_eq!(map_pointer(press(7, 3), rect(0, 0, 8, 4), (8, 4)), Ok(31));
    // Up to one image pixel inside the corner, as wide as it is shown.
    assert_eq!(map_pointer(press(40 + 198, 70 + 98), rect(40, 70, 200, 100), (100, 50)), Ok(4999));
    assert_eq!(map_pointer(press(40 + 197, 70 + 98), rect(40, 70, 200, 100), (100, 50)), Ok(4998));
}

#[test]
fn press_outside_the_rectangle_maps_to_nothing() {
    let r = rect(40, 70, 200, 100);
    let dims = (100, 50);
    assert_eq!(map_pointer(press(39, 69), r, dims), Err(OutOfBounds));
    assert_eq!(map_pointer(press(39, 80), r, dims), Err(OutOfBounds));
    assert_eq!(map_pointer(press(50, 69), r, dims), Err(OutOfBounds));
    assert_eq!(map_pointer(press(241, 171), r, dims), Err(OutOfBounds));
    assert_eq!(map_pointer(press(241, 80), r, dims), Err(OutOfBounds));
    assert_eq!(map_pointer(press(50, 171), r, dims), Err(OutOfBounds));
    assert_eq!(map_pointer(press(i64::MIN, i64::MAX), r, dims), Err(OutOfBounds));
}

#[test]
fn scale_of_two_doubles_the_offset() {
    assert_eq!(map_pointer(press(10, 20), rect(0, 0, 500, 500), (1000, 1000)), Ok(40020));
    assert_eq!(map_pointer(press(110, 220), rect(100, 200, 500, 500), (1000, 1000)), Ok(40020));
}

#[test]
fn scale_of_a_half_halves_the_offset() {
    assert_eq!(map_pointer(press(6, 6), rect(0, 0, 8, 8), (4, 4)), Ok(15));
    assert_eq!(map_pointer(press(7, 5), rect(0, 0, 8, 8), (4, 4)), Ok(2 * 4 + 3));
}

#[test]
fn scaled_offsets_are_rounded_down() {
    // 3 * 10 / 4 = 7.5 and 1 * 10 / 4 = 2.5
    assert_eq!(map_pointer(press(3, 1), rect(0, 0, 4, 4), (10, 10)), Ok(2 * 10 + 7));
}

#[test]
fn rows_are_scaled_by_the_ratio_of_the_widths() {
    // The preview is twice as wide as the image but four times as high.
    assert_eq!(map_pointer(press(0, 6), rect(0, 0, 8, 16), (4, 4)), Ok(3 * 4));
    assert_eq!(map_pointer(press(0, 8), rect(0, 0, 8, 16), (4, 4)), Err(OutOfBounds));
}

#[test]
fn result_does_not_depend_on_the_unit() {
    let coarse = map_pointer(press(13, 27), rect(3, 5, 50, 50), (1000, 1000));
    let fine = map_pointer(press(13 * 256, 27 * 256), rect(3 * 256, 5 * 256, 50 * 256, 50 * 256), (1000, 1000));
    assert_eq!(coarse, Ok(440 * 1000 + 200));
    assert_eq!(fine, coarse);
}

#[test]
fn far_edges_belong_to_the_rectangle() {
    // On the right edge the column equals the width, which is the first
    // column of the next row.
    assert_eq!(map_pointer(press(2, 0), rect(0, 0, 2, 2), (2, 2)), Ok(2));
    // On the bottom edge the row equals the height: no pixel.
    assert_eq!(map_pointer(press(0, 2), rect(0, 0, 2, 2), (2, 2)), Err(OutOfBounds));
    assert_eq!(map_pointer(press(2, 2), rect(0, 0, 2, 2), (2, 2)), Err(OutOfBounds));
    assert_eq!(map_pointer(press(2, 1), rect(0, 0, 2, 2), (2, 2)), Err(OutOfBounds));
}

#[test]
fn rectangle_without_extent_maps_to_nothing() {
    assert_eq!(map_pointer(press(0, 0), rect(0, 0, 0, 5), (4, 4)), Err(OutOfBounds));
    assert_eq!(map_pointer(press(0, 0), rect(0, 0, 5, 0), (4, 4)), Err(OutOfBounds));
}

#[test]
fn image_without_pixels_maps_to_nothing() {
    assert_eq!(map_pointer(press(0, 0), rect(0, 0, 5, 5), (0, 0)), Err(OutOfBounds));
    assert_eq!(map_pointer(press(1, 1), rect(0, 0, 5, 5), (0, 7)), Err(OutOfBounds));
    assert_eq!(map_pointer(press(1, 1), rect(0, 0, 5, 5), (7, 0)), Err(OutOfBounds));
}

#[test]
fn extreme_coordinates_do_not_overflow() {
    let r = rect(i64::MIN, i64::MIN, u64::MAX, u64::MAX);
    assert_eq!(map_pointer(press(i64::MIN, i64::MIN), r, (3, 3)), Ok(0));
    assert_eq!(map_pointer(press(i64::MAX, i64::MAX), r, (3, 3)), Err(OutOfBounds));
    assert_eq!(map_pointer(press(i64::MAX - 1, i64::MIN), r, (3, 3)), Ok(2));
}
