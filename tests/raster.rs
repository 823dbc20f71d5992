use ray_tracer::raster::{render, Canvas};
use std::cell::RefCell;

#[test]
fn new_canvas_is_black() {
    let c = Canvas::new(3, 2);
    assert_eq!(c.width(), 3);
    assert_eq!(c.height(), 2);
    for y in 0..2 {
        for x in 0..3 {
            assert_eq!(c.pixel(x, y), (0, 0, 0));
        }
    }
}

#[test]
fn set_pixel_changes_one_pixel() {
    let mut c = Canvas::new(2, 2);
    c.set_pixel(1, 0, (255, 128, 7));
    assert_eq!(c.pixel(1, 0), (255, 128, 7));
    assert_eq!(c.pixel(0, 0), (0, 0, 0));
    assert_eq!(c.pixel(0, 1), (0, 0, 0));
    assert_eq!(c.pixel(1, 1), (0, 0, 0));
}

#[test]
fn traced_row_zero_is_the_bottom_row() {
    let mut c = Canvas::new(2, 3);
    c.set_traced(0, 0, (1, 2, 3));
    c.set_traced(1, 2, (4, 5, 6));
    assert_eq!(c.pixel(0, 2), (1, 2, 3));
    assert_eq!(c.pixel(1, 0), (4, 5, 6));
    assert_eq!(c.pixel(0, 0), (0, 0, 0));
}

#[test]
fn raw_channels_are_row_major_from_the_top() {
    let mut c = Canvas::new(2, 2);
    c.set_pixel(0, 0, (1, 2, 3));
    c.set_pixel(1, 0, (4, 5, 6));
    c.set_pixel(0, 1, (7, 8, 9));
    c.set_pixel(1, 1, (10, 11, 12));
    assert_eq!(c.into_raw(), vec![1, 2, 3, 4, 5, 6, 7, 8, 9, 10, 11, 12]);
}

#[test]
fn zero_sized_canvas() {
    let c = Canvas::new(0, 0);
    assert_eq!(c.width(), 0);
    assert!(c.into_raw().is_empty());
}

#[test]
fn render_places_each_shaded_pixel() {
    // shade encodes the renderer's coordinates in the colour
    let c = render(3, 2, |i: u32, j: u32| (i as u8, j as u8, 9));
    for y in 0..2u32 {
        for x in 0..3u32 {
            assert_eq!(c.pixel(x, y), (x as u8, (1 - y) as u8, 9));
        }
    }
}

#[test]
fn render_visits_rows_from_the_top_down() {
    let order = RefCell::new(Vec::new());
    let c = render(2, 2, |i: u32, j: u32| {
        order.borrow_mut().push((i, j));
        (0, 0, 0)
    });
    assert_eq!(*order.borrow(), vec![(0, 1), (1, 1), (0, 0), (1, 0)]);
    assert_eq!(c.into_raw(), vec![0; 12]);
}
