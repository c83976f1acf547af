use bilateral::filter::{assemble, chunk_ranges};
use bilateral::window::{index_to_coords, l2_distance_sq, pixel_window, window_bounds};
use bilateral::{Image, Pixel};

#[test]
fn window_bounds_clamp_at_both_ends() {
    // interior: the full extent fits
    assert_eq!(window_bounds(5, 2, 10), (3, 7));
    // clamped low
    assert_eq!(window_bounds(1, 3, 10), (0, 4));
    // clamped high: the upper bound is inclusive, so it stops at dim - 1
    assert_eq!(window_bounds(8, 3, 10), (5, 9));
    // clamped on both sides
    assert_eq!(window_bounds(0, 100, 4), (0, 3));
}

#[test]
fn corner_window_stays_inside_the_image() {
    // a pixel at the corner of a 4x3 image with a large radius
    let win = pixel_window(0, 0, 2, 4, 3);
    for &(k, l) in &win {
        assert!(k < 3);
        assert!(l < 4);
    }
    assert_eq!(win, vec![(0, 0), (0, 1), (0, 2), (1, 0), (1, 1), (1, 2), (2, 0), (2, 1), (2, 2)]);
}

#[test]
fn radius_zero_window_is_the_center_alone() {
    for (row, col) in [(0usize, 0usize), (2, 3), (4, 0), (4, 4)] {
        let win = pixel_window(row, col, 0, 5, 5);
        assert_eq!(win, vec![(row, col)]);
    }
}

#[test]
fn window_is_enumerated_row_major() {
    let win = pixel_window(1, 1, 1, 4, 4);
    assert_eq!(
        win,
        vec![(0, 0), (0, 1), (0, 2), (1, 0), (1, 1), (1, 2), (2, 0), (2, 1), (2, 2)]
    );
}

#[test]
fn squared_color_distance_is_exact() {
    let black = Pixel { r: 0, g: 0, b: 0 };
    let red = Pixel { r: 255, g: 0, b: 0 };
    let white = Pixel { r: 255, g: 255, b: 255 };
    assert_eq!(l2_distance_sq(&black, &black), 0);
    assert_eq!(l2_distance_sq(&black, &red), 255 * 255);
    assert_eq!(l2_distance_sq(&black, &white), 3 * 255 * 255);
    assert_eq!(
        l2_distance_sq(&Pixel { r: 10, g: 20, b: 30 }, &Pixel { r: 13, g: 16, b: 30 }),
        9 + 16
    );
}

#[test]
fn flat_index_splits_into_row_and_column() {
    assert_eq!(index_to_coords(0, 7), (0, 0));
    assert_eq!(index_to_coords(6, 7), (0, 6));
    assert_eq!(index_to_coords(7, 7), (1, 0));
    assert_eq!(index_to_coords(23, 7), (3, 2));
}

#[test]
fn chunks_cover_the_range_in_order() {
    assert_eq!(chunk_ranges(10, 3), vec![(0, 3), (3, 6), (6, 9), (9, 10)]);
    assert_eq!(chunk_ranges(9, 3), vec![(0, 3), (3, 6), (6, 9)]);
    assert_eq!(chunk_ranges(2, 5), vec![(0, 2)]);
    assert_eq!(chunk_ranges(0, 4), vec![]);
}

#[test]
fn assemble_keeps_the_shape() {
    let pixels = vec![Pixel { r: 1, g: 2, b: 3 }; 6];
    let img = assemble(3, 2, pixels.clone()).expect("one pixel per index");
    assert_eq!(img.width, 3);
    assert_eq!(img.height, 2);
    assert_eq!(img.pixels, pixels);
    assert!(assemble(3, 3, pixels).is_none());
}

#[test]
fn assemble_rebuilds_the_source_shape() {
    let src = Image::new(8, 5);
    let results: Vec<Pixel> = src.pixels.clone();
    let out = assemble(src.width, src.height, results).unwrap();
    assert_eq!(out.width, src.width);
    assert_eq!(out.height, src.height);
    assert_eq!(out.pixels.len(), src.pixels.len());
}
