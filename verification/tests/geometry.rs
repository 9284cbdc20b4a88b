use snapture::editor::document::{drop_closing_point, pixel_in_bounds, push_unique_point};
use snapture::model::overlay::text_extent_of;

fn std_extent(text: &str) -> (usize, usize) {
    let lines: Vec<&str> = text.lines().collect();
    let line_count = lines.len().max(1);
    let max_chars = lines
        .iter()
        .map(|line| line.chars().count())
        .max()
        .unwrap_or(1);
    (line_count, max_chars)
}

#[test]
fn text_extent_counts_lines_and_longest_line() {
    assert_eq!(text_extent_of("hello"), (1, 5));
    assert_eq!(text_extent_of("ab\nabcd\nc"), (3, 4));
    assert_eq!(text_extent_of(""), (1, 1));
    assert_eq!(text_extent_of("\n"), (1, 0));
    assert_eq!(text_extent_of("wörld\r\nx"), (2, 5));
    for text in ["", "a", "a\n", "\n\n", "ab\r\ncd\r\n", "x\r", "héllo\nwörld!!", "\r\n\r\n"] {
        assert_eq!(text_extent_of(text), std_extent(text), "text {text:?}");
    }
}

#[test]
fn polygon_vertices_skip_repeats() {
    let mut points = Vec::new();
    push_unique_point(&mut points, (1, 1));
    push_unique_point(&mut points, (1, 1));
    push_unique_point(&mut points, (2, 1));
    push_unique_point(&mut points, (1, 1));
    assert_eq!(points, vec![(1, 1), (2, 1), (1, 1)]);
    drop_closing_point(&mut points);
    assert_eq!(points, vec![(1, 1), (2, 1)]);
    drop_closing_point(&mut points);
    assert_eq!(points, vec![(1, 1), (2, 1)]);
}

#[test]
fn a_single_vertex_polygon_is_emptied() {
    let mut points = vec![(3, 4)];
    drop_closing_point(&mut points);
    assert!(points.is_empty());
    drop_closing_point(&mut points);
    assert!(points.is_empty());
}

#[test]
fn dots_must_land_on_the_image() {
    assert!(pixel_in_bounds(0, 0, 10, 10));
    assert!(pixel_in_bounds(9, 9, 10, 10));
    assert!(!pixel_in_bounds(10, 0, 10, 10));
    assert!(!pixel_in_bounds(-1, 3, 10, 10));
    assert!(!pixel_in_bounds(0, 0, 0, 0));
}
