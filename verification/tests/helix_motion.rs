//! Tests for the helix-style normal-mode motion step.

use uniform_list::helix::{helix_normal_motion, Point, Selection};

fn p(row: u32, column: u32) -> Point {
    Point { row, column }
}

fn collapsed_at(point: Point) -> Selection {
    Selection { start: point, end: point, reversed: false, goal: 0 }
}

fn max_point() -> Point {
    p(50, 0)
}

#[test]
fn no_motion_collapses_to_the_head() {
    let sel = Selection { start: p(2, 1), end: p(2, 5), reversed: false, goal: 7 };
    let r = helix_normal_motion(sel, None, false, false, p(2, 6), max_point());
    assert_eq!(r, Selection { start: p(2, 5), end: p(2, 5), reversed: false, goal: 7 });
    let rev = Selection { start: p(2, 1), end: p(2, 5), reversed: true, goal: 7 };
    let r = helix_normal_motion(rev, None, false, false, p(2, 2), max_point());
    assert_eq!(r, Selection { start: p(2, 1), end: p(2, 1), reversed: true, goal: 7 });
}

#[test]
fn forward_motion_extends_over_the_cursor_character() {
    let r = helix_normal_motion(
        collapsed_at(p(3, 4)),
        Some((p(3, 9), 1)),
        false,
        false,
        p(3, 10),
        max_point(),
    );
    assert_eq!(r, Selection { start: p(3, 4), end: p(3, 10), reversed: false, goal: 1 });
}

#[test]
fn next_word_start_motion_is_not_extended() {
    let r = helix_normal_motion(
        collapsed_at(p(3, 4)),
        Some((p(3, 9), 1)),
        true,
        false,
        p(3, 10),
        max_point(),
    );
    assert_eq!(r, Selection { start: p(3, 4), end: p(3, 9), reversed: false, goal: 1 });
}

#[test]
fn backward_motion_reverses_and_still_extends_the_end() {
    let r = helix_normal_motion(
        collapsed_at(p(3, 4)),
        Some((p(2, 7), 2)),
        false,
        false,
        p(3, 5),
        max_point(),
    );
    assert_eq!(r, Selection { start: p(2, 7), end: p(3, 5), reversed: true, goal: 2 });
}

#[test]
fn previous_word_start_motion_is_not_extended_when_reversed() {
    let r = helix_normal_motion(
        collapsed_at(p(3, 4)),
        Some((p(2, 7), 2)),
        false,
        true,
        p(3, 5),
        max_point(),
    );
    assert_eq!(r, Selection { start: p(2, 7), end: p(3, 4), reversed: true, goal: 2 });
}

#[test]
fn extension_stops_before_a_trailing_newline() {
    // The right neighbour is the max point at column zero: the file ends
    // with a newline and the end is not pushed onto it.
    let r = helix_normal_motion(
        collapsed_at(p(49, 2)),
        Some((p(49, 7), 3)),
        false,
        false,
        max_point(),
        max_point(),
    );
    assert_eq!(r, Selection { start: p(49, 2), end: p(49, 7), reversed: false, goal: 3 });
}
