//! The helix-style normal-mode motion: how one selection changes when a
//! motion is applied. The host maps this over the editor's selections; the
//! motion itself, the right-neighbour of a point and the buffer's end point
//! come from the editor's display map and are handed in as plain values.

use vstd::prelude::*;

verus! {

/// A buffer position: row and column.
#[derive(Clone, Copy, Debug, PartialEq, Eq, Structural)]
pub struct Point {
    pub row: u32,
    pub column: u32,
}

/// Buffer order: by row, then by column.
pub open spec fn point_lt(a: Point, b: Point) -> bool {
    a.row < b.row || (a.row == b.row && a.column < b.column)
}

/// One selection: its ends in buffer order, whether the moving head is the
/// start rather than the end, and the goal the motion reported (a
/// host-assigned id, kept for the next vertical motion).
#[derive(Clone, Copy, Debug, PartialEq, Eq, Structural)]
pub struct Selection {
    pub start: Point,
    pub end: Point,
    pub reversed: bool,
    pub goal: u64,
}

impl Selection {
    /// The moving end of the selection.
    pub open spec fn spec_head(self) -> Point {
        if self.reversed {
            self.start
        } else {
            self.end
        }
    }
}

/// What one helix normal-mode motion does to one selection. The selection
/// first collapses to its head; when the motion yields nothing it stays
/// collapsed. Otherwise the head moves to the motion's result, and — so
/// that the character under the cursor stays selected — the selection's
/// end is extended one step right, unless the motion is a word-start
/// motion on that side, and never onto the max point at the start of a
/// trailing newline. `next_point` is the right neighbour of the moved
/// selection's end, `max_point` the end of the buffer, both measured by
/// the host.
pub fn helix_normal_motion(
    selection: Selection,
    moved: Option<(Point, u64)>,
    motion_is_next_word_start: bool,
    motion_is_prev_word_start: bool,
    next_point: Point,
    max_point: Point,
) -> (r: Selection)
    ensures
        moved is None ==> r == (Selection {
            start: selection.spec_head(),
            end: selection.spec_head(),
            reversed: selection.reversed,
            goal: selection.goal,
        }),
        moved matches Some((new_head, goal)) ==> {
            let head = selection.spec_head();
            let reversed = point_lt(new_head, head);
            let start = if reversed {
                new_head
            } else {
                head
            };
            let end = if reversed {
                head
            } else {
                new_head
            };
            let extend = (!reversed && !motion_is_next_word_start) || (reversed
                && !motion_is_prev_word_start);
            let at_trailing_newline = next_point.column == 0 && next_point == max_point;
            &&& r.start == start
            &&& r.reversed == reversed
            &&& r.goal == goal
            &&& r.end == if extend && !at_trailing_newline {
                next_point
            } else {
                end
            }
        },
{
    let head = if selection.reversed {
        selection.start
    } else {
        selection.end
    };
    let (new_head, goal) = match moved {
        None => {
            return Selection {
                start: head,
                end: head,
                reversed: selection.reversed,
                goal: selection.goal,
            };
        },
        Some(m) => m,
    };
    let reversed = new_head.row < head.row || (new_head.row == head.row && new_head.column
        < head.column);
    let mut result = Selection {
        start: if reversed {
            new_head
        } else {
            head
        },
        end: if reversed {
            head
        } else {
            new_head
        },
        reversed,
        goal,
    };
    let extend = if reversed {
        !motion_is_prev_word_start
    } else {
        !motion_is_next_word_start
    };
    if extend {
        let at_trailing_newline = next_point.column == 0 && next_point.row == max_point.row
            && next_point.column == max_point.column;
        if !at_trailing_newline {
            result.end = next_point;
        }
    }
    result
}

} // verus!
