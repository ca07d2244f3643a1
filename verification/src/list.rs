//! The virtualized uniform-height list engine.
//!
//! A `UniformList` presents a collection of `item_count` items, each of the
//! same measured height, inside a scrollable viewport. Each layout pass
//! resolves any pending autoscroll request, clamps the scroll offset, and
//! computes the half-open index range that must be materialized to cover the
//! viewport plus one overscan item. The host materializes exactly that range.

use vstd::prelude::*;

use crate::geometry::{Rect, Size, SizeConstraint};

verus! {

/// Amplification applied to a coarse (non-precise) wheel notch before it is
/// applied to the scroll offset.
pub const COARSE_SCROLL_MULTIPLIER: u64 = 20;

/// Number of extra items materialized past the strictly visible count, so
/// that fractional scroll offsets never expose a gap.
pub const OVERSCAN_ITEMS: u64 = 1;

/// A one-shot autoscroll request: reveal an index with minimal motion, or
/// center it in the viewport.
#[derive(Clone, Copy, Debug)]
pub enum ScrollTarget {
    Show(usize),
    Center(usize),
}

/// Shared scroll state of one list: the viewport's top offset in
/// content-space units, and at most one pending autoscroll request, consumed
/// by the next layout pass.
#[derive(Clone, Copy, Debug)]
pub struct UniformListState {
    pub scroll_top: u64,
    pub pending: Option<ScrollTarget>,
}

impl UniformListState {
    /// A fresh state: offset zero, no pending request.
    pub fn new() -> (r: UniformListState)
        ensures
            r.scroll_top == 0,
            r.pending is None,
    {
        UniformListState { scroll_top: 0, pending: None }
    }

    /// Queues a one-shot autoscroll request, replacing any earlier one.
    pub fn scroll_to(&mut self, scroll_to: ScrollTarget)
        ensures
            final(self).pending == Some(scroll_to),
            final(self).scroll_top == old(self).scroll_top,
    {
        self.pending = Some(scroll_to);
    }

    /// Read-only snapshot of the current offset; may be stale until the next
    /// layout pass clamps it.
    pub fn scroll_top(&self) -> (r: u64)
        ensures
            r == self.scroll_top,
    {
        self.scroll_top
    }
}

/// Result of one layout pass: the quantities the paint and event passes need.
/// `visible_start..visible_end` is the range to materialize; it is a
/// sub-range of `0..item_count` and is empty iff the collection is empty.
#[derive(Clone, Copy, Debug)]
pub struct LayoutState {
    pub scroll_max: u64,
    pub item_height: u64,
    pub visible_start: usize,
    pub visible_end: usize,
}

/// The list element: its scroll state plus the per-instance configuration.
pub struct UniformList {
    pub state: UniformListState,
    pub item_count: usize,
    pub padding_top: u64,
    pub padding_bottom: u64,
    pub get_width_from_item: Option<usize>,
}

/// Where `Center(ix)` puts the scroll offset, before the upper clamp: the
/// item's center minus half the viewport height, floored at zero.
pub open spec fn center_candidate(
    padding_top: int,
    ix: int,
    item_height: int,
    list_height: int,
) -> int {
    let item_center = padding_top + ix * item_height + item_height / 2;
    vstd::math::max(0, item_center - list_height / 2)
}

/// Where `Show(ix)` puts the scroll offset, before the upper clamp: minimal
/// motion — up to the item's top edge when it lies above the window, down
/// just enough when it lies below, otherwise unchanged.
pub open spec fn show_candidate(
    cur: int,
    padding_top: int,
    ix: int,
    item_height: int,
    list_height: int,
) -> int {
    let item_top = padding_top + ix * item_height;
    let item_bottom = item_top + item_height;
    if item_top < cur {
        item_top
    } else if item_bottom > cur + list_height {
        item_bottom - list_height
    } else {
        cur
    }
}

/// The scroll offset after the autoscroll resolver runs: the pending
/// request's candidate offset (or the current offset when none is pending),
/// clamped from above to `scroll_max`.
pub open spec fn resolved_scroll_top(
    state: UniformListState,
    padding_top: int,
    scroll_max: int,
    list_height: int,
    item_height: int,
) -> int {
    let cand = match state.pending {
        None => state.scroll_top as int,
        Some(ScrollTarget::Show(ix)) => show_candidate(
            state.scroll_top as int,
            padding_top,
            ix as int,
            item_height,
            list_height,
        ),
        Some(ScrollTarget::Center(ix)) => center_candidate(
            padding_top,
            ix as int,
            item_height,
            list_height,
        ),
    };
    vstd::math::min(cand, scroll_max)
}

/// First index of the visible range: how many whole items lie fully above
/// the viewport's top edge, clamped to the collection size. The divisor is
/// the item height floored at one unit, so a zero-height sample cannot
/// divide by zero.
pub open spec fn spec_visible_start(
    scroll_top: int,
    padding_top: int,
    item_height: int,
    item_count: int,
) -> int {
    let diff = vstd::math::max(0, scroll_top - padding_top);
    vstd::math::min(diff / vstd::math::max(item_height, 1), item_count)
}

/// Ceiling of `a / b` for non-negative `a` and positive `b`.
pub open spec fn spec_ceil_div(a: int, b: int) -> int {
    a / b + if a % b == 0 {
        0int
    } else {
        1int
    }
}

/// One-past-the-last index of the visible range: the start plus the number
/// of items that cover the viewport, plus the overscan, clamped to the
/// collection size.
pub open spec fn spec_visible_end(
    start: int,
    viewport_height: int,
    item_height: int,
    item_count: int,
) -> int {
    vstd::math::min(
        item_count,
        start + spec_ceil_div(viewport_height, vstd::math::max(item_height, 1))
            + OVERSCAN_ITEMS,
    )
}

impl UniformList {
    /// Height the layout pass settles on: the constraint's maximum, shrunk
    /// to the total content height — items plus both paddings — when the
    /// content is shorter than the viewport, but never below the
    /// constraint's minimum. A short list thus ends up with no scrollable
    /// slack.
    pub open spec fn spec_chosen_height(self, constraint: SizeConstraint, item_height: u64) -> int {
        let total_height = self.spec_scroll_height(item_height);
        if total_height < constraint.max.y {
            vstd::math::max(total_height, constraint.min.y as int)
        } else {
            constraint.max.y as int
        }
    }

    /// Width the layout pass settles on before item measurement: the sample
    /// item's width when the list is configured to size from an item,
    /// otherwise the constraint's maximum width.
    pub open spec fn spec_chosen_width(self, constraint: SizeConstraint, sample: Size) -> int {
        if self.get_width_from_item is Some {
            sample.x as int
        } else {
            constraint.max.x as int
        }
    }

    /// Total content height: all items plus both paddings.
    pub open spec fn spec_scroll_height(self, item_height: u64) -> int {
        self.item_count * item_height + self.padding_top + self.padding_bottom
    }

    /// Largest valid scroll offset for this pass: content height beyond the
    /// chosen viewport height, floored at zero.
    pub open spec fn spec_scroll_max(self, constraint: SizeConstraint, item_height: u64) -> int {
        vstd::math::max(
            0,
            self.spec_scroll_height(item_height) - self.spec_chosen_height(
                constraint,
                item_height,
            ),
        )
    }

    /// A list over `item_count` items sharing `state`, with no padding and
    /// the sample item taken from index zero.
    pub fn new(state: UniformListState, item_count: usize) -> (r: UniformList)
        ensures
            r.state == state,
            r.item_count == item_count,
            r.padding_top == 0,
            r.padding_bottom == 0,
            r.get_width_from_item is None,
    {
        UniformList {
            state,
            item_count,
            padding_top: 0,
            padding_bottom: 0,
            get_width_from_item: None,
        }
    }

    /// Derives the list's width from the item at `item_ix` instead of from
    /// the constraint's maximum width.
    pub fn with_width_from_item(self, item_ix: Option<usize>) -> (r: UniformList)
        ensures
            r == (UniformList { get_width_from_item: item_ix, ..self }),
    {
        UniformList { get_width_from_item: item_ix, ..self }
    }

    /// Sets the padding above the first item.
    pub fn with_padding_top(self, padding: u64) -> (r: UniformList)
        ensures
            r == (UniformList { padding_top: padding, ..self }),
    {
        UniformList { padding_top: padding, ..self }
    }

    /// Sets the padding below the last item.
    pub fn with_padding_bottom(self, padding: u64) -> (r: UniformList)
        ensures
            r == (UniformList { padding_bottom: padding, ..self }),
    {
        UniformList { padding_bottom: padding, ..self }
    }

    /// Current scroll offset of this list's state.
    pub fn scroll_top(&self) -> (r: u64)
        ensures
            r == self.state.scroll_top,
    {
        self.state.scroll_top
    }

    /// Handles one wheel event against the `scroll_max` captured at the most
    /// recent layout pass. A coarse (non-precise) delta is amplified by
    /// `COARSE_SCROLL_MULTIPLIER`; the offset moves opposite to the delta and
    /// is clamped into `[0, scroll_max]`. The event is always consumed.
    pub fn scroll(
        state: &mut UniformListState,
        delta_y: i64,
        precise: bool,
        scroll_max: u64,
    ) -> (handled: bool)
        ensures
            handled == true,
            final(state).pending == old(state).pending,
            ({
                let eff = if precise {
                    delta_y as int
                } else {
                    delta_y * COARSE_SCROLL_MULTIPLIER
                };
                let moved = old(state).scroll_top - eff;
                final(state).scroll_top == if moved < 0 {
                    0int
                } else if moved > scroll_max {
                    scroll_max as int
                } else {
                    moved
                }
            }),
    {
        let eff: i128 = if precise {
            delta_y as i128
        } else {
            proof {
                assert(COARSE_SCROLL_MULTIPLIER == 20);
                assert(i128::MIN <= (delta_y as int) * 20 <= i128::MAX);
            }
            (delta_y as i128) * (COARSE_SCROLL_MULTIPLIER as i128)
        };
        let moved: i128 = (state.scroll_top as i128) - eff;
        state.scroll_top = if moved < 0 {
            0
        } else if moved > scroll_max as i128 {
            scroll_max
        } else {
            moved as u64
        };
        true
    }

    /// Consumes the pending autoscroll request, if any, and clamps the
    /// offset from above to `scroll_max`. The request is consumed exactly
    /// once even when it cannot move the offset.
    pub fn autoscroll(&mut self, scroll_max: u64, list_height: u64, item_height: u64)
        ensures
            final(self).state.scroll_top == resolved_scroll_top(
                old(self).state,
                old(self).padding_top as int,
                scroll_max as int,
                list_height as int,
                item_height as int,
            ),
            final(self).state.pending is None,
            final(self).item_count == old(self).item_count,
            final(self).padding_top == old(self).padding_top,
            final(self).padding_bottom == old(self).padding_bottom,
            final(self).get_width_from_item == old(self).get_width_from_item,
    {
        let pending = self.state.pending;
        self.state.pending = None;
        proof {
            let pt = self.padding_top as int;
            let ih = item_height as int;
            assert(forall|i: int|
                0 <= i <= u64::MAX ==> pt + #[trigger] (i * ih) + ih <= u128::MAX)
                by (nonlinear_arith)
                requires
                    0 <= pt <= u64::MAX,
                    0 <= ih <= u64::MAX,
            ;
        }
        let cand: u128 = match pending {
            None => self.state.scroll_top as u128,
            Some(ScrollTarget::Show(ix)) => {
                let item_top: u128 = (self.padding_top as u128) + (ix as u128) * (item_height
                    as u128);
                let item_bottom: u128 = item_top + (item_height as u128);
                let scroll_bottom: u128 = (self.state.scroll_top as u128) + (list_height as u128);
                if item_top < self.state.scroll_top as u128 {
                    item_top
                } else if item_bottom > scroll_bottom {
                    item_bottom - (list_height as u128)
                } else {
                    self.state.scroll_top as u128
                }
            },
            Some(ScrollTarget::Center(ix)) => {
                let item_center: u128 = (self.padding_top as u128) + (ix as u128) * (item_height
                    as u128) + ((item_height / 2) as u128);
                let half_height: u128 = (list_height / 2) as u128;
                if item_center > half_height {
                    item_center - half_height
                } else {
                    0
                }
            },
        };
        self.state.scroll_top = if cand > scroll_max as u128 {
            scroll_max
        } else {
            cand as u64
        };
    }

    /// One layout pass. The host measures one sample item and hands its size
    /// in; `None` means the source produced nothing for the sampled index,
    /// which is treated like an empty collection for this frame. The pass
    /// resolves any pending autoscroll request, clamps the offset, and
    /// returns the chosen size together with the range to materialize.
    #[verifier::rlimit(60)]
    pub fn layout(&mut self, constraint: SizeConstraint, sample: Option<Size>) -> (r: (
        Size,
        LayoutState,
    ))
        requires
            constraint.well_formed(),
            sample matches Some(s) ==> old(self).item_count > 0 ==> (old(self).item_count as int)
                * (s.y as int) + old(self).padding_top + old(self).padding_bottom <= u64::MAX,
        ensures
            final(self).item_count == old(self).item_count,
            final(self).padding_top == old(self).padding_top,
            final(self).padding_bottom == old(self).padding_bottom,
            final(self).get_width_from_item == old(self).get_width_from_item,
            final(self).state.pending is None,
            old(self).item_count == 0 || sample is None ==> {
                &&& r.0 == constraint.min
                &&& r.1 == (LayoutState {
                    scroll_max: 0,
                    item_height: 0,
                    visible_start: 0,
                    visible_end: 0,
                })
                &&& final(self).state.scroll_top == old(self).state.scroll_top
            },
            sample matches Some(s) ==> old(self).item_count > 0 ==> {
                let ih = s.y;
                let height = old(self).spec_chosen_height(constraint, ih);
                let smax = old(self).spec_scroll_max(constraint, ih);
                let st = resolved_scroll_top(
                    old(self).state,
                    old(self).padding_top as int,
                    smax,
                    height,
                    ih as int,
                );
                let start = spec_visible_start(
                    st,
                    old(self).padding_top as int,
                    ih as int,
                    old(self).item_count as int,
                );
                &&& r.0.x == old(self).spec_chosen_width(constraint, s)
                &&& r.0.y == height
                &&& r.1.item_height == ih
                &&& r.1.scroll_max == smax
                &&& final(self).state.scroll_top == st
                &&& r.1.visible_start == start
                &&& r.1.visible_end == spec_visible_end(
                    start,
                    height,
                    ih as int,
                    old(self).item_count as int,
                )
            },
    {
        let empty = (
            constraint.min,
            LayoutState { scroll_max: 0, item_height: 0, visible_start: 0, visible_end: 0 },
        );
        let count = self.item_count;
        if count == 0 {
            self.state.pending = None;
            return empty;
        }
        let sample_size = match sample {
            None => {
                self.state.pending = None;
                return empty;
            },
            Some(s) => s,
        };

        let mut size = constraint.max;
        if self.get_width_from_item.is_some() {
            size.x = sample_size.x;
        }
        let item_height = sample_size.y;

        let items_height: u64 = (count as u64) * item_height;
        let scroll_height: u64 = items_height + self.padding_top + self.padding_bottom;
        if scroll_height < size.y {
            size.y = if scroll_height > constraint.min.y {
                scroll_height
            } else {
                constraint.min.y
            };
        }

        let scroll_max: u64 = if scroll_height > size.y {
            scroll_height - size.y
        } else {
            0
        };
        self.autoscroll(scroll_max, size.y, item_height);

        let divisor: u64 = if item_height > 1 {
            item_height
        } else {
            1
        };
        let above: u64 = if self.state.scroll_top >= self.padding_top {
            self.state.scroll_top - self.padding_top
        } else {
            0
        };
        let start_wide: u64 = above / divisor;
        let start: usize = if start_wide < count as u64 {
            start_wide as usize
        } else {
            count
        };
        let whole: u64 = size.y / divisor;
        let covering: u64 = if size.y % divisor != 0 {
            proof {
                assert(divisor >= 2);
                vstd::arithmetic::div_mod::lemma_div_is_ordered_by_denominator(
                    size.y as int,
                    2,
                    divisor as int,
                );
                vstd::arithmetic::div_mod::lemma_div_is_ordered(
                    size.y as int,
                    u64::MAX as int,
                    2,
                );
            }
            whole + 1
        } else {
            whole
        };
        let end_wide: u128 = (start as u128) + (covering as u128) + (OVERSCAN_ITEMS as u128);
        let end: usize = if end_wide < count as u128 {
            end_wide as usize
        } else {
            count
        };

        (size, LayoutState { scroll_max, item_height, visible_start: start, visible_end: end })
    }
}

/// How a layout pass materializes `start..end` when the sample item at
/// `sample_ix` was already built: the ranges still to request from the item
/// source, with the sample reused in place when its index falls inside the
/// window. Both ranges are half-open and may be empty.
#[derive(Clone, Copy, Debug)]
pub struct MaterializePlan {
    pub before_start: usize,
    pub before_end: usize,
    pub reuse_sample: bool,
    pub after_start: usize,
    pub after_end: usize,
}

/// Splits the window `start..end` around the already-materialized sample
/// item, so the sample is never constructed or measured twice.
pub fn materialize_plan(start: usize, end: usize, sample_ix: usize) -> (r: MaterializePlan)
    requires
        start <= end,
    ensures
        r == if start <= sample_ix < end {
            MaterializePlan {
                before_start: start,
                before_end: sample_ix,
                reuse_sample: true,
                after_start: (sample_ix + 1) as usize,
                after_end: end,
            }
        } else {
            MaterializePlan {
                before_start: start,
                before_end: end,
                reuse_sample: false,
                after_start: end,
                after_end: end,
            }
        },
{
    if start <= sample_ix && sample_ix < end {
        MaterializePlan {
            before_start: start,
            before_end: sample_ix,
            reuse_sample: true,
            after_start: sample_ix + 1,
            after_end: end,
        }
    } else {
        MaterializePlan {
            before_start: start,
            before_end: end,
            reuse_sample: false,
            after_start: end,
            after_end: end,
        }
    }
}

/// The width the list finally reports after item measurement: the width it
/// chose before measuring, widened to the widest materialized item — items
/// may be wider than the sample.
pub fn final_width(chosen: u64, item_widths: &Vec<u64>) -> (r: u64)
    ensures
        r >= chosen,
        forall|i: int| 0 <= i < item_widths@.len() ==> r >= item_widths@[i],
        r == chosen || exists|i: int| 0 <= i < item_widths@.len() && r == item_widths@[i],
{
    let mut widest = chosen;
    let mut i: usize = 0;
    while i < item_widths.len()
        invariant
            i <= item_widths@.len(),
            widest >= chosen,
            forall|j: int| 0 <= j < i ==> widest >= item_widths@[j],
            widest == chosen || exists|j: int| 0 <= j < i && widest == item_widths@[j],
        decreases item_widths@.len() - i,
    {
        if item_widths[i] > widest {
            widest = item_widths[i];
        }
        i = i + 1;
    }
    widest
}

/// Truncated remainder of `a` by positive `b`: the remainder that carries
/// the sign of `a`, as the host's floating-point remainder operator does.
pub open spec fn trunc_rem(a: int, b: int) -> int {
    if a >= 0 {
        a % b
    } else {
        -((-a) % b)
    }
}

/// Screen-space y position of the `k`-th materialized item: the list origin
/// shifted by the sub-item part of the scroll offset, then down by `k`
/// whole items. Fractional offsets thus produce sub-item shifts rather than
/// whole-item jumps.
pub fn item_origin_y(
    origin_y: i64,
    scroll_top: u64,
    padding_top: u64,
    item_height: u64,
    k: usize,
) -> (r: i64)
    requires
        1 <= item_height <= i64::MAX,
        origin_y - item_height >= i64::MIN,
        origin_y + k * item_height + item_height <= i64::MAX,
    ensures
        r == origin_y - trunc_rem(scroll_top - padding_top, item_height as int) + k * item_height,
{
    let rem: i128 = if scroll_top >= padding_top {
        ((scroll_top - padding_top) % item_height) as i128
    } else {
        -(((padding_top - scroll_top) % item_height) as i128)
    };
    let shifted: i128 = (origin_y as i128) - rem + (k as i128) * (item_height as i128);
    proof {
        assert((k as int) * (item_height as int) >= 0) by (nonlinear_arith)
            requires
                k >= 0,
                item_height >= 0,
        ;
        assert((k as int) * (item_height as int) <= i64::MAX - origin_y - item_height);
    }
    shifted as i64
}

/// Event-dispatch decision of the list: a generic input event is forwarded
/// to every materialized child, and the list reports it handled iff some
/// child did. Items outside the visible window never see the event.
pub fn dispatch_event(child_handled: &Vec<bool>) -> (handled: bool)
    ensures
        handled == exists|i: int| 0 <= i < child_handled@.len() && child_handled@[i],
{
    let mut handled = false;
    let mut i: usize = 0;
    while i < child_handled.len()
        invariant
            i <= child_handled@.len(),
            handled == exists|j: int| 0 <= j < i && child_handled@[j],
        decreases child_handled@.len() - i,
    {
        handled = child_handled[i] || handled;
        i = i + 1;
    }
    handled
}

/// Forwards a "locate the visual position of a text range" query to the
/// materialized children only: the first child with an answer wins, and
/// off-screen items are invisible to the query.
pub fn rect_for_text_range(child_hits: &Vec<Option<Rect>>) -> (r: Option<Rect>)
    ensures
        r is Some ==> exists|i: int|
            0 <= i < child_hits@.len() && child_hits@[i] == r && (forall|j: int|
                0 <= j < i ==> child_hits@[j] is None),
        r is None ==> forall|i: int| 0 <= i < child_hits@.len() ==> child_hits@[i] is None,
{
    let mut i: usize = 0;
    while i < child_hits.len()
        invariant
            i <= child_hits@.len(),
            forall|j: int| 0 <= j < i ==> child_hits@[j] is None,
        decreases child_hits@.len() - i,
    {
        if child_hits[i].is_some() {
            return child_hits[i];
        }
        i = i + 1;
    }
    None
}

} // verus!
