//! The engine's guarantees, stated and proved over the spec functions that
//! the executable contracts use.

use vstd::prelude::*;

use crate::list::{
    center_candidate, resolved_scroll_top, spec_ceil_div, spec_visible_end, spec_visible_start,
    ScrollTarget, UniformListState, OVERSCAN_ITEMS,
};

verus! {

/// For non-negative `a` and positive `d`, `a < (q + 1) * d` bounds the
/// quotient: `a / d <= q`.
proof fn lemma_div_le_of_lt_mul(a: int, q: int, d: int)
    requires
        0 <= a,
        0 <= q,
        0 < d,
        a < (q + 1) * d,
    ensures
        a / d <= q,
{
    vstd::arithmetic::mul::lemma_mul_is_distributive_add_other_way(d, q, 1);
    assert((q + 1) * d == q * d + d);
    vstd::arithmetic::div_mod::lemma_div_is_ordered(a, q * d + d - 1, d);
    vstd::arithmetic::div_mod::lemma_fundamental_div_mod_converse(q * d + d - 1, d, q, d - 1);
}

/// Euclidean division of a negated positive value is the negated ceiling:
/// `(-a) / d == -ceil(a / d)`.
proof fn lemma_neg_div_is_neg_ceil(a: int, d: int)
    requires
        0 <= a,
        0 < d,
    ensures
        (-a) / d == -spec_ceil_div(a, d),
{
    let q = a / d;
    let m = a % d;
    vstd::arithmetic::div_mod::lemma_fundamental_div_mod(a, d);
    if m == 0 {
        assert(-a == (-q) * d + 0) by (nonlinear_arith)
            requires
                a == d * q + m,
                m == 0,
        ;
        vstd::arithmetic::div_mod::lemma_fundamental_div_mod_converse(-a, d, -q, 0);
    } else {
        assert(-a == (-q - 1) * d + (d - m)) by (nonlinear_arith)
            requires
                a == d * q + m,
        ;
        vstd::arithmetic::div_mod::lemma_fundamental_div_mod_converse(-a, d, -q - 1, d - m);
    }
}

/// For a non-empty collection with positive item and viewport heights, the
/// visible range lies inside `[0, item_count]` and its length is the number
/// of items that cover the viewport plus the overscan, clamped to the items
/// that remain below the start.
pub proof fn lemma_visible_range_len(
    scroll_top: int,
    padding_top: int,
    item_height: int,
    viewport_height: int,
    item_count: int,
)
    requires
        item_count > 0,
        item_height > 0,
        viewport_height > 0,
        scroll_top >= 0,
        padding_top >= 0,
    ensures
        ({
            let start = spec_visible_start(scroll_top, padding_top, item_height, item_count);
            let end = spec_visible_end(start, viewport_height, item_height, item_count);
            &&& 0 <= start <= end <= item_count
            &&& end - start == vstd::math::min(
                spec_ceil_div(viewport_height, item_height) + OVERSCAN_ITEMS,
                item_count - start,
            )
        }),
{
    let diff = vstd::math::max(0, scroll_top - padding_top);
    vstd::arithmetic::div_mod::lemma_div_pos_is_pos(diff, item_height);
}

/// Decreasing the scroll offset never increases the start of the visible
/// range.
pub proof fn lemma_start_monotone(
    scroll_top1: int,
    scroll_top2: int,
    padding_top: int,
    item_height: int,
    item_count: int,
)
    requires
        scroll_top1 <= scroll_top2,
    ensures
        spec_visible_start(scroll_top1, padding_top, item_height, item_count)
            <= spec_visible_start(scroll_top2, padding_top, item_height, item_count),
{
    let d = vstd::math::max(item_height, 1);
    let diff1 = vstd::math::max(0, scroll_top1 - padding_top);
    let diff2 = vstd::math::max(0, scroll_top2 - padding_top);
    vstd::arithmetic::div_mod::lemma_div_is_ordered(diff1, diff2, d);
}

/// After the resolver runs, the offset lies in `[0, scroll_max]`: the
/// scroll-state invariant re-established by every layout pass.
pub proof fn lemma_resolved_in_bounds(
    state: UniformListState,
    padding_top: int,
    scroll_max: int,
    list_height: int,
    item_height: int,
)
    requires
        padding_top >= 0,
        scroll_max >= 0,
        list_height >= 0,
        item_height >= 0,
    ensures
        0 <= resolved_scroll_top(state, padding_top, scroll_max, list_height, item_height)
            <= scroll_max,
{
    if let Some(ScrollTarget::Show(ix)) = state.pending {
        assert(ix * item_height >= 0) by (nonlinear_arith)
            requires
                ix >= 0,
                item_height >= 0,
        ;
    }
}

/// A `Show(ix)` request for an item that is already fully visible leaves
/// the offset unchanged.
pub proof fn lemma_show_visible_unchanged(
    state: UniformListState,
    padding_top: int,
    scroll_max: int,
    list_height: int,
    item_height: int,
    ix: usize,
)
    requires
        state.pending == Some(ScrollTarget::Show(ix)),
        state.scroll_top <= scroll_max,
        padding_top + ix * item_height >= state.scroll_top,
        padding_top + ix * item_height + item_height <= state.scroll_top + list_height,
    ensures
        resolved_scroll_top(state, padding_top, scroll_max, list_height, item_height)
            == state.scroll_top,
{
}

/// A `Show(ix)` request for an item above the current window scrolls up to
/// exactly the item's top edge.
pub proof fn lemma_show_above_sets_top(
    state: UniformListState,
    padding_top: int,
    scroll_max: int,
    list_height: int,
    item_height: int,
    ix: usize,
)
    requires
        state.pending == Some(ScrollTarget::Show(ix)),
        state.scroll_top <= scroll_max,
        padding_top + ix * item_height < state.scroll_top,
    ensures
        resolved_scroll_top(state, padding_top, scroll_max, list_height, item_height)
            == padding_top + ix * item_height,
{
}

/// A `Center(ix)` request sets the offset to the item's center minus half
/// the viewport height, floored at zero and clamped to `scroll_max`.
pub proof fn lemma_center_scroll_top(
    state: UniformListState,
    padding_top: int,
    scroll_max: int,
    list_height: int,
    item_height: int,
    ix: usize,
)
    requires
        state.pending == Some(ScrollTarget::Center(ix)),
    ensures
        resolved_scroll_top(state, padding_top, scroll_max, list_height, item_height)
            == vstd::math::min(
            vstd::math::max(
                0,
                padding_top + ix * item_height + item_height / 2 - list_height / 2,
            ),
            scroll_max,
        ),
{
}

/// After a `Center(ix)` request resolves against the bounds of the same
/// layout pass, the computed visible range contains `ix`.
pub proof fn lemma_center_contains(
    state: UniformListState,
    padding_top: int,
    padding_bottom: int,
    viewport_height: int,
    item_height: int,
    item_count: int,
    ix: usize,
)
    requires
        state.pending == Some(ScrollTarget::Center(ix)),
        item_count >= 1,
        item_height >= 1,
        viewport_height >= 1,
        padding_top >= 0,
        padding_bottom >= 0,
        ix < item_count,
    ensures
        ({
            let scroll_max = vstd::math::max(
                0,
                item_count * item_height + padding_top + padding_bottom - viewport_height,
            );
            let st = resolved_scroll_top(
                state,
                padding_top,
                scroll_max,
                viewport_height,
                item_height,
            );
            let start = spec_visible_start(st, padding_top, item_height, item_count);
            let end = spec_visible_end(start, viewport_height, item_height, item_count);
            start <= ix < end
        }),
{
    let pt = padding_top;
    let ih = item_height;
    let vh = viewport_height;
    let count = item_count;
    let scroll_max = vstd::math::max(0, count * ih + pt + padding_bottom - vh);
    let cand = center_candidate(pt, ix as int, ih, vh);
    let st = vstd::math::min(cand, scroll_max);
    let a = vstd::math::max(0, st - pt);
    let ceil = spec_ceil_div(vh, ih);
    let centered = pt + ix * ih + ih / 2 - vh / 2;

    assert(ix * ih >= 0) by (nonlinear_arith)
        requires
            ix >= 0,
            ih >= 0,
    ;
    assert((ix + 1) * ih <= count * ih) by (nonlinear_arith)
        requires
            ix + 1 <= count,
            ih >= 0,
    ;
    assert(ceil >= vh / ih);
    vstd::arithmetic::div_mod::lemma_div_pos_is_pos(vh, ih);
    vstd::arithmetic::div_mod::lemma_div_pos_is_pos(a, ih);
    vstd::arithmetic::div_mod::lemma_fundamental_div_mod(ih, 2);
    vstd::arithmetic::div_mod::lemma_mod_bound(ih, 2);
    vstd::arithmetic::div_mod::lemma_fundamental_div_mod(vh, 2);
    vstd::arithmetic::div_mod::lemma_mod_bound(vh, 2);
    assert(st == cand || st == scroll_max);

    // The start never passes the item: whichever bound fixed the offset, it
    // ends up at most the item's center, so the window starts at or above
    // the item.
    assert(a <= ix * ih + ih / 2) by {
        if centered > 0 {
            assert(cand == centered);
            assert(st - pt <= ix * ih + ih / 2);
        } else {
            assert(cand == 0);
            assert(st - pt <= 0);
        }
    }
    assert(a < (ix + 1) * ih) by {
        assert(ih / 2 < ih);
        vstd::arithmetic::mul::lemma_mul_is_distributive_add_other_way(ih, ix as int, 1);
    }
    lemma_div_le_of_lt_mul(a, ix as int, ih);
    let start = spec_visible_start(st, pt, ih, count);
    assert(start == a / ih);
    assert(start <= ix);

    // The item also lies before the end: the offset stays within one
    // viewport above the item's top, and the window covers `ceil` items
    // past the start.
    assert(st - pt >= ix * ih - vh) by {
        vstd::arithmetic::mul::lemma_mul_is_distributive_add_other_way(ih, ix as int, 1);
        if st == cand {
            assert(cand >= centered);
            assert(ih / 2 - vh / 2 >= -vh);
        } else {
            assert(scroll_max >= count * ih + pt + padding_bottom - vh);
            assert(count * ih >= (ix + 1) * ih);
        }
    }
    assert(a / ih >= ix + (-vh) / ih) by {
        vstd::arithmetic::div_mod::lemma_hoist_over_denominator(-vh, ix as int, ih as nat);
        vstd::arithmetic::div_mod::lemma_div_is_ordered(ix * ih + (-vh), a, ih);
    }
    lemma_neg_div_is_neg_ceil(vh, ih);
    assert(start >= ix - ceil);
    let end = spec_visible_end(start, vh, ih, count);
    assert(ix < end);
}

/// A half-open range of indices as a sequence, in ascending order.
pub open spec fn seq_range(a: int, b: int) -> Seq<int> {
    Seq::new(
        if b >= a {
            (b - a) as nat
        } else {
            0
        },
        |i: int| a + i,
    )
}

/// When the sample item's index falls inside the window, requesting the
/// items before it, reusing the sample, and requesting the items after it
/// yields exactly the window, in ascending order: no item is constructed
/// twice and none is skipped.
pub proof fn lemma_plan_covers(start: int, end: int, sample_ix: int)
    requires
        start <= sample_ix < end,
    ensures
        seq_range(start, sample_ix) + seq![sample_ix] + seq_range(sample_ix + 1, end)
            == seq_range(start, end),
{
    let lhs = seq_range(start, sample_ix) + seq![sample_ix] + seq_range(sample_ix + 1, end);
    assert(lhs =~= seq_range(start, end));
}

} // verus!
