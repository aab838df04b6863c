//! Scrolling a row of dashboard tiles by a page: the row moves by its own
//! width and then snaps to a tile boundary, so no tile is left cut in half
//! at the edge it moved from.

use vstd::prelude::*;
use crate::durations::{div_rem_i64, trunc_div, trunc_rem};

verus! {

/// The direction of a scroll button.
#[derive(Clone, Copy, Debug, PartialEq, Eq, Structural)]
pub enum ScrollDirection {
    Left,
    Right,
}

/// Where a row scrolls to, from its visible width, its scroll position, and
/// the width of its first tile (`None` when it has no tile): a page to the
/// left, then forward to the next tile boundary; or a page to the right,
/// then back to the previous tile boundary.
pub open spec fn scroll_position(
    direction: ScrollDirection,
    client_width: int,
    scroll_left: int,
    tile_width: Option<int>,
) -> int {
    let desired = match direction {
        ScrollDirection::Left => scroll_left - client_width,
        ScrollDirection::Right => scroll_left + client_width,
    };
    match tile_width {
        None => desired,
        Some(t) => match direction {
            ScrollDirection::Left => desired + (t - trunc_rem(desired, t)),
            ScrollDirection::Right => desired - trunc_rem(desired, t),
        },
    }
}

/// Where a scroll by a page that wanted to reach `desired` may land, with
/// tiles `t` wide: on a tile boundary (a multiple of `t`). Scrolling right,
/// the row stops at the nearest boundary from `desired` toward the start of
/// the row (for a non-negative `desired`: the greatest boundary not above
/// it, `desired - desired % t`), so a `desired` on a boundary is kept.
/// Scrolling left, it moves one tile beyond that boundary.
pub open spec fn landing_ok(direction: ScrollDirection, desired: int, t: int, p: int) -> bool {
    let toward_start = match direction {
        ScrollDirection::Left => p - t,
        ScrollDirection::Right => p,
    };
    &&& p % t == 0
    &&& desired >= 0 ==> toward_start == desired - desired % t
    &&& desired >= 0 ==> desired - t < toward_start <= desired
    &&& desired < 0 ==> desired <= toward_start < desired + t
}

/// A page scroll lands on a tile boundary: to the right, at the boundary
/// nearest to the wanted position toward the start of the row (the wanted
/// position itself when it is on a boundary); to the left, one tile beyond
/// it.
pub proof fn law_scroll_lands_on_tile(
    direction: ScrollDirection,
    client_width: int,
    scroll_left: int,
    t: int,
)
    requires
        t > 0,
    ensures
        landing_ok(
            direction,
            match direction {
                ScrollDirection::Left => scroll_left - client_width,
                ScrollDirection::Right => scroll_left + client_width,
            },
            t,
            scroll_position(direction, client_width, scroll_left, Some(t)),
        ),
{
    let desired = match direction {
        ScrollDirection::Left => scroll_left - client_width,
        ScrollDirection::Right => scroll_left + client_width,
    };
    let r = trunc_rem(desired, t);
    let q = trunc_div(desired, t);
    crate::durations::lemma_trunc_div_bounds(desired, t);
    assert(desired - r == q * t) by (nonlinear_arith)
        requires
            r == desired - t * q,
    ;
    vstd::arithmetic::div_mod::lemma_mod_multiples_basic(q, t);
    vstd::arithmetic::div_mod::lemma_mod_multiples_basic(q + 1, t);
    assert((q + 1) * t == q * t + t) by (nonlinear_arith);
    if desired >= 0 {
        vstd::arithmetic::div_mod::lemma_fundamental_div_mod_converse(desired, t, q, r);
    }
    let p = scroll_position(direction, client_width, scroll_left, Some(t));
    match direction {
        ScrollDirection::Left => {
            assert(p == desired + (t - r));
            assert(p == (q + 1) * t);
        },
        ScrollDirection::Right => {
            assert(p == desired - r);
        },
    }
}

/// Where a row scrolls to when one of its scroll buttons is pressed.
pub fn scroll_target(
    direction: ScrollDirection,
    client_width: i32,
    scroll_left: i32,
    tile_width: Option<i32>,
) -> (p: i64)
    requires
        tile_width is Some ==> tile_width->0 > 0,
    ensures
        p == scroll_position(
            direction,
            client_width as int,
            scroll_left as int,
            match tile_width {
                Some(t) => Some(t as int),
                None => None,
            },
        ),
        tile_width is None ==> p == match direction {
            ScrollDirection::Left => scroll_left - client_width,
            ScrollDirection::Right => scroll_left + client_width,
        },
        tile_width matches Some(t) ==> landing_ok(
            direction,
            match direction {
                ScrollDirection::Left => scroll_left - client_width,
                ScrollDirection::Right => scroll_left + client_width,
            },
            t as int,
            p as int,
        ),
{
    proof {
        if let Some(t) = tile_width {
            law_scroll_lands_on_tile(direction, client_width as int, scroll_left as int, t as int);
        }
    }
    let desired: i64 = match direction {
        ScrollDirection::Left => scroll_left as i64 - client_width as i64,
        ScrollDirection::Right => scroll_left as i64 + client_width as i64,
    };
    match tile_width {
        None => desired,
        Some(t) => {
            let (_q, r) = div_rem_i64(desired, t as i64);
            proof {
                crate::durations::lemma_trunc_div_bounds(desired as int, t as int);
            }
            match direction {
                ScrollDirection::Left => desired + (t as i64 - r),
                ScrollDirection::Right => desired - r,
            }
        },
    }
}

} // verus!
