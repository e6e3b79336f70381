//! Spatial scan helpers: find the farthest reachable empty cell in a
//! horizontal or vertical direction, used to resolve multi-cell moves in
//! one step.

use vstd::prelude::*;
use crate::config::{GRID_HEIGHT, GRID_WIDTH};
use crate::grid::Grid;
use crate::state::SimState;

verus! {

/// The lowest cell reachable from `(x, y)` by falling at most `dist`
/// cells straight down through empty cells; `y` itself if blocked
/// immediately.
pub open spec fn spec_fall_to(st: SimState, x: int, y: int, dist: int) -> int
    decreases dist,
{
    if dist <= 0 || y + 1 >= GRID_HEIGHT || !st.empty_at(x, y + 1) {
        y
    } else {
        spec_fall_to(st, x, y + 1, dist - 1)
    }
}

/// The farthest cell reachable from `(x, y)` moving left at most `dist`
/// cells through empty cells; `x` itself if blocked immediately.
pub open spec fn spec_left_reach(st: SimState, x: int, y: int, dist: int) -> int
    decreases dist,
{
    if dist <= 0 || x - 1 < 0 || !st.empty_at(x - 1, y) {
        x
    } else {
        spec_left_reach(st, x - 1, y, dist - 1)
    }
}

/// The farthest cell reachable from `(x, y)` moving right at most `dist`
/// cells through empty cells; `x` itself if blocked immediately.
pub open spec fn spec_right_reach(st: SimState, x: int, y: int, dist: int) -> int
    decreases dist,
{
    if dist <= 0 || x + 1 >= GRID_WIDTH || !st.empty_at(x + 1, y) {
        x
    } else {
        spec_right_reach(st, x + 1, y, dist - 1)
    }
}

/// The reach of a scan stays on the grid and does not move past `dist`
/// cells from the start.
pub proof fn lemma_scan_bounds(st: SimState, x: int, y: int, dist: int)
    requires
        0 <= x < GRID_WIDTH,
        0 <= y < GRID_HEIGHT,
        0 <= dist,
    ensures
        x - dist <= spec_left_reach(st, x, y, dist) <= x,
        x <= spec_right_reach(st, x, y, dist) <= x + dist,
        y <= spec_fall_to(st, x, y, dist) <= y + dist,
        spec_left_reach(st, x, y, dist) >= 0,
        spec_right_reach(st, x, y, dist) < GRID_WIDTH,
        spec_fall_to(st, x, y, dist) < GRID_HEIGHT,
    decreases dist,
{
    if dist > 0 {
        if x - 1 >= 0 && st.empty_at(x - 1, y) {
            lemma_scan_bounds(st, x - 1, y, dist - 1);
        }
        if x + 1 < GRID_WIDTH && st.empty_at(x + 1, y) {
            lemma_scan_bounds(st, x + 1, y, dist - 1);
        }
        if y + 1 < GRID_HEIGHT && st.empty_at(x, y + 1) {
            lemma_scan_bounds(st, x, y + 1, dist - 1);
        }
    }
}

/// Finds the farthest empty cell reachable in each horizontal direction
/// within `max_distance`, each direction independently stopping at the
/// first occupied cell or the grid edge. Returns `(left_x, right_x)`,
/// each equal to `x` when that direction is blocked immediately.
pub fn find_horizontal_space(grid: &Grid, x: usize, y: usize, max_distance: usize) -> (r: (
    usize,
    usize,
))
    requires
        grid.wf(),
        x < GRID_WIDTH,
        y < GRID_HEIGHT,
    ensures
        r.0 as int == spec_left_reach(grid@, x as int, y as int, max_distance as int),
        r.1 as int == spec_right_reach(grid@, x as int, y as int, max_distance as int),
        r.0 <= x <= r.1,
        r.1 < GRID_WIDTH,
{
    proof {
        lemma_scan_bounds(grid@, x as int, y as int, max_distance as int);
    }
    let mut left_x = x;
    let mut rem_l = max_distance;
    while rem_l > 0 && left_x > 0 && grid.get(left_x - 1, y).material_type == 0
        invariant
            grid.wf(),
            x < GRID_WIDTH,
            y < GRID_HEIGHT,
            left_x <= x,
            spec_left_reach(grid@, x as int, y as int, max_distance as int) == spec_left_reach(
                grid@,
                left_x as int,
                y as int,
                rem_l as int,
            ),
        decreases rem_l,
    {
        left_x = left_x - 1;
        rem_l = rem_l - 1;
    }
    let mut right_x = x;
    let mut rem_r = max_distance;
    while rem_r > 0 && right_x + 1 < GRID_WIDTH && grid.get(right_x + 1, y).material_type == 0
        invariant
            grid.wf(),
            x < GRID_WIDTH,
            y < GRID_HEIGHT,
            x <= right_x < GRID_WIDTH,
            spec_right_reach(grid@, x as int, y as int, max_distance as int) == spec_right_reach(
                grid@,
                right_x as int,
                y as int,
                rem_r as int,
            ),
        decreases rem_r,
    {
        right_x = right_x + 1;
        rem_r = rem_r - 1;
    }
    (left_x, right_x)
}

/// Finds the lowest empty cell reachable straight down within
/// `max_distance`, stopping at the first occupied cell or the bottom
/// edge; returns `y` unchanged if blocked immediately.
pub fn find_vertical_space(grid: &Grid, x: usize, y: usize, max_distance: usize) -> (r: usize)
    requires
        grid.wf(),
        x < GRID_WIDTH,
        y < GRID_HEIGHT,
    ensures
        r as int == spec_fall_to(grid@, x as int, y as int, max_distance as int),
        y <= r,
        r < GRID_HEIGHT,
{
    proof {
        lemma_scan_bounds(grid@, x as int, y as int, max_distance as int);
    }
    let mut cur = y;
    let mut rem = max_distance;
    while rem > 0 && cur + 1 < GRID_HEIGHT && grid.get(x, cur + 1).material_type == 0
        invariant
            grid.wf(),
            x < GRID_WIDTH,
            y <= cur < GRID_HEIGHT,
            spec_fall_to(grid@, x as int, y as int, max_distance as int) == spec_fall_to(
                grid@,
                x as int,
                cur as int,
                rem as int,
            ),
        decreases rem,
    {
        cur = cur + 1;
        rem = rem - 1;
    }
    cur
}

} // verus!
