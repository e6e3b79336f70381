//! The tick scheduler: snapshots the grid, enumerates the occupied cells,
//! shuffles them into a random order, runs the behavior engine once per
//! cell against the prior snapshot, and commits the result.
//!
//! The whole tick is a mathematical function (`spec_tick`) of the prior
//! state, the processing order and the drawn randomness; `update_grid`'s
//! contract pins its result to that function, which is what makes the
//! simulation deterministic under a fixed seed.

use vstd::prelude::*;
use crate::behavior::spec_update;
use crate::config::{GRID_HEIGHT, GRID_WIDTH};
use crate::grid::Grid;
use crate::rng::{CellDraws, SimRng};
use crate::state::{cell_index, cell_total, in_grid, mat_count, SimState};

verus! {

/// One scheduler step: the behavior engine runs on `cell` when its prior
/// material is non-empty; an empty prior cell is skipped.
pub open spec fn spec_tick_step(
    pr: SimState,
    nx: SimState,
    cell: (usize, usize),
    d: CellDraws,
) -> SimState {
    if pr.mat_at(cell.0 as int, cell.1 as int) != 0 {
        spec_update(pr, nx, cell.0 as int, cell.1 as int, d)
    } else {
        nx
    }
}

/// The scheduler steps folded over `order` and the matching draws,
/// starting from the next-state `nx`.
pub open spec fn spec_tick_from(
    pr: SimState,
    nx: SimState,
    order: Seq<(usize, usize)>,
    ds: Seq<CellDraws>,
) -> SimState
    decreases order.len(),
{
    if order.len() == 0 || ds.len() == 0 {
        nx
    } else {
        spec_tick_from(
            pr,
            spec_tick_step(pr, nx, order[0], ds[0]),
            order.drop_first(),
            ds.drop_first(),
        )
    }
}

/// One full tick of the prior state `pr`, processed in `order` with the
/// draws `ds`: the next buffer starts as a copy of `pr` and receives one
/// scheduler step per listed cell.
pub open spec fn spec_tick(pr: SimState, order: Seq<(usize, usize)>, ds: Seq<CellDraws>) -> SimState {
    spec_tick_from(pr, pr, order, ds)
}

/// A valid processing order for the prior state `st`: exactly the
/// occupied cells, each once, in some arrangement.
pub open spec fn valid_order(order: Seq<(usize, usize)>, st: SimState) -> bool {
    &&& forall|k: int|
        0 <= k < order.len() ==> in_grid((#[trigger] order[k]).0 as int, order[k].1 as int)
            && st.mat_at(order[k].0 as int, order[k].1 as int) != 0
    &&& forall|xx: usize, yy: usize|
        xx < GRID_WIDTH && yy < GRID_HEIGHT && st.mat_at(xx as int, yy as int) != 0
            ==> order.contains((xx, yy))
    &&& order.no_duplicates()
}

/// The full relation a tick establishes between the prior state and the
/// committed next state: some valid processing order and some sequence of
/// well-formed draw blocks produced exactly this next state.
pub open spec fn tick_rel(
    pr: SimState,
    post: SimState,
    order: Seq<(usize, usize)>,
    ds: Seq<CellDraws>,
) -> bool {
    &&& valid_order(order, pr)
    &&& ds.len() == order.len()
    &&& (forall|k: int| 0 <= k < ds.len() ==> (#[trigger] ds[k]).wf())
    &&& post == spec_tick(pr, order, ds)
}

/// Appending one cell to a processing order runs the fold first and the
/// new step last.
pub proof fn lemma_tick_snoc(
    pr: SimState,
    nx: SimState,
    order: Seq<(usize, usize)>,
    ds: Seq<CellDraws>,
    c: (usize, usize),
    d: CellDraws,
)
    requires
        order.len() == ds.len(),
    ensures
        spec_tick_from(pr, nx, order.push(c), ds.push(d)) == spec_tick_step(
            pr,
            spec_tick_from(pr, nx, order, ds),
            c,
            d,
        ),
    decreases order.len(),
{
    reveal_with_fuel(spec_tick_from, 3);
    if order.len() == 0 {
        assert(order.push(c)[0] == c);
        assert(ds.push(d)[0] == d);
        assert(order.push(c).drop_first() =~= Seq::<(usize, usize)>::empty());
        assert(ds.push(d).drop_first() =~= Seq::<CellDraws>::empty());
    } else {
        assert(order.push(c).drop_first() =~= order.drop_first().push(c));
        assert(ds.push(d).drop_first() =~= ds.drop_first().push(d));
        assert(order.push(c)[0] == order[0]);
        assert(ds.push(d)[0] == ds[0]);
        lemma_tick_snoc(
            pr,
            spec_tick_step(pr, nx, order[0], ds[0]),
            order.drop_first(),
            ds.drop_first(),
            c,
            d,
        );
    }
}

/// Lists all occupied cells of the grid in row-major order.
fn collect_cells(grid: &Grid) -> (v: Vec<(usize, usize)>)
    requires
        grid.wf(),
    ensures
        forall|k: int|
            0 <= k < v@.len() ==> in_grid((#[trigger] v@[k]).0 as int, v@[k].1 as int)
                && grid@.mat_at(v@[k].0 as int, v@[k].1 as int) != 0,
        forall|xx: usize, yy: usize|
            xx < GRID_WIDTH && yy < GRID_HEIGHT && grid@.mat_at(xx as int, yy as int) != 0
                ==> v@.contains((xx, yy)),
        v@.no_duplicates(),
{
    let mut v: Vec<(usize, usize)> = Vec::new();
    let mut y: usize = 0;
    while y < GRID_HEIGHT
        invariant
            grid.wf(),
            y <= GRID_HEIGHT,
            forall|k: int|
                0 <= k < v@.len() ==> in_grid((#[trigger] v@[k]).0 as int, v@[k].1 as int)
                    && grid@.mat_at(v@[k].0 as int, v@[k].1 as int) != 0,
            forall|k: int|
                0 <= k < v@.len() ==> cell_index((#[trigger] v@[k]).0 as int, v@[k].1 as int)
                    < cell_index(0, y as int),
            forall|k1: int, k2: int|
                0 <= k1 < k2 < v@.len() ==> cell_index((#[trigger] v@[k1]).0 as int, v@[k1].1 as int)
                    < cell_index((#[trigger] v@[k2]).0 as int, v@[k2].1 as int),
            forall|xx: usize, yy: usize|
                xx < GRID_WIDTH && yy < y && grid@.mat_at(xx as int, yy as int) != 0
                    ==> v@.contains((xx, yy)),
        decreases GRID_HEIGHT - y,
    {
        let mut x: usize = 0;
        while x < GRID_WIDTH
            invariant
                grid.wf(),
                y < GRID_HEIGHT,
                x <= GRID_WIDTH,
                forall|k: int|
                    0 <= k < v@.len() ==> in_grid((#[trigger] v@[k]).0 as int, v@[k].1 as int)
                        && grid@.mat_at(v@[k].0 as int, v@[k].1 as int) != 0,
                forall|k: int|
                    0 <= k < v@.len() ==> cell_index((#[trigger] v@[k]).0 as int, v@[k].1 as int)
                        < cell_index(x as int, y as int),
                forall|k1: int, k2: int|
                    0 <= k1 < k2 < v@.len() ==> cell_index(
                        (#[trigger] v@[k1]).0 as int,
                        v@[k1].1 as int,
                    ) < cell_index((#[trigger] v@[k2]).0 as int, v@[k2].1 as int),
                forall|xx: usize, yy: usize|
                    ((yy < y && xx < GRID_WIDTH) || (yy == y && xx < x)) && grid@.mat_at(
                        xx as int,
                        yy as int,
                    ) != 0 ==> v@.contains((xx, yy)),
            decreases GRID_WIDTH - x,
        {
            if grid.get(x, y).material_type != 0 {
                let ghost old_v = v@;
                v.push((x, y));
                proof {
                    assert(v@.drop_last() =~= old_v);
                    assert(forall|xx: usize, yy: usize|
                        ((yy < y && xx < GRID_WIDTH) || (yy == y && xx < x)) && grid@.mat_at(
                            xx as int,
                            yy as int,
                        ) != 0 ==> #[trigger] v@.contains((xx, yy))) by {
                        assert(forall|c: (usize, usize)|
                            old_v.contains(c) ==> #[trigger] v@.contains(c));
                    }
                    assert(v@.contains((x, y))) by {
                        assert(v@[v@.len() - 1] == (x, y));
                    }
                }
            }
            x = x + 1;
        }
        y = y + 1;
    }
    proof {
        assert forall|k1: int, k2: int|
            0 <= k1 < v@.len() && 0 <= k2 < v@.len() && k1 != k2 implies v@[k1] != v@[k2] by {
            if k1 < k2 {
                assert(cell_index(v@[k1].0 as int, v@[k1].1 as int) < cell_index(
                    v@[k2].0 as int,
                    v@[k2].1 as int,
                ));
            } else {
                assert(cell_index(v@[k2].0 as int, v@[k2].1 as int) < cell_index(
                    v@[k1].0 as int,
                    v@[k1].1 as int,
                ));
            }
        }
    }
    v
}

/// Runs one simulation tick: duplicates the grid into a next buffer,
/// shuffles the occupied cells into a fresh random order, updates each
/// once against the prior snapshot, and commits the next buffer.
///
/// The committed state is `spec_tick` of the prior state for some valid
/// order and some drawn randomness; a tick of an all-empty grid changes
/// nothing; and a tick of a fire-free grid conserves the cell count of
/// every material other than Empty and Smoke.
pub fn update_grid(grid: &mut Grid, rng: &mut SimRng)
    requires
        old(grid).wf(),
    ensures
        final(grid).wf(),
        exists|order: Seq<(usize, usize)>, ds: Seq<CellDraws>|
            tick_rel(old(grid)@, final(grid)@, order, ds),
        old(grid)@.all_empty() ==> final(grid)@ == old(grid)@,
        old(grid)@.no_fire() ==> forall|m: u8|
            m != 0 && m != 4 ==> mat_count(final(grid)@.ps, m) == mat_count(old(grid)@.ps, m),
{
    let ghost pr = grid@;
    let mut new_grid = grid.duplicate();
    let mut cells = collect_cells(grid);
    let ghost unshuffled = cells@;
    rng.shuffle_cells(&mut cells);
    proof {
        broadcast use vstd::seq_lib::group_to_multiset_ensures;

        unshuffled.lemma_multiset_has_no_duplicates();
        assert forall|k: int| 0 <= k < cells@.len() implies in_grid(
            (#[trigger] cells@[k]).0 as int,
            cells@[k].1 as int,
        ) && pr.mat_at(cells@[k].0 as int, cells@[k].1 as int) != 0 by {
            assert(cells@.contains(cells@[k]));
            assert(cells@.to_multiset().count(cells@[k]) > 0);
            assert(unshuffled.contains(cells@[k]));
            let j = choose|j: int| 0 <= j < unshuffled.len() && unshuffled[j] == cells@[k];
            assert(in_grid(unshuffled[j].0 as int, unshuffled[j].1 as int));
        }
        assert forall|xx: usize, yy: usize|
            xx < GRID_WIDTH && yy < GRID_HEIGHT && pr.mat_at(xx as int, yy as int)
                != 0 implies #[trigger] cells@.contains((xx, yy)) by {
            assert(unshuffled.contains((xx, yy)));
            assert(unshuffled.to_multiset().count((xx, yy)) > 0);
        }
        cells@.lemma_multiset_has_no_duplicates_conv();
        assert(valid_order(cells@, pr));
    }
    let ghost order = cells@;
    let ghost mut ds: Seq<CellDraws> = Seq::empty();
    let mut i: usize = 0;
    while i < cells.len()
        invariant
            grid.wf(),
            grid@ == pr,
            new_grid.wf(),
            cells@ == order,
            valid_order(order, pr),
            i <= cells.len(),
            ds.len() == i,
            forall|k: int| 0 <= k < ds.len() ==> (#[trigger] ds[k]).wf(),
            new_grid@ == spec_tick(pr, order.take(i as int), ds),
            pr.no_fire() ==> forall|m: u8|
                m != 0 && m != 4 ==> mat_count(new_grid@.ps, m) == mat_count(pr.ps, m),
        decreases cells.len() - i,
    {
        let (x, y) = cells[i];
        let d = CellDraws::sample(rng);
        let ghost pre_step = new_grid@;
        if grid.get(x, y).material_type != 0 {
            crate::behavior::update(x, y, &mut new_grid, grid, &d);
        }
        proof {
            lemma_tick_snoc(pr, pr, order.take(i as int), ds, (x, y), d);
            assert(order.take(i as int).push((x, y)) =~= order.take(i as int + 1));
            if pr.no_fire() && pr.mat_at(x as int, y as int) != 0 {
                assert forall|m: u8| m != 0 && m != 4 implies mat_count(new_grid@.ps, m)
                    == mat_count(pre_step.ps, m) by {
                    crate::laws::lemma_update_conserves(
                        pr,
                        pre_step,
                        x as int,
                        y as int,
                        d,
                        m,
                    );
                }
            }
            ds = ds.push(d);
        }
        i = i + 1;
    }
    proof {
        assert(order.take(cells@.len() as int) =~= order);
        if pr.all_empty() {
            assert(order.len() == 0) by {
                if order.len() > 0 {
                    assert(pr.mat_at(order[0].0 as int, order[0].1 as int) != 0);
                    crate::state::lemma_cell_index(order[0].0 as int, order[0].1 as int, 0, 0);
                }
            }
            assert(new_grid@ == pr);
        }
    }
    *grid = new_grid;
    proof {
        assert(tick_rel(pr, grid@, order, ds));
    }
}

} // verus!
