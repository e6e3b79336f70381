//! The library's laws: determinism of a tick in its inputs, conservation
//! of non-dissipating materials, the fire-isolation dissipation ordering,
//! gravity termination of a lone sand particle, and density inversion.

use vstd::prelude::*;
use crate::behavior::{
    id_flows, id_movable, id_rises, spec_density, spec_fall, spec_fall_core, spec_fire,
    spec_fire_bias, spec_fire_neighbors, spec_fire_palette, spec_fire_threshold, spec_flow,
    spec_flow_amount, spec_flow_reach, spec_rise, spec_transfer, spec_update,
};
use crate::config::{GRID_HEIGHT, GRID_WIDTH};
use crate::material::Material;
use crate::particle::{density_bits, spec_particle_new, spec_with_color, visc_bits, Particle};
use crate::rng::CellDraws;
use crate::scan::{lemma_scan_bounds, spec_fall_to, spec_left_reach, spec_right_reach};
use crate::state::{
    cell_index, cell_total, in_grid, lemma_cell_index, lemma_mat_count_swap,
    lemma_mat_count_update, mat_count, st_move_to, st_move_to_vel, st_set, st_set_vel, st_swap,
    SimState,
};

verus! {

/// Determinism under a fixed random stream: the state a tick commits is a
/// mathematical function of the prior grid, the processing order and the
/// drawn randomness, so two ticks given an identical prior grid and an
/// identical random-number stream produce identical next grids.
/// (`update_grid` pins its result to `spec_tick` of exactly these three.)
pub proof fn lemma_tick_deterministic(
    pr1: SimState,
    pr2: SimState,
    order1: Seq<(usize, usize)>,
    order2: Seq<(usize, usize)>,
    ds1: Seq<CellDraws>,
    ds2: Seq<CellDraws>,
)
    requires
        pr1 == pr2,
        order1 == order2,
        ds1 == ds2,
    ensures
        crate::tick::spec_tick(pr1, order1, ds1) == crate::tick::spec_tick(pr2, order2, ds2),
{
}

/// Fire lifecycle: on the same draw block, an isolated fire cell
/// dissipates whenever a fire-connected one would (dissipation roll below
/// 4), dissipates alone on the rolls 4 through 6, and both survive from 7
/// up; a dissipating cell becomes Smoke exactly when the smoke roll is
/// below 2 and Empty otherwise, while a surviving cell stays Fire.
pub proof fn lemma_fire_isolation(
    pr_iso: SimState,
    pr_con: SimState,
    nx: SimState,
    x: int,
    y: int,
    d: CellDraws,
)
    requires
        nx.ps.len() == cell_total(),
        in_grid(x, y),
        nx.mat_at(x, y) == 5,
        !spec_fire_neighbors(pr_iso, x, y),
        spec_fire_neighbors(pr_con, x, y),
    ensures
        (d.fire_fade as int) < 4 ==> spec_fire(pr_iso, nx, x, y, d).mat_at(x, y) == (
        if d.fire_smoke < 2 {
            4u8
        } else {
            0u8
        }) && spec_fire(pr_con, nx, x, y, d).mat_at(x, y) == (if d.fire_smoke < 2 {
            4u8
        } else {
            0u8
        }),
        4 <= (d.fire_fade as int) < 7 ==> spec_fire(pr_iso, nx, x, y, d).mat_at(x, y) == (
        if d.fire_smoke < 2 {
            4u8
        } else {
            0u8
        }) && spec_fire(pr_con, nx, x, y, d).mat_at(x, y) == 5,
        7 <= (d.fire_fade as int) ==> spec_fire(pr_iso, nx, x, y, d).mat_at(x, y) == 5
            && spec_fire(pr_con, nx, x, y, d).mat_at(x, y) == 5,
{
    lemma_cell_index(x, y, x, y);
    if (d.fire_fade as int) >= 7 {
        lemma_fire_survives(pr_iso, nx, x, y, d);
    }
    if (d.fire_fade as int) >= 4 {
        lemma_fire_survives(pr_con, nx, x, y, d);
    }
}

/// A fire cell that does not dissipate keeps Fire at its own position:
/// the up-move writes a different cell, and the spread-and-re-stamp path
/// ends by stamping a fire particle back at `(x, y)`.
proof fn lemma_fire_survives(pr: SimState, nx: SimState, x: int, y: int, d: CellDraws)
    requires
        nx.ps.len() == cell_total(),
        in_grid(x, y),
        nx.mat_at(x, y) == 5,
        (d.fire_fade as int) >= spec_fire_threshold(pr, x, y),
    ensures
        spec_fire(pr, nx, x, y, d).mat_at(x, y) == 5,
{
    let c = spec_fire_palette(d.fire_color as int);
    let p = spec_with_color(spec_particle_new(Material::Fire), c.0, c.1, c.2);
    assert(p.material_type == 5);
    let dx: int = if (d.fire_diag as int) < 3 {
        if d.fire_diag_coin {
            1int
        } else {
            -1int
        }
    } else {
        0int
    };
    if (d.fire_rise as int) < spec_fire_bias(pr, x, y) && y > 0 && x + dx > 0 && x + dx
        < GRID_WIDTH {
        lemma_cell_index(x + dx, y - 1, x, y);
    } else {
        lemma_cell_index(x, y, x, y);
    }
}

/// Stamping a fresh particle replaces the old cell's contribution to each
/// count with the new material's.
proof fn lemma_count_set(st: SimState, x: int, y: int, mat: Material, m: u8)
    requires
        st.ps.len() == cell_total(),
        in_grid(x, y),
    ensures
        mat_count(st_set(st, x, y, mat).ps, m) == mat_count(st.ps, m) - (if st.mat_at(x, y) == m {
            1int
        } else {
            0int
        }) + (if mat.spec_id() == m {
            1int
        } else {
            0int
        }),
{
    lemma_cell_index(x, y, x, y);
    lemma_mat_count_update(st.ps, cell_index(x, y), spec_particle_new(mat), m);
}

/// A conditional move leaves every count unchanged.
proof fn lemma_count_move_to(st: SimState, x1: int, y1: int, x2: int, y2: int, m: u8)
    requires
        st.ps.len() == cell_total(),
        in_grid(x1, y1),
        in_grid(x2, y2),
    ensures
        mat_count(st_move_to(st, x1, y1, x2, y2).ps, m) == mat_count(st.ps, m),
{
    if st.empty_at(x2, y2) {
        lemma_mat_count_swap(st, x1, y1, x2, y2, m);
    }
}

/// A velocity-carrying move between distinct cells leaves every count
/// unchanged, because the source material identifier is re-stamped at the
/// destination.
proof fn lemma_count_move_to_vel(st: SimState, x1: int, y1: int, x2: int, y2: int, m: u8)
    requires
        st.ps.len() == cell_total(),
        in_grid(x1, y1),
        in_grid(x2, y2),
        (x1, y1) != (x2, y2),
        st.mat_at(x1, y1) <= 5,
    ensures
        mat_count(st_move_to_vel(st, x1, y1, x2, y2).ps, m) == mat_count(st.ps, m),
{
    if st.empty_at(x2, y2) {
        lemma_cell_index(x1, y1, x2, y2);
        let mat1 = st.mat_at(x1, y1);
        let st1 = st_set(st, x2, y2, Material::spec_from_id(mat1));
        lemma_count_set(st, x2, y2, Material::spec_from_id(mat1), m);
        assert(st1.mat_at(x1, y1) == mat1);
        lemma_count_set(st1, x1, y1, Material::Empty, m);
    }
}

/// Momentum transfer touches only velocities.
proof fn lemma_count_transfer(pr: SimState, nx: SimState, mat: u8, v: int, x: int, y: int, m: u8)
    ensures
        mat_count(spec_transfer(pr, nx, mat, v, x, y).ps, m) == mat_count(nx.ps, m),
{
    assert(spec_transfer(pr, nx, mat, v, x, y).ps == nx.ps);
}

/// Density displacement only swaps cells, so every count is kept.
proof fn lemma_count_density(pr: SimState, nx: SimState, x: int, y: int, coin: bool, m: u8)
    requires
        nx.ps.len() == cell_total(),
        in_grid(x, y),
    ensures
        mat_count(spec_density(pr, nx, x, y, coin).0.ps, m) == mat_count(nx.ps, m),
{
    if y < GRID_HEIGHT - 1 {
        lemma_mat_count_swap(nx, x, y, x, y + 1, m);
        if x > 0 {
            lemma_mat_count_swap(nx, x, y, x - 1, y + 1, m);
        }
        if x < GRID_WIDTH - 1 {
            lemma_mat_count_swap(nx, x, y, x + 1, y + 1, m);
        }
    }
}

/// Rising movement only performs conditional moves, so every count is kept.
proof fn lemma_count_rise(pr: SimState, nx: SimState, x: int, y: int, coin: bool, m: u8)
    requires
        nx.ps.len() == cell_total(),
        in_grid(x, y),
    ensures
        mat_count(spec_rise(pr, nx, x, y, coin).0.ps, m) == mat_count(nx.ps, m),
{
    if y > 0 {
        lemma_count_move_to(nx, x, y, x, y - 1, m);
        if x > 0 {
            lemma_count_move_to(nx, x, y, x - 1, y - 1, m);
        }
        if x < GRID_WIDTH - 1 {
            lemma_count_move_to(nx, x, y, x + 1, y - 1, m);
        }
    }
}

/// The moving part of a fall re-stamps, slides or moves the same
/// material, so every count is kept.
proof fn lemma_count_fall_core(
    pr: SimState,
    nx: SimState,
    x: int,
    y: int,
    coin: bool,
    v1: int,
    m: u8,
)
    requires
        nx.ps.len() == cell_total(),
        in_grid(x, y),
        nx.mat_at(x, y) == pr.mat_at(x, y),
        nx.mat_at(x, y) <= 5,
    ensures
        mat_count(spec_fall_core(pr, nx, x, y, coin, v1).0.ps, m) == mat_count(nx.ps, m),
        !spec_fall_core(pr, nx, x, y, coin, v1).1 ==> spec_fall_core(
            pr,
            nx,
            x,
            y,
            coin,
            v1,
        ).0.mat_at(x, y) == pr.mat_at(x, y) && spec_fall_core(pr, nx, x, y, coin, v1).0.ps.len()
            == nx.ps.len(),
{
    let mat = pr.mat_at(x, y);
    let v2 = if v1 > 80 {
        80int
    } else {
        v1
    };
    let nx2 = if v2 > 10 {
        spec_transfer(pr, nx, mat, v2, x, y)
    } else {
        nx
    };
    lemma_count_transfer(pr, nx, mat, v2, x, y, m);
    assert(nx2.ps == nx.ps);
    let v3 = if v2 > 10 {
        v2 * 4 / 5
    } else {
        v2
    };
    let a = if v3 < 0 {
        -v3
    } else {
        v3
    };
    let dist0 = (a + 5) / 10;
    let dist = if dist0 == 0 {
        1int
    } else {
        dist0
    };
    let bottom = spec_fall_to(pr, x, y, dist);
    lemma_scan_bounds(pr, x, y, dist);
    if bottom == y {
        if x > 0 {
            lemma_count_move_to_vel(nx2, x, y, x - 1, y, m);
        }
        if x < GRID_WIDTH - 1 {
            lemma_count_move_to_vel(nx2, x, y, x + 1, y, m);
        }
        lemma_count_set(nx2, x, y, Material::spec_from_id(mat), m);
    } else {
        lemma_count_move_to_vel(nx2, x, y, x, bottom, m);
    }
}

/// A fall re-stamps, slides or moves the same material, so every count is
/// kept.
proof fn lemma_count_fall(pr: SimState, nx: SimState, x: int, y: int, coin: bool, m: u8)
    requires
        nx.ps.len() == cell_total(),
        in_grid(x, y),
        nx.mat_at(x, y) == pr.mat_at(x, y),
        nx.mat_at(x, y) <= 5,
    ensures
        mat_count(spec_fall(pr, nx, x, y, coin).0.ps, m) == mat_count(nx.ps, m),
        !spec_fall(pr, nx, x, y, coin).1 ==> spec_fall(pr, nx, x, y, coin).0.mat_at(x, y)
            == pr.mat_at(x, y) && spec_fall(pr, nx, x, y, coin).0.ps.len() == nx.ps.len(),
{
    let v0 = pr.vel_at(x, y);
    let mat = pr.mat_at(x, y);
    if y < GRID_HEIGHT - 1 && pr.empty_at(x, y + 1) {
        lemma_count_fall_core(pr, nx, x, y, coin, v0 + 5, m);
    } else if v0 < 1 {
        lemma_count_set(nx, x, y, Material::spec_from_id(mat), m);
    } else {
        lemma_count_fall_core(pr, nx, x, y, coin, v0, m);
    }
}

/// Flow re-stamps or conditionally moves the same material, so every
/// count is kept.
proof fn lemma_count_flow(pr: SimState, nx: SimState, x: int, y: int, d: CellDraws, m: u8)
    requires
        nx.ps.len() == cell_total(),
        in_grid(x, y),
        nx.mat_at(x, y) == pr.mat_at(x, y),
        nx.mat_at(x, y) <= 5,
        pr.ps[cell_index(x, y)].wf(),
    ensures
        mat_count(spec_flow(pr, nx, x, y, d).ps, m) == mat_count(nx.ps, m),
{
    let p = pr.ps[cell_index(x, y)];
    let mat = p.material_type;
    let visc = visc_bits(p.properties) as int;
    let maxd = spec_flow_reach(visc);
    assert(visc <= 10);
    if maxd == 0 || (d.flow_stay as int) < visc {
        lemma_count_set(nx, x, y, Material::spec_from_id(mat), m);
    } else {
        lemma_scan_bounds(pr, x, y, maxd);
        let lb = spec_left_reach(pr, x, y, maxd);
        let rb = spec_right_reach(pr, x, y, maxd);
        if lb == x && rb == x {
            lemma_count_set(nx, x, y, Material::spec_from_id(mat), m);
        } else {
            let go_left = if lb < x && rb > x {
                d.flow_dir
            } else {
                lb < x
            };
            let space = if go_left {
                x - lb
            } else {
                rb - x
            };
            assert(space >= 1);
            assert(0 <= (d.flow_dist as int) % space < space) by (nonlinear_arith)
                requires
                    space >= 1,
            ;
            assert(1 <= spec_flow_amount(space, d) <= space);
            let target = if go_left {
                x - spec_flow_amount(x - lb, d)
            } else {
                x + spec_flow_amount(rb - x, d)
            };
            assert(in_grid(target, y));
            lemma_count_move_to(nx, x, y, target, y, m);
        }
    }
}

/// One cell update of a non-fire cell keeps the count of every material
/// that has no dissipation or spawn mechanic (everything but Empty and
/// Smoke).
#[verifier::rlimit(80)]
pub proof fn lemma_update_conserves(
    pr: SimState,
    nx: SimState,
    x: int,
    y: int,
    d: CellDraws,
    m: u8,
)
    requires
        pr.wf(),
        nx.wf(),
        in_grid(x, y),
        pr.mat_at(x, y) != 5,
        m != 0,
        m != 4,
    ensures
        mat_count(spec_update(pr, nx, x, y, d).ps, m) == mat_count(nx.ps, m),
{
    lemma_cell_index(x, y, x, y);
    let mat = pr.mat_at(x, y);
    assert(pr.ps[cell_index(x, y)].wf());
    assert(nx.ps[cell_index(x, y)].wf());
    if nx.mat_at(x, y) != mat {
    } else if mat == 4 && d.smoke_fade < 1 {
        lemma_count_set(nx, x, y, Material::Empty, m);
    } else if !id_movable(mat) {
        lemma_count_set(nx, x, y, Material::spec_from_id(mat), m);
    } else {
        let r1 = spec_density(pr, nx, x, y, d.swap_coin);
        lemma_count_density(pr, nx, x, y, d.swap_coin, m);
        if !r1.1 {
            assert(r1.0 == nx);
            let r2 = if id_rises(mat) {
                spec_rise(pr, nx, x, y, d.rise_coin)
            } else {
                spec_fall(pr, nx, x, y, d.slide_coin)
            };
            if id_rises(mat) {
                lemma_count_rise(pr, nx, x, y, d.rise_coin, m);
            } else {
                lemma_count_fall(pr, nx, x, y, d.slide_coin, m);
            }
            if !r2.1 {
                assert(r2.0.ps.len() == cell_total());
                assert(r2.0.mat_at(x, y) == mat);
                if id_flows(mat) {
                    lemma_count_flow(pr, r2.0, x, y, d, m);
                } else {
                    lemma_count_set(r2.0, x, y, Material::spec_from_id(mat), m);
                }
            }
        }
    }
}

/// The particle sequence of an all-empty grid.
pub open spec fn empty_ps() -> Seq<Particle> {
    Seq::new(cell_total() as nat, |i: int| spec_particle_new(Material::Empty))
}

/// The velocity sequence of a grid at rest.
pub open spec fn zero_vs() -> Seq<int> {
    Seq::new(cell_total() as nat, |i: int| 0int)
}

/// An otherwise-empty grid holding a single Sand particle at `(x, y)`
/// with vertical velocity `v`.
pub open spec fn single_sand(x: int, y: int, v: int) -> SimState {
    SimState {
        ps: empty_ps().update(cell_index(x, y), spec_particle_new(Material::Sand)),
        vs: zero_vs().update(cell_index(x, y), v),
    }
}

/// Cell-level reading of the single-sand state: sand at `(x, y)`, every
/// other cell empty and at rest.
proof fn lemma_single_sand_facts(x: int, y: int, v: int)
    requires
        in_grid(x, y),
    ensures
        single_sand(x, y, v).ps.len() == cell_total(),
        single_sand(x, y, v).vs.len() == cell_total(),
        single_sand(x, y, v).mat_at(x, y) == 1,
        single_sand(x, y, v).vel_at(x, y) == v,
        forall|cx: int, cy: int|
            in_grid(cx, cy) && (cx, cy) != (x, y) ==> single_sand(x, y, v).mat_at(cx, cy) == 0
                && single_sand(x, y, v).vel_at(cx, cy) == 0,
{
    lemma_cell_index(x, y, x, y);
    assert forall|cx: int, cy: int|
        in_grid(cx, cy) && (cx, cy) != (x, y) implies single_sand(x, y, v).mat_at(cx, cy) == 0
        && single_sand(x, y, v).vel_at(cx, cy) == 0 by {
        lemma_cell_index(cx, cy, x, y);
    }
}

/// Falling through an all-empty column reaches exactly `dist` cells down,
/// or the bottom edge.
proof fn lemma_fall_to_empty_col(st: SimState, x: int, y: int, d: int)
    requires
        in_grid(x, y),
        d >= 0,
        forall|j: int| y < j < GRID_HEIGHT ==> st.empty_at(x, j),
    ensures
        spec_fall_to(st, x, y, d) == if y + d < GRID_HEIGHT {
            y + d
        } else {
            GRID_HEIGHT - 1
        },
    decreases d,
{
    if d > 0 && y + 1 < GRID_HEIGHT {
        lemma_fall_to_empty_col(st, x, y + 1, d - 1);
    }
}

/// One tick of the single-sand state: if the sand is above the bottom
/// row it falls at least one cell straight down; if it is on the bottom
/// row it stays there (perhaps sliding one cell sideways). The grid stays
/// a single-sand grid with a bounded velocity.
pub proof fn lemma_sand_tick(
    x: int,
    y: int,
    v: int,
    order: Seq<(usize, usize)>,
    ds: Seq<CellDraws>,
)
    requires
        in_grid(x, y),
        -30 <= v <= 80,
        crate::tick::valid_order(order, single_sand(x, y, v)),
        ds.len() == order.len(),
    ensures
        exists|x2: int, y2: int, v2: int|
            {
                &&& crate::tick::spec_tick(single_sand(x, y, v), order, ds) == #[trigger] single_sand(
                    x2,
                    y2,
                    v2,
                )
                &&& in_grid(x2, y2)
                &&& -30 <= v2 <= 80
                &&& (y < GRID_HEIGHT - 1 ==> x2 == x && y + 1 <= y2)
                &&& (y == GRID_HEIGHT - 1 ==> y2 == GRID_HEIGHT - 1)
            },
{
    reveal_with_fuel(crate::tick::spec_tick_from, 3);
    let st = single_sand(x, y, v);
    lemma_single_sand_facts(x, y, v);
    assert(st.mat_at(x, y) != 0);
    assert(order.contains(((x as usize), (y as usize))));
    assert(order.len() >= 1);
    assert forall|k: int| 0 <= k < order.len() implies order[k] == (
        (x as usize),
        (y as usize),
    ) by {
        let c = order[k];
        assert(in_grid(c.0 as int, c.1 as int) && st.mat_at(c.0 as int, c.1 as int) != 0);
        if (c.0 as int, c.1 as int) != (x, y) {
            assert(st.mat_at(c.0 as int, c.1 as int) == 0);
        }
    }
    assert(order.len() == 1) by {
        if order.len() >= 2 {
            assert(order[0] == ((x as usize), (y as usize)));
            assert(order[1] == ((x as usize), (y as usize)));
        }
    }
    let d = ds[0];
    let post = crate::tick::spec_tick(st, order, ds);
    assert(post == spec_update(st, st, x, y, d));
    lemma_sand_update(x, y, v, d);
}

/// The effect of one behavior-engine invocation on the single-sand state.
#[verifier::rlimit(100)]
proof fn lemma_sand_update(x: int, y: int, v: int, d: CellDraws)
    requires
        in_grid(x, y),
        -30 <= v <= 80,
    ensures
        exists|x2: int, y2: int, v2: int|
            {
                &&& spec_update(single_sand(x, y, v), single_sand(x, y, v), x, y, d)
                    == #[trigger] single_sand(x2, y2, v2)
                &&& in_grid(x2, y2)
                &&& -30 <= v2 <= 80
                &&& (y < GRID_HEIGHT - 1 ==> x2 == x && y + 1 <= y2)
                &&& (y == GRID_HEIGHT - 1 ==> y2 == GRID_HEIGHT - 1)
            },
{
    let st = single_sand(x, y, v);
    lemma_single_sand_facts(x, y, v);
    let post = spec_update(st, st, x, y, d);
    assert(spec_density(st, st, x, y, d.swap_coin) == (st, false));
    let fr = spec_fall(st, st, x, y, d.slide_coin);
    assert(post == if fr.1 {
        fr.0
    } else {
        st_set(fr.0, x, y, Material::Sand)
    });
    if y < GRID_HEIGHT - 1 {
        lemma_sand_fall_open(x, y, v, d, v + 5);
        let (x2, y2, v2) = choose|x2: int, y2: int, v2: int|
            {
                &&& spec_fall_core(st, st, x, y, d.slide_coin, v + 5) == (
                #[trigger] single_sand(x2, y2, v2),
                true,
                )
                &&& in_grid(x2, y2)
                &&& -30 <= v2 <= 80
                &&& x2 == x
                &&& y + 1 <= y2
            };
        assert(post == single_sand(x2, y2, v2));
    } else {
        if v < 1 {
            let stc = st_set_vel(st_set(st, x, y, Material::spec_from_id(1)), x, y, 0);
            assert(fr == (stc, false));
            assert(stc.ps =~= single_sand(x, y, 0).ps);
            assert(stc.vs =~= single_sand(x, y, 0).vs);
            assert(stc == single_sand(x, y, 0));
            let fin = st_set(stc, x, y, Material::Sand);
            assert(fin.ps =~= single_sand(x, y, 0).ps);
            assert(post == single_sand(x, y, 0));
        } else {
            lemma_sand_fall_bottom(x, y, v, d);
            let (x2, v2) = choose|x2: int, v2: int|
                {
                    &&& spec_fall_core(st, st, x, y, d.slide_coin, v).0 == #[trigger] single_sand(
                        x2,
                        y,
                        v2,
                    )
                    &&& in_grid(x2, y)
                    &&& -30 <= v2 <= 80
                    &&& (!spec_fall_core(st, st, x, y, d.slide_coin, v).1 ==> x2 == x)
                };
            let b = spec_fall_core(st, st, x, y, d.slide_coin, v).1;
            if b {
                assert(post == single_sand(x2, y, v2));
            } else {
                let fin = st_set(single_sand(x, y, v2), x, y, Material::Sand);
                lemma_single_sand_facts(x, y, v2);
                assert(fin.ps =~= single_sand(x, y, v2).ps);
                assert(post == single_sand(x, y, v2));
            }
        }
    }
}

/// The moving part of a fall on the single-sand state above the bottom
/// row: the sand moves straight down by at least one cell.
proof fn lemma_sand_fall_open(x: int, y: int, v: int, d: CellDraws, v1: int)
    requires
        in_grid(x, y),
        y < GRID_HEIGHT - 1,
        -25 <= v1 <= 85,
    ensures
        exists|x2: int, y2: int, v2: int|
            {
                &&& spec_fall_core(
                    single_sand(x, y, v),
                    single_sand(x, y, v),
                    x,
                    y,
                    d.slide_coin,
                    v1,
                ) == (#[trigger] single_sand(x2, y2, v2), true)
                &&& in_grid(x2, y2)
                &&& -30 <= v2 <= 80
                &&& x2 == x
                &&& y + 1 <= y2
            },
{
    let st = single_sand(x, y, v);
    lemma_single_sand_facts(x, y, v);
    let v2c = if v1 > 80 {
        80int
    } else {
        v1
    };
    lemma_sand_no_transfer(x, y, v, v2c);
    let v3 = if v2c > 10 {
        v2c * 4 / 5
    } else {
        v2c
    };
    let a = if v3 < 0 {
        -v3
    } else {
        v3
    };
    let dist0 = (a + 5) / 10;
    let dist = if dist0 == 0 {
        1int
    } else {
        dist0
    };
    assert(1 <= dist <= 8);
    lemma_fall_to_empty_col(st, x, y, dist);
    let bottom = spec_fall_to(st, x, y, dist);
    assert(y + 1 <= bottom <= GRID_HEIGHT - 1);
    let v4 = if bottom > y + 1 {
        if v3 + 5 * (bottom - y) > 80 {
            80int
        } else {
            v3 + 5 * (bottom - y)
        }
    } else {
        v3
    };
    assert(-30 <= v4 <= 80);
    let moved = st_set_vel(st_move_to_vel(st, x, y, x, bottom), x, bottom, v4);
    assert(spec_fall_core(st, st, x, y, d.slide_coin, v1) == (moved, true));
    lemma_cell_index(x, y, x, bottom);
    assert(moved.ps =~= single_sand(x, bottom, v4).ps);
    assert(moved.vs =~= single_sand(x, bottom, v4).vs);
    assert(moved == single_sand(x, bottom, v4));
}

/// The moving part of a fall on the single-sand state at the bottom row:
/// the sand stays on the bottom row, at most sliding one cell sideways.
proof fn lemma_sand_fall_bottom(x: int, y: int, v: int, d: CellDraws)
    requires
        in_grid(x, y),
        y == GRID_HEIGHT - 1,
        1 <= v <= 80,
    ensures
        exists|x2: int, v2: int|
            {
                &&& spec_fall_core(
                    single_sand(x, y, v),
                    single_sand(x, y, v),
                    x,
                    y,
                    d.slide_coin,
                    v,
                ).0 == #[trigger] single_sand(x2, y, v2)
                &&& in_grid(x2, y)
                &&& -30 <= v2 <= 80
                &&& (!spec_fall_core(
                    single_sand(x, y, v),
                    single_sand(x, y, v),
                    x,
                    y,
                    d.slide_coin,
                    v,
                ).1 ==> x2 == x)
            },
{
    let st = single_sand(x, y, v);
    lemma_single_sand_facts(x, y, v);
    let v2c = v;
    lemma_sand_no_transfer(x, y, v, v2c);
    let v3 = if v2c > 10 {
        v2c * 4 / 5
    } else {
        v2c
    };
    let a = v3;
    let dist0 = (a + 5) / 10;
    let dist = if dist0 == 0 {
        1int
    } else {
        dist0
    };
    assert(spec_fall_to(st, x, y, dist) == y);
    if v3 > 10 {
        let lc = x > 0;
        let rc = x < GRID_WIDTH - 1;
        assert(lc || rc);
        let tx = if lc && rc {
            if d.slide_coin {
                x - 1
            } else {
                x + 1
            }
        } else if lc {
            x - 1
        } else {
            x + 1
        };
        let moved = st_set_vel(st_move_to_vel(st, x, y, tx, y), tx, y, v3 * 4 / 5);
        assert(spec_fall_core(st, st, x, y, d.slide_coin, v) == (moved, true));
        lemma_cell_index(x, y, tx, y);
        assert(moved.ps =~= single_sand(tx, y, v3 * 4 / 5).ps);
        assert(moved.vs =~= single_sand(tx, y, v3 * 4 / 5).vs);
        assert(moved == single_sand(tx, y, v3 * 4 / 5));
    } else {
        let rest = st_set_vel(st_set(st, x, y, Material::spec_from_id(1)), x, y, 0);
        assert(spec_fall_core(st, st, x, y, d.slide_coin, v) == (rest, false));
        assert(rest.ps =~= single_sand(x, y, 0).ps);
        assert(rest.vs =~= single_sand(x, y, 0).vs);
        assert(rest == single_sand(x, y, 0));
    }
}

/// A well-formed multi-tick run: each tick's processing order is valid
/// for the state that tick starts from.
pub open spec fn valid_run(
    st: SimState,
    orders: Seq<Seq<(usize, usize)>>,
    dss: Seq<Seq<CellDraws>>,
) -> bool
    decreases orders.len(),
{
    &&& orders.len() == dss.len()
    &&& (orders.len() > 0 ==> crate::tick::valid_order(orders[0], st) && dss[0].len()
        == orders[0].len() && valid_run(
        crate::tick::spec_tick(st, orders[0], dss[0]),
        orders.drop_first(),
        dss.drop_first(),
    ))
}

/// The state after running one tick per element of `orders`, with the
/// matching draw sequences.
pub open spec fn spec_run(
    st: SimState,
    orders: Seq<Seq<(usize, usize)>>,
    dss: Seq<Seq<CellDraws>>,
) -> SimState
    decreases orders.len(),
{
    if orders.len() == 0 || dss.len() == 0 {
        st
    } else {
        spec_run(
            crate::tick::spec_tick(st, orders[0], dss[0]),
            orders.drop_first(),
            dss.drop_first(),
        )
    }
}

/// A single-sand grid stays a single-sand grid across any valid run, and
/// once the run is at least as long as the sand's distance to the bottom
/// row, the sand is on the bottom row.
proof fn lemma_sand_run(
    x: int,
    y: int,
    v: int,
    orders: Seq<Seq<(usize, usize)>>,
    dss: Seq<Seq<CellDraws>>,
)
    requires
        in_grid(x, y),
        -30 <= v <= 80,
        valid_run(single_sand(x, y, v), orders, dss),
        orders.len() >= GRID_HEIGHT - 1 - y,
    ensures
        exists|x2: int, v2: int|
            spec_run(single_sand(x, y, v), orders, dss) == #[trigger] single_sand(
                x2,
                GRID_HEIGHT - 1,
                v2,
            ),
    decreases orders.len(),
{
    let st = single_sand(x, y, v);
    if orders.len() == 0 {
        assert(y == GRID_HEIGHT - 1);
        assert(spec_run(st, orders, dss) == single_sand(x, GRID_HEIGHT - 1, v));
    } else {
        lemma_sand_tick(x, y, v, orders[0], dss[0]);
        let (x2, y2, v2) = choose|x2: int, y2: int, v2: int|
            {
                &&& crate::tick::spec_tick(single_sand(x, y, v), orders[0], dss[0])
                    == #[trigger] single_sand(x2, y2, v2)
                &&& in_grid(x2, y2)
                &&& -30 <= v2 <= 80
                &&& (y < GRID_HEIGHT - 1 ==> x2 == x && y + 1 <= y2)
                &&& (y == GRID_HEIGHT - 1 ==> y2 == GRID_HEIGHT - 1)
            };
        lemma_sand_run(x2, y2, v2, orders.drop_first(), dss.drop_first());
    }
}

/// Gravity termination: a single Sand particle placed at `(x, 0)` in an
/// otherwise-empty grid, starting at rest, is on the bottom row
/// `GRID_HEIGHT - 1` after any valid run of at least `GRID_HEIGHT - 1`
/// ticks — a bound linear in the column height.
pub proof fn lemma_gravity_termination(
    x: int,
    orders: Seq<Seq<(usize, usize)>>,
    dss: Seq<Seq<CellDraws>>,
)
    requires
        0 <= x < GRID_WIDTH,
        valid_run(single_sand(x, 0, 0), orders, dss),
        orders.len() >= GRID_HEIGHT - 1,
    ensures
        exists|x2: int, v2: int|
            spec_run(single_sand(x, 0, 0), orders, dss) == #[trigger] single_sand(
                x2,
                GRID_HEIGHT - 1,
                v2,
            ),
{
    lemma_sand_run(x, 0, 0, orders, dss);
}

/// Whether the position `c` is the cell `(cx, cy)`.
pub open spec fn is_cell(c: (usize, usize), cx: int, cy: int) -> bool {
    c.0 as int == cx && c.1 as int == cy
}

/// An otherwise-empty grid holding Sand directly above Water on the
/// bottom row, with Concrete on both sides of the Water, all at rest: the
/// smallest basin in which the water cannot flow away.
pub open spec fn sand_over_water(x: int) -> SimState {
    SimState {
        ps: empty_ps().update(
            cell_index(x, GRID_HEIGHT - 2),
            spec_particle_new(Material::Sand),
        ).update(cell_index(x, GRID_HEIGHT - 1), spec_particle_new(Material::Water)).update(
            cell_index(x - 1, GRID_HEIGHT - 1),
            spec_particle_new(Material::Concrete),
        ).update(cell_index(x + 1, GRID_HEIGHT - 1), spec_particle_new(Material::Concrete)),
        vs: zero_vs(),
    }
}

/// Whether `(cx, cy)` is one of the four occupied cells of
/// `sand_over_water(x)`.
pub open spec fn sow_occupied(x: int, cx: int, cy: int) -> bool {
    ||| (cx, cy) == (x, GRID_HEIGHT - 2)
    ||| (cx, cy) == (x, GRID_HEIGHT - 1)
    ||| (cx, cy) == (x - 1, GRID_HEIGHT - 1)
    ||| (cx, cy) == (x + 1, GRID_HEIGHT - 1)
}

/// Cell-level reading of the basin state.
proof fn lemma_sow_facts(x: int)
    requires
        1 <= x <= GRID_WIDTH - 2,
    ensures
        sand_over_water(x).ps.len() == cell_total(),
        sand_over_water(x).vs.len() == cell_total(),
        sand_over_water(x).mat_at(x, GRID_HEIGHT - 2) == 1,
        sand_over_water(x).mat_at(x, GRID_HEIGHT - 1) == 2,
        sand_over_water(x).mat_at(x - 1, GRID_HEIGHT - 1) == 3,
        sand_over_water(x).mat_at(x + 1, GRID_HEIGHT - 1) == 3,
        sand_over_water(x).ps[cell_index(x, GRID_HEIGHT - 1)] == spec_particle_new(
            Material::Water,
        ),
        forall|cx: int, cy: int|
            in_grid(cx, cy) && !sow_occupied(x, cx, cy) ==> sand_over_water(x).mat_at(cx, cy)
                == 0,
        forall|cx: int, cy: int|
            in_grid(cx, cy) ==> #[trigger] sand_over_water(x).vel_at(cx, cy) == 0,
{
    let h = GRID_HEIGHT - 1;
    lemma_cell_index(x, h - 1, x, h);
    lemma_cell_index(x, h - 1, x - 1, h);
    lemma_cell_index(x, h - 1, x + 1, h);
    lemma_cell_index(x, h, x - 1, h);
    lemma_cell_index(x, h, x + 1, h);
    lemma_cell_index(x - 1, h, x + 1, h);
    assert forall|cx: int, cy: int|
        in_grid(cx, cy) && !sow_occupied(x, cx, cy) implies sand_over_water(x).mat_at(cx, cy)
        == 0 by {
        lemma_cell_index(cx, cy, x, h - 1);
        lemma_cell_index(cx, cy, x, h);
        lemma_cell_index(cx, cy, x - 1, h);
        lemma_cell_index(cx, cy, x + 1, h);
    }
    assert forall|cx: int, cy: int|
        in_grid(cx, cy) implies #[trigger] sand_over_water(x).vel_at(cx, cy) == 0 by {
        lemma_cell_index(cx, cy, x, h);
    }
}

/// The invariant the basin keeps through a tick: `sp` says whether the
/// sand cell has been processed (and the swap has happened).
pub open spec fn sow_inv(st: SimState, x: int, sp: bool) -> bool {
    &&& st.ps.len() == cell_total()
    &&& st.mat_at(x, GRID_HEIGHT - 2) == (if sp {
        2u8
    } else {
        1u8
    })
    &&& st.mat_at(x, GRID_HEIGHT - 1) == (if sp {
        1u8
    } else {
        2u8
    })
    &&& st.mat_at(x - 1, GRID_HEIGHT - 1) == 3
    &&& st.mat_at(x + 1, GRID_HEIGHT - 1) == 3
    &&& forall|cx: int, cy: int|
        in_grid(cx, cy) && !sow_occupied(x, cx, cy) ==> #[trigger] st.mat_at(cx, cy) == 0
}

/// One scheduler step on a basin cell: processing the sand cell performs
/// the density swap, processing any other occupied cell re-stamps it.
#[verifier::rlimit(100)]
proof fn lemma_sow_step(x: int, nx: SimState, c: (usize, usize), d: CellDraws, sp: bool)
    requires
        1 <= x <= GRID_WIDTH - 2,
        sow_inv(nx, x, sp),
        sow_occupied(x, c.0 as int, c.1 as int),
    ensures
        sow_inv(
            crate::tick::spec_tick_step(sand_over_water(x), nx, c, d),
            x,
            sp || is_cell(c, x, GRID_HEIGHT - 2),
        ),
{
    let pr = sand_over_water(x);
    let h = GRID_HEIGHT - 1;
    lemma_sow_facts(x);
    let cx = c.0 as int;
    let cy = c.1 as int;
    lemma_cell_index(x, h - 1, x, h);
    lemma_cell_index(x, h - 1, x - 1, h);
    lemma_cell_index(x, h - 1, x + 1, h);
    lemma_cell_index(x, h, x - 1, h);
    lemma_cell_index(x, h, x + 1, h);
    lemma_cell_index(x - 1, h, x + 1, h);
    let post = crate::tick::spec_tick_step(pr, nx, c, d);
    if is_cell(c, x, h - 1) {
        // The sand cell.
        if sp {
            assert(nx.mat_at(cx, cy) != pr.mat_at(cx, cy));
            assert(post == nx);
        } else {
            crate::particle::lemma_particle_new_wf(Material::Sand);
            crate::particle::lemma_particle_new_wf(Material::Water);
            assert(density_bits(pr.ps[cell_index(x, h - 1)].properties) == 16);
            assert(density_bits(pr.ps[cell_index(x, h)].properties) == 10);
            assert(crate::behavior::spec_swap_ok(pr, x, h - 1, x, h));
            let sw = st_swap(nx, x, h - 1, x, h);
            assert(spec_density(pr, nx, x, h - 1, d.swap_coin) == (sw, true));
            assert(post == sw);
            assert forall|ex: int, ey: int|
                in_grid(ex, ey) && !sow_occupied(x, ex, ey) implies #[trigger] sw.mat_at(ex, ey)
                == 0 by {
                lemma_cell_index(ex, ey, x, h - 1);
                lemma_cell_index(ex, ey, x, h);
                assert(nx.mat_at(ex, ey) == 0);
            }
            assert(sow_inv(post, x, true));
        }
    } else if is_cell(c, x, h) {
        // The water cell.
        if sp {
            assert(nx.mat_at(cx, cy) == 1);
            assert(post == nx);
        } else {
            crate::particle::lemma_particle_new_wf(Material::Water);
            assert(visc_bits(pr.ps[cell_index(x, h)].properties) == 1);
            assert(spec_density(pr, nx, x, h, d.swap_coin) == (nx, false));
            assert(pr.vel_at(x, h) == 0);
            let r2 = spec_fall(pr, nx, x, h, d.slide_coin);
            let rest = st_set_vel(st_set(nx, x, h, Material::spec_from_id(2)), x, h, 0);
            assert(r2 == (rest, false));
            let fl = spec_flow(pr, rest, x, h, d);
            assert(spec_left_reach(pr, x, h, 5) == x);
            assert(spec_right_reach(pr, x, h, 5) == x);
            assert(fl == st_set(rest, x, h, Material::spec_from_id(2)));
            assert(post == fl);
            assert forall|ex: int, ey: int|
                in_grid(ex, ey) && !sow_occupied(x, ex, ey) implies #[trigger] fl.mat_at(ex, ey)
                == 0 by {
                lemma_cell_index(ex, ey, x, h);
                assert(nx.mat_at(ex, ey) == 0);
            }
            assert(sow_inv(post, x, false));
        }
    } else {
        // A concrete cell.
        let rs = st_set(nx, cx, cy, Material::spec_from_id(3));
        assert(post == rs);
        assert forall|ex: int, ey: int|
            in_grid(ex, ey) && !sow_occupied(x, ex, ey) implies #[trigger] rs.mat_at(ex, ey)
            == 0 by {
            lemma_cell_index(ex, ey, cx, cy);
            assert(nx.mat_at(ex, ey) == 0);
        }
        assert(sow_inv(post, x, sp));
    }
}

/// Folding the scheduler over any arrangement of the basin's occupied
/// cells ends with the sand processed.
proof fn lemma_sow_fold(
    x: int,
    nx: SimState,
    order: Seq<(usize, usize)>,
    ds: Seq<CellDraws>,
    sp: bool,
)
    requires
        1 <= x <= GRID_WIDTH - 2,
        sow_inv(nx, x, sp),
        ds.len() == order.len(),
        forall|k: int|
            0 <= k < order.len() ==> sow_occupied(
                x,
                (#[trigger] order[k]).0 as int,
                order[k].1 as int,
            ),
        order.no_duplicates(),
        order.contains(((x as usize), ((GRID_HEIGHT - 2) as usize))) <==> !sp,
    ensures
        sow_inv(crate::tick::spec_tick_from(sand_over_water(x), nx, order, ds), x, true),
    decreases order.len(),
{
    let sand_cell = ((x as usize), ((GRID_HEIGHT - 2) as usize));
    if order.len() == 0 {
        assert(!order.contains(sand_cell));
        assert(sp);
    } else {
        let c = order[0];
        lemma_sow_step(x, nx, c, ds[0], sp);
        let nx1 = crate::tick::spec_tick_step(sand_over_water(x), nx, c, ds[0]);
        let sp1 = sp || is_cell(c, x, GRID_HEIGHT - 2);
        assert(order.drop_first().contains(sand_cell) <==> !sp1) by {
            if c == sand_cell {
                assert(order.contains(sand_cell));
                assert(!sp);
                assert(sp1);
                if order.drop_first().contains(sand_cell) {
                    let j = choose|j: int|
                        0 <= j < order.drop_first().len() && order.drop_first()[j] == sand_cell;
                    assert(order[j + 1] == sand_cell);
                    assert(order[0] == order[j + 1]);
                    assert(false);
                }
            } else {
                assert(sp1 == sp);
                assert(!is_cell(c, x, GRID_HEIGHT - 2) ==> c != sand_cell);
                if order.contains(sand_cell) {
                    let j = choose|j: int| 0 <= j < order.len() && order[j] == sand_cell;
                    assert(j != 0);
                    assert(order.drop_first()[j - 1] == sand_cell);
                    assert(order.drop_first().contains(sand_cell));
                } else {
                    if order.drop_first().contains(sand_cell) {
                        let j = choose|j: int|
                            0 <= j < order.drop_first().len() && order.drop_first()[j]
                                == sand_cell;
                        assert(order[j + 1] == sand_cell);
                        assert(order.contains(sand_cell));
                    }
                }
            }
        }
        assert(order.drop_first().no_duplicates());
        lemma_sow_fold(x, nx1, order.drop_first(), ds.drop_first(), sp1);
    }
}

/// Density inversion: a denser particle directly above a lighter one
/// swaps places with it within exactly one tick. In the smallest basin —
/// Sand over Water walled in by Concrete — any valid processing order and
/// any draws leave Water on top and Sand below after one tick.
pub proof fn lemma_density_inversion(x: int, order: Seq<(usize, usize)>, ds: Seq<CellDraws>)
    requires
        1 <= x <= GRID_WIDTH - 2,
        crate::tick::valid_order(order, sand_over_water(x)),
        ds.len() == order.len(),
    ensures
        crate::tick::spec_tick(sand_over_water(x), order, ds).mat_at(x, GRID_HEIGHT - 2) == 2,
        crate::tick::spec_tick(sand_over_water(x), order, ds).mat_at(x, GRID_HEIGHT - 1) == 1,
{
    let pr = sand_over_water(x);
    lemma_sow_facts(x);
    assert forall|k: int| 0 <= k < order.len() implies sow_occupied(
        x,
        (#[trigger] order[k]).0 as int,
        order[k].1 as int,
    ) by {
        let c = order[k];
        assert(in_grid(c.0 as int, c.1 as int) && pr.mat_at(c.0 as int, c.1 as int) != 0);
    }
    assert(pr.mat_at(x, GRID_HEIGHT - 2) != 0);
    assert(order.contains(((x as usize), ((GRID_HEIGHT - 2) as usize))));
    assert(sow_inv(pr, x, false));
    lemma_sow_fold(x, pr, order, ds, false);
}

/// Momentum transfer is a no-op on the single-sand state: no neighbor
/// shares the sand's material.
proof fn lemma_sand_no_transfer(x: int, y: int, v: int, w: int)
    requires
        in_grid(x, y),
    ensures
        spec_transfer(single_sand(x, y, v), single_sand(x, y, v), 1u8, w, x, y) == single_sand(
            x,
            y,
            v,
        ),
{
    lemma_single_sand_facts(x, y, v);
}

} // verus!
