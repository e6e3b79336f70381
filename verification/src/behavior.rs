//! The per-material update rule: consuming a read-only prior-state grid
//! and writing into a fresh next-state grid.
//!
//! Every function is a deterministic mirror of its specification: the
//! exec code's effect on the next grid equals the corresponding `spec_`
//! function of the prior state, the next state so far, and the block of
//! random draws.

use vstd::prelude::*;
use crate::config::{GRID_HEIGHT, GRID_WIDTH};
use crate::grid::Grid;
use crate::material::Material;
use crate::particle::{
    density_bits, spec_particle_new, spec_with_color, visc_bits, Particle,
};
use crate::rng::CellDraws;
use crate::scan::{
    find_horizontal_space, find_vertical_space, spec_fall_to, spec_left_reach, spec_right_reach,
};
use crate::state::{
    cell_index, in_grid, st_move_to, st_move_to_vel, st_set, st_set_particle, st_set_vel,
    st_swap, SimState,
};

verus! {

/// Gravity added to a falling particle each tick, in tenths of a cell.
pub const GRAVITY_T: i32 = 5;

/// Maximum fall speed, in tenths of a cell per tick.
pub const MAX_FALL_T: i32 = 80;

/// Whether the material with this identifier can be moved at all.
pub open spec fn id_movable(m: u8) -> bool {
    m == 1 || m == 2 || m == 4 || m == 5
}

/// Whether the material with this identifier moves up instead of down.
pub open spec fn id_rises(m: u8) -> bool {
    m == 4 || m == 5
}

/// Whether the material with this identifier slides sideways when blocked.
pub open spec fn id_flows(m: u8) -> bool {
    m == 2 || m == 4
}

/// The flag bits of each material's flag byte, evaluated.
proof fn lemma_flag_bits()
    by (bit_vector)
    ensures
        0u8 & 1 == 0 && 1u8 & 1 == 1 && 3u8 & 1 == 1 && 15u8 & 1 == 1 && 13u8 & 1 == 1,
        0u8 & 2 == 0 && 1u8 & 2 == 0 && 3u8 & 2 == 2 && 15u8 & 2 == 2 && 13u8 & 2 == 0,
        0u8 & 4 == 0 && 1u8 & 4 == 0 && 3u8 & 4 == 0 && 15u8 & 4 == 4 && 13u8 & 4 == 4,
{
}

/// For a well-formed particle the cached flag bits mean exactly the
/// capabilities of its material.
pub proof fn lemma_flags_meaning(p: Particle)
    requires
        p.wf(),
    ensures
        (p.flags & 1u8 != 0) == id_movable(p.material_type),
        (p.flags & 2u8 != 0) == id_flows(p.material_type),
        (p.flags & 4u8 != 0) == id_rises(p.material_type),
{
    lemma_flag_bits();
}

/// Whether the particle at `(x, y)` may displace the occupied cell
/// `(x2, y2)`: the neighbor holds a particle of strictly lower density.
pub open spec fn spec_swap_ok(pr: SimState, x: int, y: int, x2: int, y2: int) -> bool {
    &&& pr.mat_at(x2, y2) != 0
    &&& density_bits(pr.ps[cell_index(x, y)].properties) > density_bits(
        pr.ps[cell_index(x2, y2)].properties,
    )
}

/// Density-based displacement: examine the cell below, then the diagonals
/// below in the tie-break order the coin gives, and swap with the first
/// strictly less dense occupied neighbor. Returns the new next state and
/// whether a displacement happened.
pub open spec fn spec_density(pr: SimState, nx: SimState, x: int, y: int, coin: bool) -> (
    SimState,
    bool,
) {
    if y < GRID_HEIGHT - 1 && spec_swap_ok(pr, x, y, x, y + 1) {
        (st_swap(nx, x, y, x, y + 1), true)
    } else if y < GRID_HEIGHT - 1 {
        let left = x > 0;
        let right = x < GRID_WIDTH - 1;
        if left && right {
            if coin {
                if spec_swap_ok(pr, x, y, x - 1, y + 1) {
                    (st_swap(nx, x, y, x - 1, y + 1), true)
                } else if spec_swap_ok(pr, x, y, x + 1, y + 1) {
                    (st_swap(nx, x, y, x + 1, y + 1), true)
                } else {
                    (nx, false)
                }
            } else {
                if spec_swap_ok(pr, x, y, x + 1, y + 1) {
                    (st_swap(nx, x, y, x + 1, y + 1), true)
                } else if spec_swap_ok(pr, x, y, x - 1, y + 1) {
                    (st_swap(nx, x, y, x - 1, y + 1), true)
                } else {
                    (nx, false)
                }
            }
        } else if left {
            if spec_swap_ok(pr, x, y, x - 1, y + 1) {
                (st_swap(nx, x, y, x - 1, y + 1), true)
            } else {
                (nx, false)
            }
        } else if right {
            if spec_swap_ok(pr, x, y, x + 1, y + 1) {
                (st_swap(nx, x, y, x + 1, y + 1), true)
            } else {
                (nx, false)
            }
        } else {
            (nx, false)
        }
    } else {
        (nx, false)
    }
}

/// Rising movement: straight up if the prior cell above is empty, else a
/// diagonal up-move with a coin tie-break when both diagonals are open.
/// Returns the new next state and whether the rule handled the cell.
pub open spec fn spec_rise(pr: SimState, nx: SimState, x: int, y: int, coin: bool) -> (
    SimState,
    bool,
) {
    if y > 0 && pr.empty_at(x, y - 1) {
        (st_move_to(nx, x, y, x, y - 1), true)
    } else if y > 0 {
        let left = x > 0 && pr.empty_at(x - 1, y - 1);
        let right = x < GRID_WIDTH - 1 && pr.empty_at(x + 1, y - 1);
        if left && right {
            if coin {
                (st_move_to(nx, x, y, x - 1, y - 1), true)
            } else {
                (st_move_to(nx, x, y, x + 1, y - 1), true)
            }
        } else if left {
            (st_move_to(nx, x, y, x - 1, y - 1), true)
        } else if right {
            (st_move_to(nx, x, y, x + 1, y - 1), true)
        } else {
            (nx, false)
        }
    } else {
        (nx, false)
    }
}

/// One step of momentum transfer: a same-material prior neighbor that is
/// slower than the mover receives a fifth of the mover's velocity.
pub open spec fn spec_transfer_one(
    pr: SimState,
    nx: SimState,
    mat: u8,
    v: int,
    tx: int,
    ty: int,
) -> SimState {
    if in_grid(tx, ty) && pr.mat_at(tx, ty) == mat && pr.vel_at(tx, ty) < v {
        st_set_vel(nx, tx, ty, pr.vel_at(tx, ty) + v / 5)
    } else {
        nx
    }
}

/// Momentum transfer to the eight neighbors, in the fixed order left,
/// right, up, up-right, up-left, down, down-right, down-left.
pub open spec fn spec_transfer(pr: SimState, nx: SimState, mat: u8, v: int, x: int, y: int) -> SimState {
    let n1 = spec_transfer_one(pr, nx, mat, v, x - 1, y);
    let n2 = spec_transfer_one(pr, n1, mat, v, x + 1, y);
    let n3 = spec_transfer_one(pr, n2, mat, v, x, y - 1);
    let n4 = spec_transfer_one(pr, n3, mat, v, x + 1, y - 1);
    let n5 = spec_transfer_one(pr, n4, mat, v, x - 1, y - 1);
    let n6 = spec_transfer_one(pr, n5, mat, v, x, y + 1);
    let n7 = spec_transfer_one(pr, n6, mat, v, x + 1, y + 1);
    spec_transfer_one(pr, n7, mat, v, x - 1, y + 1)
}

/// The moving part of a fall, entered with the velocity `v1` already
/// integrated: clamp to the maximum fall speed, transfer momentum when
/// fast, convert the velocity to a cell distance, scan down, and either
/// move, slide sideways, bounce, or come to rest.
pub open spec fn spec_fall_core(
    pr: SimState,
    nx: SimState,
    x: int,
    y: int,
    coin: bool,
    v1: int,
) -> (SimState, bool) {
    let mat = pr.mat_at(x, y);
    let v2 = if v1 > MAX_FALL_T as int {
        MAX_FALL_T as int
    } else {
        v1
    };
    let nx2 = if v2 > 10 {
        spec_transfer(pr, nx, mat, v2, x, y)
    } else {
        nx
    };
    let v3 = if v2 > 10 {
        v2 * 4 / 5
    } else {
        v2
    };
    let a = if v3 < 0 {
        -v3
    } else {
        v3
    };
    let dist0 = (a + 5) / 10;
    let dist = if dist0 == 0 {
        1
    } else {
        dist0
    };
    let bottom = spec_fall_to(pr, x, y, dist);
    let v4 = if bottom > y + 1 {
        if v3 + 5 * (bottom - y) > MAX_FALL_T as int {
            MAX_FALL_T as int
        } else {
            v3 + 5 * (bottom - y)
        }
    } else {
        v3
    };
    if bottom == y {
        if v4 > 10 {
            let lc = x > 0 && pr.empty_at(x - 1, y);
            let rc = x < GRID_WIDTH - 1 && pr.empty_at(x + 1, y);
            if lc || rc {
                let tx = if lc && rc {
                    if coin {
                        x - 1
                    } else {
                        x + 1
                    }
                } else if lc {
                    x - 1
                } else {
                    x + 1
                };
                (st_set_vel(st_move_to_vel(nx2, x, y, tx, y), tx, y, v4 * 4 / 5), true)
            } else {
                let v5 = -(v4 * 3 / 10);
                let v6 = if -1 < v5 < 1 {
                    0
                } else {
                    v5
                };
                (st_set_vel(st_set(nx2, x, y, Material::spec_from_id(mat)), x, y, v6), false)
            }
        } else {
            (st_set_vel(st_set(nx2, x, y, Material::spec_from_id(mat)), x, y, 0), false)
        }
    } else {
        (st_set_vel(st_move_to_vel(nx2, x, y, x, bottom), x, bottom, v4), true)
    }
}

/// Velocity-integrated fall: add gravity when the prior cell below is
/// empty; when blocked and nearly stopped, come to rest at once;
/// otherwise run the moving part. Returns the new next state and whether
/// the particle moved.
pub open spec fn spec_fall(pr: SimState, nx: SimState, x: int, y: int, coin: bool) -> (
    SimState,
    bool,
) {
    let v0 = pr.vel_at(x, y);
    let mat = pr.mat_at(x, y);
    if y < GRID_HEIGHT - 1 && pr.empty_at(x, y + 1) {
        spec_fall_core(pr, nx, x, y, coin, v0 + GRAVITY_T as int)
    } else if v0 < 1 {
        (st_set_vel(st_set(nx, x, y, Material::spec_from_id(mat)), x, y, 0), false)
    } else {
        spec_fall_core(pr, nx, x, y, coin, v0)
    }
}

/// How far a flowing particle of viscosity `visc` (in tenths) may slide:
/// the rounded value of `(1 - viscosity) * 5` on the tenths scale.
pub open spec fn spec_flow_reach(visc: int) -> int {
    (55 - 5 * visc) / 10
}

/// The slide distance a flowing particle takes within a side whose
/// farthest reach is `space`: the full reach when the distance roll is
/// below 7, else a fallback between 1 and the reach.
pub open spec fn spec_flow_amount(space: int, d: CellDraws) -> int {
    if d.flow_full < 7 {
        space
    } else {
        1 + (d.flow_dist as int) % space
    }
}

/// Viscosity-limited sideways flow: a viscosity roll may hold the
/// particle still; otherwise it slides toward an open side (coin
/// tie-break when both are open) by the drawn distance.
pub open spec fn spec_flow(pr: SimState, nx: SimState, x: int, y: int, d: CellDraws) -> SimState {
    let p = pr.ps[cell_index(x, y)];
    let mat = p.material_type;
    let visc = visc_bits(p.properties) as int;
    let maxd = spec_flow_reach(visc);
    if maxd == 0 || (d.flow_stay as int) < visc {
        st_set(nx, x, y, Material::spec_from_id(mat))
    } else {
        let lb = spec_left_reach(pr, x, y, maxd);
        let rb = spec_right_reach(pr, x, y, maxd);
        if lb == x && rb == x {
            st_set(nx, x, y, Material::spec_from_id(mat))
        } else {
            let go_left = if lb < x && rb > x {
                d.flow_dir
            } else {
                lb < x
            };
            let target = if go_left {
                x - spec_flow_amount(x - lb, d)
            } else {
                x + spec_flow_amount(rb - x, d)
            };
            st_move_to(nx, x, y, target, y)
        }
    }
}

/// Whether any of the eight prior neighbors of `(x, y)` holds Fire.
pub open spec fn spec_fire_neighbors(pr: SimState, x: int, y: int) -> bool {
    ||| (in_grid(x - 1, y - 1) && pr.mat_at(x - 1, y - 1) == 5)
    ||| (in_grid(x, y - 1) && pr.mat_at(x, y - 1) == 5)
    ||| (in_grid(x + 1, y - 1) && pr.mat_at(x + 1, y - 1) == 5)
    ||| (in_grid(x - 1, y) && pr.mat_at(x - 1, y) == 5)
    ||| (in_grid(x + 1, y) && pr.mat_at(x + 1, y) == 5)
    ||| (in_grid(x - 1, y + 1) && pr.mat_at(x - 1, y + 1) == 5)
    ||| (in_grid(x, y + 1) && pr.mat_at(x, y + 1) == 5)
    ||| (in_grid(x + 1, y + 1) && pr.mat_at(x + 1, y + 1) == 5)
}

/// The fixed flicker palette of fire.
pub open spec fn spec_fire_palette(i: int) -> (u8, u8, u8) {
    if i == 0 {
        (255, 100, 0)
    } else if i == 1 {
        (255, 60, 0)
    } else if i == 2 {
        (255, 160, 30)
    } else {
        (255, 50, 0)
    }
}

/// The dissipation threshold of a fire cell, in tenths: high when
/// isolated, low when connected to other fire.
pub open spec fn spec_fire_threshold(pr: SimState, x: int, y: int) -> int {
    if spec_fire_neighbors(pr, x, y) {
        4
    } else {
        7
    }
}

/// The upward bias of a surviving fire cell, in tenths, from the openness
/// of the prior cells above it.
pub open spec fn spec_fire_bias(pr: SimState, x: int, y: int) -> int {
    if y > 0 {
        let above = pr.empty_at(x, y - 1);
        let al = x > 0 && pr.empty_at(x - 1, y - 1);
        let ar = x < GRID_WIDTH - 1 && pr.empty_at(x + 1, y - 1);
        if above {
            8
        } else if al && ar {
            6
        } else if al || ar {
            4
        } else {
            2
        }
    } else {
        0
    }
}

/// One directional ignition attempt: an empty prior cell catches the
/// flicker particle when its roll is below the per-direction chance.
pub open spec fn spec_spread_one(
    pr: SimState,
    nx: SimState,
    tx: int,
    ty: int,
    chance: int,
    roll: int,
    p: Particle,
) -> SimState {
    if in_grid(tx, ty) && pr.empty_at(tx, ty) && roll < chance {
        st_set_particle(nx, tx, ty, p)
    } else {
        nx
    }
}

/// Fire spread to the five directional neighbors: up (5 in 10), the two
/// upper diagonals (4 in 10), and the two sides (2 in 10).
pub open spec fn spec_fire_spread(
    pr: SimState,
    nx: SimState,
    x: int,
    y: int,
    p: Particle,
    d: CellDraws,
) -> SimState {
    let n1 = spec_spread_one(pr, nx, x, y - 1, 5, d.spread_up as int, p);
    let n2 = spec_spread_one(pr, n1, x - 1, y - 1, 4, d.spread_up_left as int, p);
    let n3 = spec_spread_one(pr, n2, x + 1, y - 1, 4, d.spread_up_right as int, p);
    let n4 = spec_spread_one(pr, n3, x - 1, y, 2, d.spread_left as int, p);
    spec_spread_one(pr, n4, x + 1, y, 2, d.spread_right as int, p)
}

/// The combustion rule of a fire cell: dissipate (to smoke or to empty)
/// with the isolation-dependent chance; otherwise possibly move up with a
/// fresh flicker color, possibly ignite neighbors, and re-stamp itself.
pub open spec fn spec_fire(pr: SimState, nx: SimState, x: int, y: int, d: CellDraws) -> SimState {
    if (d.fire_fade as int) < spec_fire_threshold(pr, x, y) {
        if d.fire_smoke < 2 {
            st_set(nx, x, y, Material::Smoke)
        } else {
            st_set(nx, x, y, Material::Empty)
        }
    } else {
        let c = spec_fire_palette(d.fire_color as int);
        let p = spec_with_color(spec_particle_new(Material::Fire), c.0, c.1, c.2);
        let dx: int = if (d.fire_diag as int) < 3 {
            if d.fire_diag_coin {
                1
            } else {
                -1
            }
        } else {
            0
        };
        if (d.fire_rise as int) < spec_fire_bias(pr, x, y) && y > 0 && x + dx > 0 && x + dx
            < GRID_WIDTH {
            st_set_particle(nx, x + dx, y - 1, p)
        } else {
            let nx1 = if (d.fire_spread as int) < 3 {
                spec_fire_spread(pr, nx, x, y, p, d)
            } else {
                nx
            };
            st_set_particle(nx1, x, y, p)
        }
    }
}

/// One full cell update against the prior state `pr`, writing into the
/// next state `nx`: the write-guard skip, then fire, smoke dissipation,
/// the immobile re-stamp, density displacement, rise or fall, and flow.
pub open spec fn spec_update(pr: SimState, nx: SimState, x: int, y: int, d: CellDraws) -> SimState {
    let mat = pr.mat_at(x, y);
    if nx.mat_at(x, y) != mat {
        nx
    } else if mat == 5 {
        spec_fire(pr, nx, x, y, d)
    } else if mat == 4 && d.smoke_fade < 1 {
        st_set(nx, x, y, Material::Empty)
    } else if !id_movable(mat) {
        st_set(nx, x, y, Material::spec_from_id(mat))
    } else {
        let r1 = spec_density(pr, nx, x, y, d.swap_coin);
        if r1.1 {
            r1.0
        } else {
            let r2 = if id_rises(mat) {
                spec_rise(pr, r1.0, x, y, d.rise_coin)
            } else {
                spec_fall(pr, r1.0, x, y, d.slide_coin)
            };
            if r2.1 {
                r2.0
            } else if id_flows(mat) {
                spec_flow(pr, r2.0, x, y, d)
            } else {
                st_set(r2.0, x, y, Material::spec_from_id(mat))
            }
        }
    }
}

/// Swaps `(x, y)` with `(x2, y2)` in the next grid when the prior
/// neighbor holds a strictly less dense particle.
fn check_and_swap(
    x: usize,
    y: usize,
    x2: usize,
    y2: usize,
    new_grid: &mut Grid,
    old_grid: &Grid,
) -> (r: bool)
    requires
        old(new_grid).wf(),
        old_grid.wf(),
        x < GRID_WIDTH,
        y < GRID_HEIGHT,
        x2 < GRID_WIDTH,
        y2 < GRID_HEIGHT,
    ensures
        final(new_grid).wf(),
        r == spec_swap_ok(old_grid@, x as int, y as int, x2 as int, y2 as int),
        final(new_grid)@ == if r {
            st_swap(old(new_grid)@, x as int, y as int, x2 as int, y2 as int)
        } else {
            old(new_grid)@
        },
{
    let other = old_grid.get(x2, y2);
    if other.material_type != 0 {
        let current = old_grid.get(x, y);
        if current.get_density() > other.get_density() {
            new_grid.swap(x, y, x2, y2);
            return true;
        }
    }
    false
}

/// Density-based displacement: a denser particle sinks through a lighter
/// occupied neighbor below or diagonally below, with a coin tie-break
/// between the diagonals. Returns whether a displacement happened.
pub fn try_move_density_based(
    x: usize,
    y: usize,
    new_grid: &mut Grid,
    old_grid: &Grid,
    coin: bool,
) -> (r: bool)
    requires
        old(new_grid).wf(),
        old_grid.wf(),
        x < GRID_WIDTH,
        y < GRID_HEIGHT,
    ensures
        final(new_grid).wf(),
        (final(new_grid)@, r) == spec_density(old_grid@, old(new_grid)@, x as int, y as int, coin),
{
    if y < GRID_HEIGHT - 1 && check_and_swap(x, y, x, y + 1, new_grid, old_grid) {
        return true;
    }
    if y < GRID_HEIGHT - 1 {
        let left = x > 0;
        let right = x < GRID_WIDTH - 1;
        if left && right {
            if coin {
                if check_and_swap(x, y, x - 1, y + 1, new_grid, old_grid) {
                    return true;
                }
                if check_and_swap(x, y, x + 1, y + 1, new_grid, old_grid) {
                    return true;
                }
            } else {
                if check_and_swap(x, y, x + 1, y + 1, new_grid, old_grid) {
                    return true;
                }
                if check_and_swap(x, y, x - 1, y + 1, new_grid, old_grid) {
                    return true;
                }
            }
        } else if left {
            if check_and_swap(x, y, x - 1, y + 1, new_grid, old_grid) {
                return true;
            }
        } else if right {
            if check_and_swap(x, y, x + 1, y + 1, new_grid, old_grid) {
                return true;
            }
        }
    }
    false
}

/// Rising movement for gases: straight up when the prior cell above is
/// empty, else diagonally up with a coin tie-break. Returns whether the
/// rule handled the cell.
pub fn rise(x: usize, y: usize, new_grid: &mut Grid, old_grid: &Grid, coin: bool) -> (r: bool)
    requires
        old(new_grid).wf(),
        old_grid.wf(),
        x < GRID_WIDTH,
        y < GRID_HEIGHT,
    ensures
        final(new_grid).wf(),
        (final(new_grid)@, r) == spec_rise(old_grid@, old(new_grid)@, x as int, y as int, coin),
{
    if y > 0 && old_grid.get(x, y - 1).material_type == 0 {
        new_grid.move_to(x, y, x, y - 1);
        return true;
    }
    if y > 0 {
        let left = x > 0 && old_grid.get(x - 1, y - 1).material_type == 0;
        let right = x < GRID_WIDTH - 1 && old_grid.get(x + 1, y - 1).material_type == 0;
        if left && right {
            if coin {
                new_grid.move_to(x, y, x - 1, y - 1);
            } else {
                new_grid.move_to(x, y, x + 1, y - 1);
            }
            true
        } else if left {
            new_grid.move_to(x, y, x - 1, y - 1);
            true
        } else if right {
            new_grid.move_to(x, y, x + 1, y - 1);
            true
        } else {
            false
        }
    } else {
        false
    }
}

/// One step of momentum transfer toward the signed position `(tx, ty)`.
fn transfer_one(
    new_grid: &mut Grid,
    old_grid: &Grid,
    mat: u8,
    v: i32,
    tx: isize,
    ty: isize,
)
    requires
        old(new_grid).wf(),
        old_grid.wf(),
        10 < v <= MAX_FALL_T,
    ensures
        final(new_grid).wf(),
        final(new_grid)@ == spec_transfer_one(
            old_grid@,
            old(new_grid)@,
            mat,
            v as int,
            tx as int,
            ty as int,
        ),
{
    if tx >= 0 && tx < GRID_WIDTH as isize && ty >= 0 && ty < GRID_HEIGHT as isize {
        let ux = tx as usize;
        let uy = ty as usize;
        let neighbor = old_grid.get(ux, uy);
        if neighbor.material_type == mat {
            let nv = old_grid.get_velocity(ux, uy);
            if nv < v {
                new_grid.set_velocity(ux, uy, nv + v / 5);
            }
        }
    }
}

/// Velocity-integrated fall for powders and liquids: integrate gravity,
/// transfer momentum to slower same-material neighbors when fast, move
/// down as far as the vertical scan allows, and otherwise slide, bounce
/// or come to rest. Returns whether the particle moved.
#[verifier::rlimit(60)]
pub fn fall(x: usize, y: usize, new_grid: &mut Grid, old_grid: &Grid, coin: bool) -> (r: bool)
    requires
        old(new_grid).wf(),
        old_grid.wf(),
        x < GRID_WIDTH,
        y < GRID_HEIGHT,
    ensures
        final(new_grid).wf(),
        (final(new_grid)@, r) == spec_fall(old_grid@, old(new_grid)@, x as int, y as int, coin),
{
    let current = old_grid.get(x, y);
    let mat = current.material_type;
    let mut v: i32 = old_grid.get_velocity(x, y);
    if y < GRID_HEIGHT - 1 && old_grid.get(x, y + 1).material_type == 0 {
        v = v + GRAVITY_T;
    } else if v < 1 {
        new_grid.set(x, y, Material::from_id(mat));
        new_grid.set_velocity(x, y, 0);
        return false;
    }
    if v > MAX_FALL_T {
        v = MAX_FALL_T;
    }
    if v > 10 {
        transfer_one(new_grid, old_grid, mat, v, x as isize - 1, y as isize);
        transfer_one(new_grid, old_grid, mat, v, x as isize + 1, y as isize);
        transfer_one(new_grid, old_grid, mat, v, x as isize, y as isize - 1);
        transfer_one(new_grid, old_grid, mat, v, x as isize + 1, y as isize - 1);
        transfer_one(new_grid, old_grid, mat, v, x as isize - 1, y as isize - 1);
        transfer_one(new_grid, old_grid, mat, v, x as isize, y as isize + 1);
        transfer_one(new_grid, old_grid, mat, v, x as isize + 1, y as isize + 1);
        transfer_one(new_grid, old_grid, mat, v, x as isize - 1, y as isize + 1);
        v = v * 4 / 5;
    }
    let a = if v < 0 {
        -v
    } else {
        v
    };
    let mut dist = ((a + 5) / 10) as usize;
    if dist == 0 {
        dist = 1;
    }
    let bottom = find_vertical_space(old_grid, x, y, dist);
    if bottom > y + 1 {
        v = v + GRAVITY_T * ((bottom - y) as i32);
        if v > MAX_FALL_T {
            v = MAX_FALL_T;
        }
    }
    if bottom == y {
        if v > 10 {
            let lc = x > 0 && old_grid.get(x - 1, y).material_type == 0;
            let rc = x < GRID_WIDTH - 1 && old_grid.get(x + 1, y).material_type == 0;
            if lc || rc {
                let tx = if lc && rc {
                    if coin {
                        x - 1
                    } else {
                        x + 1
                    }
                } else if lc {
                    x - 1
                } else {
                    x + 1
                };
                new_grid.move_to_with_velocity(x, y, tx, y);
                new_grid.set_velocity(tx, y, v * 4 / 5);
                return true;
            } else {
                v = -(v * 3 / 10);
                if -1 < v && v < 1 {
                    v = 0;
                }
                new_grid.set(x, y, Material::from_id(mat));
                new_grid.set_velocity(x, y, v);
                return false;
            }
        } else {
            new_grid.set(x, y, Material::from_id(mat));
            new_grid.set_velocity(x, y, 0);
            return false;
        }
    }
    new_grid.move_to_with_velocity(x, y, x, bottom);
    new_grid.set_velocity(x, bottom, v);
    true
}

/// Viscosity-limited sideways flow for liquids and gases: a viscosity
/// roll may hold the particle still; otherwise it slides toward an open
/// side by the drawn distance, preferring the farthest reachable cell.
pub fn flow(x: usize, y: usize, new_grid: &mut Grid, old_grid: &Grid, d: &CellDraws)
    requires
        old(new_grid).wf(),
        old_grid.wf(),
        x < GRID_WIDTH,
        y < GRID_HEIGHT,
    ensures
        final(new_grid).wf(),
        final(new_grid)@ == spec_flow(old_grid@, old(new_grid)@, x as int, y as int, *d),
{
    let current = old_grid.get(x, y);
    let mat = current.material_type;
    let visc = current.get_viscosity();
    proof {
        crate::particle::lemma_bits_bounds(current.properties);
    }
    let maxd = ((55 - 5 * (visc as u32)) / 10) as usize;
    if maxd == 0 || d.flow_stay < visc as u32 {
        new_grid.set(x, y, Material::from_id(mat));
        return ;
    }
    let (lb, rb) = find_horizontal_space(old_grid, x, y, maxd);
    if lb == x && rb == x {
        new_grid.set(x, y, Material::from_id(mat));
        return ;
    }
    let go_left = if lb < x && rb > x {
        d.flow_dir
    } else {
        lb < x
    };
    if go_left {
        let space = x - lb;
        let amount = if d.flow_full < 7 {
            space
        } else {
            1 + (d.flow_dist as usize) % space
        };
        new_grid.move_to(x, y, x - amount, y);
    } else {
        let space = rb - x;
        let amount = if d.flow_full < 7 {
            space
        } else {
            1 + (d.flow_dist as usize) % space
        };
        new_grid.move_to(x, y, x + amount, y);
    }
}

/// Whether any of the eight neighbors of `(x, y)` holds Fire in `grid`.
pub fn has_fire_neighbors(x: usize, y: usize, grid: &Grid) -> (r: bool)
    requires
        grid.wf(),
        x < GRID_WIDTH,
        y < GRID_HEIGHT,
    ensures
        r == spec_fire_neighbors(grid@, x as int, y as int),
{
    let mut found = false;
    if x > 0 && y > 0 && grid.get(x - 1, y - 1).material_type == 5 {
        found = true;
    }
    if y > 0 && grid.get(x, y - 1).material_type == 5 {
        found = true;
    }
    if x < GRID_WIDTH - 1 && y > 0 && grid.get(x + 1, y - 1).material_type == 5 {
        found = true;
    }
    if x > 0 && grid.get(x - 1, y).material_type == 5 {
        found = true;
    }
    if x < GRID_WIDTH - 1 && grid.get(x + 1, y).material_type == 5 {
        found = true;
    }
    if x > 0 && y < GRID_HEIGHT - 1 && grid.get(x - 1, y + 1).material_type == 5 {
        found = true;
    }
    if y < GRID_HEIGHT - 1 && grid.get(x, y + 1).material_type == 5 {
        found = true;
    }
    if x < GRID_WIDTH - 1 && y < GRID_HEIGHT - 1 && grid.get(x + 1, y + 1).material_type == 5 {
        found = true;
    }
    found
}

/// The fixed flicker palette of fire.
fn fire_palette(i: u32) -> (c: (u8, u8, u8))
    ensures
        c == spec_fire_palette(i as int),
{
    if i == 0 {
        (255, 100, 0)
    } else if i == 1 {
        (255, 60, 0)
    } else if i == 2 {
        (255, 160, 30)
    } else {
        (255, 50, 0)
    }
}

/// One directional ignition attempt toward the signed position `(tx, ty)`.
fn spread_one(
    new_grid: &mut Grid,
    old_grid: &Grid,
    tx: isize,
    ty: isize,
    chance: u32,
    roll: u32,
    p: Particle,
)
    requires
        old(new_grid).wf(),
        old_grid.wf(),
        p.wf(),
    ensures
        final(new_grid).wf(),
        final(new_grid)@ == spec_spread_one(
            old_grid@,
            old(new_grid)@,
            tx as int,
            ty as int,
            chance as int,
            roll as int,
            p,
        ),
{
    if tx >= 0 && tx < GRID_WIDTH as isize && ty >= 0 && ty < GRID_HEIGHT as isize {
        let ux = tx as usize;
        let uy = ty as usize;
        if old_grid.get(ux, uy).material_type == 0 && roll < chance {
            new_grid.set_particle(ux, uy, p);
        }
    }
}

/// The combustion rule of a fire cell: dissipation, upward flicker
/// movement, directional spread, and the re-stamp with a fresh flicker
/// color. Always handles the cell.
pub fn handle_fire(x: usize, y: usize, new_grid: &mut Grid, old_grid: &Grid, d: &CellDraws) -> (r:
    bool)
    requires
        old(new_grid).wf(),
        old_grid.wf(),
        x < GRID_WIDTH,
        y < GRID_HEIGHT,
    ensures
        final(new_grid).wf(),
        final(new_grid)@ == spec_fire(old_grid@, old(new_grid)@, x as int, y as int, *d),
        r,
{
    let is_isolated = !has_fire_neighbors(x, y, old_grid);
    let threshold: u32 = if is_isolated {
        7
    } else {
        4
    };
    if d.fire_fade < threshold {
        if d.fire_smoke < 2 {
            new_grid.set(x, y, Material::Smoke);
        } else {
            new_grid.set(x, y, Material::Empty);
        }
        return true;
    }
    let upward_bias: u32 = if y > 0 {
        let above = old_grid.get(x, y - 1).material_type == 0;
        let al = x > 0 && old_grid.get(x - 1, y - 1).material_type == 0;
        let ar = x < GRID_WIDTH - 1 && old_grid.get(x + 1, y - 1).material_type == 0;
        if above {
            8
        } else if al && ar {
            6
        } else if al || ar {
            4
        } else {
            2
        }
    } else {
        0
    };
    let c = fire_palette(d.fire_color);
    let new_particle = Particle::new(Material::Fire).with_color(c.0, c.1, c.2);
    proof {
        crate::particle::lemma_particle_new_wf(Material::Fire);
        crate::particle::lemma_with_color_wf(
            spec_particle_new(Material::Fire),
            c.0,
            c.1,
            c.2,
        );
    }
    if d.fire_rise < upward_bias && y > 0 {
        let dx: isize = if d.fire_diag < 3 {
            if d.fire_diag_coin {
                1
            } else {
                -1
            }
        } else {
            0
        };
        let target = x as isize + dx;
        if target > 0 && target < GRID_WIDTH as isize {
            new_grid.set_particle(target as usize, y - 1, new_particle);
            return true;
        }
    }
    if d.fire_spread < 3 {
        spread_one(new_grid, old_grid, x as isize, y as isize - 1, 5, d.spread_up, new_particle);
        spread_one(
            new_grid,
            old_grid,
            x as isize - 1,
            y as isize - 1,
            4,
            d.spread_up_left,
            new_particle,
        );
        spread_one(
            new_grid,
            old_grid,
            x as isize + 1,
            y as isize - 1,
            4,
            d.spread_up_right,
            new_particle,
        );
        spread_one(new_grid, old_grid, x as isize - 1, y as isize, 2, d.spread_left, new_particle);
        spread_one(new_grid, old_grid, x as isize + 1, y as isize, 2, d.spread_right, new_particle);
    }
    new_grid.set_particle(x, y, new_particle);
    true
}

/// The per-material update rule, dispatched over the closed material
/// enumeration.
pub trait MaterialBehavior {
    /// Runs one cell update against the prior grid, writing into the
    /// next grid; the dispatch itself reads the prior cell's material.
    fn update(&self, x: usize, y: usize, new_grid: &mut Grid, old_grid: &Grid, d: &CellDraws)
        requires
            old(new_grid).wf(),
            old_grid.wf(),
            x < GRID_WIDTH,
            y < GRID_HEIGHT,
        ensures
            final(new_grid).wf(),
            final(new_grid)@ == spec_update(old_grid@, old(new_grid)@, x as int, y as int, *d),
    ;
}

impl MaterialBehavior for Material {
    fn update(&self, x: usize, y: usize, new_grid: &mut Grid, old_grid: &Grid, d: &CellDraws) {
        update(x, y, new_grid, old_grid, d)
    }
}

/// One full cell update: skip when another cell already wrote this
/// position in the current tick (first-writer-wins), then dispatch on the
/// prior material: fire combustion, smoke dissipation, the immobile
/// re-stamp, density displacement, rise or fall, and flow.
pub fn update(x: usize, y: usize, new_grid: &mut Grid, old_grid: &Grid, d: &CellDraws)
    requires
        old(new_grid).wf(),
        old_grid.wf(),
        x < GRID_WIDTH,
        y < GRID_HEIGHT,
    ensures
        final(new_grid).wf(),
        final(new_grid)@ == spec_update(old_grid@, old(new_grid)@, x as int, y as int, *d),
{
    let particle = old_grid.get(x, y);
    let mat = particle.material_type;
    if new_grid.get(x, y).material_type != mat {
        return ;
    }
    if mat == 5 {
        if handle_fire(x, y, new_grid, old_grid, d) {
            return ;
        }
    }
    if mat == 4 && d.smoke_fade < 1 {
        new_grid.set(x, y, Material::Empty);
        return ;
    }
    proof {
        assert(old_grid@.ps[cell_index(x as int, y as int)].wf());
        lemma_flags_meaning(particle);
    }
    if particle.flags & 1 == 0 {
        new_grid.set(x, y, Material::from_id(mat));
        return ;
    }
    if try_move_density_based(x, y, new_grid, old_grid, d.swap_coin) {
        return ;
    }
    let moved = if particle.flags & 4 != 0 {
        rise(x, y, new_grid, old_grid, d.rise_coin)
    } else {
        fall(x, y, new_grid, old_grid, d.slide_coin)
    };
    if moved {
        return ;
    }
    if particle.flags & 2 != 0 {
        flow(x, y, new_grid, old_grid, d);
        return ;
    }
    new_grid.set(x, y, Material::from_id(mat));
}

} // verus!
