//! The compute half of the drawing collaborator: stamping a disc of
//! material onto the grid, and the line-drawing routine that connects
//! successive brush centers during a fast stroke. Pointer handling and
//! coordinate mapping stay outside the library.

use vstd::prelude::*;
use crate::config::{GRID_HEIGHT, GRID_WIDTH};
use crate::grid::Grid;
use crate::material::Material;
use crate::particle::spec_particle_new;
use crate::state::{cell_index, in_grid, lemma_cell_index, SimState};

verus! {

/// The brush radius in cells for a given brush size.
pub open spec fn brush_half(brush_size: int) -> int {
    brush_size / 2
}

/// Whether the offset `(a, b)` lies in the brush disc of radius `half`.
pub open spec fn in_disc(a: int, b: int, half: int) -> bool {
    -half <= a <= half && -half <= b <= half && a * a + b * b <= half * half
}

/// Whether the disc cell at offset `(a, b)` sits on top of an occupied
/// cell, which makes the stamp seed a freefall-start velocity.
pub open spec fn brush_seed_cell(st: SimState, x: int, y: int, half: int, a: int, b: int) -> bool {
    &&& in_disc(a, b, half)
    &&& in_grid(x + a, y + b)
    &&& y + b < GRID_HEIGHT - 1
    &&& !st.empty_at(x + a, y + b + 1)
}

/// Whether a brush stamp at `(x, y)` seeds velocity: some disc cell has
/// a particle directly below it.
pub open spec fn brush_seeds(st: SimState, x: int, y: int, half: int) -> bool {
    exists|a: int, b: int| #[trigger] brush_seed_cell(st, x, y, half, a, b)
}

/// The particle and velocity a stamped cell receives.
pub open spec fn brush_written(
    st: SimState,
    post: SimState,
    x: int,
    y: int,
    m: Material,
    half: int,
    cx: int,
    cy: int,
) -> bool {
    if in_disc(cx - x, cy - y, half) && st.empty_at(cx, cy) {
        &&& post.ps[cell_index(cx, cy)] == spec_particle_new(m)
        &&& post.vel_at(cx, cy) == (if brush_seeds(st, x, y, half) {
            10int
        } else {
            0int
        })
    } else {
        &&& post.ps[cell_index(cx, cy)] == st.ps[cell_index(cx, cy)]
        &&& post.vel_at(cx, cy) == st.vel_at(cx, cy)
    }
}

/// Stamps a disc of the chosen material centered at `(x, y)`: every
/// in-bounds disc cell that is currently empty receives a fresh particle
/// of the material; occupied cells and cells outside the disc are left
/// alone. When the stamp lands on top of existing particles (any disc
/// cell has an occupied cell directly below), every stamped cell is
/// seeded with the freefall-start velocity, otherwise with zero.
pub fn place_material_with_brush(
    grid: &mut Grid,
    x: usize,
    y: usize,
    material: Material,
    brush_size: usize,
)
    requires
        old(grid).wf(),
        x < GRID_WIDTH,
        y < GRID_HEIGHT,
        brush_size <= 30,
    ensures
        final(grid).wf(),
        forall|cx: int, cy: int|
            in_grid(cx, cy) ==> #[trigger] brush_written(
                old(grid)@,
                final(grid)@,
                x as int,
                y as int,
                material,
                brush_half(brush_size as int),
                cx,
                cy,
            ),
{
    let ghost pr = grid@;
    let half: isize = (brush_size as isize) / 2;
    let ghost h = half as int;

    // First pass: decide whether the stamp lands on top of existing
    // particles.
    let mut seed = false;
    let mut a: isize = -half;
    while a <= half
        invariant
            grid.wf(),
            grid@ == pr,
            x < GRID_WIDTH,
            y < GRID_HEIGHT,
            h == half as int,
            0 <= h <= 15,
            -h <= a as int <= h + 1,
            seed <==> exists|ai: int, bi: int|
                ai < a as int && #[trigger] brush_seed_cell(pr, x as int, y as int, h, ai, bi),
        decreases half - a + 1,
    {
        let mut b: isize = -half;
        while b <= half
            invariant
                grid.wf(),
                grid@ == pr,
                x < GRID_WIDTH,
                y < GRID_HEIGHT,
                h == half as int,
                0 <= h <= 15,
                -h <= a as int <= h,
                -h <= b as int <= h + 1,
                seed <==> exists|ai: int, bi: int|
                    (ai < a as int || (ai == a as int && bi < b as int))
                        && #[trigger] brush_seed_cell(pr, x as int, y as int, h, ai, bi),
            decreases half - b + 1,
        {
            proof {
                assert(0 <= (a as int) * (a as int) <= 225) by (nonlinear_arith)
                    requires
                        -15 <= a as int <= 15,
                ;
                assert(0 <= (b as int) * (b as int) <= 225) by (nonlinear_arith)
                    requires
                        -15 <= b as int <= 15,
                ;
                assert(0 <= (half as int) * (half as int) <= 225) by (nonlinear_arith)
                    requires
                        0 <= half as int <= 15,
                ;
            }
            if a * a + b * b <= half * half {
                let nx = x as isize + a;
                let ny = y as isize + b;
                if grid.in_bounds(nx, ny) {
                    let uy = ny as usize;
                    if uy < GRID_HEIGHT - 1 && grid.get(nx as usize, uy + 1).material_type != 0 {
                        seed = true;
                        proof {
                            assert(brush_seed_cell(pr, x as int, y as int, h, a as int, b as int));
                        }
                    }
                }
            }
            proof {
                if !seed {
                    assert(!brush_seed_cell(pr, x as int, y as int, h, a as int, b as int));
                }
            }
            b = b + 1;
        }
        a = a + 1;
    }
    proof {
        if seed {
            assert(brush_seeds(pr, x as int, y as int, h));
        } else {
            assert(!brush_seeds(pr, x as int, y as int, h)) by {
                if brush_seeds(pr, x as int, y as int, h) {
                    let (ai, bi) = choose|ai: int, bi: int|
                        #[trigger] brush_seed_cell(pr, x as int, y as int, h, ai, bi);
                    assert(ai <= h && ai < a as int);
                }
            }
        }
    }
    let vel: i32 = if seed {
        10
    } else {
        0
    };

    // Second pass: place the particles with the decided velocity.
    let mut a: isize = -half;
    while a <= half
        invariant
            grid.wf(),
            x < GRID_WIDTH,
            y < GRID_HEIGHT,
            h == half as int,
            0 <= h <= 15,
            -h <= a as int <= h + 1,
            vel as int == (if brush_seeds(pr, x as int, y as int, h) {
                10int
            } else {
                0int
            }),
            pr.ps.len() == grid@.ps.len(),
            pr.vs.len() == grid@.vs.len(),
            forall|cx: int, cy: int|
                in_grid(cx, cy) ==> #[trigger] brush_step(
                    pr,
                    grid@,
                    x as int,
                    y as int,
                    material,
                    h,
                    cx,
                    cy,
                    a as int,
                    -h - 1,
                ),
        decreases half - a + 1,
    {
        proof {
            assert forall|cx: int, cy: int| in_grid(cx, cy) implies #[trigger] brush_step(
                pr,
                grid@,
                x as int,
                y as int,
                material,
                h,
                cx,
                cy,
                a as int,
                -h,
            ) by {
                assert(brush_step(
                    pr,
                    grid@,
                    x as int,
                    y as int,
                    material,
                    h,
                    cx,
                    cy,
                    a as int,
                    -h - 1,
                ));
            }
        }
        let mut b: isize = -half;
        while b <= half
            invariant
                grid.wf(),
                x < GRID_WIDTH,
                y < GRID_HEIGHT,
                h == half as int,
                0 <= h <= 15,
                -h <= a as int <= h,
                -h <= b as int <= h + 1,
                vel as int == (if brush_seeds(pr, x as int, y as int, h) {
                    10int
                } else {
                    0int
                }),
                pr.ps.len() == grid@.ps.len(),
                pr.vs.len() == grid@.vs.len(),
                forall|cx: int, cy: int|
                    in_grid(cx, cy) ==> #[trigger] brush_step(
                        pr,
                        grid@,
                        x as int,
                        y as int,
                        material,
                        h,
                        cx,
                        cy,
                        a as int,
                        b as int,
                    ),
            decreases half - b + 1,
        {
            let ghost before = grid@;
            proof {
                assert(0 <= (a as int) * (a as int) <= 225) by (nonlinear_arith)
                    requires
                        -15 <= a as int <= 15,
                ;
                assert(0 <= (b as int) * (b as int) <= 225) by (nonlinear_arith)
                    requires
                        -15 <= b as int <= 15,
                ;
                assert(0 <= (half as int) * (half as int) <= 225) by (nonlinear_arith)
                    requires
                        0 <= half as int <= 15,
                ;
            }
            if a * a + b * b <= half * half {
                let nx = x as isize + a;
                let ny = y as isize + b;
                if grid.in_bounds(nx, ny) {
                    let ux = nx as usize;
                    let uy = ny as usize;
                    if grid.get(ux, uy).material_type == 0 {
                        grid.set(ux, uy, material);
                        grid.set_velocity(ux, uy, vel);
                    }
                }
            }
            proof {
                assert forall|cx: int, cy: int| in_grid(cx, cy) implies #[trigger] brush_step(
                    pr,
                    grid@,
                    x as int,
                    y as int,
                    material,
                    h,
                    cx,
                    cy,
                    a as int,
                    b as int + 1,
                ) by {
                    assert(brush_step(
                        pr,
                        before,
                        x as int,
                        y as int,
                        material,
                        h,
                        cx,
                        cy,
                        a as int,
                        b as int,
                    ));
                    if in_grid(x as int + a as int, y as int + b as int) && (cx, cy) != (
                        x as int + a as int,
                        y as int + b as int,
                    ) {
                        lemma_cell_index(cx, cy, x as int + a as int, y as int + b as int);
                    }
                }
            }
            b = b + 1;
        }
        proof {
            assert forall|cx: int, cy: int| in_grid(cx, cy) implies #[trigger] brush_step(
                pr,
                grid@,
                x as int,
                y as int,
                material,
                h,
                cx,
                cy,
                a as int + 1,
                -h - 1,
            ) by {
                assert(brush_step(
                    pr,
                    grid@,
                    x as int,
                    y as int,
                    material,
                    h,
                    cx,
                    cy,
                    a as int,
                    b as int,
                ));
            }
        }
        a = a + 1;
    }
    proof {
        assert forall|cx: int, cy: int| in_grid(cx, cy) implies #[trigger] brush_written(
            pr,
            grid@,
            x as int,
            y as int,
            material,
            h,
            cx,
            cy,
        ) by {
            assert(brush_step(
                pr,
                grid@,
                x as int,
                y as int,
                material,
                h,
                cx,
                cy,
                (h + 1) as int,
                -h - 1,
            ));
        }
    }
}

/// The compute half of the scroll-wheel input: one step of brush-size
/// adjustment, clamped to the supported range of 1 to 30 cells.
pub fn adjust_brush_size(size: u8, scroll_up: bool) -> (r: u8)
    ensures
        scroll_up ==> r as int == (if size as int + 1 < 30 {
            size as int + 1
        } else {
            30int
        }),
        !scroll_up ==> r as int == (if size as int > 1 {
            size as int - 1
        } else {
            1int
        }),
        1 <= r,
        size <= 30 ==> r <= 30,
{
    if scroll_up {
        if size < 29 {
            size + 1
        } else {
            30
        }
    } else {
        if size > 1 {
            size - 1
        } else {
            1
        }
    }
}

/// Seeds one test particle of each movable material and a concrete
/// block, for a quick visual smoke check of the simulation.
pub fn spawn_test_materials(grid: &mut Grid)
    requires
        old(grid).wf(),
    ensures
        final(grid).wf(),
        final(grid)@ == crate::state::st_set(
            crate::state::st_set(
                crate::state::st_set(
                    crate::state::st_set(old(grid)@, 50, 10, Material::Sand),
                    40,
                    20,
                    Material::Water,
                ),
                60,
                30,
                Material::Concrete,
            ),
            50,
            40,
            Material::Smoke,
        ),
{
    grid.set(50, 10, Material::Sand);
    grid.set(40, 20, Material::Water);
    grid.set(60, 30, Material::Concrete);
    grid.set(50, 40, Material::Smoke);
}

/// The cells a line-drawing walk visits from `(x, y)` toward `(x1, y1)`:
/// the walk stops on reaching the target or leaving the grid. The walk
/// only makes sense for direction steps of one cell and non-negative
/// deltas; on other arguments it yields nothing.
pub open spec fn bres_points(
    x: int,
    y: int,
    x1: int,
    y1: int,
    dx: int,
    dy: int,
    sx: int,
    sy: int,
    err: int,
) -> Seq<(usize, usize)>
    decreases (if sx == 1 {
        GRID_WIDTH - x
    } else {
        x + 1
    }) + (if sy == 1 {
        GRID_HEIGHT - y
    } else {
        y + 1
    }),
{
    if (x == x1 && y == y1) || x < 0 || y < 0 || x >= GRID_WIDTH || y >= GRID_HEIGHT || !(sx == 1
        || sx == -1) || !(sy == 1 || sy == -1) || (2 * err <= -dy && 2 * err >= dx) {
        Seq::empty()
    } else {
        let e2 = 2 * err;
        let nerr = err - (if e2 > -dy {
            dy
        } else {
            0int
        }) + (if e2 < dx {
            dx
        } else {
            0int
        });
        let nx = if e2 > -dy {
            x + sx
        } else {
            x
        };
        let ny = if e2 < dx {
            y + sy
        } else {
            y
        };
        seq![((x as usize), (y as usize))] + bres_points(nx, ny, x1, y1, dx, dy, sx, sy, nerr)
    }
}

/// The full line from `(x0, y0)` toward `(x1, y1)`, as the walk starts
/// it: absolute deltas, unit direction steps, and the standard initial
/// error term.
pub open spec fn bres_line(x0: int, y0: int, x1: int, y1: int) -> Seq<(usize, usize)> {
    let dx = if x1 >= x0 {
        x1 - x0
    } else {
        x0 - x1
    };
    let dy = if y1 >= y0 {
        y1 - y0
    } else {
        y0 - y1
    };
    let sx: int = if x0 < x1 {
        1
    } else {
        -1
    };
    let sy: int = if y0 < y1 {
        1
    } else {
        -1
    };
    bres_points(x0, y0, x1, y1, dx, dy, sx, sy, dx - dy)
}

/// The cells on the line from `(x0, y0)` toward `(x1, y1)`, excluding
/// the target itself: used to close the gaps of a fast brush stroke.
pub fn bresenham_line(x0: usize, y0: usize, x1: usize, y1: usize) -> (pts: Vec<(usize, usize)>)
    requires
        x0 < GRID_WIDTH,
        y0 < GRID_HEIGHT,
        x1 < GRID_WIDTH,
        y1 < GRID_HEIGHT,
    ensures
        pts@ == bres_line(x0 as int, y0 as int, x1 as int, y1 as int),
{
    let dx: isize = if x1 >= x0 {
        (x1 - x0) as isize
    } else {
        (x0 - x1) as isize
    };
    let dy: isize = if y1 >= y0 {
        (y1 - y0) as isize
    } else {
        (y0 - y1) as isize
    };
    let sx: isize = if x0 < x1 {
        1
    } else {
        -1
    };
    let sy: isize = if y0 < y1 {
        1
    } else {
        -1
    };
    let mut err: isize = dx - dy;
    let mut x: isize = x0 as isize;
    let mut y: isize = y0 as isize;
    let x1i: isize = x1 as isize;
    let y1i: isize = y1 as isize;
    let mut pts: Vec<(usize, usize)> = Vec::new();
    while !((x == x1i && y == y1i) || x < 0 || y < 0 || x >= GRID_WIDTH as isize || y
        >= GRID_HEIGHT as isize)
        invariant
            dx as int == (if x1 >= x0 {
                x1 - x0
            } else {
                x0 - x1
            }),
            dy as int == (if y1 >= y0 {
                y1 - y0
            } else {
                y0 - y1
            }),
            0 <= dx as int <= GRID_WIDTH,
            0 <= dy as int <= GRID_HEIGHT,
            sx as int == (if x0 < x1 {
                1int
            } else {
                -1int
            }),
            sy as int == (if y0 < y1 {
                1int
            } else {
                -1int
            }),
            x1i == x1 as int,
            y1i == y1 as int,
            x1 < GRID_WIDTH,
            y1 < GRID_HEIGHT,
            -1 <= x as int <= GRID_WIDTH,
            -1 <= y as int <= GRID_HEIGHT,
            -750 <= err as int <= 750,
            dx == 0 && dy == 0 ==> x as int == x0 as int && y as int == y0 as int,
            bres_line(x0 as int, y0 as int, x1 as int, y1 as int) == pts@ + bres_points(
                x as int,
                y as int,
                x1 as int,
                y1 as int,
                dx as int,
                dy as int,
                sx as int,
                sy as int,
                err as int,
            ),
        decreases (if sx == 1 {
            GRID_WIDTH - x as int
        } else {
            x as int + 1
        }) + (if sy == 1 {
            GRID_HEIGHT - y as int
        } else {
            y as int + 1
        }),
    {
        let ghost pre = bres_points(
            x as int,
            y as int,
            x1 as int,
            y1 as int,
            dx as int,
            dy as int,
            sx as int,
            sy as int,
            err as int,
        );
        proof {
            if 2 * (err as int) <= -(dy as int) && 2 * (err as int) >= dx as int {
                assert(dx == 0 && dy == 0);
                assert(false);
            }
        }
        let cur = (x as usize, y as usize);
        pts.push(cur);
        let e2: isize = 2 * err;
        if e2 > -dy {
            err = err - dy;
            x = x + sx;
        }
        if e2 < dx {
            err = err + dx;
            y = y + sy;
        }
        proof {
            let post = bres_points(
                x as int,
                y as int,
                x1 as int,
                y1 as int,
                dx as int,
                dy as int,
                sx as int,
                sy as int,
                err as int,
            );
            assert(pre == seq![cur] + post);
            assert(pts@ + post =~= pts@.drop_last() + (seq![cur] + post));
        }
    }
    proof {
        assert(bres_points(
            x as int,
            y as int,
            x1 as int,
            y1 as int,
            dx as int,
            dy as int,
            sx as int,
            sy as int,
            err as int,
        ) =~= Seq::<(usize, usize)>::empty());
        assert(pts@ + Seq::<(usize, usize)>::empty() =~= pts@);
    }
    pts
}

/// The mid-stamp description of one cell: cells whose offset has already
/// been visited (lexicographically before `(a, b)`) are written, the rest
/// still hold their prior contents.
pub open spec fn brush_step(
    st: SimState,
    cur: SimState,
    x: int,
    y: int,
    m: Material,
    half: int,
    cx: int,
    cy: int,
    a: int,
    b: int,
) -> bool {
    let oa = cx - x;
    let ob = cy - y;
    if in_disc(oa, ob, half) && st.empty_at(cx, cy) && (oa < a || (oa == a && ob < b)) {
        &&& cur.ps[cell_index(cx, cy)] == spec_particle_new(m)
        &&& cur.vel_at(cx, cy) == (if brush_seeds(st, x, y, half) {
            10int
        } else {
            0int
        })
    } else {
        &&& cur.ps[cell_index(cx, cy)] == st.ps[cell_index(cx, cy)]
        &&& cur.vel_at(cx, cy) == st.vel_at(cx, cy)
    }
}

} // verus!
