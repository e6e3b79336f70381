//! The mathematical model of a grid: a sequence of particles and a
//! sequence of velocities, both of length `GRID_WIDTH * GRID_HEIGHT`,
//! indexed row-major, together with the primitive operations the
//! simulation performs on it and a per-material cell count.

use vstd::prelude::*;
use crate::config::{GRID_HEIGHT, GRID_WIDTH};
use crate::material::Material;
use crate::particle::{spec_particle_new, Particle};

verus! {

/// Velocities are stored in tenths of a cell per tick; every stored value
/// stays within this bound.
pub const VEL_LIMIT: i32 = 100;

/// The model of a grid: particle payloads and vertical velocities
/// (in tenths, positive downward), row-major.
pub ghost struct SimState {
    pub ps: Seq<Particle>,
    pub vs: Seq<int>,
}

/// Total number of cells.
pub open spec fn cell_total() -> int {
    GRID_WIDTH * GRID_HEIGHT
}

/// Row-major index of `(x, y)`.
pub open spec fn cell_index(x: int, y: int) -> int {
    y * GRID_WIDTH + x
}

/// Whether `(x, y)` lies on the grid.
pub open spec fn in_grid(x: int, y: int) -> bool {
    0 <= x < GRID_WIDTH && 0 <= y < GRID_HEIGHT
}

/// Row-major indices of distinct in-bounds cells are in range and distinct.
pub proof fn lemma_cell_index(x1: int, y1: int, x2: int, y2: int)
    requires
        in_grid(x1, y1),
        in_grid(x2, y2),
    ensures
        0 <= cell_index(x1, y1) < cell_total(),
        (x1, y1) != (x2, y2) ==> cell_index(x1, y1) != cell_index(x2, y2),
{
    assert(0 <= y1 * GRID_WIDTH + x1 < GRID_WIDTH * GRID_HEIGHT) by (nonlinear_arith)
        requires
            0 <= x1 < GRID_WIDTH && 0 <= y1 < GRID_HEIGHT,
    ;
    assert((x1 != x2 || y1 != y2) ==> y1 * GRID_WIDTH + x1 != y2 * GRID_WIDTH + x2)
        by (nonlinear_arith)
        requires
            0 <= x1 < GRID_WIDTH && 0 <= x2 < GRID_WIDTH,
    ;
}

impl SimState {
    /// Both sequences cover every cell, every particle is consistent with
    /// the property table, and every velocity is within `VEL_LIMIT`.
    pub open spec fn wf(self) -> bool {
        &&& self.ps.len() == cell_total()
        &&& self.vs.len() == cell_total()
        &&& forall|i: int| 0 <= i < self.ps.len() ==> (#[trigger] self.ps[i]).wf()
        &&& forall|i: int|
            0 <= i < self.vs.len() ==> -(VEL_LIMIT as int) <= #[trigger] self.vs[i]
                <= VEL_LIMIT as int
    }

    /// The material identifier stored at `(x, y)`.
    pub open spec fn mat_at(self, x: int, y: int) -> u8 {
        self.ps[cell_index(x, y)].material_type
    }

    /// Whether the cell `(x, y)` holds no particle.
    pub open spec fn empty_at(self, x: int, y: int) -> bool {
        self.mat_at(x, y) == 0
    }

    /// The velocity stored at `(x, y)`.
    pub open spec fn vel_at(self, x: int, y: int) -> int {
        self.vs[cell_index(x, y)]
    }

    /// Every cell is empty.
    pub open spec fn all_empty(self) -> bool {
        forall|i: int| 0 <= i < self.ps.len() ==> (#[trigger] self.ps[i]).material_type == 0
    }

    /// No cell holds Fire.
    pub open spec fn no_fire(self) -> bool {
        forall|i: int| 0 <= i < self.ps.len() ==> (#[trigger] self.ps[i]).material_type != 5
    }
}

/// The state after stamping a fresh particle of material `m` at `(x, y)`.
pub open spec fn st_set(st: SimState, x: int, y: int, m: Material) -> SimState {
    SimState { ps: st.ps.update(cell_index(x, y), spec_particle_new(m)), vs: st.vs }
}

/// The state after writing the custom particle `p` at `(x, y)`.
pub open spec fn st_set_particle(st: SimState, x: int, y: int, p: Particle) -> SimState {
    SimState { ps: st.ps.update(cell_index(x, y), p), vs: st.vs }
}

/// The state after writing velocity `v` at `(x, y)`.
pub open spec fn st_set_vel(st: SimState, x: int, y: int, v: int) -> SimState {
    SimState { ps: st.ps, vs: st.vs.update(cell_index(x, y), v) }
}

/// The state after exchanging the particles of two cells (velocities stay).
pub open spec fn st_swap(st: SimState, x1: int, y1: int, x2: int, y2: int) -> SimState {
    let i1 = cell_index(x1, y1);
    let i2 = cell_index(x2, y2);
    SimState { ps: st.ps.update(i1, st.ps[i2]).update(i2, st.ps[i1]), vs: st.vs }
}

/// The state after moving the particle of `(x1, y1)` to `(x2, y2)` if the
/// destination is empty; otherwise the state is unchanged.
pub open spec fn st_move_to(st: SimState, x1: int, y1: int, x2: int, y2: int) -> SimState {
    if st.empty_at(x2, y2) {
        st_swap(st, x1, y1, x2, y2)
    } else {
        st
    }
}

/// The state after moving the particle of `(x1, y1)` to `(x2, y2)` if the
/// destination is empty, carrying the source velocity along and zeroing
/// the source cell and its velocity; otherwise the state is unchanged.
pub open spec fn st_move_to_vel(st: SimState, x1: int, y1: int, x2: int, y2: int) -> SimState {
    if st.empty_at(x2, y2) {
        let m = Material::spec_from_id(st.mat_at(x1, y1));
        let st1 = st_set(st, x2, y2, m);
        let st2 = st_set(st1, x1, y1, Material::Empty);
        let st3 = st_set_vel(st2, x2, y2, st.vel_at(x1, y1));
        st_set_vel(st3, x1, y1, 0)
    } else {
        st
    }
}

/// How many cells of `ps` hold material `m`.
pub open spec fn mat_count(ps: Seq<Particle>, m: u8) -> int
    decreases ps.len(),
{
    if ps.len() == 0 {
        0
    } else {
        mat_count(ps.drop_last(), m) + if ps.last().material_type == m {
            1int
        } else {
            0int
        }
    }
}

/// Updating one cell changes each material count by exactly the departure
/// of the old particle and the arrival of the new one.
pub proof fn lemma_mat_count_update(ps: Seq<Particle>, i: int, p: Particle, m: u8)
    requires
        0 <= i < ps.len(),
    ensures
        mat_count(ps.update(i, p), m) == mat_count(ps, m) - (if ps[i].material_type == m {
            1int
        } else {
            0int
        }) + (if p.material_type == m {
            1int
        } else {
            0int
        }),
    decreases ps.len(),
{
    if i == ps.len() - 1 {
        assert(ps.update(i, p).drop_last() =~= ps.drop_last());
    } else {
        assert(ps.update(i, p).drop_last() =~= ps.drop_last().update(i, p));
        lemma_mat_count_update(ps.drop_last(), i, p, m);
    }
}

/// Exchanging two cells leaves every material count unchanged.
pub proof fn lemma_mat_count_swap(st: SimState, x1: int, y1: int, x2: int, y2: int, m: u8)
    requires
        in_grid(x1, y1),
        in_grid(x2, y2),
        st.ps.len() == cell_total(),
    ensures
        mat_count(st_swap(st, x1, y1, x2, y2).ps, m) == mat_count(st.ps, m),
{
    lemma_cell_index(x1, y1, x2, y2);
    let i1 = cell_index(x1, y1);
    let i2 = cell_index(x2, y2);
    lemma_mat_count_update(st.ps, i1, st.ps[i2], m);
    lemma_mat_count_update(st.ps.update(i1, st.ps[i2]), i2, st.ps[i1], m);
}

} // verus!
