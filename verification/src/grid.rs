//! The simulation grid: a flat particle array and a parallel velocity
//! array, with bounds-checked primitive read/write/swap/move operations.
//!
//! All unchecked accessors take in-bounds coordinates as preconditions;
//! `in_bounds` is the guard for signed coordinates.

use vstd::prelude::*;
use crate::config::{GRID_HEIGHT, GRID_WIDTH};
use crate::material::Material;
use crate::particle::Particle;
use crate::state::{
    cell_index, cell_total, in_grid, st_move_to, st_move_to_vel, st_set, st_set_particle,
    st_set_vel, st_swap, SimState, VEL_LIMIT,
};

verus! {

/// The simulation grid, storing particles and velocities in flat
/// row-major vectors.
pub struct Grid {
    particles: Vec<Particle>,
    velocities: Vec<i32>,
}

impl View for Grid {
    type V = SimState;

    closed spec fn view(&self) -> SimState {
        SimState { ps: self.particles@, vs: self.velocities@.map_values(|v: i32| v as int) }
    }
}

impl Grid {
    /// The grid model is well-formed (see `SimState::wf`).
    pub open spec fn wf(&self) -> bool {
        self@.wf()
    }

    /// A new grid, fully populated with empty cells and zero velocities.
    pub fn new() -> (g: Grid)
        ensures
            g.wf(),
            g@.ps.len() == cell_total(),
            g@.ps =~= Seq::new(cell_total() as nat, |i: int| crate::particle::spec_particle_new(Material::Empty)),
            g@.vs =~= Seq::new(cell_total() as nat, |i: int| 0int),
            g@.all_empty(),
    {
        let n = GRID_WIDTH * GRID_HEIGHT;
        let mut particles: Vec<Particle> = Vec::new();
        let mut velocities: Vec<i32> = Vec::new();
        let mut i: usize = 0;
        while i < n
            invariant
                i <= n,
                n == cell_total(),
                particles@.len() == i,
                velocities@.len() == i,
                forall|j: int|
                    0 <= j < i ==> particles@[j] == crate::particle::spec_particle_new(
                        Material::Empty,
                    ),
                forall|j: int| 0 <= j < i ==> velocities@[j] == 0i32,
            decreases n - i,
        {
            particles.push(Particle::new(Material::Empty));
            velocities.push(0);
            i = i + 1;
        }
        let g = Grid { particles, velocities };
        proof {
            crate::particle::lemma_particle_new_wf(Material::Empty);
            assert(g@.ps =~= Seq::new(
                cell_total() as nat,
                |i: int| crate::particle::spec_particle_new(Material::Empty),
            ));
            assert(g@.vs =~= Seq::new(cell_total() as nat, |i: int| 0int));
        }
        g
    }

    /// An independent copy of this grid, cell for cell.
    pub fn duplicate(&self) -> (g: Grid)
        requires
            self.wf(),
        ensures
            g@ == self@,
            g.wf(),
    {
        let n = GRID_WIDTH * GRID_HEIGHT;
        let mut particles: Vec<Particle> = Vec::new();
        let mut velocities: Vec<i32> = Vec::new();
        let mut i: usize = 0;
        while i < n
            invariant
                i <= n,
                n == cell_total(),
                self.wf(),
                particles@.len() == i,
                velocities@.len() == i,
                forall|j: int| 0 <= j < i ==> particles@[j] == self@.ps[j],
                forall|j: int| 0 <= j < i ==> (#[trigger] velocities@[j]) as int == self@.vs[j],
            decreases n - i,
        {
            particles.push(self.particles[i]);
            velocities.push(self.velocities[i]);
            i = i + 1;
        }
        let g = Grid { particles, velocities };
        proof {
            assert(g@.ps =~= self@.ps);
            assert(g@.vs =~= self@.vs);
        }
        g
    }

    /// The particle at `(x, y)`.
    pub fn get(&self, x: usize, y: usize) -> (p: Particle)
        requires
            self.wf(),
            x < GRID_WIDTH,
            y < GRID_HEIGHT,
        ensures
            p == self@.ps[cell_index(x as int, y as int)],
    {
        self.particles[y * GRID_WIDTH + x]
    }

    /// Stamps a fresh particle of `material` at `(x, y)`.
    pub fn set(&mut self, x: usize, y: usize, material: Material)
        requires
            old(self).wf(),
            x < GRID_WIDTH,
            y < GRID_HEIGHT,
        ensures
            final(self).wf(),
            final(self)@ == st_set(old(self)@, x as int, y as int, material),
    {
        self.particles[y * GRID_WIDTH + x] = Particle::new(material);
        proof {
            assert(final(self)@.vs =~= st_set(old(self)@, x as int, y as int, material).vs);
        }
    }

    /// Writes a fully custom (well-formed) particle at `(x, y)`.
    pub fn set_particle(&mut self, x: usize, y: usize, particle: Particle)
        requires
            old(self).wf(),
            x < GRID_WIDTH,
            y < GRID_HEIGHT,
            particle.wf(),
        ensures
            final(self).wf(),
            final(self)@ == st_set_particle(old(self)@, x as int, y as int, particle),
    {
        self.particles[y * GRID_WIDTH + x] = particle;
        proof {
            assert(final(self)@.vs =~= st_set_particle(
                old(self)@,
                x as int,
                y as int,
                particle,
            ).vs);
        }
    }

    /// Whether the signed coordinates `(x, y)` lie within the grid bounds.
    pub fn in_bounds(&self, x: isize, y: isize) -> (r: bool)
        ensures
            r == in_grid(x as int, y as int),
    {
        x >= 0 && x < GRID_WIDTH as isize && y >= 0 && y < GRID_HEIGHT as isize
    }

    /// Exchanges the particles of two cells (velocities stay in place).
    pub fn swap(&mut self, x1: usize, y1: usize, x2: usize, y2: usize)
        requires
            old(self).wf(),
            x1 < GRID_WIDTH,
            y1 < GRID_HEIGHT,
            x2 < GRID_WIDTH,
            y2 < GRID_HEIGHT,
        ensures
            final(self).wf(),
            final(self)@ == st_swap(old(self)@, x1 as int, y1 as int, x2 as int, y2 as int),
    {
        let i1 = y1 * GRID_WIDTH + x1;
        let i2 = y2 * GRID_WIDTH + x2;
        let a = self.particles[i1];
        let b = self.particles[i2];
        self.particles[i1] = b;
        self.particles[i2] = a;
        proof {
            assert(final(self)@.vs =~= st_swap(
                old(self)@,
                x1 as int,
                y1 as int,
                x2 as int,
                y2 as int,
            ).vs);
        }
    }

    /// Moves the particle of `(x1, y1)` to `(x2, y2)` if the destination is
    /// empty; otherwise does nothing.
    pub fn move_to(&mut self, x1: usize, y1: usize, x2: usize, y2: usize)
        requires
            old(self).wf(),
            x1 < GRID_WIDTH,
            y1 < GRID_HEIGHT,
            x2 < GRID_WIDTH,
            y2 < GRID_HEIGHT,
        ensures
            final(self).wf(),
            final(self)@ == st_move_to(old(self)@, x1 as int, y1 as int, x2 as int, y2 as int),
    {
        if self.get(x2, y2).material_type == Material::Empty.id() {
            self.swap(x1, y1, x2, y2);
        }
    }

    /// The velocity stored at `(x, y)`, in tenths.
    pub fn get_velocity(&self, x: usize, y: usize) -> (v: i32)
        requires
            self.wf(),
            x < GRID_WIDTH,
            y < GRID_HEIGHT,
        ensures
            v as int == self@.vs[cell_index(x as int, y as int)],
            -VEL_LIMIT <= v <= VEL_LIMIT,
    {
        self.velocities[y * GRID_WIDTH + x]
    }

    /// Writes the velocity at `(x, y)`, in tenths.
    pub fn set_velocity(&mut self, x: usize, y: usize, velocity: i32)
        requires
            old(self).wf(),
            x < GRID_WIDTH,
            y < GRID_HEIGHT,
            -VEL_LIMIT <= velocity <= VEL_LIMIT,
        ensures
            final(self).wf(),
            final(self)@ == st_set_vel(old(self)@, x as int, y as int, velocity as int),
    {
        self.velocities[y * GRID_WIDTH + x] = velocity;
        proof {
            assert(final(self)@.vs =~= st_set_vel(
                old(self)@,
                x as int,
                y as int,
                velocity as int,
            ).vs);
        }
    }

    /// Moves the particle of `(x1, y1)` to `(x2, y2)` if the destination is
    /// empty, carrying the velocity along and zeroing the source velocity;
    /// otherwise does nothing.
    pub fn move_to_with_velocity(&mut self, x1: usize, y1: usize, x2: usize, y2: usize)
        requires
            old(self).wf(),
            x1 < GRID_WIDTH,
            y1 < GRID_HEIGHT,
            x2 < GRID_WIDTH,
            y2 < GRID_HEIGHT,
        ensures
            final(self).wf(),
            final(self)@ == st_move_to_vel(old(self)@, x1 as int, y1 as int, x2 as int, y2 as int),
    {
        if self.get(x2, y2).material_type == Material::Empty.id() {
            let particle = self.get(x1, y1);
            let v = self.get_velocity(x1, y1);
            self.set(x2, y2, Material::from_id(particle.material_type));
            self.set(x1, y1, Material::Empty);
            self.set_velocity(x2, y2, v);
            self.set_velocity(x1, y1, 0);
        }
    }
}

} // verus!
