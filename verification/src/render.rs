//! The compute half of the rendering collaborator: resolving every cell's
//! color (with Fire's per-instance flicker override) into a row-major
//! RGBA pixel buffer. Writing the buffer to a texture stays outside the
//! library.

use vstd::prelude::*;
use crate::config::{GRID_HEIGHT, GRID_WIDTH};
use crate::grid::Grid;
use crate::particle::color_bits;
use crate::state::{cell_index, cell_total};

verus! {

/// The color a cell is drawn with: the color stored in its particle's
/// packed word — the table color for every material but Fire, whose
/// particles carry their own flicker color.
pub open spec fn spec_cell_color(g: crate::state::SimState, i: int) -> (u8, u8, u8) {
    color_bits(g.ps[i].properties)
}

/// Renders the grid into a row-major RGBA buffer, four bytes per cell,
/// with full opacity.
pub fn render_grid(grid: &Grid) -> (buf: Vec<u8>)
    requires
        grid.wf(),
    ensures
        buf@.len() == 4 * cell_total(),
        forall|i: int|
            0 <= i < cell_total() ==> {
                &&& buf@[4 * i] == spec_cell_color(grid@, i).0
                &&& buf@[4 * i + 1] == spec_cell_color(grid@, i).1
                &&& buf@[4 * i + 2] == spec_cell_color(grid@, i).2
                &&& buf@[4 * i + 3] == 255u8
            },
{
    let mut buf: Vec<u8> = Vec::new();
    let mut y: usize = 0;
    while y < GRID_HEIGHT
        invariant
            grid.wf(),
            y <= GRID_HEIGHT,
            buf@.len() == 4 * y * GRID_WIDTH,
            forall|i: int|
                0 <= i < y * GRID_WIDTH ==> {
                    &&& buf@[4 * i] == spec_cell_color(grid@, i).0
                    &&& buf@[4 * i + 1] == spec_cell_color(grid@, i).1
                    &&& buf@[4 * i + 2] == spec_cell_color(grid@, i).2
                    &&& buf@[4 * i + 3] == 255u8
                },
        decreases GRID_HEIGHT - y,
    {
        let mut x: usize = 0;
        while x < GRID_WIDTH
            invariant
                grid.wf(),
                y < GRID_HEIGHT,
                x <= GRID_WIDTH,
                buf@.len() == 4 * (y * GRID_WIDTH + x),
                forall|i: int|
                    0 <= i < y * GRID_WIDTH + x ==> {
                        &&& buf@[4 * i] == spec_cell_color(grid@, i).0
                        &&& buf@[4 * i + 1] == spec_cell_color(grid@, i).1
                        &&& buf@[4 * i + 2] == spec_cell_color(grid@, i).2
                        &&& buf@[4 * i + 3] == 255u8
                    },
            decreases GRID_WIDTH - x,
        {
            let p = grid.get(x, y);
            let c = p.get_color();
            buf.push(c.0);
            buf.push(c.1);
            buf.push(c.2);
            buf.push(255);
            proof {
                assert(cell_index(x as int, y as int) == y * GRID_WIDTH + x);
            }
            x = x + 1;
        }
        y = y + 1;
    }
    buf
}

} // verus!
