//! Grid geometry: cell counts, row-major indexing, clamped neighbour
//! lookup, and the edge predicate for the no-flux boundary.
//!
//! Every field buffer of the simulation holds exactly `width * height`
//! entries in row-major order. The difference stencils (divergence,
//! Jacobi relaxation, pressure gradient) read the four axis neighbours
//! of a cell with indices clamped to the grid, so an edge cell's missing
//! neighbour repeats the edge cell itself. The host-side statistics pass
//! recomputes divergence with the same clamped stencil, through these
//! same functions.

use vstd::prelude::*;

verus! {

/// Row-major position of cell `(x, y)` in a grid `width` cells wide.
pub open spec fn spec_cell_index(x: int, y: int, width: int) -> int {
    y * width + x
}

/// One step towards zero, clamped at the boundary.
pub open spec fn spec_clamp_dec(v: int) -> int {
    if v <= 0 {
        0
    } else {
        v - 1
    }
}

/// One step away from zero, clamped below `limit`.
pub open spec fn spec_clamp_inc(v: int, limit: int) -> int {
    if v + 1 < limit {
        v + 1
    } else {
        limit - 1
    }
}

/// Number of cells in the grid. Every field buffer is sized from this;
/// it is also the `initialized_cells` figure reported after seeding.
pub fn cell_count(width: u32, height: u32) -> (r: u64)
    ensures
        r == width as int * height as int,
{
    proof {
        assert((width as int) * (height as int) <= u64::MAX) by (nonlinear_arith)
            requires
                width <= u32::MAX,
                height <= u32::MAX,
        ;
    }
    (width as u64) * (height as u64)
}

/// Row-major index of an in-bounds cell.
pub fn cell_index(x: u32, y: u32, width: u32, height: u32) -> (r: usize)
    requires
        x < width,
        y < height,
        width as int * height as int <= usize::MAX,
    ensures
        r == spec_cell_index(x as int, y as int, width as int),
        r < width as int * height as int,
{
    proof {
        assert((y as int) * (width as int) + (x as int) < (width as int) * (height as int))
            by (nonlinear_arith)
            requires
                x < width,
                y < height,
        ;
    }
    let idx: u64 = (y as u64) * (width as u64) + (x as u64);
    idx as usize
}

/// Coordinate one step towards zero, clamped at the boundary.
pub fn clamp_dec(v: u32) -> (r: u32)
    ensures
        r == spec_clamp_dec(v as int),
{
    if v == 0 {
        0
    } else {
        v - 1
    }
}

/// Coordinate one step away from zero, clamped below `limit`.
pub fn clamp_inc(v: u32, limit: u32) -> (r: u32)
    requires
        v < limit,
    ensures
        r == spec_clamp_inc(v as int, limit as int),
{
    if v + 1 < limit {
        v + 1
    } else {
        limit - 1
    }
}

/// Row-major indices of a cell's four clamped axis neighbours.
pub struct NeighborIndices {
    /// Neighbour one column towards x = 0.
    pub left: usize,
    /// Neighbour one column towards x = width - 1.
    pub right: usize,
    /// Neighbour one row towards y = 0.
    pub below: usize,
    /// Neighbour one row towards y = height - 1.
    pub above: usize,
}

/// The four clamped neighbour indices used by every difference stencil.
pub fn neighbor_indices(x: u32, y: u32, width: u32, height: u32) -> (n: NeighborIndices)
    requires
        x < width,
        y < height,
        width as int * height as int <= usize::MAX,
    ensures
        n.left == spec_cell_index(spec_clamp_dec(x as int), y as int, width as int),
        n.right == spec_cell_index(spec_clamp_inc(x as int, width as int), y as int, width as int),
        n.below == spec_cell_index(x as int, spec_clamp_dec(y as int), width as int),
        n.above == spec_cell_index(x as int, spec_clamp_inc(y as int, height as int), width as int),
        n.left < width as int * height as int,
        n.right < width as int * height as int,
        n.below < width as int * height as int,
        n.above < width as int * height as int,
{
    let xl = clamp_dec(x);
    let xr = clamp_inc(x, width);
    let yb = clamp_dec(y);
    let yt = clamp_inc(y, height);
    NeighborIndices {
        left: cell_index(xl, y, width, height),
        right: cell_index(xr, y, width, height),
        below: cell_index(x, yb, width, height),
        above: cell_index(x, yt, width, height),
    }
}

/// Whether a cell lies on the grid boundary. The advection and
/// projection kernels force the velocity of exactly these cells to zero
/// (the no-flux boundary condition).
pub fn is_edge(x: u32, y: u32, width: u32, height: u32) -> (r: bool)
    requires
        x < width,
        y < height,
    ensures
        r <==> (x == 0 || y == 0 || x == width - 1 || y == height - 1),
{
    x == 0 || y == 0 || x == width - 1 || y == height - 1
}

/// Byte size of a one-component field buffer (4-byte entries).
pub fn scalar_field_bytes(cells: u64) -> (r: u64)
    requires
        cells * 4 <= u64::MAX,
    ensures
        r == cells * 4,
{
    cells * 4
}

/// Byte size of a two-component field buffer (two 4-byte entries per cell).
pub fn vector_field_bytes(cells: u64) -> (r: u64)
    requires
        cells * 8 <= u64::MAX,
    ensures
        r == cells * 8,
{
    cells * 8
}

} // verus!
