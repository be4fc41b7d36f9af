//! Request parameters and the clamps applied to them before execution.
//!
//! A request names a workload and carries sizes and tuning knobs. Before
//! anything is dispatched, every integer knob is forced into its legal
//! range: grid dimensions are floored, the step count is at least one,
//! the Jacobi iteration count is clamped to its window, and the smoke
//! element count is floored. The floating-point knobs (`dt`, `fade`) are
//! clamped by the host harness; they never reach the verified core.

use vstd::prelude::*;

verus! {

/// Smallest grid dimension the fluid pipeline accepts.
pub const MIN_DIM: u32 = 16;

/// Smallest element count the smoke check accepts.
pub const MIN_SMOKE_N: u32 = 64;

/// Fewest Jacobi relaxation passes run per step.
pub const MIN_JACOBI: u32 = 5;

/// Most Jacobi relaxation passes run per step.
pub const MAX_JACOBI: u32 = 120;

/// Step count used when a fluid request does not name one.
pub fn default_steps() -> (r: u32)
    ensures
        r == 1,
{
    1
}

/// Jacobi iteration count used when a fluid request does not name one.
pub fn default_jacobi() -> (r: u32)
    ensures
        r == 30,
{
    30
}

/// A requested grid dimension, floored to the accepted minimum.
pub open spec fn spec_clamp_dim(d: int) -> int {
    if d < MIN_DIM {
        MIN_DIM as int
    } else {
        d
    }
}

/// A requested step count, floored to one.
pub open spec fn spec_clamp_steps(s: int) -> int {
    if s < 1 {
        1
    } else {
        s
    }
}

/// A requested Jacobi iteration count, clamped into its window.
pub open spec fn spec_clamp_jacobi(j: int) -> int {
    if j < MIN_JACOBI {
        MIN_JACOBI as int
    } else if j > MAX_JACOBI {
        MAX_JACOBI as int
    } else {
        j
    }
}

/// A requested smoke element count, floored to the accepted minimum.
pub open spec fn spec_clamp_smoke_n(n: int) -> int {
    if n < MIN_SMOKE_N {
        MIN_SMOKE_N as int
    } else {
        n
    }
}

/// Floor a requested grid dimension to the accepted minimum.
pub fn clamp_dim(d: u32) -> (r: u32)
    ensures
        r == spec_clamp_dim(d as int),
        r >= MIN_DIM,
{
    if d < MIN_DIM {
        MIN_DIM
    } else {
        d
    }
}

/// Floor a requested step count to one.
pub fn clamp_steps(s: u32) -> (r: u32)
    ensures
        r == spec_clamp_steps(s as int),
        r >= 1,
{
    if s < 1 {
        1
    } else {
        s
    }
}

/// Clamp a requested Jacobi iteration count into its window.
pub fn clamp_jacobi(j: u32) -> (r: u32)
    ensures
        r == spec_clamp_jacobi(j as int),
        MIN_JACOBI <= r <= MAX_JACOBI,
{
    if j < MIN_JACOBI {
        MIN_JACOBI
    } else if j > MAX_JACOBI {
        MAX_JACOBI
    } else {
        j
    }
}

/// Floor a requested smoke element count to the accepted minimum.
pub fn clamp_smoke_n(n: u32) -> (r: u32)
    ensures
        r == spec_clamp_smoke_n(n as int),
        r >= MIN_SMOKE_N,
{
    if n < MIN_SMOKE_N {
        MIN_SMOKE_N
    } else {
        n
    }
}

/// The integer parameters of one fluid request, immutable for its
/// duration. The floating-point knobs (`dt`, `fade`, `dye_radius`,
/// `impulse`) ride alongside in the host harness's parameter block.
pub struct FluidConfig {
    /// Grid width in cells.
    pub width: u32,
    /// Grid height in cells.
    pub height: u32,
    /// Simulation steps to run.
    pub steps: u32,
    /// Jacobi iterations per step's pressure solve.
    pub jacobi_iters: u32,
}

impl FluidConfig {
    /// Every knob inside its legal range.
    pub open spec fn wf(self) -> bool {
        &&& self.width >= MIN_DIM
        &&& self.height >= MIN_DIM
        &&& self.steps >= 1
        &&& MIN_JACOBI <= self.jacobi_iters <= MAX_JACOBI
    }

    /// Clamp a raw request into a well-formed configuration.
    pub fn from_request(width: u32, height: u32, steps: u32, jacobi_iters: u32) -> (c: Self)
        ensures
            c.wf(),
            c.width == spec_clamp_dim(width as int),
            c.height == spec_clamp_dim(height as int),
            c.steps == spec_clamp_steps(steps as int),
            c.jacobi_iters == spec_clamp_jacobi(jacobi_iters as int),
    {
        FluidConfig {
            width: clamp_dim(width),
            height: clamp_dim(height),
            steps: clamp_steps(steps),
            jacobi_iters: clamp_jacobi(jacobi_iters),
        }
    }
}

} // verus!
