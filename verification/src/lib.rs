//! Verified core of a one-shot GPU compute sidecar.
//!
//! The sidecar runs two workloads on a data-parallel compute backend: a
//! smoke check that perturbs a known input and validates it against a
//! closed-form expectation, and a stable-fluids simulation over a 2D grid
//! (advection, divergence, Jacobi pressure solve, projection, dye
//! transport). The backend work itself is floating-point and lives with
//! the unverified host harness; this crate holds everything the harness
//! must get right around it and proves it: request clamping, grid and
//! neighbour index arithmetic, dispatch sizing, the per-step kernel plan
//! with its ping-pong buffer roles and parity rules, and the counting
//! logic behind the reported statistics.

pub mod grid;
pub mod params;
pub mod plan;
pub mod smoke;
pub mod stats;
