//! The step driver: which kernel runs when, on which buffers.
//!
//! One simulation step is a strictly ordered sequence of data-parallel
//! passes: clear both pressure buffers, advect velocity, compute
//! divergence, run the Jacobi relaxation ping-pong, project, advect the
//! dye, fade the dye. The driver's whole job is to thread buffer roles
//! through that sequence without ever letting a pass write a buffer it
//! is reading, and to pick the pressure buffer that holds the converged
//! solve — which depends on the parity of the iteration count. This
//! module builds the sequence as data and proves those properties of it;
//! the host harness only replays it against the compute backend.

use vstd::prelude::*;

verus! {

/// The storage buffers of one fluid request. Velocity, dye and pressure
/// are double-buffered; divergence has a single buffer.
#[derive(Clone, Copy, Debug, PartialEq, Eq, Structural)]
pub enum FieldBuffer {
    VelocityA,
    VelocityB,
    DyeA,
    DyeB,
    Divergence,
    PressureA,
    PressureB,
}

/// One enqueued unit of backend work. Each pass is a barrier: it may
/// not start before every cell of the previous pass has completed.
#[derive(Clone, Copy, Debug, PartialEq, Eq, Structural)]
pub enum Pass {
    /// Zero a buffer, so no stale pressure leaks into this step's solve.
    ClearBuffer { target: FieldBuffer },
    /// Seed velocity (damped vortex) and dye (radial spot). Runs once
    /// per request, before the first step.
    Init { velocity_out: FieldBuffer, dye_out: FieldBuffer },
    /// Semi-Lagrangian velocity advection, edges forced to zero.
    AdvectVelocity { velocity_in: FieldBuffer, velocity_out: FieldBuffer },
    /// Central-difference divergence of the advected velocity.
    ComputeDivergence { velocity_in: FieldBuffer, divergence_out: FieldBuffer },
    /// One Jacobi relaxation pass of the pressure Poisson solve.
    Jacobi { pressure_in: FieldBuffer, divergence_in: FieldBuffer, pressure_out: FieldBuffer },
    /// Subtract the pressure gradient from the advected velocity,
    /// edges forced to zero.
    Project { velocity_in: FieldBuffer, pressure_in: FieldBuffer, velocity_out: FieldBuffer },
    /// Semi-Lagrangian dye advection along the projected velocity.
    AdvectDye { velocity_in: FieldBuffer, dye_in: FieldBuffer, dye_out: FieldBuffer },
    /// Decay the dye and trickle fresh dye in near the centre.
    FadeDye { dye_in: FieldBuffer, dye_out: FieldBuffer },
}

/// Pressure buffer read by Jacobi iteration `i` (0-indexed): A on even
/// iterations, B on odd ones.
pub open spec fn spec_jacobi_input(i: int) -> FieldBuffer {
    if i % 2 == 0 {
        FieldBuffer::PressureA
    } else {
        FieldBuffer::PressureB
    }
}

/// Pressure buffer written by Jacobi iteration `i`: always the buffer
/// not being read.
pub open spec fn spec_jacobi_output(i: int) -> FieldBuffer {
    if i % 2 == 0 {
        FieldBuffer::PressureB
    } else {
        FieldBuffer::PressureA
    }
}

/// The buffer holding the converged pressure after `n` Jacobi
/// iterations: A if `n` is even, B if odd.
pub open spec fn spec_solved_pressure(n: int) -> FieldBuffer {
    if n % 2 == 0 {
        FieldBuffer::PressureA
    } else {
        FieldBuffer::PressureB
    }
}

/// The Jacobi pass for iteration `i`.
pub open spec fn spec_jacobi_pass(i: int) -> Pass {
    Pass::Jacobi {
        pressure_in: spec_jacobi_input(i),
        divergence_in: FieldBuffer::Divergence,
        pressure_out: spec_jacobi_output(i),
    }
}

/// The passes of one step up to the pressure solve.
pub open spec fn spec_step_prologue() -> Seq<Pass> {
    seq![
        Pass::ClearBuffer { target: FieldBuffer::PressureA },
        Pass::ClearBuffer { target: FieldBuffer::PressureB },
        Pass::AdvectVelocity {
            velocity_in: FieldBuffer::VelocityA,
            velocity_out: FieldBuffer::VelocityB,
        },
        Pass::ComputeDivergence {
            velocity_in: FieldBuffer::VelocityB,
            divergence_out: FieldBuffer::Divergence,
        },
    ]
}

/// The passes of one step after a solve of `n` iterations: projection
/// (reading the parity-selected pressure buffer), dye advection, fade.
pub open spec fn spec_step_epilogue(n: int) -> Seq<Pass> {
    seq![
        Pass::Project {
            velocity_in: FieldBuffer::VelocityB,
            pressure_in: spec_solved_pressure(n),
            velocity_out: FieldBuffer::VelocityA,
        },
        Pass::AdvectDye {
            velocity_in: FieldBuffer::VelocityA,
            dye_in: FieldBuffer::DyeA,
            dye_out: FieldBuffer::DyeB,
        },
        Pass::FadeDye { dye_in: FieldBuffer::DyeB, dye_out: FieldBuffer::DyeA },
    ]
}

/// One full simulation step with an `n`-iteration pressure solve.
pub open spec fn spec_step_plan(n: int) -> Seq<Pass> {
    spec_step_prologue() + Seq::new(n as nat, |i: int| spec_jacobi_pass(i)) + spec_step_epilogue(n)
}

/// `steps` repetitions of the step plan, in order.
pub open spec fn spec_repeated_steps(steps: int, n: int) -> Seq<Pass>
    decreases steps,
{
    if steps <= 0 {
        Seq::empty()
    } else {
        spec_repeated_steps(steps - 1, n) + spec_step_plan(n)
    }
}

/// A whole fluid request: seed once, then run every step.
pub open spec fn spec_fluid_plan(steps: int, n: int) -> Seq<Pass> {
    seq![
        Pass::Init { velocity_out: FieldBuffer::VelocityA, dye_out: FieldBuffer::DyeA },
    ] + spec_repeated_steps(steps, n)
}

/// No pass may write a buffer it reads in the same dispatch, and a pass
/// writing two buffers must write two distinct ones.
pub open spec fn pass_race_free(p: Pass) -> bool {
    match p {
        Pass::ClearBuffer { .. } => true,
        Pass::Init { velocity_out, dye_out } => velocity_out != dye_out,
        Pass::AdvectVelocity { velocity_in, velocity_out } => velocity_in != velocity_out,
        Pass::ComputeDivergence { velocity_in, divergence_out } => velocity_in != divergence_out,
        Pass::Jacobi { pressure_in, divergence_in, pressure_out } => pressure_in != pressure_out
            && divergence_in != pressure_out,
        Pass::Project { velocity_in, pressure_in, velocity_out } => velocity_in != velocity_out
            && pressure_in != velocity_out,
        Pass::AdvectDye { velocity_in, dye_in, dye_out } => velocity_in != dye_out && dye_in
            != dye_out,
        Pass::FadeDye { dye_in, dye_out } => dye_in != dye_out,
    }
}

/// The parity-selected pressure buffer handed to the projection kernel.
pub fn solved_pressure_buffer(jacobi_iters: u32) -> (r: FieldBuffer)
    ensures
        r == spec_solved_pressure(jacobi_iters as int),
{
    if jacobi_iters % 2 == 0 {
        FieldBuffer::PressureA
    } else {
        FieldBuffer::PressureB
    }
}

/// The Jacobi pass for iteration `i`, ping-ponging on the iteration's
/// parity.
pub fn jacobi_pass(i: u32) -> (p: Pass)
    ensures
        p == spec_jacobi_pass(i as int),
{
    if i % 2 == 0 {
        Pass::Jacobi {
            pressure_in: FieldBuffer::PressureA,
            divergence_in: FieldBuffer::Divergence,
            pressure_out: FieldBuffer::PressureB,
        }
    } else {
        Pass::Jacobi {
            pressure_in: FieldBuffer::PressureB,
            divergence_in: FieldBuffer::Divergence,
            pressure_out: FieldBuffer::PressureA,
        }
    }
}

/// Build the pass sequence of one simulation step.
pub fn step_plan(jacobi_iters: u32) -> (plan: Vec<Pass>)
    ensures
        plan@ == spec_step_plan(jacobi_iters as int),
{
    let mut plan: Vec<Pass> = Vec::new();
    plan.push(Pass::ClearBuffer { target: FieldBuffer::PressureA });
    plan.push(Pass::ClearBuffer { target: FieldBuffer::PressureB });
    plan.push(Pass::AdvectVelocity {
        velocity_in: FieldBuffer::VelocityA,
        velocity_out: FieldBuffer::VelocityB,
    });
    plan.push(Pass::ComputeDivergence {
        velocity_in: FieldBuffer::VelocityB,
        divergence_out: FieldBuffer::Divergence,
    });
    assert(plan@ == spec_step_prologue() + Seq::new(0, |i: int| spec_jacobi_pass(i)));
    let mut i: u32 = 0;
    while i < jacobi_iters
        invariant
            i <= jacobi_iters,
            plan@ == spec_step_prologue() + Seq::new(i as nat, |k: int| spec_jacobi_pass(k)),
        decreases jacobi_iters - i,
    {
        plan.push(jacobi_pass(i));
        i = i + 1;
        assert(plan@ == spec_step_prologue() + Seq::new(i as nat, |k: int| spec_jacobi_pass(k)));
    }
    plan.push(Pass::Project {
        velocity_in: FieldBuffer::VelocityB,
        pressure_in: solved_pressure_buffer(jacobi_iters),
        velocity_out: FieldBuffer::VelocityA,
    });
    plan.push(Pass::AdvectDye {
        velocity_in: FieldBuffer::VelocityA,
        dye_in: FieldBuffer::DyeA,
        dye_out: FieldBuffer::DyeB,
    });
    plan.push(Pass::FadeDye { dye_in: FieldBuffer::DyeB, dye_out: FieldBuffer::DyeA });
    assert(plan@ == spec_step_plan(jacobi_iters as int));
    plan
}

/// Build the pass sequence of a whole fluid request: one seeding pass,
/// then `steps` simulation steps.
pub fn fluid_plan(steps: u32, jacobi_iters: u32) -> (plan: Vec<Pass>)
    ensures
        plan@ == spec_fluid_plan(steps as int, jacobi_iters as int),
{
    let mut plan: Vec<Pass> = Vec::new();
    plan.push(Pass::Init { velocity_out: FieldBuffer::VelocityA, dye_out: FieldBuffer::DyeA });
    let mut s: u32 = 0;
    while s < steps
        invariant
            s <= steps,
            plan@ == spec_fluid_plan(s as int, jacobi_iters as int),
        decreases steps - s,
    {
        let mut chunk = step_plan(jacobi_iters);
        plan.append(&mut chunk);
        s = s + 1;
        assert(plan@ == spec_fluid_plan(s as int, jacobi_iters as int));
    }
    plan
}

/// Workgroups needed to cover `n` items with groups of `g`.
pub open spec fn spec_group_count(n: int, g: int) -> int {
    (n + g - 1) / g
}

/// Workgroups along one grid axis for the fluid kernels, which run in
/// 8-by-8 workgroups.
pub fn fluid_workgroups_per_side(extent: u32) -> (r: u32)
    ensures
        r == spec_group_count(extent as int, 8),
{
    extent / 8 + if extent % 8 != 0 {
        1
    } else {
        0
    }
}

/// A dispatch of `spec_group_count(n, g)` workgroups covers all `n`
/// items and wastes less than one workgroup.
pub proof fn lemma_dispatch_covers(n: int, g: int)
    requires
        n >= 0,
        g >= 1,
    ensures
        spec_group_count(n, g) * g >= n,
        spec_group_count(n, g) * g < n + g,
{
    let q = (n + g - 1) / g;
    let r = (n + g - 1) % g;
    vstd::arithmetic::div_mod::lemma_fundamental_div_mod(n + g - 1, g);
    vstd::arithmetic::div_mod::lemma_mod_bound(n + g - 1, g);
    assert(q * g == n + g - 1 - r);
}

/// Each Jacobi iteration reads exactly the buffer the previous
/// iteration wrote: the ping-pong never reads a half-written iterate.
pub proof fn lemma_jacobi_chain(i: int)
    requires
        i >= 1,
    ensures
        spec_jacobi_input(i) == spec_jacobi_output(i - 1),
{
}

/// The buffer holding the solve's result is the one written by the
/// last Jacobi iteration, so the parity rule hands the projection the
/// converged iterate and never the scratch buffer.
pub proof fn lemma_solved_pressure_is_last_output(n: int)
    requires
        n >= 1,
    ensures
        spec_solved_pressure(n) == spec_jacobi_output(n - 1),
{
}

/// The first Jacobi iteration reads a buffer this step has cleared:
/// both pressure buffers are zeroed by the step's first two passes, so
/// no pressure from an earlier step leaks into the solve.
pub proof fn lemma_solve_starts_from_cleared_pressure(n: int)
    ensures
        (spec_step_prologue()[0] matches Pass::ClearBuffer { target } && target
            == spec_jacobi_input(0)),
        (spec_step_prologue()[1] matches Pass::ClearBuffer { target } && target
            == spec_jacobi_output(0)),
{
}

/// Shape of one step: exactly the stage order clear, clear, advect
/// velocity, divergence, `n` Jacobi iterations, project, advect dye,
/// fade — each pass with its exact buffer roles.
pub proof fn lemma_step_plan_shape(n: int)
    requires
        n >= 0,
    ensures
        spec_step_plan(n).len() == n + 7,
        spec_step_plan(n)[0] == (Pass::ClearBuffer { target: FieldBuffer::PressureA }),
        spec_step_plan(n)[1] == (Pass::ClearBuffer { target: FieldBuffer::PressureB }),
        spec_step_plan(n)[2] == (Pass::AdvectVelocity {
            velocity_in: FieldBuffer::VelocityA,
            velocity_out: FieldBuffer::VelocityB,
        }),
        spec_step_plan(n)[3] == (Pass::ComputeDivergence {
            velocity_in: FieldBuffer::VelocityB,
            divergence_out: FieldBuffer::Divergence,
        }),
        forall|k: int| 4 <= k < n + 4 ==> spec_step_plan(n)[k] == spec_jacobi_pass(k - 4),
        spec_step_plan(n)[n + 4] == (Pass::Project {
            velocity_in: FieldBuffer::VelocityB,
            pressure_in: spec_solved_pressure(n),
            velocity_out: FieldBuffer::VelocityA,
        }),
        spec_step_plan(n)[n + 5] == (Pass::AdvectDye {
            velocity_in: FieldBuffer::VelocityA,
            dye_in: FieldBuffer::DyeA,
            dye_out: FieldBuffer::DyeB,
        }),
        spec_step_plan(n)[n + 6] == (Pass::FadeDye {
            dye_in: FieldBuffer::DyeB,
            dye_out: FieldBuffer::DyeA,
        }),
{
}

/// Single-writer discipline: no pass of a step writes a buffer it
/// reads, so no dispatch races with itself on any cell.
pub proof fn lemma_step_plan_race_free(n: int)
    requires
        n >= 0,
    ensures
        forall|k: int|
            0 <= k < spec_step_plan(n).len() ==> pass_race_free(#[trigger] spec_step_plan(n)[k]),
{
    lemma_step_plan_shape(n);
    assert forall|k: int|
        0 <= k < spec_step_plan(n).len() implies pass_race_free(#[trigger] spec_step_plan(n)[k]) by {
        if 4 <= k < n + 4 {
            assert(spec_step_plan(n)[k] == spec_jacobi_pass(k - 4));
        }
    }
}

/// Steps compose: the velocity and dye buffers current at the end of a
/// step (written by projection and fade) are exactly the ones the next
/// step's advection passes read, and the ones the seeding pass fills.
pub proof fn lemma_steps_compose(n: int)
    requires
        n >= 0,
    ensures
        (spec_step_plan(n)[n + 4] matches Pass::Project { velocity_out, .. } && spec_step_plan(n)[2]
            matches Pass::AdvectVelocity { velocity_in, .. } && velocity_out == velocity_in),
        (spec_step_plan(n)[n + 6] matches Pass::FadeDye { dye_out, .. } && spec_step_plan(n)[n + 5]
            matches Pass::AdvectDye { dye_in, .. } && dye_out == dye_in),
        (spec_fluid_plan(0, n)[0] matches Pass::Init { velocity_out, dye_out } && velocity_out
            == FieldBuffer::VelocityA && dye_out == FieldBuffer::DyeA),
{
    lemma_step_plan_shape(n);
}

/// Single-writer discipline over a whole request: no pass of the
/// request plan, the seeding pass included, writes a buffer it reads.
pub proof fn lemma_fluid_plan_race_free(steps: int, n: int)
    requires
        steps >= 0,
        n >= 0,
    ensures
        forall|k: int|
            0 <= k < spec_fluid_plan(steps, n).len() ==> pass_race_free(
                #[trigger] spec_fluid_plan(steps, n)[k],
            ),
{
    lemma_repeated_steps_race_free(steps, n);
    assert forall|k: int|
        0 <= k < spec_fluid_plan(steps, n).len() implies pass_race_free(
        #[trigger] spec_fluid_plan(steps, n)[k],
    ) by {
        if k > 0 {
            assert(spec_fluid_plan(steps, n)[k] == spec_repeated_steps(steps, n)[k - 1]);
        }
    }
}

/// Helper: every pass of `steps` repeated step plans is race-free.
proof fn lemma_repeated_steps_race_free(steps: int, n: int)
    requires
        steps >= 0,
        n >= 0,
    ensures
        forall|k: int|
            0 <= k < spec_repeated_steps(steps, n).len() ==> pass_race_free(
                #[trigger] spec_repeated_steps(steps, n)[k],
            ),
    decreases steps,
{
    if steps > 0 {
        lemma_repeated_steps_race_free(steps - 1, n);
        lemma_step_plan_race_free(n);
        assert forall|k: int|
            0 <= k < spec_repeated_steps(steps, n).len() implies pass_race_free(
            #[trigger] spec_repeated_steps(steps, n)[k],
        ) by {
            let prev = spec_repeated_steps(steps - 1, n);
            if k >= prev.len() {
                assert(spec_repeated_steps(steps, n)[k] == spec_step_plan(n)[k - prev.len()]);
            }
        }
    }
}

/// Whether a pass writes one of the velocity buffers.
pub open spec fn pass_writes_velocity(p: Pass) -> bool {
    match p {
        Pass::ClearBuffer { target } => target == FieldBuffer::VelocityA || target
            == FieldBuffer::VelocityB,
        Pass::Init { .. } => true,
        Pass::AdvectVelocity { .. } => true,
        Pass::ComputeDivergence { .. } => false,
        Pass::Jacobi { .. } => false,
        Pass::Project { .. } => true,
        Pass::AdvectDye { .. } => false,
        Pass::FadeDye { .. } => false,
    }
}

/// Within a step, velocity is written only by the advection and
/// projection passes — the two kernels that force edge cells to zero —
/// and the projection writes it last. A completed step therefore
/// leaves the current velocity buffer as a kernel that zeroes the
/// boundary left it.
pub proof fn lemma_step_velocity_writes(n: int)
    requires
        n >= 0,
    ensures
        spec_step_plan(n)[n + 4] is Project,
        forall|k: int|
            n + 4 < k < spec_step_plan(n).len() ==> !pass_writes_velocity(
                #[trigger] spec_step_plan(n)[k],
            ),
        forall|k: int|
            0 <= k < spec_step_plan(n).len() && pass_writes_velocity(
                #[trigger] spec_step_plan(n)[k],
            ) ==> (spec_step_plan(n)[k] is AdvectVelocity || spec_step_plan(n)[k] is Project),
{
    lemma_step_plan_shape(n);
    assert forall|k: int|
        0 <= k < spec_step_plan(n).len() && pass_writes_velocity(
            #[trigger] spec_step_plan(n)[k],
        ) implies (spec_step_plan(n)[k] is AdvectVelocity || spec_step_plan(n)[k] is Project) by {
        if 4 <= k < n + 4 {
            assert(spec_step_plan(n)[k] == spec_jacobi_pass(k - 4));
        }
    }
}

/// The seeding pass runs exactly once, first; every later pass of the
/// request is a step pass.
pub proof fn lemma_init_runs_once(steps: int, n: int)
    requires
        steps >= 0,
        n >= 0,
    ensures
        spec_fluid_plan(steps, n).len() == 1 + steps * (n + 7),
        spec_fluid_plan(steps, n)[0] is Init,
        forall|k: int|
            1 <= k < spec_fluid_plan(steps, n).len() ==> !(#[trigger] spec_fluid_plan(
                steps,
                n,
            )[k] is Init),
{
    lemma_repeated_steps_no_init(steps, n);
}

/// Helper: a step plan contains no seeding pass, and `steps`
/// repetitions of it have length `steps * (n + 7)`.
proof fn lemma_repeated_steps_no_init(steps: int, n: int)
    requires
        steps >= 0,
        n >= 0,
    ensures
        spec_repeated_steps(steps, n).len() == steps * (n + 7),
        forall|k: int|
            0 <= k < spec_repeated_steps(steps, n).len() ==> !(#[trigger] spec_repeated_steps(
                steps,
                n,
            )[k] is Init),
    decreases steps,
{
    if steps <= 0 {
        assert(steps * (n + 7) == 0) by (nonlinear_arith)
            requires
                steps == 0,
        ;
    } else {
        lemma_repeated_steps_no_init(steps - 1, n);
        lemma_step_plan_shape(n);
        assert(spec_repeated_steps(steps, n).len() == spec_repeated_steps(steps - 1, n).len()
            + spec_step_plan(n).len());
        assert((steps - 1) * (n + 7) + (n + 7) == steps * (n + 7)) by (nonlinear_arith);
        assert forall|k: int|
            0 <= k < spec_repeated_steps(steps, n).len() implies !(#[trigger] spec_repeated_steps(
            steps,
            n,
        )[k] is Init) by {
            let prev = spec_repeated_steps(steps - 1, n);
            if k >= prev.len() {
                assert(spec_repeated_steps(steps, n)[k] == spec_step_plan(n)[k - prev.len()]);
            }
        }
    }
}

} // verus!
