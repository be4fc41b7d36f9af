use gpu_sidecar::plan::FieldBuffer;
use gpu_sidecar::plan::Pass;
use gpu_sidecar::plan::fluid_plan;
use gpu_sidecar::plan::fluid_workgroups_per_side;
use gpu_sidecar::plan::jacobi_pass;
use gpu_sidecar::plan::solved_pressure_buffer;
use gpu_sidecar::plan::step_plan;
use gpu_sidecar::smoke::smoke_workgroups;

/// The buffers a pass reads and the buffers it writes.
fn reads_and_writes(p: Pass) -> (Vec<FieldBuffer>, Vec<FieldBuffer>) {
    match p {
        Pass::ClearBuffer { target } => (vec![], vec![target]),
        Pass::Init { velocity_out, dye_out } => (vec![], vec![velocity_out, dye_out]),
        Pass::AdvectVelocity { velocity_in, velocity_out } => {
            (vec![velocity_in], vec![velocity_out])
        }
        Pass::ComputeDivergence { velocity_in, divergence_out } => {
            (vec![velocity_in], vec![divergence_out])
        }
        Pass::Jacobi { pressure_in, divergence_in, pressure_out } => {
            (vec![pressure_in, divergence_in], vec![pressure_out])
        }
        Pass::Project { velocity_in, pressure_in, velocity_out } => {
            (vec![velocity_in, pressure_in], vec![velocity_out])
        }
        Pass::AdvectDye { velocity_in, dye_in, dye_out } => {
            (vec![velocity_in, dye_in], vec![dye_out])
        }
        Pass::FadeDye { dye_in, dye_out } => (vec![dye_in], vec![dye_out]),
    }
}

#[test]
fn one_step_runs_the_stages_in_order() {
    let plan = step_plan(5);
    assert_eq!(plan.len(), 12);
    assert_eq!(plan[0], Pass::ClearBuffer { target: FieldBuffer::PressureA });
    assert_eq!(plan[1], Pass::ClearBuffer { target: FieldBuffer::PressureB });
    assert_eq!(
        plan[2],
        Pass::AdvectVelocity {
            velocity_in: FieldBuffer::VelocityA,
            velocity_out: FieldBuffer::VelocityB,
        }
    );
    assert_eq!(
        plan[3],
        Pass::ComputeDivergence {
            velocity_in: FieldBuffer::VelocityB,
            divergence_out: FieldBuffer::Divergence,
        }
    );
    for i in 0..5u32 {
        assert_eq!(plan[4 + i as usize], jacobi_pass(i));
    }
    assert_eq!(
        plan[9],
        Pass::Project {
            velocity_in: FieldBuffer::VelocityB,
            pressure_in: FieldBuffer::PressureB,
            velocity_out: FieldBuffer::VelocityA,
        }
    );
    assert_eq!(
        plan[10],
        Pass::AdvectDye {
            velocity_in: FieldBuffer::VelocityA,
            dye_in: FieldBuffer::DyeA,
            dye_out: FieldBuffer::DyeB,
        }
    );
    assert_eq!(plan[11], Pass::FadeDye { dye_in: FieldBuffer::DyeB, dye_out: FieldBuffer::DyeA });
}

#[test]
fn jacobi_ping_pong_alternates_and_chains() {
    for i in 0..120u32 {
        let Pass::Jacobi { pressure_in, pressure_out, .. } = jacobi_pass(i) else {
            panic!("not a relaxation pass");
        };
        assert_ne!(pressure_in, pressure_out);
        if i % 2 == 0 {
            assert_eq!(pressure_in, FieldBuffer::PressureA);
            assert_eq!(pressure_out, FieldBuffer::PressureB);
        } else {
            assert_eq!(pressure_in, FieldBuffer::PressureB);
            assert_eq!(pressure_out, FieldBuffer::PressureA);
        }
        if i > 0 {
            let Pass::Jacobi { pressure_out: previous_out, .. } = jacobi_pass(i - 1) else {
                panic!("not a relaxation pass");
            };
            assert_eq!(pressure_in, previous_out);
        }
    }
}

#[test]
fn projection_reads_the_parity_selected_pressure() {
    assert_eq!(solved_pressure_buffer(4), FieldBuffer::PressureA);
    assert_eq!(solved_pressure_buffer(5), FieldBuffer::PressureB);
    assert_eq!(solved_pressure_buffer(30), FieldBuffer::PressureA);
    let even = step_plan(30);
    assert_eq!(
        even[34],
        Pass::Project {
            velocity_in: FieldBuffer::VelocityB,
            pressure_in: FieldBuffer::PressureA,
            velocity_out: FieldBuffer::VelocityA,
        }
    );
}

#[test]
fn no_pass_writes_a_buffer_it_reads() {
    for n in [5u32, 6, 30, 119, 120] {
        for pass in fluid_plan(3, n) {
            let (reads, writes) = reads_and_writes(pass);
            for w in &writes {
                assert!(!reads.contains(w));
            }
            assert_eq!(writes.len(), {
                let mut unique = writes.clone();
                unique.dedup();
                unique.len()
            });
        }
    }
}

#[test]
fn a_request_seeds_once_then_steps() {
    let plan = fluid_plan(5, 5);
    assert_eq!(plan.len(), 1 + 5 * 12);
    assert_eq!(
        plan[0],
        Pass::Init { velocity_out: FieldBuffer::VelocityA, dye_out: FieldBuffer::DyeA }
    );
    assert_eq!(plan.iter().filter(|p| matches!(p, Pass::Init { .. })).count(), 1);
    for step in 0..5 {
        assert_eq!(plan[1 + step * 12..1 + (step + 1) * 12], step_plan(5)[..]);
    }
}

#[test]
fn workgroup_counts_cover_the_index_space() {
    assert_eq!(fluid_workgroups_per_side(8), 1);
    assert_eq!(fluid_workgroups_per_side(32), 4);
    assert_eq!(fluid_workgroups_per_side(33), 5);
    assert_eq!(fluid_workgroups_per_side(1), 1);
    assert_eq!(smoke_workgroups(64), 1);
    assert_eq!(smoke_workgroups(65), 2);
    assert_eq!(smoke_workgroups(1024), 16);
    for extent in 1..200u32 {
        let groups = fluid_workgroups_per_side(extent);
        assert!(groups * 8 >= extent);
        assert!((groups - 1) * 8 < extent);
    }
}
