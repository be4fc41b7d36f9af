use gpu_sidecar::params::FluidConfig;
use gpu_sidecar::params::clamp_dim;
use gpu_sidecar::params::clamp_jacobi;
use gpu_sidecar::params::clamp_smoke_n;
use gpu_sidecar::params::clamp_steps;
use gpu_sidecar::params::default_jacobi;
use gpu_sidecar::params::default_steps;

#[test]
fn defaults_match_the_request_table() {
    assert_eq!(default_steps(), 1);
    assert_eq!(default_jacobi(), 30);
}

#[test]
fn dimensions_are_floored_to_sixteen() {
    assert_eq!(clamp_dim(0), 16);
    assert_eq!(clamp_dim(8), 16);
    assert_eq!(clamp_dim(16), 16);
    assert_eq!(clamp_dim(17), 17);
    assert_eq!(clamp_dim(500), 500);
}

#[test]
fn steps_are_floored_to_one() {
    assert_eq!(clamp_steps(0), 1);
    assert_eq!(clamp_steps(1), 1);
    assert_eq!(clamp_steps(7), 7);
}

#[test]
fn jacobi_iterations_stay_in_their_window() {
    assert_eq!(clamp_jacobi(0), 5);
    assert_eq!(clamp_jacobi(5), 5);
    assert_eq!(clamp_jacobi(30), 30);
    assert_eq!(clamp_jacobi(120), 120);
    assert_eq!(clamp_jacobi(200), 120);
}

#[test]
fn smoke_count_is_floored_to_sixty_four() {
    assert_eq!(clamp_smoke_n(1), 64);
    assert_eq!(clamp_smoke_n(64), 64);
    assert_eq!(clamp_smoke_n(1024), 1024);
}

#[test]
fn a_raw_request_is_clamped_fieldwise() {
    let c = FluidConfig::from_request(8, 2000, 0, 200);
    assert_eq!(c.width, 16);
    assert_eq!(c.height, 2000);
    assert_eq!(c.steps, 1);
    assert_eq!(c.jacobi_iters, 120);
}
