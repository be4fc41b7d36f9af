use gpu_sidecar::smoke::ramp;
use gpu_sidecar::smoke::sample_positions;
use gpu_sidecar::smoke::smoke_verdict;
use gpu_sidecar::smoke::sweep_sizes;
use gpu_sidecar::stats::all_true;
use gpu_sidecar::stats::count_true;

#[test]
fn ramp_is_the_ascending_ladder() {
    let r = ramp(64);
    assert_eq!(r.len(), 64);
    assert_eq!(r[0], 0);
    assert_eq!(r[10], 10);
    assert_eq!(r[63], 63);
}

#[test]
fn smoke_run_of_sixty_four_healthy_elements() {
    // Model of the smallest smoke run: the kernel adds one to each
    // ladder element, so element i reads back as i + 1 and no element
    // mismatches.
    let input = ramp(64);
    let result: Vec<u32> = input.iter().map(|v| v + 1).collect();
    let positions = sample_positions(result.len());
    let sample: Vec<u32> = positions.iter().map(|&p| result[p]).collect();
    assert_eq!(sample, vec![1, 2, 11, 64]);
    let mismatch_flags: Vec<bool> =
        result.iter().enumerate().map(|(i, &v)| v != (i as u32) + 1).collect();
    let verdict = smoke_verdict(&mismatch_flags);
    assert_eq!(verdict.mismatch_count, 0);
    assert!(verdict.ok);
}

#[test]
fn verdict_is_healthy_exactly_when_nothing_mismatched() {
    let clean = vec![false; 16];
    let v = smoke_verdict(&clean);
    assert_eq!(v.mismatch_count, 0);
    assert!(v.ok);

    let mut one_bad = vec![false; 16];
    one_bad[7] = true;
    let w = smoke_verdict(&one_bad);
    assert_eq!(w.mismatch_count, 1);
    assert!(!w.ok);

    let all_bad = vec![true; 3];
    let x = smoke_verdict(&all_bad);
    assert_eq!(x.mismatch_count, 3);
    assert!(!x.ok);
}

#[test]
fn sample_positions_pick_first_tenth_and_last() {
    assert_eq!(sample_positions(64), vec![0, 1, 10, 63]);
    assert_eq!(sample_positions(1024), vec![0, 1, 10, 1023]);
    assert_eq!(sample_positions(5), vec![0, 1, 4, 4]);
    assert_eq!(sample_positions(2), vec![0, 1, 1, 1]);
}

#[test]
fn empty_sweep_uses_the_fallback_ladder() {
    assert_eq!(sweep_sizes(vec![]), vec![1024, 4096, 16384, 65536]);
    assert_eq!(sweep_sizes(vec![100, 200]), vec![100, 200]);
}

#[test]
fn sweep_verdict_is_the_conjunction_of_runs() {
    assert!(all_true(&vec![]));
    assert!(all_true(&vec![true, true, true, true]));
    assert!(!all_true(&vec![true, false, true, true]));
}

#[test]
fn dye_footprint_counts_cells_over_threshold() {
    // Host model: a flag per cell saying whether its dye exceeds the
    // visibility threshold; the footprint numerator is their count.
    assert_eq!(count_true(&vec![]), 0);
    assert_eq!(count_true(&vec![true, false, true]), 2);
    assert_eq!(count_true(&vec![false; 8]), 0);
}
