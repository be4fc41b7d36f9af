//! The smoke check: a known input, a one-increment kernel, and an
//! exact verdict.
//!
//! The backend is handed the ascending ladder `0, 1, ..., n-1`, runs a
//! kernel that adds one to every in-range element, and the result is
//! compared against the closed-form expectation `i + 1`. The host
//! harness performs the tolerance comparison on the raw values; every
//! element yields a mismatch flag, and the verdict here is exact: the
//! run is reported healthy exactly when no element mismatched.

use crate::stats::count_true;
use crate::stats::lemma_count_true_le_len;
use crate::stats::lemma_count_true_zero_iff_none;
use crate::stats::spec_count_true;
use vstd::prelude::*;

verus! {

/// The ascending input ladder uploaded before the kernel runs.
pub fn ramp(n: u32) -> (r: Vec<u32>)
    ensures
        r@.len() == n,
        forall|i: int| 0 <= i < n ==> r@[i] == i,
{
    let mut r: Vec<u32> = Vec::new();
    let mut i: u32 = 0;
    while i < n
        invariant
            i <= n,
            r@.len() == i,
            forall|k: int| 0 <= k < i ==> r@[k] == k,
        decreases n - i,
    {
        r.push(i);
        i = i + 1;
    }
    r
}

/// Outcome of one smoke run, as far as it is decided by the mismatch
/// flags; the raw error magnitudes stay with the host harness.
pub struct SmokeVerdict {
    /// How many elements differed from the expectation.
    pub mismatch_count: u32,
    /// Whether the run is reported healthy.
    pub ok: bool,
}

/// Judge one smoke run from its per-element mismatch flags. The run is
/// healthy exactly when the mismatch count is zero, that is, exactly
/// when no element mismatched.
pub fn smoke_verdict(mismatch_flags: &Vec<bool>) -> (v: SmokeVerdict)
    requires
        mismatch_flags@.len() <= u32::MAX,
    ensures
        v.mismatch_count == spec_count_true(mismatch_flags@),
        v.ok <==> v.mismatch_count == 0,
        v.ok <==> (forall|i: int| 0 <= i < mismatch_flags@.len() ==> !mismatch_flags@[i]),
{
    proof {
        lemma_count_true_le_len(mismatch_flags@);
        lemma_count_true_zero_iff_none(mismatch_flags@);
    }
    let count = count_true(mismatch_flags);
    SmokeVerdict { mismatch_count: count as u32, ok: count == 0 }
}

/// The four sampled positions reported with a smoke response: the two
/// first elements, element ten (or the last, on tiny runs), and the
/// last element.
pub fn sample_positions(len: usize) -> (r: Vec<usize>)
    requires
        len >= 2,
    ensures
        r@.len() == 4,
        r@[0] == 0,
        r@[1] == 1,
        r@[2] == if len - 1 < 10 { len - 1 } else { 10int },
        r@[3] == len - 1,
        forall|i: int| 0 <= i < 4 ==> r@[i] < len,
{
    let third = if len - 1 < 10 {
        len - 1
    } else {
        10
    };
    let mut r: Vec<usize> = Vec::new();
    r.push(0);
    r.push(1);
    r.push(third);
    r.push(len - 1);
    r
}

/// The sizes a sweep runs over: the requested list, or the standard
/// fallback ladder when the request names none.
pub fn sweep_sizes(sizes: Vec<u32>) -> (r: Vec<u32>)
    ensures
        sizes@.len() == 0 ==> r@ == seq![1024u32, 4096u32, 16384u32, 65536u32],
        sizes@.len() > 0 ==> r@ == sizes@,
{
    if sizes.len() == 0 {
        let mut r: Vec<u32> = Vec::new();
        r.push(1024);
        r.push(4096);
        r.push(16384);
        r.push(65536);
        assert(r@ == seq![1024u32, 4096u32, 16384u32, 65536u32]);
        r
    } else {
        sizes
    }
}

/// Workgroups dispatched for a smoke run, which uses 64-wide groups.
pub fn smoke_workgroups(n: u32) -> (r: u32)
    ensures
        r == crate::plan::spec_group_count(n as int, 64),
{
    n / 64 + if n % 64 != 0 {
        1
    } else {
        0
    }
}

} // verus!
