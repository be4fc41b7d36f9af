//! Counting behind the reported statistics.
//!
//! After readback, the host derives scalar summaries from the fields.
//! The threshold tests themselves happen on the raw readback values in
//! the host harness; each test yields a flag, and the counts the
//! response reports — mismatching smoke elements, cells carrying
//! visible dye — are exact counts of those flags, computed here.

use vstd::prelude::*;

verus! {

/// Number of set flags in a sequence.
pub open spec fn spec_count_true(s: Seq<bool>) -> nat
    decreases s.len(),
{
    if s.len() == 0 {
        0
    } else {
        spec_count_true(s.drop_last()) + if s.last() {
            1nat
        } else {
            0nat
        }
    }
}

/// A count of flags never exceeds the number of flags.
pub proof fn lemma_count_true_le_len(s: Seq<bool>)
    ensures
        spec_count_true(s) <= s.len(),
    decreases s.len(),
{
    if s.len() > 0 {
        lemma_count_true_le_len(s.drop_last());
    }
}

/// The count is zero exactly when no flag is set.
pub proof fn lemma_count_true_zero_iff_none(s: Seq<bool>)
    ensures
        spec_count_true(s) == 0 <==> (forall|i: int| 0 <= i < s.len() ==> !s[i]),
    decreases s.len(),
{
    if s.len() > 0 {
        lemma_count_true_zero_iff_none(s.drop_last());
        assert(forall|i: int| 0 <= i < s.len() - 1 ==> s.drop_last()[i] == s[i]);
        assert(s.last() == s[s.len() - 1]);
    }
}

/// Count the set flags in a vector.
pub fn count_true(flags: &Vec<bool>) -> (r: usize)
    ensures
        r == spec_count_true(flags@),
{
    let mut count: usize = 0;
    let mut i: usize = 0;
    while i < flags.len()
        invariant
            i <= flags@.len(),
            count <= i,
            count == spec_count_true(flags@.take(i as int)),
        decreases flags@.len() - i,
    {
        if flags[i] {
            count = count + 1;
        }
        i = i + 1;
        proof {
            let taken = flags@.take(i as int);
            assert(taken.drop_last() =~= flags@.take(i as int - 1));
            assert(taken.last() == flags@[i as int - 1]);
        }
    }
    proof {
        assert(flags@.take(flags@.len() as int) =~= flags@);
    }
    count
}

/// Whether every flag is set: the conjunction the sweep response
/// reports over its runs.
pub fn all_true(flags: &Vec<bool>) -> (r: bool)
    ensures
        r <==> (forall|i: int| 0 <= i < flags@.len() ==> flags@[i]),
{
    let mut i: usize = 0;
    let mut ok = true;
    while i < flags.len()
        invariant
            i <= flags@.len(),
            ok <==> (forall|k: int| 0 <= k < i ==> flags@[k]),
        decreases flags@.len() - i,
    {
        if !flags[i] {
            ok = false;
        }
        i = i + 1;
    }
    ok
}

} // verus!
