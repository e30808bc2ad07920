use vstd::prelude::*;
use crate::plan::DispatchPlan;
use crate::reduce::{expected_total, reduce_and_verify, sum_of};

verus! {

/// How many leading partial values the run report shows.
pub const REPORT_PARTIALS_SHOWN: usize = 16;

/// The per-run report: the workgroup count, the first partial values (at most
/// `REPORT_PARTIALS_SHOWN`), the total summed from the returned partials, the
/// analytically expected total, and whether the two agree.
#[derive(Clone, Debug)]
pub struct RunReport {
    pub group_count: u32,
    pub first_partials: Vec<u32>,
    pub total: u64,
    pub expected: u64,
    pub matched: bool,
}

/// The number of leading partials a report shows for a run of `len` partials.
pub open spec fn shown_count(len: nat) -> int {
    if len < REPORT_PARTIALS_SHOWN {
        len as int
    } else {
        REPORT_PARTIALS_SHOWN as int
    }
}

/// Assemble the report of a run from its plan and the partial values the
/// readback returned. The expected value comes from the closed form, not from
/// the summation path it cross-checks.
pub fn summarize_run(plan: &DispatchPlan, partials: &Vec<u32>) -> (r: RunReport)
    requires
        plan.wf(),
        partials@.len() <= 0x1_0000_0000,
    ensures
        r.group_count == plan.group_count,
        r.total == sum_of(partials@),
        r.expected == plan.total_elements * (plan.total_elements + 1 as int) / 2,
        r.matched <==> sum_of(partials@) == r.expected,
        r.first_partials@ == partials@.take(shown_count(partials@.len())),
{
    let expected = expected_total(plan.total_elements);
    let (total, matched) = reduce_and_verify(partials, expected);
    let limit: usize = if partials.len() < REPORT_PARTIALS_SHOWN {
        partials.len()
    } else {
        REPORT_PARTIALS_SHOWN
    };
    let mut first_partials: Vec<u32> = Vec::new();
    let mut i: usize = 0;
    while i < limit
        invariant
            i <= limit,
            limit <= partials@.len(),
            first_partials@ == partials@.take(i as int),
        decreases limit - i,
    {
        proof {
            assert(partials@.take(i + 1 as int) =~= partials@.take(i as int).push(
                partials@[i as int],
            ));
        }
        first_partials.push(partials[i]);
        i = i + 1;
    }
    RunReport { group_count: plan.group_count, first_partials, total, expected, matched }
}

} // verus!
