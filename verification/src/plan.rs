use vstd::prelude::*;
use crate::error::PipelineError;

verus! {

/// Number of input elements each workgroup reduces into one partial value.
pub const ELEMENTS_PER_WORKGROUP: u32 = 64;

/// A dispatch plan: the total element count, the per-workgroup chunk size, and
/// the derived workgroup count. A plan exists only when the chunking is exact,
/// so no ragged final group can ever reach the encoder.
#[derive(Clone, Copy, Debug)]
pub struct DispatchPlan {
    pub total_elements: u32,
    pub elements_per_workgroup: u32,
    pub group_count: u32,
}

impl DispatchPlan {
    /// The plan invariant: the element count divides evenly into
    /// workgroup-sized chunks and the group count is exactly the quotient.
    pub open spec fn wf(self) -> bool {
        &&& self.elements_per_workgroup > 0
        &&& self.total_elements % self.elements_per_workgroup == 0
        &&& self.group_count == self.total_elements / self.elements_per_workgroup
    }
}

/// Derive the workgroup count for `total_elements`, rejecting any count that
/// does not divide evenly into `elements_per_workgroup`-sized chunks. The
/// rejection happens here, before any device resource is allocated.
pub fn plan_dispatch(total_elements: u32, elements_per_workgroup: u32) -> (r: Result<
    DispatchPlan,
    PipelineError,
>)
    ensures
        r is Ok <==> elements_per_workgroup > 0 && total_elements % elements_per_workgroup == 0,
        r matches Ok(p) ==> p.wf() && p.total_elements == total_elements
            && p.elements_per_workgroup == elements_per_workgroup,
        r is Err ==> r == Err::<DispatchPlan, PipelineError>(PipelineError::PreconditionViolation),
{
    if elements_per_workgroup == 0 || total_elements % elements_per_workgroup != 0 {
        Err(PipelineError::PreconditionViolation)
    } else {
        Ok(
            DispatchPlan {
                total_elements,
                elements_per_workgroup,
                group_count: total_elements / elements_per_workgroup,
            },
        )
    }
}

/// Host input for the canonical reduction run: the consecutive values `1..=n`.
pub fn make_input(n: u32) -> (r: Vec<u32>)
    ensures
        r@.len() == n,
        forall|i: int| 0 <= i < n ==> r@[i] == i + 1,
{
    let mut v: Vec<u32> = Vec::new();
    let mut i: u32 = 0;
    while i < n
        invariant
            i <= n,
            v@.len() == i,
            forall|j: int| 0 <= j < i ==> v@[j] == j + 1,
        decreases n - i,
    {
        v.push(i + 1);
        i = i + 1;
    }
    v
}

} // verus!
