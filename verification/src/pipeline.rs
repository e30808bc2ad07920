use vstd::prelude::*;
use crate::binding::{bind, layout_matches, DispatchableUnit, KernelInterface};
use crate::encoder::{encode_commands, Command};
use crate::error::PipelineError;
use crate::plan::{make_input, plan_dispatch, DispatchPlan};
use crate::resources::{plan_buffers, ResourcePlan};

verus! {

/// Everything the host decides before the first device call: the dispatch
/// plan, the populated input, the sized and flagged buffers, the validated
/// dispatchable unit, and the command sequence to record.
#[derive(Clone, Debug)]
pub struct PreparedRun {
    pub plan: DispatchPlan,
    pub input_values: Vec<u32>,
    pub resources: ResourcePlan,
    pub unit: DispatchableUnit,
    pub commands: Vec<Command>,
}

/// Make every host-side decision of a run, in order: check the divisibility
/// precondition, build the input `1..=n`, size the buffers, and validate the
/// kernel's binding interface. The precondition is checked first, so an
/// indivisible count fails before anything else is even considered; a kernel
/// whose interface disagrees with the fixed two-slot layout fails next. Only
/// a fully decided run reaches the device.
pub fn prepare_run(
    total_elements: u32,
    elements_per_workgroup: u32,
    kernel: &KernelInterface,
) -> (r: Result<PreparedRun, PipelineError>)
    ensures
        r is Ok <==> elements_per_workgroup > 0 && total_elements % elements_per_workgroup == 0
            && layout_matches(*kernel),
        (elements_per_workgroup == 0 || total_elements % elements_per_workgroup != 0) ==> r
            == Err::<PreparedRun, PipelineError>(PipelineError::PreconditionViolation),
        elements_per_workgroup > 0 && total_elements % elements_per_workgroup == 0
            && !layout_matches(*kernel) ==> r == Err::<PreparedRun, PipelineError>(
            PipelineError::LayoutMismatch,
        ),
        r matches Ok(p) ==> {
            &&& p.plan.wf()
            &&& p.plan.total_elements == total_elements
            &&& p.plan.elements_per_workgroup == elements_per_workgroup
            &&& p.input_values@.len() == total_elements
            &&& (forall|i: int| 0 <= i < total_elements ==> p.input_values@[i] == i + 1)
            &&& p.resources.partial.element_count() == p.plan.group_count
            &&& p.resources.staging.size_bytes == p.resources.partial.size_bytes
            &&& p.commands@.len() == 2
            &&& p.commands@[0] == (Command::Dispatch { groups: p.plan.group_count })
            &&& p.commands@[1] == (Command::CopyPartialToStaging {
                bytes: p.resources.partial.size_bytes,
            })
        },
{
    let plan = match plan_dispatch(total_elements, elements_per_workgroup) {
        Ok(plan) => plan,
        Err(cause) => {
            return Err(cause);
        },
    };
    let input_values = make_input(total_elements);
    let resources = plan_buffers(&plan);
    let unit = match bind(kernel, &resources.input, &resources.partial) {
        Ok(unit) => unit,
        Err(cause) => {
            return Err(cause);
        },
    };
    let commands = encode_commands(&plan, &resources);
    Ok(PreparedRun { plan, input_values, resources, unit, commands })
}

} // verus!
