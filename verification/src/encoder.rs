use vstd::prelude::*;
use crate::plan::DispatchPlan;
use crate::resources::{BufferRole, ResourcePlan};

verus! {

/// One recorded device command.
#[derive(Clone, Copy, Debug, PartialEq, Eq, Structural)]
pub enum Command {
    /// Run the bound kernel with this many workgroups along one axis.
    Dispatch { groups: u32 },
    /// Device-side copy of `bytes` bytes from the start of the partial buffer
    /// into the start of the staging buffer.
    CopyPartialToStaging { bytes: u64 },
}

/// Record the single command sequence of a run: the compute invocation first,
/// then the copy of the full partial buffer into the staging buffer. The copy
/// is sized exactly to the partial buffer's byte length, so it neither
/// truncates the results nor overruns the staging buffer.
pub fn encode_commands(plan: &DispatchPlan, resources: &ResourcePlan) -> (r: Vec<Command>)
    requires
        plan.wf(),
        resources.partial.role == BufferRole::Partial,
        resources.staging.role == BufferRole::Staging,
        resources.partial.size_bytes == plan.group_count as int * crate::resources::ELEMENT_SIZE,
        resources.staging.size_bytes == resources.partial.size_bytes,
    ensures
        r@.len() == 2,
        r@[0] == (Command::Dispatch { groups: plan.group_count }),
        r@[1] == (Command::CopyPartialToStaging { bytes: resources.partial.size_bytes }),
{
    let mut commands: Vec<Command> = Vec::new();
    commands.push(Command::Dispatch { groups: plan.group_count });
    commands.push(Command::CopyPartialToStaging { bytes: resources.partial.size_bytes });
    commands
}

} // verus!
