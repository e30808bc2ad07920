use vstd::prelude::*;
use crate::error::PipelineError;

verus! {

/// The device session's acceptance decision. The caller reports whether any
/// adapter satisfied the minimal capability request and granted a device;
/// if none did, the run fails with `NoCapableDevice` and is not retried.
pub fn confirm_acquisition(device_granted: bool) -> (r: Result<(), PipelineError>)
    ensures
        r is Ok <==> device_granted,
        !device_granted ==> r == Err::<(), PipelineError>(PipelineError::NoCapableDevice),
{
    if device_granted {
        Ok(())
    } else {
        Err(PipelineError::NoCapableDevice)
    }
}

/// The resource set's acceptance decision: an out-of-memory report from the
/// device is surfaced as a fatal `AllocationFailure`.
pub fn confirm_allocation(allocated: bool) -> (r: Result<(), PipelineError>)
    ensures
        r is Ok <==> allocated,
        !allocated ==> r == Err::<(), PipelineError>(PipelineError::AllocationFailure),
{
    if allocated {
        Ok(())
    } else {
        Err(PipelineError::AllocationFailure)
    }
}

/// The kernel binding's acceptance decision for the compile step: a kernel
/// source the device could not compile is a fatal `CompileError`, treated as a
/// programmer error and never retried.
pub fn confirm_compile(compiled: bool) -> (r: Result<(), PipelineError>)
    ensures
        r is Ok <==> compiled,
        !compiled ==> r == Err::<(), PipelineError>(PipelineError::CompileError),
{
    if compiled {
        Ok(())
    } else {
        Err(PipelineError::CompileError)
    }
}

} // verus!
