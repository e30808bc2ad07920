use vstd::prelude::*;

verus! {

/// The failure taxonomy of a run. Every variant is terminal for the current
/// run: no error is retried or recovered locally, and each component surfaces
/// its failure upward unchanged.
#[derive(Clone, Copy, Debug, PartialEq, Eq, Structural)]
pub enum PipelineError {
    /// No adapter satisfied the minimal capability request.
    NoCapableDevice,
    /// Device memory for one of the buffers could not be allocated.
    AllocationFailure,
    /// The kernel source was malformed or referenced undeclared bindings.
    CompileError,
    /// The kernel's declared binding slots disagree with the fixed two-slot
    /// layout (slot arity or access mode).
    LayoutMismatch,
    /// The device disappeared while submitted work or a map request was
    /// pending, so the completion signal can never fire.
    DeviceLost,
    /// The map request completed, but with a denial.
    MapDenied,
    /// The divisibility precondition on the element count failed, before any
    /// device resource was touched.
    PreconditionViolation,
}

} // verus!
