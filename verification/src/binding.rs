use vstd::prelude::*;
use crate::error::PipelineError;
use crate::resources::{BufferRole, BufferSpec};

verus! {

/// One binding slot a compiled kernel declares: its slot index and whether the
/// kernel only reads it.
#[derive(Clone, Copy, Debug, PartialEq, Eq, Structural)]
pub struct SlotDecl {
    pub binding: u32,
    pub read_only: bool,
}

/// The binding interface a compiled kernel exposes: its declared slots, in
/// slot order. The kernel itself stays an opaque compiled unit; only this
/// declared shape is checked against the layout the core dispatches with.
#[derive(Clone, Debug)]
pub struct KernelInterface {
    pub slots: Vec<SlotDecl>,
}

/// The fixed two-slot shape this core dispatches against: slot 0 is the
/// read-only input array, slot 1 the read-write partial array.
pub open spec fn layout_matches(k: KernelInterface) -> bool {
    &&& k.slots@.len() == 2
    &&& k.slots@[0] == (SlotDecl { binding: 0, read_only: true })
    &&& k.slots@[1] == (SlotDecl { binding: 1, read_only: false })
}

/// Kernel, layout and buffers linked into one dispatchable unit: the input
/// buffer stands in slot 0, the partial buffer in slot 1.
#[derive(Clone, Copy, Debug)]
pub struct DispatchableUnit {
    pub slot0: SlotDecl,
    pub slot1: SlotDecl,
    pub input: BufferSpec,
    pub partial: BufferSpec,
}

/// Check a kernel's declared binding interface against the fixed two-slot
/// layout and link it with the two storage buffers. A slot arity or access
/// mode that disagrees is a fatal `LayoutMismatch`: nothing is partially
/// bound, and the error is never retried.
pub fn bind(kernel: &KernelInterface, input: &BufferSpec, partial: &BufferSpec) -> (r: Result<
    DispatchableUnit,
    PipelineError,
>)
    requires
        input.wf() && input.role == BufferRole::Input,
        partial.wf() && partial.role == BufferRole::Partial,
    ensures
        r is Ok <==> layout_matches(*kernel),
        r matches Ok(u) ==> u.slot0 == kernel.slots@[0] && u.slot1 == kernel.slots@[1]
            && u.input == *input && u.partial == *partial,
        r is Err ==> r == Err::<DispatchableUnit, PipelineError>(PipelineError::LayoutMismatch),
{
    if kernel.slots.len() != 2 {
        return Err(PipelineError::LayoutMismatch);
    }
    let s0 = kernel.slots[0];
    let s1 = kernel.slots[1];
    if s0.binding != 0 || !s0.read_only {
        return Err(PipelineError::LayoutMismatch);
    }
    if s1.binding != 1 || s1.read_only {
        return Err(PipelineError::LayoutMismatch);
    }
    Ok(DispatchableUnit { slot0: s0, slot1: s1, input: *input, partial: *partial })
}

} // verus!
