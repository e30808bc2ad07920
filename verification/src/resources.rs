use vstd::prelude::*;
use crate::plan::DispatchPlan;

verus! {

/// Bytes per stored element: every buffer holds unsigned 32-bit values.
pub const ELEMENT_SIZE: u64 = 4;

/// Capability flags a buffer is created with. An operation against a buffer is
/// legal only if the matching flag is set; the flags must therefore be a
/// superset of every operation the run performs on the buffer.
#[derive(Clone, Copy, Debug, PartialEq, Eq, Structural)]
pub struct BufferUsage {
    /// Readable or writable by the kernel as a storage binding.
    pub storage: bool,
    /// Legal source of a device-side copy.
    pub copy_src: bool,
    /// Legal destination of an upload or a device-side copy.
    pub copy_dst: bool,
    /// Mappable for host reads.
    pub map_read: bool,
}

impl BufferUsage {
    /// Whether these flags cover every operation in `needed`.
    pub open spec fn covers(self, needed: BufferUsage) -> bool {
        &&& needed.storage ==> self.storage
        &&& needed.copy_src ==> self.copy_src
        &&& needed.copy_dst ==> self.copy_dst
        &&& needed.map_read ==> self.map_read
    }
}

/// The three buffer roles every run creates.
#[derive(Clone, Copy, Debug, PartialEq, Eq, Structural)]
pub enum BufferRole {
    /// Written once from the host at creation, read-only for the kernel.
    Input,
    /// Written by the kernel, then read as the source of the readback copy.
    Partial,
    /// Destination of the readback copy, mapped by the host for reading.
    Staging,
}

/// The operations a run performs on a buffer of each role.
pub open spec fn operations_of(role: BufferRole) -> BufferUsage {
    match role {
        BufferRole::Input => BufferUsage {
            storage: true,
            copy_src: false,
            copy_dst: true,
            map_read: false,
        },
        BufferRole::Partial => BufferUsage {
            storage: true,
            copy_src: true,
            copy_dst: false,
            map_read: false,
        },
        BufferRole::Staging => BufferUsage {
            storage: false,
            copy_src: false,
            copy_dst: true,
            map_read: true,
        },
    }
}

/// A planned device buffer: its role, its byte length, and the capability
/// flags it must be created with.
#[derive(Clone, Copy, Debug, PartialEq, Eq, Structural)]
pub struct BufferSpec {
    pub role: BufferRole,
    pub size_bytes: u64,
    pub usage: BufferUsage,
}

impl BufferSpec {
    /// The construction-time contract: declared flags cover every operation
    /// the role performs, and the length is a whole number of elements.
    pub open spec fn wf(self) -> bool {
        &&& self.usage.covers(operations_of(self.role))
        &&& self.size_bytes % ELEMENT_SIZE == 0
    }

    /// How many elements the buffer holds.
    pub open spec fn element_count(self) -> int {
        self.size_bytes as int / ELEMENT_SIZE as int
    }
}

/// The full resource set of one run.
#[derive(Clone, Copy, Debug)]
pub struct ResourcePlan {
    pub input: BufferSpec,
    pub partial: BufferSpec,
    pub staging: BufferSpec,
}

/// Size the three buffers of a run. The partial buffer holds one element per
/// workgroup, and the staging buffer is exactly as large as the partial
/// buffer, so the readback copy can never truncate.
pub fn plan_buffers(plan: &DispatchPlan) -> (r: ResourcePlan)
    requires
        plan.wf(),
    ensures
        r.input.role == BufferRole::Input && r.input.wf(),
        r.partial.role == BufferRole::Partial && r.partial.wf(),
        r.staging.role == BufferRole::Staging && r.staging.wf(),
        r.input.usage == operations_of(BufferRole::Input),
        r.partial.usage == operations_of(BufferRole::Partial),
        r.staging.usage == operations_of(BufferRole::Staging),
        r.input.size_bytes == plan.total_elements as int * ELEMENT_SIZE,
        r.partial.size_bytes == plan.group_count as int * ELEMENT_SIZE,
        r.staging.size_bytes == r.partial.size_bytes,
        r.partial.element_count() == plan.group_count,
{
    let input = BufferSpec {
        role: BufferRole::Input,
        size_bytes: (plan.total_elements as u64) * ELEMENT_SIZE,
        usage: BufferUsage { storage: true, copy_src: false, copy_dst: true, map_read: false },
    };
    let partial_size = (plan.group_count as u64) * ELEMENT_SIZE;
    let partial = BufferSpec {
        role: BufferRole::Partial,
        size_bytes: partial_size,
        usage: BufferUsage { storage: true, copy_src: true, copy_dst: false, map_read: false },
    };
    let staging = BufferSpec {
        role: BufferRole::Staging,
        size_bytes: partial_size,
        usage: BufferUsage { storage: false, copy_src: false, copy_dst: true, map_read: true },
    };
    ResourcePlan { input, partial, staging }
}

} // verus!
