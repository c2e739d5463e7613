//! Memory-typed resource allocation: planning which memory type backs a
//! buffer or image, and the strict destroy-handle-then-free-memory lifecycle
//! of every resource/memory pair.

use vstd::prelude::*;
use crate::adapter::{AdapterCaps, memory_type_suits};

verus! {

/// Buffer usage flag: source of transfer commands.
pub const BUFFER_USAGE_TRANSFER_SRC: u32 = 0x1;

/// Buffer usage flag: destination of transfer commands.
pub const BUFFER_USAGE_TRANSFER_DST: u32 = 0x2;

/// Buffer usage flag: uniform buffer read by shaders.
pub const BUFFER_USAGE_UNIFORM: u32 = 0x10;

/// Buffer usage flag: index buffer for indexed draws.
pub const BUFFER_USAGE_INDEX: u32 = 0x40;

/// Buffer usage flag: vertex buffer.
pub const BUFFER_USAGE_VERTEX: u32 = 0x80;

/// Image usage flag: source of transfer commands (mip blit source).
pub const IMAGE_USAGE_TRANSFER_SRC: u32 = 0x1;

/// Image usage flag: destination of transfer commands.
pub const IMAGE_USAGE_TRANSFER_DST: u32 = 0x2;

/// Image usage flag: sampled by shaders.
pub const IMAGE_USAGE_SAMPLED: u32 = 0x4;

/// Image usage flag: color attachment of a render pass.
pub const IMAGE_USAGE_COLOR_ATTACHMENT: u32 = 0x10;

/// Image usage flag: depth-stencil attachment of a render pass.
pub const IMAGE_USAGE_DEPTH_STENCIL_ATTACHMENT: u32 = 0x20;

/// Image usage flag: transient attachment that never leaves tile memory.
pub const IMAGE_USAGE_TRANSIENT_ATTACHMENT: u32 = 0x40;

/// What the device reports a resource needs of its backing memory. A memory
/// block is allocated only after the owning resource has declared these.
#[derive(Clone, Copy, PartialEq, Eq, Structural, Debug)]
pub struct MemoryRequirements {
    /// Required size of the backing block, in bytes.
    pub size: u64,
    /// Required alignment of the block's offset, in bytes.
    pub alignment: u64,
    /// One bit per memory-type index the resource accepts.
    pub type_mask: u32,
}

/// The allocator's failure: the memory-type table offers no type that both
/// the resource's requirement mask and the caller's property flags admit.
/// A configuration error — not recoverable by retry.
#[derive(Clone, Copy, PartialEq, Eq, Structural, Debug)]
pub enum AllocError {
    NoSuitableMemoryType,
}

/// The allocation an eligible resource gets: a block of the declared size on
/// the first suitable memory type.
#[derive(Clone, Copy, PartialEq, Eq, Structural, Debug)]
pub struct AllocPlan {
    /// Index into the adapter's memory-type table.
    pub memory_type_index: usize,
    /// Size of the block to allocate, as the requirements declared it.
    pub alloc_size: u64,
}

/// Plan the memory block for a resource: take the device-declared
/// requirements and the caller's required property flags, and pick the first
/// memory type whose requirement-mask bit is set and whose properties are a
/// superset of the required flags. Fails exactly when no type qualifies.
pub fn plan_allocation(
    caps: &AdapterCaps,
    reqs: &MemoryRequirements,
    required_properties: u32,
) -> (r: Result<AllocPlan, AllocError>)
    requires
        caps.memory_types.len() <= 32,
    ensures
        match r {
            Ok(plan) => {
                &&& plan.alloc_size == reqs.size
                &&& plan.memory_type_index < caps.memory_types.len()
                &&& memory_type_suits(
                    caps.memory_types[plan.memory_type_index as int].properties,
                    reqs.type_mask,
                    plan.memory_type_index as u32,
                    required_properties,
                )
                &&& forall|j: int| 0 <= j < plan.memory_type_index
                    ==> !memory_type_suits(
                        caps.memory_types[j].properties,
                        reqs.type_mask,
                        j as u32,
                        required_properties,
                    )
            },
            Err(e) => {
                &&& e == AllocError::NoSuitableMemoryType
                &&& forall|j: int| 0 <= j < caps.memory_types.len()
                    ==> !memory_type_suits(
                        caps.memory_types[j].properties,
                        reqs.type_mask,
                        j as u32,
                        required_properties,
                    )
            },
        },
{
    match crate::adapter::select_memory_type(&caps.memory_types, reqs.type_mask, required_properties) {
        Some(i) => Ok(AllocPlan { memory_type_index: i, alloc_size: reqs.size }),
        None => Err(AllocError::NoSuitableMemoryType),
    }
}

/// The byte size of a payload of `count` elements of `stride` bytes each,
/// or `None` when the product does not fit the device's size type.
pub fn payload_size(count: u64, stride: u64) -> (r: Option<u64>)
    ensures
        match r {
            Some(size) => size == count * stride,
            None => count * stride > u64::MAX,
        },
{
    count.checked_mul(stride)
}

/// The two buffers a staged upload allocates: a host-visible, coherent
/// staging buffer usable as a transfer source, and a device-local
/// destination usable as a transfer destination plus whatever the payload
/// is for (vertex, index, texture bytes), both of the payload's size.
#[derive(Clone, Copy, PartialEq, Eq, Structural, Debug)]
pub struct StagedBufferPlan {
    /// Size of both buffers, in bytes.
    pub size: u64,
    /// Usage flags of the staging buffer.
    pub staging_usage: u32,
    /// Required memory properties of the staging buffer.
    pub staging_properties: u32,
    /// Usage flags of the device-local destination.
    pub dst_usage: u32,
    /// Required memory properties of the destination.
    pub dst_properties: u32,
}

/// Plan a staged upload of `size` bytes into a device-local buffer that
/// will additionally be used as `dst_usage` names.
pub fn staged_buffer_plan(size: u64, dst_usage: u32) -> (r: StagedBufferPlan)
    ensures
        r.size == size,
        r.staging_usage == BUFFER_USAGE_TRANSFER_SRC,
        r.staging_properties == crate::adapter::MEMORY_CPU_VISIBLE | crate::adapter::MEMORY_COHERENT,
        r.dst_usage == BUFFER_USAGE_TRANSFER_DST | dst_usage,
        r.dst_properties == crate::adapter::MEMORY_DEVICE_LOCAL,
{
    StagedBufferPlan {
        size,
        staging_usage: BUFFER_USAGE_TRANSFER_SRC,
        staging_properties: crate::adapter::MEMORY_CPU_VISIBLE | crate::adapter::MEMORY_COHERENT,
        dst_usage: BUFFER_USAGE_TRANSFER_DST | dst_usage,
        dst_properties: crate::adapter::MEMORY_DEVICE_LOCAL,
    }
}

/// The single host-visible buffer a per-frame uniform block lives in: no
/// staging, mutated in place each frame through a mapped write.
#[derive(Clone, Copy, PartialEq, Eq, Structural, Debug)]
pub struct UniformBufferPlan {
    /// Size of the uniform block, in bytes.
    pub size: u64,
    pub usage: u32,
    pub properties: u32,
}

/// Plan the uniform buffer for one swapchain image.
pub fn uniform_buffer_plan(size: u64) -> (r: UniformBufferPlan)
    ensures
        r.size == size,
        r.usage == BUFFER_USAGE_UNIFORM,
        r.properties == crate::adapter::MEMORY_CPU_VISIBLE | crate::adapter::MEMORY_COHERENT,
{
    UniformBufferPlan {
        size,
        usage: BUFFER_USAGE_UNIFORM,
        properties: crate::adapter::MEMORY_CPU_VISIBLE | crate::adapter::MEMORY_COHERENT,
    }
}

/// The phases a resource/memory pair passes through. The order is strict:
/// the handle is created and declares its requirements, memory is bound,
/// the handle is destroyed, and only then is the memory block freed.
#[derive(Clone, Copy, PartialEq, Eq, Structural, Debug)]
pub enum ResourcePhase {
    /// Handle created; memory requirements declared; no block bound yet.
    Declared,
    /// A memory block is bound; the resource is usable.
    Bound,
    /// The handle was destroyed; the block is still allocated.
    HandleDestroyed,
    /// The block was freed; nothing of the pair remains.
    Freed,
}

/// Tracks one resource/memory pair through teardown. Its operations encode
/// the device's ordering rules: freeing memory before destroying the handle,
/// or repeating either step, is a use-after-free or double-free on the
/// device, so each transition demands the exact prior phase.
pub struct ResourceLifecycle {
    pub phase: ResourcePhase,
}

impl ResourceLifecycle {
    /// A freshly created resource handle with declared requirements.
    pub fn new() -> (r: ResourceLifecycle)
        ensures
            r.phase == ResourcePhase::Declared,
    {
        ResourceLifecycle { phase: ResourcePhase::Declared }
    }

    /// Bind the allocated block to the resource. Allowed only after the
    /// resource declared its requirements, and before any use.
    pub fn bind_memory(&mut self)
        requires
            old(self).phase == ResourcePhase::Declared,
        ensures
            final(self).phase == ResourcePhase::Bound,
    {
        self.phase = ResourcePhase::Bound;
    }

    /// Destroy the buffer or image handle. Must happen exactly once, and
    /// strictly before the backing memory is freed.
    pub fn destroy_handle(&mut self)
        requires
            old(self).phase == ResourcePhase::Bound,
        ensures
            final(self).phase == ResourcePhase::HandleDestroyed,
    {
        self.phase = ResourcePhase::HandleDestroyed;
    }

    /// Free the backing memory block. Must happen exactly once, and strictly
    /// after the owning handle was destroyed — never before.
    pub fn free_memory(&mut self)
        requires
            old(self).phase == ResourcePhase::HandleDestroyed,
        ensures
            final(self).phase == ResourcePhase::Freed,
    {
        self.phase = ResourcePhase::Freed;
    }

    /// Whether the resource can still be used in command recording.
    pub fn is_usable(&self) -> (r: bool)
        ensures
            r == (self.phase == ResourcePhase::Bound),
    {
        matches!(self.phase, ResourcePhase::Bound)
    }
}

/// The teardown operations a resource/memory pair accepts.
#[derive(Clone, Copy, PartialEq, Eq, Structural, Debug)]
pub enum TeardownOp {
    /// Destroy the buffer or image handle.
    DestroyHandle,
    /// Free the backing memory block.
    FreeMemory,
}

/// The phase after applying `op` in phase `p`, or `None` when the device's
/// ordering rules forbid the operation there.
pub open spec fn teardown_step(p: ResourcePhase, op: TeardownOp) -> Option<ResourcePhase> {
    match (p, op) {
        (ResourcePhase::Bound, TeardownOp::DestroyHandle) => Some(ResourcePhase::HandleDestroyed),
        (ResourcePhase::HandleDestroyed, TeardownOp::FreeMemory) => Some(ResourcePhase::Freed),
        _ => None,
    }
}

/// The phase after applying a whole operation sequence, or `None` as soon as
/// one operation is forbidden.
pub open spec fn teardown_run(p: ResourcePhase, ops: Seq<TeardownOp>) -> Option<ResourcePhase>
    decreases ops.len(),
{
    if ops.len() == 0 {
        Some(p)
    } else {
        match teardown_step(p, ops[0]) {
            Some(q) => teardown_run(q, ops.skip(1)),
            None => None,
        }
    }
}

/// Law: there is exactly one accepted teardown of a bound resource/memory
/// pair. Any operation sequence the ordering rules accept from `Bound` that
/// ends with the memory freed destroys the handle first and frees the block
/// second, each exactly once — no reordering, no skipped step, no
/// double-free.
pub proof fn lemma_single_valid_teardown(ops: Seq<TeardownOp>)
    requires
        teardown_run(ResourcePhase::Bound, ops) == Some(ResourcePhase::Freed),
    ensures
        ops =~= seq![TeardownOp::DestroyHandle, TeardownOp::FreeMemory],
{
    assert(ops.len() != 0);
    let rest = ops.skip(1);
    assert(ops[0] == TeardownOp::DestroyHandle);
    assert(teardown_run(ResourcePhase::HandleDestroyed, rest) == Some(ResourcePhase::Freed));
    assert(rest.len() != 0);
    let rest2 = rest.skip(1);
    assert(rest[0] == TeardownOp::FreeMemory);
    assert(teardown_run(ResourcePhase::Freed, rest2) == Some(ResourcePhase::Freed));
    if rest2.len() != 0 {
        assert(teardown_step(ResourcePhase::Freed, rest2[0]) is None);
        assert(false);
    }
    assert(ops.len() == 2);
    assert(ops[1] == rest[0]);
}

} // verus!
