//! Physical-adapter capabilities: the memory-type table, device limits, and
//! the selections the renderer makes against them at startup.

use vstd::prelude::*;

verus! {

/// Memory property flag: memory local to the device, fastest for GPU access.
pub const MEMORY_DEVICE_LOCAL: u32 = 0x1;

/// Memory property flag: memory the host can map and write.
pub const MEMORY_CPU_VISIBLE: u32 = 0x2;

/// Memory property flag: host writes become visible without explicit flushes.
pub const MEMORY_COHERENT: u32 = 0x4;

/// Memory property flag: memory cached on the host side.
pub const MEMORY_CPU_CACHED: u32 = 0x8;

/// One entry of the adapter's memory-type table.
#[derive(Clone, Copy, PartialEq, Eq, Structural, Debug)]
pub struct MemoryTypeInfo {
    /// Bitmask of the `MEMORY_*` property flags this type offers.
    pub properties: u32,
    /// Index of the memory heap this type allocates from.
    pub heap_index: u32,
}

/// The device limits the renderer consults.
#[derive(Clone, Copy, PartialEq, Eq, Structural, Debug)]
pub struct DeviceLimits {
    /// Supported color sample counts, one bit per power-of-two count.
    pub framebuffer_color_samples: u8,
    /// Supported depth sample counts, one bit per power-of-two count.
    pub framebuffer_depth_samples: u8,
    /// Required alignment of rows in buffer-image copies, in bytes.
    pub buffer_copy_pitch_alignment: u64,
}

/// Capability snapshot of the selected physical adapter. Recorded once at
/// startup; immutable afterwards.
pub struct AdapterCaps {
    pub memory_types: Vec<MemoryTypeInfo>,
    pub limits: DeviceLimits,
}

/// Whether memory type `i` with property mask `props` can back a resource
/// whose requirement mask is `type_mask` and whose caller demands the
/// `required` property flags: the type's bit is set in the requirement mask
/// and the property flags are a superset of the required ones.
pub open spec fn memory_type_suits(props: u32, type_mask: u32, i: u32, required: u32) -> bool {
    &&& type_mask & (1u32 << i) != 0
    &&& props & required == required
}

/// Index of the first memory type that both the resource's requirement mask
/// and the caller's required property flags admit; `None` when no type
/// qualifies (a capability error the renderer cannot recover from).
pub fn select_memory_type(
    memory_types: &Vec<MemoryTypeInfo>,
    type_mask: u32,
    required: u32,
) -> (r: Option<usize>)
    requires
        memory_types.len() <= 32,
    ensures
        match r {
            Some(i) => {
                &&& i < memory_types.len()
                &&& memory_type_suits(memory_types[i as int].properties, type_mask, i as u32, required)
                &&& forall|j: int| 0 <= j < i
                    ==> !memory_type_suits(memory_types[j].properties, type_mask, j as u32, required)
            },
            None => forall|j: int| 0 <= j < memory_types.len()
                ==> !memory_type_suits(memory_types[j].properties, type_mask, j as u32, required),
        },
{
    let n = memory_types.len();
    let mut i: usize = 0;
    while i < n
        invariant
            n == memory_types.len(),
            n <= 32,
            i <= n,
            forall|j: int| 0 <= j < i
                ==> !memory_type_suits(memory_types[j].properties, type_mask, j as u32, required),
        decreases n - i,
    {
        let suits = type_mask & (1u32 << (i as u32)) != 0
            && memory_types[i].properties & required == required;
        if suits {
            return Some(i);
        }
        i = i + 1;
    }
    None
}

/// Law: no resource is ever bound to a memory type lacking a required
/// property flag. Whenever a type suits a request, its requirement-mask bit
/// is set and every flag contained in the required mask is present in the
/// type's property mask.
pub proof fn lemma_selected_type_has_required_flags(
    props: u32,
    type_mask: u32,
    i: u32,
    required: u32,
)
    requires
        memory_type_suits(props, type_mask, i, required),
    ensures
        type_mask & (1u32 << i) != 0,
        forall|flag: u32| flag & required == flag ==> #[trigger] (props & flag) == flag,
{
    assert forall|flag: u32| flag & required == flag implies #[trigger] (props & flag) == flag by {
        assert(props & required == required && flag & required == flag ==> props & flag == flag)
            by (bit_vector);
    }
}

/// The sample-count mask that color and depth rendering both support.
pub open spec fn combined_sample_mask(limits: DeviceLimits) -> u8 {
    if limits.framebuffer_color_samples <= limits.framebuffer_depth_samples {
        limits.framebuffer_color_samples
    } else {
        limits.framebuffer_depth_samples
    }
}

/// The largest power-of-two sample count a support mask admits, found by a
/// descending check 64, 32, 16, 8, 4, 2, falling back to 1.
pub open spec fn max_sample_count(counts: u8) -> u8 {
    if counts & 64 > 0 {
        64
    } else if counts & 32 > 0 {
        32
    } else if counts & 16 > 0 {
        16
    } else if counts & 8 > 0 {
        8
    } else if counts & 4 > 0 {
        4
    } else if counts & 2 > 0 {
        2
    } else {
        1
    }
}

/// Law: the descending check returns a maximal count — every larger
/// power-of-two bit is absent from the mask.
pub proof fn lemma_max_sample_count_is_maximal(counts: u8)
    ensures
        forall|b: u8| (b == 2 || b == 4 || b == 8 || b == 16 || b == 32 || b == 64)
            && b > max_sample_count(counts) ==> #[trigger] (counts & b) == 0,
{
}

impl AdapterCaps {
    /// The largest multisample count usable for both the color and the depth
    /// attachment: the highest power-of-two bit set in both limits' masks,
    /// or 1 when none is.
    pub fn get_max_usable_sample_count(&self) -> (r: u8)
        ensures
            r == max_sample_count(combined_sample_mask(self.limits)),
    {
        let counts = if self.limits.framebuffer_color_samples
            <= self.limits.framebuffer_depth_samples {
            self.limits.framebuffer_color_samples
        } else {
            self.limits.framebuffer_depth_samples
        };
        if counts & 64 > 0 {
            return 64;
        }
        if counts & 32 > 0 {
            return 32;
        }
        if counts & 16 > 0 {
            return 16;
        }
        if counts & 8 > 0 {
            return 8;
        }
        if counts & 4 > 0 {
            return 4;
        }
        if counts & 2 > 0 {
            return 2;
        }
        1
    }
}

/// What the renderer needs to know of one queue family.
#[derive(Clone, Copy, PartialEq, Eq, Structural, Debug)]
pub struct QueueFamilyInfo {
    /// Whether the family accepts graphics command submissions.
    pub supports_graphics: bool,
    /// Whether the family can present to the renderer's surface.
    pub supports_present: bool,
    /// How many queues the family offers.
    pub max_queues: usize,
}

/// Whether a queue family can drive this renderer: graphics-capable,
/// presentation-capable, and offering at least one queue.
pub open spec fn family_suits(f: QueueFamilyInfo) -> bool {
    f.supports_graphics && f.supports_present && 1 <= f.max_queues
}

/// Index of the first queue family that supports both graphics operations
/// and presentation to the surface; `None` when no family qualifies, which
/// the renderer treats as fatal — there is no fallback adapter policy.
pub fn select_queue_family(families: &Vec<QueueFamilyInfo>) -> (r: Option<usize>)
    ensures
        match r {
            Some(i) => {
                &&& i < families.len()
                &&& family_suits(families[i as int])
                &&& forall|j: int| 0 <= j < i ==> !family_suits(families[j])
            },
            None => forall|j: int| 0 <= j < families.len() ==> !family_suits(families[j]),
        },
{
    let n = families.len();
    let mut i: usize = 0;
    while i < n
        invariant
            n == families.len(),
            i <= n,
            forall|j: int| 0 <= j < i ==> !family_suits(families[j]),
        decreases n - i,
    {
        let f = &families[i];
        if f.supports_graphics && f.supports_present && 1 <= f.max_queues {
            return Some(i);
        }
        i = i + 1;
    }
    None
}

/// Index of the first adapter exposing a queue family that supports both
/// graphics operations and presentation to the surface, paired with the
/// index of the first such family on it. `None` means no adapter
/// qualifies — fatal, as there is no fallback adapter policy.
pub fn select_adapter(adapters: &Vec<Vec<QueueFamilyInfo>>) -> (r: Option<(usize, usize)>)
    ensures
        match r {
            Some((a, f)) => {
                &&& a < adapters.len()
                &&& f < adapters@[a as int]@.len()
                &&& family_suits(adapters@[a as int]@[f as int])
                &&& forall|j: int| 0 <= j < f ==> !family_suits(
                    #[trigger] adapters@[a as int]@[j],
                )
                &&& forall|i: int, j: int| 0 <= i < a && 0 <= j < adapters@[i]@.len()
                    ==> !family_suits(#[trigger] adapters@[i]@[j])
            },
            None => forall|i: int, j: int| 0 <= i < adapters.len() && 0 <= j < adapters@[i]@.len()
                ==> !family_suits(#[trigger] adapters@[i]@[j]),
        },
{
    let n = adapters.len();
    let mut i: usize = 0;
    while i < n
        invariant
            n == adapters@.len(),
            i <= n,
            forall|a: int, j: int| 0 <= a < i && 0 <= j < adapters@[a]@.len()
                ==> !family_suits(#[trigger] adapters@[a]@[j]),
        decreases n - i,
    {
        match select_queue_family(&adapters[i]) {
            Some(f) => {
                return Some((i, f));
            },
            None => {},
        }
        i = i + 1;
    }
    None
}

} // verus!
