use rendercore::adapter::{
    select_adapter, select_memory_type, select_queue_family, AdapterCaps, DeviceLimits,
    MemoryTypeInfo, QueueFamilyInfo, MEMORY_COHERENT, MEMORY_CPU_VISIBLE, MEMORY_DEVICE_LOCAL,
};
use rendercore::memory::{
    plan_allocation, AllocError, MemoryRequirements, ResourceLifecycle, ResourcePhase,
};

fn caps_with(types: Vec<MemoryTypeInfo>) -> AdapterCaps {
    AdapterCaps {
        memory_types: types,
        limits: DeviceLimits {
            framebuffer_color_samples: 0x7f,
            framebuffer_depth_samples: 0x7f,
            buffer_copy_pitch_alignment: 256,
        },
    }
}

#[test]
fn memory_type_picks_first_suitable() {
    let types = vec![
        MemoryTypeInfo { properties: MEMORY_DEVICE_LOCAL, heap_index: 0 },
        MemoryTypeInfo { properties: MEMORY_CPU_VISIBLE | MEMORY_COHERENT, heap_index: 1 },
        MemoryTypeInfo { properties: MEMORY_CPU_VISIBLE | MEMORY_COHERENT, heap_index: 1 },
    ];
    // Mask admits every type; require host-visible + coherent: index 1 is
    // the first that offers both.
    let r = select_memory_type(&types, 0b111, MEMORY_CPU_VISIBLE | MEMORY_COHERENT);
    assert_eq!(r, Some(1));
}

#[test]
fn memory_type_respects_type_mask() {
    let types = vec![
        MemoryTypeInfo { properties: MEMORY_DEVICE_LOCAL, heap_index: 0 },
        MemoryTypeInfo { properties: MEMORY_DEVICE_LOCAL, heap_index: 0 },
    ];
    // Only bit 1 of the requirement mask is set, so index 0 is barred even
    // though its properties suffice.
    let r = select_memory_type(&types, 0b10, MEMORY_DEVICE_LOCAL);
    assert_eq!(r, Some(1));
}

#[test]
fn memory_type_none_when_nothing_suits() {
    let types = vec![MemoryTypeInfo { properties: MEMORY_DEVICE_LOCAL, heap_index: 0 }];
    let r = select_memory_type(&types, 0b1, MEMORY_CPU_VISIBLE);
    assert_eq!(r, None);
    let caps = caps_with(types);
    let reqs = MemoryRequirements { size: 64, alignment: 16, type_mask: 0b1 };
    let plan = plan_allocation(&caps, &reqs, MEMORY_CPU_VISIBLE);
    assert_eq!(plan.unwrap_err(), AllocError::NoSuitableMemoryType);
}

#[test]
fn allocation_plan_takes_declared_size() {
    let types = vec![MemoryTypeInfo { properties: MEMORY_DEVICE_LOCAL, heap_index: 0 }];
    let caps = caps_with(types);
    let reqs = MemoryRequirements { size: 4096, alignment: 256, type_mask: 0b1 };
    let plan = plan_allocation(&caps, &reqs, MEMORY_DEVICE_LOCAL).unwrap();
    assert_eq!(plan.memory_type_index, 0);
    assert_eq!(plan.alloc_size, 4096);
}

#[test]
fn sample_count_is_highest_common_bit() {
    let caps = AdapterCaps {
        memory_types: Vec::new(),
        limits: DeviceLimits {
            framebuffer_color_samples: 0x7f,
            framebuffer_depth_samples: 0x1f,
            buffer_copy_pitch_alignment: 1,
        },
    };
    // min(0x7f, 0x1f) = 0x1f: bits up to 16 are set.
    assert_eq!(caps.get_max_usable_sample_count(), 16);
}

#[test]
fn sample_count_falls_back_to_one() {
    let caps = AdapterCaps {
        memory_types: Vec::new(),
        limits: DeviceLimits {
            framebuffer_color_samples: 0x1,
            framebuffer_depth_samples: 0x1,
            buffer_copy_pitch_alignment: 1,
        },
    };
    assert_eq!(caps.get_max_usable_sample_count(), 1);
}

#[test]
fn queue_family_first_graphics_and_present() {
    let families = vec![
        QueueFamilyInfo { supports_graphics: true, supports_present: false, max_queues: 4 },
        QueueFamilyInfo { supports_graphics: false, supports_present: true, max_queues: 4 },
        QueueFamilyInfo { supports_graphics: true, supports_present: true, max_queues: 1 },
        QueueFamilyInfo { supports_graphics: true, supports_present: true, max_queues: 8 },
    ];
    assert_eq!(select_queue_family(&families), Some(2));
}

#[test]
fn queue_family_none_is_fatal_capability_absence() {
    let families = vec![
        QueueFamilyInfo { supports_graphics: true, supports_present: true, max_queues: 0 },
        QueueFamilyInfo { supports_graphics: false, supports_present: false, max_queues: 2 },
    ];
    assert_eq!(select_queue_family(&families), None);
}

#[test]
fn adapter_selection_skips_unsuitable_adapters() {
    let no_present = vec![QueueFamilyInfo {
        supports_graphics: true,
        supports_present: false,
        max_queues: 4,
    }];
    let good = vec![
        QueueFamilyInfo { supports_graphics: false, supports_present: true, max_queues: 2 },
        QueueFamilyInfo { supports_graphics: true, supports_present: true, max_queues: 2 },
    ];
    let adapters = vec![no_present.clone(), good];
    assert_eq!(select_adapter(&adapters), Some((1, 1)));
    let hopeless = vec![no_present, Vec::new()];
    assert_eq!(select_adapter(&hopeless), None);
}

#[test]
fn resource_lifecycle_orders_destroy_before_free() {
    let mut r = ResourceLifecycle::new();
    assert_eq!(r.phase, ResourcePhase::Declared);
    r.bind_memory();
    assert!(r.is_usable());
    r.destroy_handle();
    assert_eq!(r.phase, ResourcePhase::HandleDestroyed);
    r.free_memory();
    assert_eq!(r.phase, ResourcePhase::Freed);
    assert!(!r.is_usable());
}
