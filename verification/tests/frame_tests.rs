use rendercore::frame::{
    AcquireOutcome, FrameSync, PresentOutcome, SlotPhase, FRAMES_IN_FLIGHT,
};
use rendercore::memory::{ResourceLifecycle, ResourcePhase};
use rendercore::staging::{read_back, staged_upload, write_bytes};

/// A test double for the device: it tracks, per frame slot, whether a
/// submission is outstanding, and panics on any overlapping use of a slot's
/// resources between a submit and the wait on that submit's fence.
struct DoubleDevice {
    outstanding: Vec<bool>,
    submits: usize,
    waits: usize,
}

impl DoubleDevice {
    fn new() -> DoubleDevice {
        DoubleDevice { outstanding: vec![false; FRAMES_IN_FLIGHT], submits: 0, waits: 0 }
    }

    fn wait_fence(&mut self, slot: usize) {
        self.outstanding[slot] = false;
        self.waits += 1;
    }

    fn submit(&mut self, slot: usize) {
        assert!(!self.outstanding[slot], "slot resources reused while a submission is in flight");
        self.outstanding[slot] = true;
        self.submits += 1;
    }
}

#[test]
fn fresh_frame_loop_starts_drained() {
    let f = FrameSync::new();
    assert_eq!(f.frame_number, 0);
    assert_eq!(f.slots.len(), FRAMES_IN_FLIGHT);
    for s in &f.slots {
        assert_eq!(*s, SlotPhase::Free);
    }
}

#[test]
fn frame_slots_alternate() {
    let mut f = FrameSync::new();
    assert_eq!(f.slot_index(), 0);
    assert!(f.run_frame(AcquireOutcome::Image(0), PresentOutcome::Presented));
    assert_eq!(f.slot_index(), 1);
    assert!(f.run_frame(AcquireOutcome::Image(1), PresentOutcome::Presented));
    assert_eq!(f.slot_index(), 0);
}

#[test]
fn acquire_out_of_date_aborts_without_submission() {
    let mut f = FrameSync::new();
    let ok = f.run_frame(AcquireOutcome::OutOfDate, PresentOutcome::Presented);
    assert!(!ok);
    assert_eq!(f.frame_number, 0);
    assert_eq!(f.slots[0], SlotPhase::Free);
}

#[test]
fn present_out_of_date_aborts_after_submission() {
    let mut f = FrameSync::new();
    let ok = f.run_frame(AcquireOutcome::Image(0), PresentOutcome::OutOfDate);
    assert!(!ok);
    assert_eq!(f.frame_number, 0);
    assert_eq!(f.slots[0], SlotPhase::Pending);
}

#[test]
fn suboptimal_present_counts_as_failure() {
    let mut f = FrameSync::new();
    let ok = f.run_frame(AcquireOutcome::Image(0), PresentOutcome::Suboptimal);
    assert!(!ok);
    assert_eq!(f.frame_number, 0);
}

#[test]
fn fence_discipline_under_double_device() {
    // Drive the granular per-frame steps against the tracking device: the
    // wait-before-submit order must keep any slot from overlapping itself.
    let mut f = FrameSync::new();
    let mut dev = DoubleDevice::new();
    for _ in 0..240 {
        let slot = f.slot_index();
        f.wait_current_fence();
        dev.wait_fence(slot);
        f.submit_current();
        dev.submit(slot);
        assert!(f.finish_present(PresentOutcome::Presented));
    }
    assert_eq!(dev.submits, 240);
    assert_eq!(dev.waits, 240);
}

#[test]
fn quad_scenario_renders_120_frames() {
    // A 2-triangle quad: 4 vertices of 8 floats (position, color, texture
    // coordinates), 6 indices forming two triangles.
    let quad: [[f32; 8]; 4] = [
        [-0.5, -0.5, 0.0, 1.0, 1.0, 1.0, 0.0, 0.0],
        [0.5, -0.5, 0.0, 1.0, 1.0, 1.0, 1.0, 0.0],
        [0.5, 0.5, 0.0, 1.0, 1.0, 1.0, 1.0, 1.0],
        [-0.5, 0.5, 0.0, 1.0, 1.0, 1.0, 0.0, 1.0],
    ];
    let indices: [u32; 6] = [0, 1, 2, 2, 3, 0];

    let mut vertex_bytes: Vec<u8> = Vec::new();
    for v in &quad {
        for x in v {
            vertex_bytes.extend_from_slice(&x.to_le_bytes());
        }
    }
    let mut index_bytes: Vec<u8> = Vec::new();
    for i in &indices {
        index_bytes.extend_from_slice(&i.to_le_bytes());
    }

    // Upload both through the staged-transfer path; the device-local
    // contents must be the original payloads.
    let vertex_buffer = staged_upload(&vertex_bytes);
    let index_buffer = staged_upload(&index_bytes);
    assert_eq!(vertex_buffer.len(), 4 * 32);
    assert_eq!(read_back(&vertex_buffer, 0, vertex_buffer.len()), vertex_bytes);
    assert_eq!(read_back(&index_buffer, 0, index_buffer.len()), index_bytes);

    // One uniform buffer per frame slot, mutated in place each frame.
    let mut uniforms: Vec<Vec<u8>> = vec![vec![0u8; 64]; FRAMES_IN_FLIGHT];

    let mut f = FrameSync::new();
    let mut dev = DoubleDevice::new();
    let mut last_frame = f.frame_number;
    for n in 0..120u64 {
        assert_eq!(f.frame_number, n);
        let slot = f.slot_index();
        f.wait_current_fence();
        dev.wait_fence(slot);
        // The per-frame uniform write happens only after the slot's fence
        // was waited on.
        write_bytes(&mut uniforms[slot], 0, &n.to_le_bytes());
        f.submit_current();
        dev.submit(slot);
        assert!(f.finish_present(PresentOutcome::Presented));
        // frame_number grows monotonically, by exactly one per frame.
        assert_eq!(f.frame_number, last_frame + 1);
        last_frame = f.frame_number;
    }
    assert_eq!(f.frame_number, 120);

    // Shutdown: every fence is waited on before any resource dies, then
    // each resource/memory pair is destroyed exactly once, handle first.
    f.wait_all_fences();
    for s in &f.slots {
        assert_eq!(*s, SlotPhase::Free);
    }
    let mut freed = 0;
    for _ in 0..2 {
        let mut lifecycle = ResourceLifecycle::new();
        lifecycle.bind_memory();
        lifecycle.destroy_handle();
        lifecycle.free_memory();
        assert_eq!(lifecycle.phase, ResourcePhase::Freed);
        freed += 1;
    }
    assert_eq!(freed, 2);
}
