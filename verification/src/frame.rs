//! Per-frame CPU/GPU synchronization: a fixed ring of frame slots, each
//! owning an acquire semaphore, a present semaphore, and a fence. A slot's
//! resources are reused only after its fence has been waited on — the one
//! rule that keeps the CPU from racing the device.

use vstd::prelude::*;

verus! {

/// How many frames the CPU may record ahead of the device.
pub const FRAMES_IN_FLIGHT: usize = 2;

/// What the CPU knows of one frame slot.
#[derive(Clone, Copy, PartialEq, Eq, Structural, Debug)]
pub enum SlotPhase {
    /// The slot's fence has been waited on since its last submission (or
    /// none was ever made): its command buffer, semaphores, and uniform
    /// slot are safe to reuse.
    Free,
    /// A submission using the slot may still be executing on the device;
    /// its fence has not been waited on since.
    Pending,
}

/// What the device reports when the next swapchain image is requested.
#[derive(Clone, Copy, PartialEq, Eq, Structural, Debug)]
pub enum AcquireOutcome {
    /// An image is available; its index selects the command stream and
    /// uniform buffer for this frame.
    Image(u32),
    /// The swapchain no longer matches the surface; the frame is abandoned
    /// and the swapchain with all dependents must be rebuilt.
    OutOfDate,
}

/// What the device reports when the rendered image is presented.
#[derive(Clone, Copy, PartialEq, Eq, Structural, Debug)]
pub enum PresentOutcome {
    /// Presented cleanly.
    Presented,
    /// Presented, but the swapchain no longer matches the surface well;
    /// treated as a failure that triggers the rebuild.
    Suboptimal,
    /// The swapchain no longer matches the surface.
    OutOfDate,
}

/// The synchronization state of the frame loop: one phase per slot, plus
/// the number of frames completed so far.
pub struct FrameSync {
    /// Phase of each of the `FRAMES_IN_FLIGHT` slots.
    pub slots: Vec<SlotPhase>,
    /// Number of frames rendered and presented so far; the current slot is
    /// `frame_number % FRAMES_IN_FLIGHT`.
    pub frame_number: u64,
}

impl FrameSync {
    /// Well-formedness: exactly one phase per slot.
    pub open spec fn wf(self) -> bool {
        self.slots@.len() == FRAMES_IN_FLIGHT
    }

    /// The slot the current frame uses.
    pub open spec fn current_slot(self) -> int {
        self.frame_number as int % (FRAMES_IN_FLIGHT as int)
    }

    /// Whether a submission on slot `i` is allowed: only when the slot's
    /// fence has been waited on since its last use.
    pub open spec fn can_submit(self, i: int) -> bool {
        self.slots@[i] == SlotPhase::Free
    }

    /// Whether every slot's fence has been waited on, which teardown
    /// demands before any slot resource is destroyed.
    pub open spec fn drained(self) -> bool {
        forall|i: int| 0 <= i < self.slots@.len() ==> self.slots@[i] == SlotPhase::Free
    }

    /// Fresh frame-loop state: fences are created already signaled, so
    /// every slot starts out safe to use, and no frame has completed.
    pub fn new() -> (r: FrameSync)
        ensures
            r.wf(),
            r.frame_number == 0,
            r.drained(),
    {
        let mut slots: Vec<SlotPhase> = Vec::new();
        let mut i: usize = 0;
        while i < FRAMES_IN_FLIGHT
            invariant
                i <= FRAMES_IN_FLIGHT,
                slots@.len() == i,
                forall|k: int| 0 <= k < i ==> slots@[k] == SlotPhase::Free,
            decreases FRAMES_IN_FLIGHT - i,
        {
            slots.push(SlotPhase::Free);
            i = i + 1;
        }
        FrameSync { slots, frame_number: 0 }
    }

    /// Index of the slot the current frame uses.
    pub fn slot_index(&self) -> (i: usize)
        requires
            self.wf(),
        ensures
            i == self.current_slot(),
            i < FRAMES_IN_FLIGHT,
    {
        (self.frame_number % (FRAMES_IN_FLIGHT as u64)) as usize
    }

    /// Step 1 of a frame: block on the current slot's fence (unbounded
    /// timeout) until the device has finished the slot's prior submission.
    /// Afterwards the slot is safe to reuse; nothing else changes.
    pub fn wait_current_fence(&mut self)
        requires
            old(self).wf(),
        ensures
            final(self).wf(),
            final(self).frame_number == old(self).frame_number,
            final(self).slots@ == old(self).slots@.update(
                old(self).current_slot(),
                SlotPhase::Free,
            ),
            Some(sync_view(*final(self))) == sync_step(sync_view(*old(self)), SyncOp::WaitFence),
    {
        let i = self.slot_index();
        self.slots.set(i, SlotPhase::Free);
    }

    /// Step 4 of a frame: reset the current slot's fence and submit its
    /// pre-recorded command buffer. Demands that the slot's fence has been
    /// waited on — submitting on a pending slot would hand the device a
    /// command buffer it may still be reading.
    pub fn submit_current(&mut self)
        requires
            old(self).wf(),
            old(self).can_submit(old(self).current_slot()),
        ensures
            final(self).wf(),
            final(self).frame_number == old(self).frame_number,
            final(self).slots@ == old(self).slots@.update(
                old(self).current_slot(),
                SlotPhase::Pending,
            ),
            Some(sync_view(*final(self))) == sync_step(sync_view(*old(self)), SyncOp::Submit),
    {
        let i = self.slot_index();
        self.slots.set(i, SlotPhase::Pending);
    }

    /// Step 5 of a frame: account for the present outcome. A clean present
    /// completes the frame and advances the frame number; an out-of-date or
    /// suboptimal present abandons it, and the caller must rebuild the
    /// swapchain and all dependents before retrying.
    pub fn finish_present(&mut self, outcome: PresentOutcome) -> (ok: bool)
        requires
            old(self).wf(),
            old(self).frame_number < u64::MAX,
        ensures
            final(self).wf(),
            final(self).slots@ == old(self).slots@,
            ok == (outcome == PresentOutcome::Presented),
            ok ==> final(self).frame_number == old(self).frame_number + 1,
            !ok ==> final(self).frame_number == old(self).frame_number,
            Some(sync_view(*final(self))) == sync_step(
                sync_view(*old(self)),
                SyncOp::FinishPresent(outcome),
            ),
    {
        match outcome {
            PresentOutcome::Presented => {
                self.frame_number = self.frame_number + 1;
                true
            },
            PresentOutcome::Suboptimal => false,
            PresentOutcome::OutOfDate => false,
        }
    }

    /// One whole frame: wait on the current slot's fence, take the acquire
    /// outcome the device reported, and on success submit the slot and
    /// account for the present outcome. Returns whether the frame
    /// completed; `false` demands the full rebuild sequence before the next
    /// attempt. The frame number grows exactly on completed frames, so it
    /// counts presented frames monotonically.
    pub fn run_frame(&mut self, acquired: AcquireOutcome, presented: PresentOutcome) -> (ok: bool)
        requires
            old(self).wf(),
            old(self).frame_number < u64::MAX,
        ensures
            final(self).wf(),
            acquired == AcquireOutcome::OutOfDate ==> {
                &&& !ok
                &&& final(self).frame_number == old(self).frame_number
                &&& final(self).slots@ == old(self).slots@.update(
                    old(self).current_slot(),
                    SlotPhase::Free,
                )
            },
            acquired matches AcquireOutcome::Image(_) ==> final(self).slots@ == old(
                self,
            ).slots@.update(old(self).current_slot(), SlotPhase::Pending),
            ok == (acquired matches AcquireOutcome::Image(_)
                && presented == PresentOutcome::Presented),
            ok ==> final(self).frame_number == old(self).frame_number + 1,
            !ok ==> final(self).frame_number == old(self).frame_number,
    {
        self.wait_current_fence();
        match acquired {
            AcquireOutcome::OutOfDate => false,
            AcquireOutcome::Image(_index) => {
                self.submit_current();
                self.finish_present(presented)
            },
        }
    }

    /// Teardown's join point: wait on every slot's fence before any slot
    /// resource is destroyed, so no outstanding GPU work can reference a
    /// freed command buffer or semaphore.
    pub fn wait_all_fences(&mut self)
        requires
            old(self).wf(),
        ensures
            final(self).wf(),
            final(self).frame_number == old(self).frame_number,
            final(self).drained(),
    {
        let mut i: usize = 0;
        while i < FRAMES_IN_FLIGHT
            invariant
                self.wf(),
                i <= FRAMES_IN_FLIGHT,
                self.frame_number == old(self).frame_number,
                forall|k: int| 0 <= k < i ==> self.slots@[k] == SlotPhase::Free,
            decreases FRAMES_IN_FLIGHT - i,
        {
            self.slots.set(i, SlotPhase::Free);
            i = i + 1;
        }
    }
}

/// The synchronization operations a frame loop performs, as a trace.
#[derive(Clone, Copy, PartialEq, Eq, Structural, Debug)]
pub enum SyncOp {
    /// Wait on the current slot's fence.
    WaitFence,
    /// Reset the current slot's fence and submit its command buffer.
    Submit,
    /// Account for a present outcome.
    FinishPresent(PresentOutcome),
}

/// The synchronization state as the trace machine sees it: the phase of
/// every slot and the number of completed frames.
pub struct SyncState {
    pub slots: Seq<SlotPhase>,
    pub frame_number: nat,
}

impl SyncState {
    /// Well-formedness: exactly one phase per slot.
    pub open spec fn wf(self) -> bool {
        self.slots.len() == FRAMES_IN_FLIGHT
    }

    /// The slot the next frame operation targets.
    pub open spec fn current_slot(self) -> int {
        (self.frame_number % (FRAMES_IN_FLIGHT as nat)) as int
    }
}

/// The trace view of the executable frame-loop state.
pub open spec fn sync_view(s: FrameSync) -> SyncState {
    SyncState { slots: s.slots@, frame_number: s.frame_number as nat }
}

/// One step of the synchronization machine, or `None` when the operation
/// is forbidden there: a submit on a slot whose fence has not been waited
/// on since its last submission is never accepted.
pub open spec fn sync_step(st: SyncState, op: SyncOp) -> Option<SyncState> {
    match op {
        SyncOp::WaitFence => Some(
            SyncState {
                slots: st.slots.update(st.current_slot(), SlotPhase::Free),
                frame_number: st.frame_number,
            },
        ),
        SyncOp::Submit => {
            if st.slots[st.current_slot()] == SlotPhase::Free {
                Some(
                    SyncState {
                        slots: st.slots.update(st.current_slot(), SlotPhase::Pending),
                        frame_number: st.frame_number,
                    },
                )
            } else {
                None
            }
        },
        SyncOp::FinishPresent(outcome) => {
            if outcome == PresentOutcome::Presented {
                Some(SyncState { slots: st.slots, frame_number: st.frame_number + 1 })
            } else {
                Some(st)
            }
        },
    }
}

/// The state after a whole operation trace, or `None` as soon as one
/// operation is forbidden.
pub open spec fn sync_run(st: SyncState, ops: Seq<SyncOp>) -> Option<SyncState>
    decreases ops.len(),
{
    if ops.len() == 0 {
        Some(st)
    } else {
        match sync_step(st, ops[0]) {
            Some(t) => sync_run(t, ops.skip(1)),
            None => None,
        }
    }
}

/// Whether the trace waits on slot `i`'s fence at some accepted step.
pub open spec fn trace_waits_on(st: SyncState, ops: Seq<SyncOp>, i: int) -> bool
    decreases ops.len(),
{
    if ops.len() == 0 {
        false
    } else {
        (ops[0] == SyncOp::WaitFence && st.current_slot() == i) || match sync_step(st, ops[0]) {
            Some(t) => trace_waits_on(t, ops.skip(1), i),
            None => false,
        }
    }
}

/// Whether the trace submits on slot `i` at some accepted step.
pub open spec fn trace_submits_on(st: SyncState, ops: Seq<SyncOp>, i: int) -> bool
    decreases ops.len(),
{
    if ops.len() == 0 {
        false
    } else {
        (ops[0] == SyncOp::Submit && st.current_slot() == i) || match sync_step(st, ops[0]) {
            Some(t) => trace_submits_on(t, ops.skip(1), i),
            None => false,
        }
    }
}

/// Law: the frame number counts completed frames monotonically — no
/// accepted operation trace ever decreases it, and only a cleanly
/// presented frame increases it, by exactly one.
pub proof fn lemma_frame_number_monotonic(st: SyncState, ops: Seq<SyncOp>)
    requires
        sync_run(st, ops) is Some,
    ensures
        sync_run(st, ops)->Some_0.frame_number >= st.frame_number,
    decreases ops.len(),
{
    if ops.len() > 0 {
        let t = sync_step(st, ops[0])->Some_0;
        assert(sync_run(st, ops) == sync_run(t, ops.skip(1)));
        lemma_frame_number_monotonic(t, ops.skip(1));
    }
}

/// Law (frame-slot fence discipline): a slot's resources are never reused
/// between a submission and the wait on that submission's fence. From any
/// state in which slot `i` is pending, an accepted operation trace that
/// never waits on slot `i`'s fence never submits on slot `i` either — and
/// slot `i` is still pending when the trace ends.
pub proof fn lemma_fence_guards_slot_reuse(st: SyncState, ops: Seq<SyncOp>, i: int)
    requires
        st.wf(),
        0 <= i < st.slots.len(),
        st.slots[i] == SlotPhase::Pending,
        sync_run(st, ops) is Some,
        !trace_waits_on(st, ops, i),
    ensures
        !trace_submits_on(st, ops, i),
        sync_run(st, ops)->Some_0.slots[i] == SlotPhase::Pending,
    decreases ops.len(),
{
    if ops.len() > 0 {
        let t = sync_step(st, ops[0])->Some_0;
        assert(sync_step(st, ops[0]) == Some(t));
        assert(0 <= st.current_slot() < FRAMES_IN_FLIGHT);
        assert(t.wf());
        assert(sync_run(st, ops) == sync_run(t, ops.skip(1)));
        assert(!trace_waits_on(t, ops.skip(1), i));
        match ops[0] {
            SyncOp::WaitFence => {
                assert(st.current_slot() != i);
                assert(t.slots[i] == SlotPhase::Pending);
                lemma_fence_guards_slot_reuse(t, ops.skip(1), i);
            },
            SyncOp::Submit => {
                assert(st.current_slot() != i);
                assert(t.slots[i] == SlotPhase::Pending);
                lemma_fence_guards_slot_reuse(t, ops.skip(1), i);
            },
            SyncOp::FinishPresent(_) => {
                assert(t.slots[i] == SlotPhase::Pending);
                lemma_fence_guards_slot_reuse(t, ops.skip(1), i);
            },
        }
    }
}

} // verus!
