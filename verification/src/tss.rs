use vstd::prelude::*;

verus! {

/// Number of Interrupt Stack Table slots a Task-State Segment carries.
pub const IST_SLOTS: usize = 7;

/// One core's Task-State Segment, as bring-up programs it: the ring-0 stack
/// pointer hardware switches to on privilege-level transitions, and the
/// Interrupt Stack Table slots.
#[derive(Clone, Copy, Debug, PartialEq, Eq)]
pub struct TaskStateSegment {
    /// Stack pointer installed for transitions to ring 0.
    pub ring0_stack: u64,
    /// The Interrupt Stack Table: alternate stack pointers hardware switches
    /// to for specific interrupt vectors.
    pub ist: [u64; 7],
}

/// The segment a core's registry entry holds before that core configures it.
pub open spec fn spec_blank_segment() -> TaskStateSegment {
    TaskStateSegment { ring0_stack: 0, ist: [0u64, 0u64, 0u64, 0u64, 0u64, 0u64, 0u64] }
}

impl TaskStateSegment {
    /// An unconfigured segment: zero ring-0 stack, all IST slots zero.
    pub fn blank() -> (r: TaskStateSegment)
        ensures
            r == spec_blank_segment(),
            r.ring0_stack == 0,
            forall|j: int| 0 <= j < 7 ==> r.ist@[j] == 0,
    {
        let r = TaskStateSegment { ring0_stack: 0, ist: [0u64, 0u64, 0u64, 0u64, 0u64, 0u64, 0u64] };
        proof {
            assert(r.ist@ =~= spec_blank_segment().ist@);
            assert(r.ist == spec_blank_segment().ist);
        }
        r
    }

    /// Set the ring-0 stack pointer; no other field changes.
    pub fn set_ring0_stack(&mut self, stack_top: u64)
        ensures
            final(self).ring0_stack == stack_top,
            final(self).ist == old(self).ist,
    {
        self.ring0_stack = stack_top;
    }

    /// Set one Interrupt Stack Table slot; the other slots and the ring-0
    /// stack pointer are unchanged.
    pub fn set_ist(&mut self, slot: usize, stack_top: u64)
        requires
            slot < IST_SLOTS,
        ensures
            final(self).ring0_stack == old(self).ring0_stack,
            final(self).ist@ == old(self).ist@.update(slot as int, stack_top),
            final(self).ist@[slot as int] == stack_top,
            forall|j: int| 0 <= j < 7 && j != slot ==> final(self).ist@[j] == old(self).ist@[j],
    {
        self.ist[slot] = stack_top;
    }
}

/// The per-core Task-Segment registry: one segment of storage per core,
/// indexed by core identifier. Core identity is passed explicitly; a core only
/// ever configures its own entry, so the entries are disjoint resources and no
/// synchronization is needed.
#[derive(Debug)]
pub struct TssRegistry {
    /// Segment storage; the index is the core identifier.
    pub segments: Vec<TaskStateSegment>,
}

impl TssRegistry {
    /// How many cores the registry has storage for.
    pub open spec fn core_count(self) -> nat {
        self.segments@.len()
    }

    /// Allocate registry storage for `cores` cores, each entry blank.
    pub fn new(cores: usize) -> (r: TssRegistry)
        ensures
            r.core_count() == cores,
            forall|c: int| 0 <= c < cores ==> r.segments@[c] == spec_blank_segment(),
    {
        let mut segments: Vec<TaskStateSegment> = Vec::new();
        let mut i: usize = 0;
        while i < cores
            invariant
                i <= cores,
                segments@.len() == i,
                forall|c: int| 0 <= c < i ==> segments@[c] == spec_blank_segment(),
            decreases cores - i,
        {
            segments.push(TaskStateSegment::blank());
            i = i + 1;
        }
        TssRegistry { segments }
    }

    /// Read one core's segment.
    pub fn segment(&self, core: usize) -> (r: &TaskStateSegment)
        requires
            core < self.core_count(),
        ensures
            *r == self.segments@[core as int],
    {
        &self.segments[core]
    }

    /// Program core `core`'s segment: install `ring0_stack_top` as its ring-0
    /// stack pointer and `ist_stack_top` in IST slot `ist_index`. Afterwards
    /// reading that core's segment yields exactly those two values, that
    /// segment's other IST slots keep their values, and no other core's
    /// segment is affected.
    pub fn configure(
        &mut self,
        core: usize,
        ring0_stack_top: u64,
        ist_index: usize,
        ist_stack_top: u64,
    )
        requires
            core < old(self).core_count(),
            ist_index < IST_SLOTS,
        ensures
            final(self).core_count() == old(self).core_count(),
            final(self).segments@[core as int].ring0_stack == ring0_stack_top,
            final(self).segments@[core as int].ist@ == old(self).segments@[core as int].ist@
                .update(ist_index as int, ist_stack_top),
            final(self).segments@[core as int].ist@[ist_index as int] == ist_stack_top,
            forall|j: int|
                0 <= j < 7 && j != ist_index ==> final(self).segments@[core as int].ist@[j] == old(
                    self,
                ).segments@[core as int].ist@[j],
            forall|c: int|
                0 <= c < old(self).core_count() && c != core ==> final(self).segments@[c] == old(
                    self,
                ).segments@[c],
    {
        let mut seg: TaskStateSegment = *self.segment(core);
        seg.set_ring0_stack(ring0_stack_top);
        seg.set_ist(ist_index, ist_stack_top);
        self.segments.set(core, seg);
    }
}

} // verus!
