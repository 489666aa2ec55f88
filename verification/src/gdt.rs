//! Segment/Stack Builder: a dedicated, bounds-known stack for the
//! double-fault handler, published through the task/stack descriptor set.
//!
//! A double fault frequently means the interrupted stack is already
//! corrupted (for instance by overflow), so its handler must run on a
//! stack of its own; reusing the corrupted one would escalate to an
//! unrecoverable triple fault that resets the machine with no diagnostic
//! output. The descriptor set has seven slots for such stacks; the builder
//! fills one, deliberately over-provisioned, and publishes its index for
//! the Trap Table Builder.
//!
//! Installing the set is order-sensitive: the descriptor table must be
//! loaded into the CPU strictly before the code-segment selector and task
//! register are reloaded, otherwise the reloads reference stale
//! descriptors and fault immediately. The builder returns that
//! instruction sequence as data, in the one correct order, for the
//! unverified shell to replay.

use vstd::prelude::*;

verus! {

/// The slot of the task/stack descriptor set reserved for the
/// double-fault handler's stack.
pub const DOUBLE_FAULT_IST_INDEX: u16 = 0;

/// Number of dedicated-stack slots in the descriptor set.
pub const STACK_TABLE_SLOTS: usize = 7;

/// Size of the dedicated double-fault stack: room for one full exception
/// frame plus handler locals, over-provisioned to several kilobytes since
/// undersizing silently corrupts adjacent memory.
pub const FAULT_STACK_SIZE: u64 = 4096 * 5;

/// A contiguous stack region with a known top address.
#[derive(Debug, Clone, Copy, PartialEq, Eq, Structural)]
pub struct StackRegion {
    /// Lowest address of the region.
    pub start: u64,
    /// Size of the region in bytes.
    pub size: u64,
}

impl StackRegion {
    /// A usable region: non-null, large enough for one handler
    /// invocation, and lying within the address space.
    pub open spec fn wf(self) -> bool {
        &&& self.start > 0
        &&& self.size >= FAULT_STACK_SIZE
        &&& self.start + self.size <= u64::MAX
    }

    /// The top address, where the stack begins growing downwards.
    pub fn top(&self) -> (r: u64)
        requires
            self.wf(),
        ensures
            r == self.start + self.size,
    {
        self.start + self.size
    }
}

/// The task/stack descriptor set: a small fixed table of dedicated stacks
/// usable by trap entries that must not reuse a potentially corrupted
/// stack. Created once at init; the slots live as long as the kernel.
pub struct TaskStateSegment {
    /// The seven dedicated-stack slots.
    pub interrupt_stack_table: Vec<Option<StackRegion>>,
}

impl TaskStateSegment {
    /// Well-formedness: the fixed slot count, and every filled slot holds
    /// a usable region.
    pub open spec fn wf(self) -> bool {
        &&& self.interrupt_stack_table@.len() == 7
        &&& forall|i: int|
            0 <= i < 7 && self.interrupt_stack_table@[i] is Some
                ==> (#[trigger] self.interrupt_stack_table@[i])->Some_0.wf()
    }

    /// The slot at an index.
    pub open spec fn spec_slot(self, index: u16) -> Option<StackRegion> {
        self.interrupt_stack_table@[index as int]
    }
}

/// The selectors published by installing the descriptor set: the kernel
/// code segment at descriptor 1 and the task descriptor at 2, both at
/// privilege level 0.
#[derive(Debug, Clone, Copy, PartialEq, Eq, Structural)]
pub struct Selectors {
    pub code_selector: u16,
    pub tss_selector: u16,
}

/// The CPU loads that install the descriptor set, as data. The descriptor
/// table itself must be loaded strictly before either reload.
#[derive(Debug, Clone, Copy, PartialEq, Eq, Structural)]
pub enum LoadAction {
    /// Load the new descriptor set into the CPU's descriptor-table
    /// register.
    LoadDescriptorTable,
    /// Reload the active code-segment selector from the new set.
    ReloadCodeSegment,
    /// Load the task register from the new set, activating the dedicated
    /// stacks.
    LoadTaskRegister,
}

/// The installed segment/stack state: the descriptor set, the published
/// selectors and the published dedicated-stack index.
pub struct GdtSetup {
    pub tss: TaskStateSegment,
    pub selectors: Selectors,
    /// The slot index the Trap Table Builder must bind to the double-fault
    /// entry.
    pub fault_stack_index: u16,
}

impl GdtSetup {
    pub open spec fn wf(self) -> bool {
        &&& self.tss.wf()
        &&& self.fault_stack_index < 7
        &&& self.tss.spec_slot(self.fault_stack_index) is Some
    }
}

/// Reserve the dedicated double-fault stack over the given buffer and
/// publish its slot index: the buffer becomes the one filled slot of a
/// fresh descriptor set, with its top address exposed to the CPU.
pub fn allocate_fault_stack(stack_start: u64) -> (r: (TaskStateSegment, u16))
    requires
        stack_start > 0,
        stack_start + FAULT_STACK_SIZE <= u64::MAX,
    ensures
        r.1 == DOUBLE_FAULT_IST_INDEX,
        r.0.wf(),
        r.0.spec_slot(r.1) == Some(StackRegion { start: stack_start, size: FAULT_STACK_SIZE }),
        forall|i: int| 0 <= i < 7 && i != r.1 ==> r.0.interrupt_stack_table@[i] is None,
{
    let mut slots: Vec<Option<StackRegion>> = Vec::new();
    let mut i: usize = 0;
    while i < STACK_TABLE_SLOTS
        invariant
            i <= 7,
            slots@.len() == i,
            forall|j: int| 0 <= j < i ==> slots@[j] is None,
        decreases 7 - i,
    {
        slots.push(None);
        i = i + 1;
    }
    let region = StackRegion { start: stack_start, size: FAULT_STACK_SIZE };
    slots.set(DOUBLE_FAULT_IST_INDEX as usize, Some(region));
    (TaskStateSegment { interrupt_stack_table: slots }, DOUBLE_FAULT_IST_INDEX)
}

/// Build and install the segment/stack state over the given stack buffer:
/// reserve the double-fault stack, publish the selectors, and produce the
/// CPU loads in the one order that is safe — the descriptor-table load
/// strictly before the code-segment and task-register reloads.
///
/// This runs exactly once at kernel start; the dispatch core refuses a
/// second invocation.
pub fn init(stack_start: u64) -> (r: (GdtSetup, Vec<LoadAction>))
    requires
        stack_start > 0,
        stack_start + FAULT_STACK_SIZE <= u64::MAX,
    ensures
        r.0.wf(),
        r.0.fault_stack_index == DOUBLE_FAULT_IST_INDEX,
        r.0.tss.spec_slot(DOUBLE_FAULT_IST_INDEX) == Some(StackRegion {
            start: stack_start,
            size: FAULT_STACK_SIZE,
        }),
        r.1@ == seq![
            LoadAction::LoadDescriptorTable,
            LoadAction::ReloadCodeSegment,
            LoadAction::LoadTaskRegister,
        ],
{
    let (tss, fault_stack_index) = allocate_fault_stack(stack_start);
    let setup = GdtSetup {
        tss,
        selectors: Selectors { code_selector: 8, tss_selector: 16 },
        fault_stack_index,
    };
    let mut actions: Vec<LoadAction> = Vec::new();
    actions.push(LoadAction::LoadDescriptorTable);
    actions.push(LoadAction::ReloadCodeSegment);
    actions.push(LoadAction::LoadTaskRegister);
    assert(actions@ =~= seq![
        LoadAction::LoadDescriptorTable,
        LoadAction::ReloadCodeSegment,
        LoadAction::LoadTaskRegister,
    ]);
    (setup, actions)
}

} // verus!
