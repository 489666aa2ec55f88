//! Trap Table Builder: the one process-wide vector table.
//!
//! The table is an ordered, fixed-size array of 256 entries indexed by
//! interrupt/exception vector number. Each entry holds a handler entry
//! point, a descriptor type, a privilege level and an optional
//! stack-selector override. It is built once at kernel start, then loaded
//! into the CPU in a single step; once loaded it must be treated as
//! immutable, which the registration contracts enforce.

use vstd::prelude::*;

verus! {

/// Number of entries in the vector table.
pub const TABLE_ENTRIES: usize = 256;

/// Vector of the breakpoint exception, a trap.
pub const BREAKPOINT_VECTOR: u8 = 3;

/// Vector of the double-fault exception, an abort.
pub const DOUBLE_FAULT_VECTOR: u8 = 8;

/// Vector of the page-fault exception, a fault.
pub const PAGE_FAULT_VECTOR: u8 = 14;

/// Number of the first vector not reserved by the CPU for exceptions.
pub const FIRST_AVAILABLE_VECTOR: u8 = 32;

/// The handler entry points the kernel installs. The hardware table holds
/// raw code addresses; the model names the kernel's handlers instead, so
/// that dispatch can be reasoned about.
#[derive(Debug, Clone, Copy, PartialEq, Eq, Structural)]
pub enum HandlerFn {
    Breakpoint,
    DoubleFault,
    PageFault,
    Timer,
    Ps2Keyboard,
}

/// Descriptor type of a table entry. The kernel installs the interrupt
/// kind throughout: signal delivery is suppressed while a handler runs.
#[derive(Debug, Clone, Copy, PartialEq, Eq, Structural)]
pub enum DescriptorKind {
    Interrupt,
    Trap,
}

/// How an exception class constrains its handler: faults are potentially
/// recoverable and the handler may resume; traps report and resume by
/// construction; aborts are terminal and the handler must never return.
#[derive(Debug, Clone, Copy, PartialEq, Eq, Structural)]
pub enum ExceptionClass {
    Fault,
    Trap,
    Abort,
}

/// Classification of the CPU-defined exception vectors. Vectors at or
/// above [`FIRST_AVAILABLE_VECTOR`] are not exceptions.
pub open spec fn spec_classify(vector: u8) -> Option<ExceptionClass> {
    if vector >= 32 {
        None
    } else if vector == 3 || vector == 4 {
        Some(ExceptionClass::Trap)
    } else if vector == 8 || vector == 18 {
        Some(ExceptionClass::Abort)
    } else {
        Some(ExceptionClass::Fault)
    }
}

/// Exception classification guiding handler policy: breakpoint and
/// overflow are traps, double fault and machine check are aborts, the
/// remaining CPU-reserved vectors are faults.
pub fn classify(vector: u8) -> (r: Option<ExceptionClass>)
    ensures
        r == spec_classify(vector),
{
    if vector >= 32 {
        None
    } else if vector == 3 || vector == 4 {
        Some(ExceptionClass::Trap)
    } else if vector == 8 || vector == 18 {
        Some(ExceptionClass::Abort)
    } else {
        Some(ExceptionClass::Fault)
    }
}

/// The classification behind the installed handler policy: the
/// breakpoint vector is a trap, so its handler reports and resumes by
/// construction; the double-fault vector is an abort, so its handler
/// must never return; the page-fault vector is a fault, potentially
/// recoverable at its handler's choice.
pub proof fn lemma_handler_policy_classes()
    ensures
        spec_classify(BREAKPOINT_VECTOR) == Some(ExceptionClass::Trap),
        spec_classify(DOUBLE_FAULT_VECTOR) == Some(ExceptionClass::Abort),
        spec_classify(PAGE_FAULT_VECTOR) == Some(ExceptionClass::Fault),
{
}

/// One entry of the vector table.
#[derive(Debug, Clone, Copy, PartialEq, Eq, Structural)]
pub struct Entry {
    /// The installed handler; `None` marks the entry not present.
    pub handler: Option<HandlerFn>,
    /// The descriptor type of the entry.
    pub kind: DescriptorKind,
    /// The privilege level required to invoke the entry through a software
    /// interrupt; the kernel keeps everything at ring 0.
    pub privilege: u8,
    /// Optional override selecting one of the dedicated stacks of the
    /// task/stack descriptor set for this entry.
    pub stack_index: Option<u16>,
}

/// The state an entry has before any handler is registered on it.
pub open spec fn spec_missing_entry() -> Entry {
    Entry { handler: None, kind: DescriptorKind::Interrupt, privilege: 0, stack_index: None }
}

/// The entry that a plain registration installs.
pub open spec fn spec_plain_entry(handler: HandlerFn) -> Entry {
    Entry {
        handler: Some(handler),
        kind: DescriptorKind::Interrupt,
        privilege: 0,
        stack_index: None,
    }
}

/// The entry that a registration with a dedicated stack installs.
pub open spec fn spec_stack_entry(handler: HandlerFn, stack_index: u16) -> Entry {
    Entry {
        handler: Some(handler),
        kind: DescriptorKind::Interrupt,
        privilege: 0,
        stack_index: Some(stack_index),
    }
}

/// The process-wide vector table.
pub struct VectorTable {
    /// The 256 entries, indexed by vector number.
    pub entries: Vec<Entry>,
    /// Whether the table has been loaded into the CPU. Once set, further
    /// mutation would be undefined behavior, so the registration
    /// operations refuse it.
    pub loaded: bool,
}

impl VectorTable {
    /// Well-formedness: full size, and the double-fault entry, if present,
    /// carries a dedicated-stack override — it is the only entry permitted
    /// to run on a stack other than the interrupted task's own.
    pub open spec fn wf(self) -> bool {
        &&& self.entries@.len() == 256
        &&& self.spec_entry(DOUBLE_FAULT_VECTOR).handler is Some
            ==> self.spec_entry(DOUBLE_FAULT_VECTOR).stack_index is Some
    }

    /// The entry at a vector.
    pub open spec fn spec_entry(self, vector: u8) -> Entry {
        self.entries@[vector as int]
    }

    /// An empty, unloaded table: every entry missing.
    pub fn new() -> (t: VectorTable)
        ensures
            t.wf(),
            !t.loaded,
            forall|v: u8| t.spec_entry(v) == spec_missing_entry(),
    {
        let mut entries: Vec<Entry> = Vec::new();
        let mut i: usize = 0;
        while i < TABLE_ENTRIES
            invariant
                i <= 256,
                entries@.len() == i,
                forall|j: int| 0 <= j < i ==> entries@[j] == spec_missing_entry(),
            decreases 256 - i,
        {
            entries.push(Entry {
                handler: None,
                kind: DescriptorKind::Interrupt,
                privilege: 0,
                stack_index: None,
            });
            i = i + 1;
        }
        VectorTable { entries, loaded: false }
    }

    /// Install a handler for a vector: a CPU-defined exception or a
    /// remapped hardware vector.
    ///
    /// Refused for the double-fault vector, which must bind a dedicated
    /// stack through [`VectorTable::register_with_stack`]; and refused once
    /// the table is loaded, since the loaded table is immutable.
    pub fn register(&mut self, vector: u8, handler: HandlerFn)
        requires
            old(self).wf(),
            !old(self).loaded,
            vector != DOUBLE_FAULT_VECTOR,
        ensures
            final(self).wf(),
            !final(self).loaded,
            final(self).entries@ == old(self).entries@.update(
                vector as int,
                spec_plain_entry(handler),
            ),
            final(self).spec_entry(vector) == spec_plain_entry(handler),
            forall|v: u8| v != vector ==> final(self).spec_entry(v) == old(self).spec_entry(v),
    {
        let e = Entry {
            handler: Some(handler),
            kind: DescriptorKind::Interrupt,
            privilege: 0,
            stack_index: None,
        };
        self.entries.set(vector as usize, e);
    }

    /// Install a handler together with a dedicated-stack override: the
    /// entry will run on the stack published under `stack_index` in the
    /// task/stack descriptor set. Required for the double-fault vector,
    /// whose handler must not reuse a potentially corrupted stack.
    pub fn register_with_stack(&mut self, vector: u8, handler: HandlerFn, stack_index: u16)
        requires
            old(self).wf(),
            !old(self).loaded,
            stack_index < 7,
        ensures
            final(self).wf(),
            !final(self).loaded,
            final(self).entries@ == old(self).entries@.update(
                vector as int,
                spec_stack_entry(handler, stack_index),
            ),
            final(self).spec_entry(vector) == spec_stack_entry(handler, stack_index),
            forall|v: u8| v != vector ==> final(self).spec_entry(v) == old(self).spec_entry(v),
    {
        let e = Entry {
            handler: Some(handler),
            kind: DescriptorKind::Interrupt,
            privilege: 0,
            stack_index: Some(stack_index),
        };
        self.entries.set(vector as usize, e);
    }

    /// Mark the table loaded into the CPU. From here on the table is
    /// immutable; the unverified shell issues the actual load instruction
    /// from the same finalized value.
    pub fn load(&mut self)
        requires
            old(self).wf(),
        ensures
            final(self).wf(),
            final(self).loaded,
            final(self).entries@ == old(self).entries@,
    {
        self.loaded = true;
    }
}

} // verus!
