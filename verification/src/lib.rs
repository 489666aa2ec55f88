//! Exception and interrupt dispatch core of a small kernel, modelled and
//! verified: the segment/stack builder that provides a fault-isolated stack
//! for double faults, the driver for the two chained legacy interrupt
//! controllers, the 256-entry trap-vector table builder, and the dispatch
//! discipline that ties them together.
//!
//! Hardware access (port writes, descriptor-table loads, the halt
//! instruction) is represented by explicit data: port writes are values that
//! a thin unverified shell replays onto the real ports, and the controller
//! devices themselves are modelled so that the effect of every byte sequence
//! on them is proved, not assumed.

pub mod device;
pub mod gdt;
pub mod idt;
pub mod interrupts;
pub mod keyboard;
pub mod pic8259;
pub mod vga_buffer;

use vstd::prelude::*;

use crate::device::InitStage;
use crate::gdt::{LoadAction, StackRegion, DOUBLE_FAULT_IST_INDEX, FAULT_STACK_SIZE};
use crate::idt::{spec_plain_entry, spec_stack_entry, HandlerFn};
use crate::interrupts::{spec_fault_stack_bound, Kernel};
use crate::pic8259::spec_initialize_writes;

verus! {

/// Bring the kernel context from its fresh state to running: install the
/// segment/stack state over the given fault-stack buffer, build and load
/// the vector table, program the controller pair, and only then — as one
/// explicit final action — enable signal delivery. Returns the ordered
/// descriptor-set loads for the unverified shell to replay.
///
/// This runs exactly once on the fresh context; the preconditions refuse
/// a second invocation.
pub fn init(kernel: &mut Kernel, fault_stack_start: u64) -> (gdt_load_actions: Vec<LoadAction>)
    requires
        old(kernel).wf(),
        old(kernel).gdt is None,
        !old(kernel).table_built,
        !old(kernel).table.loaded,
        !old(kernel).interrupts_enabled,
        !old(kernel).writer_locked,
        old(kernel).halted is None,
        old(kernel).bus.primary.stage == InitStage::Ready,
        old(kernel).bus.secondary.stage == InitStage::Ready,
        fault_stack_start > 0,
        fault_stack_start + FAULT_STACK_SIZE <= u64::MAX,
    ensures
        final(kernel).wf(),
        final(kernel).interrupts_enabled,
        final(kernel).halted is None,
        !final(kernel).writer_locked,
        final(kernel).reset == old(kernel).reset,
        final(kernel).timer_ticks == old(kernel).timer_ticks,
        final(kernel).writer == old(kernel).writer,
        final(kernel).pics == old(kernel).pics,
        // the segment/stack state, with the dedicated stack over the given
        // buffer and the double-fault entry bound to its published index
        final(kernel).gdt is Some,
        final(kernel).gdt->Some_0.fault_stack_index == DOUBLE_FAULT_IST_INDEX,
        final(kernel).gdt->Some_0.tss.spec_slot(DOUBLE_FAULT_IST_INDEX) == Some(StackRegion {
            start: fault_stack_start,
            size: FAULT_STACK_SIZE,
        }),
        spec_fault_stack_bound(*final(kernel)),
        // the loaded table holds exactly the kernel's handlers
        final(kernel).table.loaded,
        final(kernel).table.spec_entry(3) == spec_plain_entry(HandlerFn::Breakpoint),
        final(kernel).table.spec_entry(14) == spec_plain_entry(HandlerFn::PageFault),
        final(kernel).table.spec_entry(8) == spec_stack_entry(
            HandlerFn::DoubleFault,
            DOUBLE_FAULT_IST_INDEX,
        ),
        final(kernel).table.spec_entry(32) == spec_plain_entry(HandlerFn::Timer),
        final(kernel).table.spec_entry(33) == spec_plain_entry(HandlerFn::Ps2Keyboard),
        // both controllers configured with their offsets, masks preserved,
        // ready to deliver
        final(kernel).bus.primary.configured && final(kernel).bus.primary.offset == 32,
        final(kernel).bus.secondary.configured && final(kernel).bus.secondary.offset == 40,
        final(kernel).bus.primary.mask == old(kernel).bus.primary.mask,
        final(kernel).bus.secondary.mask == old(kernel).bus.secondary.mask,
        final(kernel).bus.primary.in_service == old(kernel).bus.primary.in_service,
        final(kernel).bus.secondary.in_service == old(kernel).bus.secondary.in_service,
        // the exact byte protocol that configured them stands in the log
        final(kernel).bus.log@ == old(kernel).bus.log@ + spec_initialize_writes(
            old(kernel).pics,
            old(kernel).bus.primary.mask,
            old(kernel).bus.secondary.mask,
        ),
        // the descriptor-set loads, descriptor table strictly first
        gdt_load_actions@ == seq![
            LoadAction::LoadDescriptorTable,
            LoadAction::ReloadCodeSegment,
            LoadAction::LoadTaskRegister,
        ],
{
    // Segment/stack state first: the double-fault registration below
    // needs the published stack index.
    let (setup, actions) = gdt::init(fault_stack_start);
    kernel.gdt = Some(setup);

    // The vector table, built and loaded.
    interrupts::init_idt(kernel);

    // Program the controller pair. On real hardware this is the step with
    // no status register to check; its byte protocol is carried by the
    // contract instead.
    let pics = kernel.pics;
    pics.initialize(&mut kernel.bus);

    // Only now is delivery safe to enable: one explicit action, after the
    // table is loaded and the controllers are configured.
    interrupts::enable_interrupts(kernel);
    actions
}

/// Exit codes handed to the emulator's debug-exit device by the test
/// harness: distinguishable success and failure signals.
#[derive(Debug, Clone, Copy, PartialEq, Eq, Structural)]
pub enum QemuExitCode {
    Success,
    Failed,
}

impl QemuExitCode {
    /// The wire value the debug-exit device expects for this outcome.
    pub fn code(self) -> (r: u32)
        ensures
            self == QemuExitCode::Success ==> r == 0x10,
            self == QemuExitCode::Failed ==> r == 0x11,
    {
        match self {
            QemuExitCode::Success => 0x10,
            QemuExitCode::Failed => 0x11,
        }
    }
}

} // verus!
