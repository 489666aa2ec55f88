//! Dispatch core: the kernel context tying the segment/stack builder, the
//! vector table and the controller pair together, the installed handlers,
//! and the runtime discipline they obey.
//!
//! The kernel context is one explicit value threaded through every
//! operation — single-initialization semantics without hidden global
//! state. Hardware signals, CPU exceptions and the critical-section
//! discipline are all modelled as verified transitions on that value.

use vstd::prelude::*;
use vstd::string::StringSliceAdditionalSpecFns;

use crate::device::{Bus, InitStage, PicDevice};
use crate::gdt::GdtSetup;
use crate::idt::{
    spec_plain_entry, spec_stack_entry, HandlerFn, VectorTable, BREAKPOINT_VECTOR,
    DOUBLE_FAULT_VECTOR, PAGE_FAULT_VECTOR,
};
use crate::keyboard::{
    keyboard_add_byte, keyboard_process_event, new_keyboard, DecodedInput, KeyboardDecoder,
};
use crate::pic8259::{spec_bus_wired, spec_eoi_writes, ChainedPics};
use crate::vga_buffer::{
    spec_hex_bytes, spec_put_bytes, spec_put_char, Color, ColorCode, ScreenState, Writer,
};

verus! {

/// The vector-offset base of the primary controller: the first vector
/// above the CPU-reserved range.
pub const PIC_1_OFFSET: u8 = 32;

/// The vector-offset base of the secondary controller: the next eight
/// vectors.
pub const PIC_2_OFFSET: u8 = PIC_1_OFFSET + 8;

/// The remapped hardware vectors the kernel knows by name. Line 2 of the
/// primary controller carries the chained secondary and has no vector of
/// its own.
#[derive(Debug, Clone, Copy, PartialEq, Eq, Structural)]
pub enum InterruptIndex {
    /// The periodic hardware timer, on the primary controller's line 0.
    Timer,
    /// The PS/2 keyboard, on line 1.
    Keyboard,
    SerialPortOne,
    SerialPortTwo,
    ParallelPortTwoAndThree,
    FloppyDisk,
    ParallelPortOne,
}

/// The vector each named hardware interrupt is remapped to.
pub open spec fn spec_interrupt_vector(index: InterruptIndex) -> u8 {
    match index {
        InterruptIndex::Timer => 32,
        InterruptIndex::Keyboard => 33,
        InterruptIndex::SerialPortOne => 35,
        InterruptIndex::SerialPortTwo => 36,
        InterruptIndex::ParallelPortTwoAndThree => 37,
        InterruptIndex::FloppyDisk => 38,
        InterruptIndex::ParallelPortOne => 39,
    }
}

impl InterruptIndex {
    /// The vector number of this hardware interrupt.
    pub fn as_u8(self) -> (r: u8)
        ensures
            r == spec_interrupt_vector(self),
    {
        match self {
            InterruptIndex::Timer => 32,
            InterruptIndex::Keyboard => 33,
            InterruptIndex::SerialPortOne => 35,
            InterruptIndex::SerialPortTwo => 36,
            InterruptIndex::ParallelPortTwoAndThree => 37,
            InterruptIndex::FloppyDisk => 38,
            InterruptIndex::ParallelPortOne => 39,
        }
    }

    /// The vector number as a table index.
    pub fn as_usize(self) -> (r: usize)
        ensures
            r == spec_interrupt_vector(self),
    {
        self.as_u8() as usize
    }
}

/// The saved context of the interrupted code, pushed by the CPU on entry
/// to a handler.
#[derive(Debug, Clone, Copy, PartialEq, Eq, Structural)]
pub struct InterruptStackFrame {
    pub instruction_pointer: u64,
    pub code_segment: u64,
    pub cpu_flags: u64,
    pub stack_pointer: u64,
    pub stack_segment: u64,
}

/// Why the dispatch core stopped: an abort-class exception whose handler
/// must never return, or a fault handler that parked the CPU after its
/// diagnostics.
#[derive(Debug, Clone, Copy, PartialEq, Eq, Structural)]
pub enum HaltReason {
    DoubleFault,
    PageFault,
}

/// The kernel context: every process-wide singleton of the dispatch core,
/// constructed once at startup and threaded by reference into each
/// operation.
pub struct Kernel {
    /// The installed segment/stack state; `None` until the one-time init.
    pub gdt: Option<GdtSetup>,
    /// The process-wide vector table.
    pub table: VectorTable,
    /// Whether the table's lazy build has happened.
    pub table_built: bool,
    /// The controller-pair driver state.
    pub pics: ChainedPics,
    /// The modelled I/O bus: controller devices, keyboard latch, write log.
    pub bus: Bus,
    /// The process-wide hardware-maintained flag gating signal delivery.
    pub interrupts_enabled: bool,
    /// The output sink the handlers print diagnostics to.
    pub writer: Writer,
    /// The mutual-exclusion flag guarding the output sink.
    pub writer_locked: bool,
    /// The scancode decoder driven by the keyboard handler.
    pub keyboard: KeyboardDecoder,
    /// Deliveries of the timer signal observed by its handler.
    pub timer_ticks: u64,
    /// Set once an abort or parked fault handler has stopped dispatch.
    pub halted: Option<HaltReason>,
    /// Set if a mishandled abort escalated into the silent machine reset;
    /// proper initialization makes this unreachable.
    pub reset: bool,
}

impl Kernel {
    /// The invariant every operation preserves: the controller pair is the
    /// standard one remapped to vectors 32..48 and the bus is wired to its
    /// ports; the table and sink are well-formed; delivery is enabled only
    /// once the table is loaded and both controllers are configured, and
    /// never while the sink's lock is held — a handler, which can only run
    /// with delivery enabled, therefore never interrupts a critical
    /// section that holds the lock.
    pub open spec fn wf(self) -> bool {
        &&& self.pics.wf()
        &&& self.pics.primary.offset == PIC_1_OFFSET
        &&& self.pics.secondary.offset == PIC_2_OFFSET
        &&& spec_bus_wired(self.pics, self.bus)
        &&& self.table.wf()
        &&& self.table.loaded ==> self.table_built
        &&& self.writer.wf()
        &&& self.gdt is Some ==> self.gdt->Some_0.wf()
        &&& self.bus.primary.configured ==> self.bus.primary.offset == PIC_1_OFFSET
            && self.bus.primary.stage == InitStage::Ready
        &&& self.bus.secondary.configured ==> self.bus.secondary.offset == PIC_2_OFFSET
            && self.bus.secondary.stage == InitStage::Ready
        &&& self.interrupts_enabled ==> self.table.loaded && self.bus.primary.configured
            && self.bus.secondary.configured && !self.writer_locked
    }

    /// A fresh kernel context: nothing installed, nothing configured,
    /// delivery disabled, a blank screen in the standard colors, and the
    /// controller devices powered on with the given masks.
    pub fn new(primary_mask: u8, secondary_mask: u8) -> (k: Kernel)
        ensures
            k.wf(),
            k.gdt is None,
            !k.table_built,
            !k.table.loaded,
            !k.interrupts_enabled,
            !k.writer_locked,
            k.halted is None,
            !k.reset,
            k.timer_ticks == 0,
            k.bus.primary == crate::device::spec_powered_on(0x20, 0x21, primary_mask),
            k.bus.secondary == crate::device::spec_powered_on(0xa0, 0xa1, secondary_mask),
            k.bus.log@ == Seq::<crate::pic8259::PortWrite>::empty(),
            forall|v: u8| k.table.spec_entry(v) == crate::idt::spec_missing_entry(),
    {
        let pics = ChainedPics::new(PIC_1_OFFSET, PIC_2_OFFSET);
        let bus = Bus::powered_on(&pics, primary_mask, secondary_mask);
        Kernel {
            gdt: None,
            table: VectorTable::new(),
            table_built: false,
            pics,
            bus,
            interrupts_enabled: false,
            writer: Writer::new(ColorCode::new(Color::Yellow, Color::Black)),
            writer_locked: false,
            keyboard: new_keyboard(),
            timer_ticks: 0,
            halted: None,
            reset: false,
        }
    }
}

/// Enable signal delivery: the single explicit action that ends
/// initialization. Enabling earlier than this contract allows — before
/// the table is loaded and the controllers configured — is the defined
/// misuse that produces undefined dispatch, so it is refused.
pub fn enable_interrupts(kernel: &mut Kernel)
    requires
        old(kernel).wf(),
        old(kernel).table.loaded,
        old(kernel).bus.primary.configured,
        old(kernel).bus.secondary.configured,
        !old(kernel).writer_locked,
    ensures
        final(kernel).wf(),
        *final(kernel) == (Kernel { interrupts_enabled: true, ..*old(kernel) }),
{
    kernel.interrupts_enabled = true;
}

/// Disable signal delivery.
pub fn disable_interrupts(kernel: &mut Kernel)
    requires
        old(kernel).wf(),
    ensures
        final(kernel).wf(),
        *final(kernel) == (Kernel { interrupts_enabled: false, ..*old(kernel) }),
{
    kernel.interrupts_enabled = false;
}

/// Print text on the output sink under the required discipline: delivery
/// is disabled for the whole critical section that holds the sink's lock,
/// and the prior enable state is restored on the way out — a self-interrupt
/// while holding the lock would deadlock the single core permanently.
pub fn print_str(kernel: &mut Kernel, text: &str)
    requires
        old(kernel).wf(),
        !old(kernel).writer_locked,
    ensures
        final(kernel).wf(),
        *final(kernel) == (Kernel { writer: final(kernel).writer, ..*old(kernel) }),
        final(kernel).writer@ == spec_put_bytes(old(kernel).writer@, text.spec_bytes()),
{
    let were_enabled = kernel.interrupts_enabled;
    kernel.interrupts_enabled = false;
    kernel.writer_locked = true;
    kernel.writer.write_string(text);
    kernel.writer_locked = false;
    kernel.interrupts_enabled = were_enabled;
}

/// Print the hex form of a value on the output sink, under the same
/// critical-section discipline as [`print_str`].
pub fn print_hex(kernel: &mut Kernel, value: u64)
    requires
        old(kernel).wf(),
        !old(kernel).writer_locked,
    ensures
        final(kernel).wf(),
        *final(kernel) == (Kernel { writer: final(kernel).writer, ..*old(kernel) }),
        final(kernel).writer@ == spec_put_bytes(old(kernel).writer@, spec_hex_bytes(value)),
{
    let were_enabled = kernel.interrupts_enabled;
    kernel.interrupts_enabled = false;
    kernel.writer_locked = true;
    kernel.writer.write_hex(value);
    kernel.writer_locked = false;
    kernel.interrupts_enabled = were_enabled;
}

/// Print one decoded character on the output sink, under the same
/// critical-section discipline as [`print_str`].
pub fn print_char(kernel: &mut Kernel, character: char)
    requires
        old(kernel).wf(),
        !old(kernel).writer_locked,
    ensures
        final(kernel).wf(),
        *final(kernel) == (Kernel { writer: final(kernel).writer, ..*old(kernel) }),
        final(kernel).writer@ == spec_put_char(old(kernel).writer@, character),
{
    let were_enabled = kernel.interrupts_enabled;
    kernel.interrupts_enabled = false;
    kernel.writer_locked = true;
    kernel.writer.write_char(character);
    kernel.writer_locked = false;
    kernel.interrupts_enabled = were_enabled;
}

/// The diagnostic text of the breakpoint handler.
pub open spec fn spec_breakpoint_diagnostics(s: ScreenState, frame: InterruptStackFrame) -> ScreenState {
    spec_put_bytes(
        spec_put_bytes(
            spec_put_bytes(s, ("EXCEPTION: BREAKPOINT\ninstruction pointer: ").spec_bytes()),
            spec_hex_bytes(frame.instruction_pointer),
        ),
        ("\n").spec_bytes(),
    )
}

/// Handler for the breakpoint exception, vector 3, a trap: report the
/// trapping context and resume.
///
/// Transparent to control flow: everything but the output sink is left
/// exactly as it was, and execution continues after the trapping
/// instruction.
pub fn breakpoint_handler(kernel: &mut Kernel, stack_frame: InterruptStackFrame)
    requires
        old(kernel).wf(),
        !old(kernel).writer_locked,
    ensures
        final(kernel).wf(),
        *final(kernel) == (Kernel { writer: final(kernel).writer, ..*old(kernel) }),
        final(kernel).writer@ == spec_breakpoint_diagnostics(old(kernel).writer@, stack_frame),
{
    print_str(kernel, "EXCEPTION: BREAKPOINT\ninstruction pointer: ");
    print_hex(kernel, stack_frame.instruction_pointer);
    print_str(kernel, "\n");
}

/// The diagnostic text of the double-fault handler.
pub open spec fn spec_double_fault_diagnostics(
    s: ScreenState,
    frame: InterruptStackFrame,
    error_code: u64,
) -> ScreenState {
    spec_put_bytes(
        spec_put_bytes(
            spec_put_bytes(
                spec_put_bytes(
                    spec_put_bytes(s, ("EXCEPTION: DOUBLE FAULT\nerror code: ").spec_bytes()),
                    spec_hex_bytes(error_code),
                ),
                ("\ninstruction pointer: ").spec_bytes(),
            ),
            spec_hex_bytes(frame.instruction_pointer),
        ),
        ("\n").spec_bytes(),
    )
}

/// Handler for the double-fault exception, vector 8, an abort raised when
/// a second exception occurs while the CPU is already delivering a first
/// one. It runs on the dedicated stack published by the segment/stack
/// builder, logs its diagnostics, and halts dispatch for good: an abort
/// handler must never return to the interrupted code, and here returning
/// from the call models the CPU parked behind the halt, with every
/// further delivery refused.
pub fn double_fault_handler(kernel: &mut Kernel, stack_frame: InterruptStackFrame, error_code: u64)
    requires
        old(kernel).wf(),
        !old(kernel).writer_locked,
    ensures
        final(kernel).wf(),
        *final(kernel) == (Kernel {
            writer: final(kernel).writer,
            halted: Some(HaltReason::DoubleFault),
            ..*old(kernel)
        }),
        final(kernel).writer@ == spec_double_fault_diagnostics(
            old(kernel).writer@,
            stack_frame,
            error_code,
        ),
{
    print_str(kernel, "EXCEPTION: DOUBLE FAULT\nerror code: ");
    print_hex(kernel, error_code);
    print_str(kernel, "\ninstruction pointer: ");
    print_hex(kernel, stack_frame.instruction_pointer);
    print_str(kernel, "\n");
    kernel.halted = Some(HaltReason::DoubleFault);
}

/// The diagnostic text of the page-fault handler.
pub open spec fn spec_page_fault_diagnostics(
    s: ScreenState,
    frame: InterruptStackFrame,
    accessed_address: u64,
    error_code: u64,
) -> ScreenState {
    spec_put_bytes(
        spec_put_bytes(
            spec_put_bytes(
                spec_put_bytes(
                    spec_put_bytes(
                        spec_put_bytes(
                            spec_put_bytes(s, ("EXCEPTION: PAGE FAULT\naccessed address: ").spec_bytes()),
                            spec_hex_bytes(accessed_address),
                        ),
                        ("\nerror code: ").spec_bytes(),
                    ),
                    spec_hex_bytes(error_code),
                ),
                ("\ninstruction pointer: ").spec_bytes(),
            ),
            spec_hex_bytes(frame.instruction_pointer),
        ),
        ("\n").spec_bytes(),
    )
}

/// Handler for the page-fault exception, vector 14, a fault: report the
/// faulting address and error code, then — address translation being
/// unimplemented — park the CPU in the idle wait instead of resuming.
pub fn page_fault_handler(
    kernel: &mut Kernel,
    stack_frame: InterruptStackFrame,
    accessed_address: u64,
    error_code: u64,
)
    requires
        old(kernel).wf(),
        !old(kernel).writer_locked,
    ensures
        final(kernel).wf(),
        *final(kernel) == (Kernel {
            writer: final(kernel).writer,
            halted: Some(HaltReason::PageFault),
            ..*old(kernel)
        }),
        final(kernel).writer@ == spec_page_fault_diagnostics(
            old(kernel).writer@,
            stack_frame,
            accessed_address,
            error_code,
        ),
{
    print_str(kernel, "EXCEPTION: PAGE FAULT\naccessed address: ");
    print_hex(kernel, accessed_address);
    print_str(kernel, "\nerror code: ");
    print_hex(kernel, error_code);
    print_str(kernel, "\ninstruction pointer: ");
    print_hex(kernel, stack_frame.instruction_pointer);
    print_str(kernel, "\n");
    kernel.halted = Some(HaltReason::PageFault);
}

/// Handler for the periodic timer signal: do only the short, non-blocking
/// work of printing the tick mark and counting the delivery, then
/// acknowledge towards the controllers — without the end-of-interrupt
/// they assume the kernel is still busy and hold back every further
/// signal of the same priority.
pub fn timer_interrupt_handler(kernel: &mut Kernel)
    requires
        old(kernel).wf(),
        !old(kernel).writer_locked,
        old(kernel).timer_ticks < u64::MAX,
    ensures
        final(kernel).wf(),
        *final(kernel) == (Kernel {
            writer: final(kernel).writer,
            bus: final(kernel).bus,
            timer_ticks: (old(kernel).timer_ticks + 1) as u64,
            ..*old(kernel)
        }),
        final(kernel).writer@ == spec_put_bytes(old(kernel).writer@, (".").spec_bytes()),
        final(kernel).bus.log@ == old(kernel).bus.log@ + spec_eoi_writes(old(kernel).pics, 32),
        final(kernel).bus.primary == (PicDevice { in_service: false, ..old(kernel).bus.primary }),
        final(kernel).bus.secondary == old(kernel).bus.secondary,
        final(kernel).bus.ps2_data == old(kernel).bus.ps2_data,
{
    print_str(kernel, ".");
    let pics = kernel.pics;
    pics.notify_end_of_interrupt(&mut kernel.bus, InterruptIndex::Timer.as_u8());
    kernel.timer_ticks = kernel.timer_ticks + 1;
}

/// What one decoded key leaves on the output sink: the character for a
/// unicode key, the name's bytes for a raw key.
pub open spec fn spec_print_decoded(s: ScreenState, input: DecodedInput) -> ScreenState {
    match input {
        DecodedInput::Unicode(character) => spec_put_char(s, character),
        DecodedInput::RawKey(name) => spec_put_bytes(s, vstd::utf8::encode_utf8(name@)),
    }
}

/// Print one decoded key on the output sink: exactly
/// [`spec_print_decoded`], whatever the decoder handed back.
pub fn print_decoded(kernel: &mut Kernel, input: &DecodedInput)
    requires
        old(kernel).wf(),
        !old(kernel).writer_locked,
    ensures
        final(kernel).wf(),
        *final(kernel) == (Kernel { writer: final(kernel).writer, ..*old(kernel) }),
        final(kernel).writer@ == spec_print_decoded(old(kernel).writer@, *input),
{
    match input {
        DecodedInput::Unicode(character) => print_char(kernel, *character),
        DecodedInput::RawKey(name) => print_str(kernel, name.as_str()),
    }
}

/// Handler for the PS/2 keyboard signal: read the scancode latched on the
/// keyboard's data port — reading it is what lets the next key press
/// through — feed it to the decoder, print whatever key it completes, and
/// acknowledge towards the controllers.
pub fn ps2_keyboard_interrupt_handler(kernel: &mut Kernel)
    requires
        old(kernel).wf(),
        !old(kernel).writer_locked,
    ensures
        final(kernel).wf(),
        *final(kernel) == (Kernel {
            writer: final(kernel).writer,
            keyboard: final(kernel).keyboard,
            bus: final(kernel).bus,
            ..*old(kernel)
        }),
        final(kernel).bus.log@ == old(kernel).bus.log@ + spec_eoi_writes(old(kernel).pics, 33),
        final(kernel).bus.primary == (PicDevice { in_service: false, ..old(kernel).bus.primary }),
        final(kernel).bus.secondary == old(kernel).bus.secondary,
        final(kernel).bus.ps2_data == old(kernel).bus.ps2_data,
{
    let scan_code = kernel.bus.read_ps2();
    match keyboard_add_byte(&mut kernel.keyboard, scan_code) {
        Some(event) => {
            match keyboard_process_event(&mut kernel.keyboard, event) {
                Some(input) => print_decoded(kernel, &input),
                None => {},
            }
        },
        None => {},
    }
    let pics = kernel.pics;
    pics.notify_end_of_interrupt(&mut kernel.bus, InterruptIndex::Keyboard.as_u8());
}

/// In any well-formed state, signal delivery is enabled only while the
/// output sink's lock is free. A handler can only be entered while
/// delivery is enabled, so no handler ever finds the lock held by the
/// code it interrupted: the single core cannot deadlock against itself on
/// this lock.
pub proof fn lemma_no_self_deadlock(kernel: Kernel)
    requires
        kernel.wf(),
        kernel.interrupts_enabled,
    ensures
        !kernel.writer_locked,
{
}

/// In any well-formed state, signal delivery is on only once the vector
/// table is loaded and both controllers are configured: enabling earlier
/// — the defined misuse that would dispatch through an unloaded or
/// partially built table — is excluded by construction.
pub proof fn lemma_enable_only_after_init(kernel: Kernel)
    requires
        kernel.wf(),
        kernel.interrupts_enabled,
    ensures
        kernel.table.loaded,
        kernel.bus.primary.configured,
        kernel.bus.secondary.configured,
{
}

/// Build the vector table on first call — breakpoint, page fault, the
/// double fault bound to the dedicated stack, timer and keyboard — and
/// load it as the active table. Idempotent: a later call finds the table
/// already built, changes no entry, and only reissues the load.
pub fn init_idt(kernel: &mut Kernel)
    requires
        old(kernel).wf(),
        old(kernel).gdt is Some,
    ensures
        final(kernel).wf(),
        *final(kernel) == (Kernel {
            table: final(kernel).table,
            table_built: true,
            ..*old(kernel)
        }),
        final(kernel).table.loaded,
        final(kernel).table_built,
        old(kernel).table_built ==> final(kernel).table.entries@ == old(kernel).table.entries@,
        !old(kernel).table_built ==> {
            &&& final(kernel).table.spec_entry(BREAKPOINT_VECTOR) == spec_plain_entry(
                HandlerFn::Breakpoint,
            )
            &&& final(kernel).table.spec_entry(PAGE_FAULT_VECTOR) == spec_plain_entry(
                HandlerFn::PageFault,
            )
            &&& final(kernel).table.spec_entry(DOUBLE_FAULT_VECTOR) == spec_stack_entry(
                HandlerFn::DoubleFault,
                old(kernel).gdt->Some_0.fault_stack_index,
            )
            &&& final(kernel).table.spec_entry(32) == spec_plain_entry(HandlerFn::Timer)
            &&& final(kernel).table.spec_entry(33) == spec_plain_entry(HandlerFn::Ps2Keyboard)
            &&& forall|v: u8|
                v != BREAKPOINT_VECTOR && v != PAGE_FAULT_VECTOR && v != DOUBLE_FAULT_VECTOR && v
                    != 32 && v != 33 ==> final(kernel).table.spec_entry(v) == old(
                    kernel,
                ).table.spec_entry(v)
        },
{
    if !kernel.table_built {
        let stack_index = match &kernel.gdt {
            Some(setup) => setup.fault_stack_index,
            None => {
                assert(false);
                0
            },
        };
        kernel.table.register(BREAKPOINT_VECTOR, HandlerFn::Breakpoint);
        kernel.table.register(PAGE_FAULT_VECTOR, HandlerFn::PageFault);
        // The double-fault entry binds the dedicated stack, so that an
        // overflowed stack cannot take the handler down with it.
        kernel.table.register_with_stack(DOUBLE_FAULT_VECTOR, HandlerFn::DoubleFault, stack_index);
        let timer_vector = InterruptIndex::Timer.as_u8();
        kernel.table.register(timer_vector, HandlerFn::Timer);
        let keyboard_vector = InterruptIndex::Keyboard.as_u8();
        kernel.table.register(keyboard_vector, HandlerFn::Ps2Keyboard);
        kernel.table_built = true;
    }
    kernel.table.load();
}

/// Whether the primary controller can deliver right now: configured, with
/// nothing it delivered earlier still awaiting its acknowledge.
pub open spec fn spec_primary_ready(k: Kernel) -> bool {
    k.bus.primary.configured && !k.bus.primary.in_service
}

/// One hardware signal arrives on a vector of the primary controller's
/// range that carries an installed handler — the timer or the keyboard.
///
/// Delivery happens exactly when the CPU accepts signals, dispatch has
/// not halted, and the controller is ready; the controller then latches
/// the line into service, the handler runs, and the handler's own
/// acknowledge is what clears the in-service state again — so after every
/// delivered signal the controller is ready for the next one.
pub fn hardware_signal(kernel: &mut Kernel, vector: u8) -> (delivered: bool)
    requires
        old(kernel).wf(),
        !old(kernel).writer_locked,
        vector == 32 || vector == 33,
        old(kernel).table.spec_entry(32).handler == Some(HandlerFn::Timer),
        old(kernel).table.spec_entry(33).handler == Some(HandlerFn::Ps2Keyboard),
        vector == 32 ==> old(kernel).timer_ticks < u64::MAX,
    ensures
        final(kernel).wf(),
        delivered == (old(kernel).interrupts_enabled && old(kernel).halted is None
            && spec_primary_ready(*old(kernel))),
        !delivered ==> *final(kernel) == *old(kernel),
        delivered ==> {
            &&& final(kernel).bus.primary == (PicDevice {
                in_service: false,
                ..old(kernel).bus.primary
            })
            &&& final(kernel).bus.secondary == old(kernel).bus.secondary
            &&& final(kernel).bus.ps2_data == old(kernel).bus.ps2_data
            &&& final(kernel).bus.log@ == old(kernel).bus.log@ + spec_eoi_writes(
                old(kernel).pics,
                vector,
            )
            &&& final(kernel).interrupts_enabled
            &&& final(kernel).halted is None
            &&& !final(kernel).writer_locked
            &&& final(kernel).table == old(kernel).table
            &&& final(kernel).table_built == old(kernel).table_built
            &&& final(kernel).gdt == old(kernel).gdt
            &&& final(kernel).pics == old(kernel).pics
            &&& final(kernel).reset == old(kernel).reset
        },
        delivered && vector == 32 ==> final(kernel).timer_ticks == old(kernel).timer_ticks + 1
            && final(kernel).writer@ == spec_put_bytes(old(kernel).writer@, (".").spec_bytes()),
        delivered && vector == 33 ==> final(kernel).timer_ticks == old(kernel).timer_ticks,
{
    if !kernel.interrupts_enabled {
        return false;
    }
    if kernel.halted.is_some() {
        return false;
    }
    if !kernel.bus.primary.configured || kernel.bus.primary.in_service {
        return false;
    }
    // The controller wins arbitration and latches the line into service.
    kernel.bus.primary.begin_service();
    let entry = kernel.table.entries[vector as usize];
    match entry.handler {
        Some(HandlerFn::Timer) => {
            timer_interrupt_handler(kernel);
        },
        Some(HandlerFn::Ps2Keyboard) => {
            ps2_keyboard_interrupt_handler(kernel);
        },
        _ => {
            assert(false);
        },
    }
    true
}

/// Deliver the timer signal `n` times in a row, each delivery followed by
/// its handler's acknowledge: every one of the `n` occurrences reaches
/// the handler — none is lost to a stalled controller — and the tick
/// count grows by exactly `n`.
pub fn deliver_timer_signals(kernel: &mut Kernel, n: u32) -> (delivered: u32)
    requires
        old(kernel).wf(),
        !old(kernel).writer_locked,
        old(kernel).interrupts_enabled,
        old(kernel).halted is None,
        spec_primary_ready(*old(kernel)),
        old(kernel).table.spec_entry(32).handler == Some(HandlerFn::Timer),
        old(kernel).table.spec_entry(33).handler == Some(HandlerFn::Ps2Keyboard),
        old(kernel).timer_ticks + n <= u64::MAX,
    ensures
        final(kernel).wf(),
        delivered == n,
        final(kernel).timer_ticks == old(kernel).timer_ticks + n,
        spec_primary_ready(*final(kernel)),
        final(kernel).interrupts_enabled,
        final(kernel).halted is None,
        !final(kernel).writer_locked,
{
    let mut i: u32 = 0;
    while i < n
        invariant
            i <= n,
            kernel.wf(),
            !kernel.writer_locked,
            kernel.interrupts_enabled,
            kernel.halted is None,
            spec_primary_ready(*kernel),
            kernel.table.spec_entry(32).handler == Some(HandlerFn::Timer),
            kernel.table.spec_entry(33).handler == Some(HandlerFn::Ps2Keyboard),
            kernel.timer_ticks == old(kernel).timer_ticks + i,
            old(kernel).timer_ticks + n <= u64::MAX,
        decreases n - i,
    {
        let accepted = hardware_signal(kernel, 32);
        assert(accepted);
        i = i + 1;
    }
    n
}

/// The CPU delivers the breakpoint trap — for instance for a deliberate
/// `int3` — through the loaded table. Trap handlers are transparent to
/// control flow: everything but the output sink is left exactly as it
/// was, dispatch keeps running, and execution resumes after the trapping
/// instruction.
pub fn trigger_breakpoint(kernel: &mut Kernel, stack_frame: InterruptStackFrame)
    requires
        old(kernel).wf(),
        !old(kernel).writer_locked,
        old(kernel).table.loaded,
        old(kernel).table.spec_entry(BREAKPOINT_VECTOR).handler == Some(HandlerFn::Breakpoint),
    ensures
        final(kernel).wf(),
        *final(kernel) == (Kernel { writer: final(kernel).writer, ..*old(kernel) }),
        final(kernel).halted == old(kernel).halted,
        final(kernel).writer@ == spec_breakpoint_diagnostics(old(kernel).writer@, stack_frame),
{
    let entry = kernel.table.entries[BREAKPOINT_VECTOR as usize];
    match entry.handler {
        Some(HandlerFn::Breakpoint) => breakpoint_handler(kernel, stack_frame),
        _ => {
            assert(false);
        },
    }
}

/// Whether the double-fault entry is usable when the interrupted stack is
/// not: present in the loaded table and carrying the stack index
/// published by the installed segment/stack state.
pub open spec fn spec_fault_stack_bound(k: Kernel) -> bool {
    &&& k.table.loaded
    &&& k.table.spec_entry(DOUBLE_FAULT_VECTOR).handler == Some(HandlerFn::DoubleFault)
    &&& k.gdt is Some
    &&& k.table.spec_entry(DOUBLE_FAULT_VECTOR).stack_index == Some(
        k.gdt->Some_0.fault_stack_index,
    )
}

/// The CPU raises a double fault while the interrupted stack is unusable
/// — what unbounded recursion produces once the stack is exhausted. With
/// the dedicated stack bound to the double-fault entry, the handler
/// enters on that stack, logs its diagnostics and halts; with anything
/// less the CPU cannot even enter the handler, and the fault escalates to
/// the triple fault that silently resets the machine.
pub fn stack_overflow_double_fault(
    kernel: &mut Kernel,
    stack_frame: InterruptStackFrame,
) -> (halted_with_diagnostics: bool)
    requires
        old(kernel).wf(),
        !old(kernel).writer_locked,
    ensures
        final(kernel).wf(),
        halted_with_diagnostics == spec_fault_stack_bound(*old(kernel)),
        spec_fault_stack_bound(*old(kernel)) ==> {
            &&& *final(kernel) == (Kernel {
                writer: final(kernel).writer,
                halted: Some(HaltReason::DoubleFault),
                ..*old(kernel)
            })
            &&& final(kernel).writer@ == spec_double_fault_diagnostics(
                old(kernel).writer@,
                stack_frame,
                0,
            )
            &&& final(kernel).reset == old(kernel).reset
        },
        !spec_fault_stack_bound(*old(kernel)) ==> *final(kernel) == (Kernel {
            reset: true,
            ..*old(kernel)
        }),
{
    let bound = if !kernel.table.loaded {
        false
    } else {
        let entry = kernel.table.entries[DOUBLE_FAULT_VECTOR as usize];
        let handler_ok = matches!(entry.handler, Some(HandlerFn::DoubleFault));
        let stack_ok = match (&kernel.gdt, entry.stack_index) {
            (Some(setup), Some(index)) => index == setup.fault_stack_index,
            _ => false,
        };
        handler_ok && stack_ok
    };
    if bound {
        // The handler enters on the dedicated stack; the double fault
        // always pushes error code zero.
        double_fault_handler(kernel, stack_frame, 0);
        true
    } else {
        // No usable stack for the abort: the escalation is the silent
        // machine reset, with no diagnostic output at all.
        kernel.reset = true;
        false
    }
}

} // verus!
