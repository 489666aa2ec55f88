//! The composed dispatch core: initialization, exception handling and
//! hardware-signal delivery on the kernel context.

use operating_system::gdt::LoadAction;
use operating_system::idt::HandlerFn;
use operating_system::init;
use operating_system::interrupts::{
    deliver_timer_signals, hardware_signal, init_idt, stack_overflow_double_fault,
    trigger_breakpoint, HaltReason, InterruptIndex, InterruptStackFrame, Kernel,
};
use operating_system::vga_buffer::Writer;

fn frame() -> InterruptStackFrame {
    InterruptStackFrame {
        instruction_pointer: 0x1000,
        code_segment: 8,
        cpu_flags: 0x202,
        stack_pointer: 0x8000,
        stack_segment: 0,
    }
}

fn running_kernel() -> Kernel {
    let mut kernel = Kernel::new(0xfd, 0xff);
    init(&mut kernel, 0x10_0000);
    kernel
}

fn screen_row(writer: &Writer, row: usize) -> String {
    writer.buffer.chars[row]
        .iter()
        .map(|c| c.ascii_character as char)
        .collect::<String>()
        .trim_end()
        .to_string()
}

fn screen_text(writer: &Writer) -> String {
    (0..25)
        .map(|r| screen_row(writer, r))
        .filter(|r| !r.is_empty())
        .collect::<Vec<_>>()
        .join("\n")
}

#[test]
fn interrupt_index_maps_to_the_remapped_vectors() {
    assert_eq!(InterruptIndex::Timer.as_u8(), 32);
    assert_eq!(InterruptIndex::Keyboard.as_u8(), 33);
    assert_eq!(InterruptIndex::SerialPortOne.as_u8(), 35);
    assert_eq!(InterruptIndex::SerialPortTwo.as_u8(), 36);
    assert_eq!(InterruptIndex::ParallelPortTwoAndThree.as_u8(), 37);
    assert_eq!(InterruptIndex::FloppyDisk.as_u8(), 38);
    assert_eq!(InterruptIndex::ParallelPortOne.as_u8(), 39);
    assert_eq!(InterruptIndex::Keyboard.as_usize(), 33);
}

#[test]
fn init_enables_delivery_only_after_everything_is_installed() {
    let mut kernel = Kernel::new(0, 0);
    assert!(!kernel.interrupts_enabled);
    let actions = init(&mut kernel, 0x10_0000);

    assert!(kernel.interrupts_enabled);
    assert!(kernel.table.loaded);
    assert!(kernel.gdt.is_some());
    assert!(kernel.bus.primary.configured);
    assert!(kernel.bus.secondary.configured);
    assert_eq!(kernel.bus.primary.offset, 32);
    assert_eq!(kernel.bus.secondary.offset, 40);
    assert_eq!(
        actions,
        vec![
            LoadAction::LoadDescriptorTable,
            LoadAction::ReloadCodeSegment,
            LoadAction::LoadTaskRegister,
        ]
    );
    assert_eq!(kernel.table.entries[3].handler, Some(HandlerFn::Breakpoint));
    assert_eq!(kernel.table.entries[8].handler, Some(HandlerFn::DoubleFault));
    assert_eq!(kernel.table.entries[8].stack_index, Some(0));
    assert_eq!(kernel.table.entries[14].handler, Some(HandlerFn::PageFault));
    assert_eq!(kernel.table.entries[32].handler, Some(HandlerFn::Timer));
    assert_eq!(kernel.table.entries[33].handler, Some(HandlerFn::Ps2Keyboard));
}

#[test]
fn init_idt_is_idempotent() {
    let mut kernel = running_kernel();
    let before = kernel.table.entries.clone();
    init_idt(&mut kernel);
    assert!(kernel.table.loaded);
    assert_eq!(kernel.table.entries, before);
}

#[test]
fn test_breakpoint_exception() {
    // Deliberately trigger the breakpoint vector: the trap handler reports
    // and execution resumes with nothing but the screen changed.
    let mut kernel = running_kernel();
    let ticks = kernel.timer_ticks;
    trigger_breakpoint(&mut kernel, frame());

    assert!(kernel.halted.is_none());
    assert!(!kernel.reset);
    assert!(kernel.interrupts_enabled);
    assert_eq!(kernel.timer_ticks, ticks);
    assert!(screen_text(&kernel.writer).contains("EXCEPTION: BREAKPOINT"));
    assert!(screen_text(&kernel.writer).contains("0x0000000000001000"));

    // still running: the next hardware signal is delivered normally
    assert!(hardware_signal(&mut kernel, 32));
}

#[test]
fn stack_overflow_halts_with_diagnostics_not_reset() {
    // Exhausting the stack while the dedicated stack is installed must end
    // in the double-fault handler's diagnostics, never the silent reset.
    let mut kernel = running_kernel();
    let halted = stack_overflow_double_fault(&mut kernel, frame());

    assert!(halted);
    assert!(!kernel.reset);
    assert_eq!(kernel.halted, Some(HaltReason::DoubleFault));
    assert!(screen_text(&kernel.writer).contains("EXCEPTION: DOUBLE FAULT"));

    // dispatch has stopped for good
    assert!(!hardware_signal(&mut kernel, 32));
}

#[test]
fn stack_overflow_without_the_dedicated_stack_resets() {
    // The same event before anything is installed escalates to the silent
    // machine reset: that is the hazard the builder exists to remove.
    let mut kernel = Kernel::new(0, 0);
    let halted = stack_overflow_double_fault(&mut kernel, frame());
    assert!(!halted);
    assert!(kernel.reset);
    assert_eq!(screen_text(&kernel.writer), "");
}

#[test]
fn repeated_timer_signals_are_all_delivered() {
    let mut kernel = running_kernel();
    let delivered = deliver_timer_signals(&mut kernel, 64);
    assert_eq!(delivered, 64);
    assert_eq!(kernel.timer_ticks, 64);
    assert!(!kernel.bus.primary.in_service);
    assert!(!kernel.bus.secondary.in_service);
}

#[test]
fn missing_acknowledge_stalls_the_controller() {
    let mut kernel = running_kernel();
    assert!(hardware_signal(&mut kernel, 32));

    // a signal the handler never acknowledged leaves the line in service …
    kernel.bus.primary.begin_service();
    assert!(!hardware_signal(&mut kernel, 32));
    assert_eq!(kernel.timer_ticks, 1);

    // … and the late acknowledge releases it again
    let pics = kernel.pics;
    pics.notify_end_of_interrupt(&mut kernel.bus, InterruptIndex::Timer.as_u8());
    assert!(hardware_signal(&mut kernel, 32));
    assert_eq!(kernel.timer_ticks, 2);
}

#[test]
fn no_delivery_before_enable_or_after_halt() {
    let mut kernel = Kernel::new(0, 0);
    assert!(!hardware_signal(&mut kernel, 32));
    assert_eq!(kernel.timer_ticks, 0);
}

#[test]
fn end_to_end_five_timer_ticks() {
    // Controllers at offsets 32 and 40, a handler on vector 32 that counts
    // and acknowledges: five simulated signals, counter at five, nothing
    // stalled.
    let mut kernel = Kernel::new(0xfe, 0xff);
    init(&mut kernel, 0x10_0000);

    for _ in 0..5 {
        assert!(hardware_signal(&mut kernel, 32));
    }

    assert_eq!(kernel.timer_ticks, 5);
    assert!(!kernel.bus.primary.in_service);
    assert!(!kernel.bus.secondary.in_service);
    assert!(kernel.halted.is_none());
    assert_eq!(screen_row(&kernel.writer, 24), ".....");
}

#[test]
fn keyboard_scancode_prints_the_decoded_key() {
    let mut kernel = running_kernel();

    // scancode 0x1e: the 'a' key pressed
    kernel.bus.latch_ps2(0x1e);
    assert!(hardware_signal(&mut kernel, 33));
    assert_eq!(kernel.writer.buffer.chars[24][0].ascii_character, b'a');
    assert!(!kernel.bus.primary.in_service);

    // its release prints nothing further
    kernel.bus.latch_ps2(0x9e);
    assert!(hardware_signal(&mut kernel, 33));
    assert_eq!(screen_row(&kernel.writer, 24), "a");
}

#[test]
fn extended_scancode_prints_the_raw_key_name() {
    let mut kernel = running_kernel();

    // the up-arrow key arrives as the two-byte sequence 0xe0 0x48
    kernel.bus.latch_ps2(0xe0);
    assert!(hardware_signal(&mut kernel, 33));
    kernel.bus.latch_ps2(0x48);
    assert!(hardware_signal(&mut kernel, 33));

    assert_eq!(screen_row(&kernel.writer, 24), "ArrowUp");
    assert!(!kernel.bus.primary.in_service);
}
