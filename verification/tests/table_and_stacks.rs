//! The trap table builder and the segment/stack builder.

use operating_system::gdt::{
    allocate_fault_stack, GdtSetup, LoadAction, StackRegion, DOUBLE_FAULT_IST_INDEX,
    FAULT_STACK_SIZE,
};
use operating_system::idt::{classify, ExceptionClass, HandlerFn, VectorTable};

#[test]
fn fresh_table_has_all_entries_missing() {
    let table = VectorTable::new();
    assert_eq!(table.entries.len(), 256);
    assert!(!table.loaded);
    for v in [0usize, 3, 8, 14, 32, 255] {
        assert!(table.entries[v].handler.is_none());
        assert!(table.entries[v].stack_index.is_none());
        assert_eq!(table.entries[v].privilege, 0);
    }
}

#[test]
fn register_installs_handler_and_leaves_others_alone() {
    let mut table = VectorTable::new();
    table.register(3, HandlerFn::Breakpoint);
    table.register(32, HandlerFn::Timer);
    assert_eq!(table.entries[3].handler, Some(HandlerFn::Breakpoint));
    assert_eq!(table.entries[32].handler, Some(HandlerFn::Timer));
    assert!(table.entries[3].stack_index.is_none());
    assert!(table.entries[4].handler.is_none());
    assert!(table.entries[33].handler.is_none());
}

#[test]
fn register_with_stack_binds_the_dedicated_stack() {
    let mut table = VectorTable::new();
    table.register_with_stack(8, HandlerFn::DoubleFault, 0);
    assert_eq!(table.entries[8].handler, Some(HandlerFn::DoubleFault));
    assert_eq!(table.entries[8].stack_index, Some(0));
}

#[test]
fn load_marks_the_table_immutable() {
    let mut table = VectorTable::new();
    table.register(3, HandlerFn::Breakpoint);
    table.load();
    assert!(table.loaded);
    assert_eq!(table.entries[3].handler, Some(HandlerFn::Breakpoint));
}

#[test]
fn exception_classes_guide_handler_policy() {
    assert_eq!(classify(3), Some(ExceptionClass::Trap));
    assert_eq!(classify(4), Some(ExceptionClass::Trap));
    assert_eq!(classify(8), Some(ExceptionClass::Abort));
    assert_eq!(classify(18), Some(ExceptionClass::Abort));
    assert_eq!(classify(0), Some(ExceptionClass::Fault));
    assert_eq!(classify(14), Some(ExceptionClass::Fault));
    assert_eq!(classify(32), None);
    assert_eq!(classify(255), None);
}

#[test]
fn fault_stack_fills_exactly_one_published_slot() {
    let (tss, index) = allocate_fault_stack(0x1000);
    assert_eq!(index, DOUBLE_FAULT_IST_INDEX);
    assert_eq!(tss.interrupt_stack_table.len(), 7);
    let region = tss.interrupt_stack_table[index as usize].expect("slot must be filled");
    assert_eq!(region, StackRegion { start: 0x1000, size: FAULT_STACK_SIZE });
    assert_eq!(region.top(), 0x1000 + FAULT_STACK_SIZE);
    for (i, slot) in tss.interrupt_stack_table.iter().enumerate() {
        if i != index as usize {
            assert!(slot.is_none());
        }
    }
}

#[test]
fn fault_stack_is_over_provisioned() {
    assert!(FAULT_STACK_SIZE >= 4096);
    assert_eq!(FAULT_STACK_SIZE, 4096 * 5);
}

#[test]
fn descriptor_table_load_comes_strictly_first() {
    let (setup, actions): (GdtSetup, Vec<LoadAction>) = operating_system::gdt::init(0x2000);
    assert_eq!(
        actions,
        vec![
            LoadAction::LoadDescriptorTable,
            LoadAction::ReloadCodeSegment,
            LoadAction::LoadTaskRegister,
        ]
    );
    assert_eq!(setup.fault_stack_index, DOUBLE_FAULT_IST_INDEX);
    assert_eq!(setup.selectors.code_selector, 8);
    assert_eq!(setup.selectors.tss_selector, 16);
}
