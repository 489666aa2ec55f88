//! The controller driver's byte protocol, observed on the modelled bus.

use operating_system::device::{Bus, InitStage};
use operating_system::pic8259::{
    ChainedPics, PortWrite, CMD_END_OF_INTERRUPT, CMD_INIT, MODE_8086, PRIMARY_COMMAND_PORT,
    PRIMARY_DATA_PORT, SECONDARY_COMMAND_PORT, SECONDARY_DATA_PORT, WAIT_PORT,
};

fn standard_pair() -> ChainedPics {
    ChainedPics::new(32, 40)
}

#[test]
fn new_uses_distinct_standard_ports_and_offsets() {
    let pics = standard_pair();
    assert_eq!(pics.primary.offset, 32);
    assert_eq!(pics.secondary.offset, 40);
    assert_eq!(pics.primary.command, 0x20);
    assert_eq!(pics.primary.data, 0x21);
    assert_eq!(pics.secondary.command, 0xa0);
    assert_eq!(pics.secondary.data, 0xa1);
}

#[test]
fn ownership_ranges_are_eight_wide() {
    let pics = standard_pair();
    assert!(!pics.primary.handles_interrupt(31));
    assert!(pics.primary.handles_interrupt(32));
    assert!(pics.primary.handles_interrupt(39));
    assert!(!pics.primary.handles_interrupt(40));
    assert!(!pics.secondary.handles_interrupt(39));
    assert!(pics.secondary.handles_interrupt(40));
    assert!(pics.secondary.handles_interrupt(47));
    assert!(!pics.secondary.handles_interrupt(48));
    assert!(pics.handles_interrupt(35));
    assert!(pics.handles_interrupt(44));
    assert!(!pics.handles_interrupt(3));
    assert!(!pics.handles_interrupt(48));
}

#[test]
fn ranges_stay_disjoint_and_above_reserved_vectors_for_valid_pairs() {
    let pairs: [(u8, u8); 4] = [(32, 40), (40, 32), (100, 108), (240, 248)];
    for (one, two) in pairs {
        let pics = ChainedPics::new(one, two);
        for v in 0..=255u8 {
            let p = pics.primary.handles_interrupt(v);
            let s = pics.secondary.handles_interrupt(v);
            assert!(!(p && s), "vector {} owned by both for pair ({}, {})", v, one, two);
            if p || s {
                assert!(v >= 32, "owned vector {} below 32 for pair ({}, {})", v, one, two);
            }
        }
        let owned = (0..=255u8).filter(|v| pics.primary.handles_interrupt(*v)).count();
        assert_eq!(owned, 8);
        let owned = (0..=255u8).filter(|v| pics.secondary.handles_interrupt(*v)).count();
        assert_eq!(owned, 8);
    }
}

#[test]
fn initialize_emits_the_exact_byte_sequence() {
    let pics = standard_pair();
    let mut bus = Bus::powered_on(&pics, 0xaa, 0x55);
    pics.initialize(&mut bus);

    let expected = [
        PortWrite { port: PRIMARY_COMMAND_PORT, value: CMD_INIT },
        PortWrite { port: WAIT_PORT, value: 0 },
        PortWrite { port: SECONDARY_COMMAND_PORT, value: CMD_INIT },
        PortWrite { port: WAIT_PORT, value: 0 },
        PortWrite { port: PRIMARY_DATA_PORT, value: 32 },
        PortWrite { port: WAIT_PORT, value: 0 },
        PortWrite { port: SECONDARY_DATA_PORT, value: 40 },
        PortWrite { port: WAIT_PORT, value: 0 },
        PortWrite { port: PRIMARY_DATA_PORT, value: 4 },
        PortWrite { port: WAIT_PORT, value: 0 },
        PortWrite { port: SECONDARY_DATA_PORT, value: 2 },
        PortWrite { port: WAIT_PORT, value: 0 },
        PortWrite { port: PRIMARY_DATA_PORT, value: MODE_8086 },
        PortWrite { port: WAIT_PORT, value: 0 },
        PortWrite { port: SECONDARY_DATA_PORT, value: MODE_8086 },
        PortWrite { port: WAIT_PORT, value: 0 },
        PortWrite { port: PRIMARY_DATA_PORT, value: 0xaa },
        PortWrite { port: SECONDARY_DATA_PORT, value: 0x55 },
    ];
    assert_eq!(bus.log.len(), expected.len());
    for (i, want) in expected.iter().enumerate() {
        assert_eq!(bus.log[i], *want, "write {} differs", i);
    }
}

#[test]
fn initialize_configures_both_devices_and_restores_masks() {
    let pics = standard_pair();
    let mut bus = Bus::powered_on(&pics, 0xaa, 0x55);
    pics.initialize(&mut bus);

    assert!(bus.primary.configured);
    assert!(bus.secondary.configured);
    assert_eq!(bus.primary.offset, 32);
    assert_eq!(bus.secondary.offset, 40);
    assert_eq!(bus.primary.chain, 4);
    assert_eq!(bus.secondary.chain, 2);
    assert_eq!(bus.primary.mode, MODE_8086);
    assert_eq!(bus.secondary.mode, MODE_8086);
    assert_eq!(bus.primary.mask, 0xaa);
    assert_eq!(bus.secondary.mask, 0x55);
    assert_eq!(bus.primary.stage, InitStage::Ready);
    assert_eq!(bus.secondary.stage, InitStage::Ready);
}

#[test]
fn acknowledge_on_primary_vector_messages_primary_only() {
    let pics = standard_pair();
    let mut bus = Bus::powered_on(&pics, 0, 0);
    pics.initialize(&mut bus);
    let before = bus.log.len();

    bus.primary.begin_service();
    pics.notify_end_of_interrupt(&mut bus, 32);

    assert_eq!(bus.log.len(), before + 1);
    assert_eq!(
        bus.log[before],
        PortWrite { port: PRIMARY_COMMAND_PORT, value: CMD_END_OF_INTERRUPT }
    );
    assert!(!bus.primary.in_service);
}

#[test]
fn acknowledge_on_secondary_vector_messages_secondary_first() {
    let pics = standard_pair();
    let mut bus = Bus::powered_on(&pics, 0, 0);
    pics.initialize(&mut bus);
    let before = bus.log.len();

    bus.primary.begin_service();
    bus.secondary.begin_service();
    pics.notify_end_of_interrupt(&mut bus, 44);

    assert_eq!(bus.log.len(), before + 2);
    assert_eq!(
        bus.log[before],
        PortWrite { port: SECONDARY_COMMAND_PORT, value: CMD_END_OF_INTERRUPT }
    );
    assert_eq!(
        bus.log[before + 1],
        PortWrite { port: PRIMARY_COMMAND_PORT, value: CMD_END_OF_INTERRUPT }
    );
    assert!(!bus.primary.in_service);
    assert!(!bus.secondary.in_service);
}

#[test]
fn acknowledge_on_unowned_vector_writes_nothing() {
    let pics = standard_pair();
    let mut bus = Bus::powered_on(&pics, 0, 0);
    pics.initialize(&mut bus);
    let before = bus.log.len();

    pics.notify_end_of_interrupt(&mut bus, 3);
    pics.notify_end_of_interrupt(&mut bus, 48);

    assert_eq!(bus.log.len(), before);
}
