//! Driver for the pair of chained legacy 8259 interrupt controllers.
//!
//! The primary controller sits on ports 0x20/0x21 and the secondary on
//! 0xA0/0xA1; the secondary's output line is wired through line 2 of the
//! primary. Each controller multiplexes eight hardware lines onto eight
//! consecutive CPU vectors starting at a configurable offset, which must be
//! remapped above the CPU-reserved range 0..32.
//!
//! The driver never touches hardware directly: every operation produces the
//! exact sequence of port writes as data (see [`PortWrite`]), so the byte
//! protocol itself is part of the verified surface. An unverified shell
//! replays the writes onto the real ports.

use vstd::prelude::*;

use crate::device::{Bus, InitStage, PicDevice};

verus! {

/// Command sent to begin controller initialization.
pub const CMD_INIT: u8 = 0x11;

/// Command sent to acknowledge a handled interrupt (end of interrupt).
pub const CMD_END_OF_INTERRUPT: u8 = 0x20;

/// The operating mode the controllers are configured with.
pub const MODE_8086: u8 = 0x01;

/// Command port of the primary controller.
pub const PRIMARY_COMMAND_PORT: u16 = 0x20;

/// Data port of the primary controller.
pub const PRIMARY_DATA_PORT: u16 = 0x21;

/// Command port of the secondary controller.
pub const SECONDARY_COMMAND_PORT: u16 = 0xa0;

/// Data port of the secondary controller.
pub const SECONDARY_DATA_PORT: u16 = 0xa1;

/// Unused, side-effect-free port; a junk write to it gives legacy hardware
/// the settling time it needs between configuration bytes.
pub const WAIT_PORT: u16 = 0x80;

/// Chaining byte for the primary controller: the secondary arrives on its
/// line 2 (bit mask 0b100).
pub const CHAIN_PRIMARY_BYTE: u8 = 4;

/// Chaining byte for the secondary controller: its cascade identity.
pub const CHAIN_SECONDARY_BYTE: u8 = 2;

/// One write of a byte to an I/O port, as a plain value.
#[derive(Debug, Clone, Copy, PartialEq, Eq, Structural)]
pub struct PortWrite {
    pub port: u16,
    pub value: u8,
}

/// An individual interrupt controller: its configured vector-offset base and
/// its two fixed I/O ports.
#[derive(Debug, Clone, Copy, PartialEq, Eq, Structural)]
pub struct Pic {
    /// The base offset to which this controller's eight lines are mapped.
    pub offset: u8,
    /// The I/O port on which commands are sent.
    pub command: u16,
    /// The I/O port on which data is sent and received.
    pub data: u16,
}

impl Pic {
    /// A controller owns a vector iff the vector falls in the eight-wide
    /// range starting at its offset.
    pub open spec fn owns(self, vector: u8) -> bool {
        self.offset <= vector < self.offset + 8
    }

    /// Is this controller in charge of handling the given interrupt?
    /// (Each controller handles 8 interrupts.)
    pub fn handles_interrupt(&self, interrupt_id: u8) -> (r: bool)
        ensures
            r == self.owns(interrupt_id),
    {
        self.offset <= interrupt_id && (interrupt_id as u16) < (self.offset as u16) + 8
    }

    /// The single write that tells this controller a delivered interrupt has
    /// been fully handled.
    pub fn end_of_interrupt(&self) -> (w: PortWrite)
        ensures
            w == (PortWrite { port: self.command, value: CMD_END_OF_INTERRUPT }),
    {
        PortWrite { port: self.command, value: CMD_END_OF_INTERRUPT }
    }
}

/// The standard pair of chained controllers.
#[derive(Debug, Clone, Copy, PartialEq, Eq, Structural)]
pub struct ChainedPics {
    pub primary: Pic,
    pub secondary: Pic,
}

impl ChainedPics {
    /// Well-formedness: the two controllers sit on their distinct standard
    /// port pairs, both offset ranges lie entirely above the CPU-reserved
    /// vectors 0..32, both fit in the vector space, and the ranges are
    /// adjacent (the offsets differ by exactly 8), hence disjoint.
    pub open spec fn wf(self) -> bool {
        &&& self.primary.command == PRIMARY_COMMAND_PORT
        &&& self.primary.data == PRIMARY_DATA_PORT
        &&& self.secondary.command == SECONDARY_COMMAND_PORT
        &&& self.secondary.data == SECONDARY_DATA_PORT
        &&& 32 <= self.primary.offset
        &&& 32 <= self.secondary.offset
        &&& self.primary.offset + 8 <= 256
        &&& self.secondary.offset + 8 <= 256
        &&& (self.primary.offset + 8 == self.secondary.offset
            || self.secondary.offset + 8 == self.primary.offset)
    }

    /// Create the interface for the standard primary and secondary
    /// controllers, with the desired vector offsets.
    ///
    /// The offsets must lie above the CPU-reserved vectors, must leave both
    /// eight-wide ranges inside the vector space, and must differ by exactly
    /// 8, so the two ranges are disjoint.
    pub fn new(offset_one: u8, offset_two: u8) -> (r: ChainedPics)
        requires
            32 <= offset_one,
            32 <= offset_two,
            offset_one + 8 <= 256,
            offset_two + 8 <= 256,
            offset_one + 8 == offset_two || offset_two + 8 == offset_one,
        ensures
            r.wf(),
            r.primary.offset == offset_one,
            r.secondary.offset == offset_two,
    {
        ChainedPics {
            primary: Pic {
                offset: offset_one,
                command: PRIMARY_COMMAND_PORT,
                data: PRIMARY_DATA_PORT,
            },
            secondary: Pic {
                offset: offset_two,
                command: SECONDARY_COMMAND_PORT,
                data: SECONDARY_DATA_PORT,
            },
        }
    }

    /// Does either controller of the pair own this vector?
    pub fn handles_interrupt(&self, interrupt: u8) -> (r: bool)
        ensures
            r == (self.primary.owns(interrupt) || self.secondary.owns(interrupt)),
    {
        self.primary.handles_interrupt(interrupt) || self.secondary.handles_interrupt(interrupt)
    }
}

/// Shorthand for one port write, for use in write-sequence specifications.
pub open spec fn pw(port: u16, value: u8) -> PortWrite {
    PortWrite { port, value }
}

/// The full initialization sequence for the pair, given the masks saved
/// from the two data ports beforehand: the init command on each command
/// port, then on each data port the offset byte, the chaining byte and the
/// operating-mode byte, every configuration write followed by a junk write
/// to the wait port for settling time, and finally the saved masks restored
/// to the data ports.
pub open spec fn spec_initialize_writes(
    pics: ChainedPics,
    saved_mask_one: u8,
    saved_mask_two: u8,
) -> Seq<PortWrite> {
    seq![
        pw(pics.primary.command, CMD_INIT),
        pw(WAIT_PORT, 0),
        pw(pics.secondary.command, CMD_INIT),
        pw(WAIT_PORT, 0),
        pw(pics.primary.data, pics.primary.offset),
        pw(WAIT_PORT, 0),
        pw(pics.secondary.data, pics.secondary.offset),
        pw(WAIT_PORT, 0),
        pw(pics.primary.data, CHAIN_PRIMARY_BYTE),
        pw(WAIT_PORT, 0),
        pw(pics.secondary.data, CHAIN_SECONDARY_BYTE),
        pw(WAIT_PORT, 0),
        pw(pics.primary.data, MODE_8086),
        pw(WAIT_PORT, 0),
        pw(pics.secondary.data, MODE_8086),
        pw(WAIT_PORT, 0),
        pw(pics.primary.data, saved_mask_one),
        pw(pics.secondary.data, saved_mask_two),
    ]
}

/// The writes that acknowledge a handled interrupt: nothing when neither
/// controller owns the vector; the primary's end-of-interrupt command when
/// the primary owns it; and when the secondary owns it, the secondary's
/// end-of-interrupt command strictly first, then the primary's, because the
/// secondary is chained through one of the primary's lines and the primary
/// must also be told the line is clear.
pub open spec fn spec_eoi_writes(pics: ChainedPics, interrupt_id: u8) -> Seq<PortWrite> {
    if pics.secondary.owns(interrupt_id) {
        seq![
            pw(pics.secondary.command, CMD_END_OF_INTERRUPT),
            pw(pics.primary.command, CMD_END_OF_INTERRUPT),
        ]
    } else if pics.primary.owns(interrupt_id) {
        seq![pw(pics.primary.command, CMD_END_OF_INTERRUPT)]
    } else {
        Seq::empty()
    }
}

/// The bus devices are wired to this pair's ports.
pub open spec fn spec_bus_wired(pics: ChainedPics, bus: Bus) -> bool {
    &&& bus.primary.command_port == pics.primary.command
    &&& bus.primary.data_port == pics.primary.data
    &&& bus.secondary.command_port == pics.secondary.command
    &&& bus.secondary.data_port == pics.secondary.data
}

impl ChainedPics {
    /// Initialize both controllers, together because I/O operations might
    /// not be instantaneous on older hardware.
    ///
    /// Saves each controller's current interrupt mask, sends the
    /// initialization sequence — with a junk write to an unused port after
    /// each configuration byte, since legacy hardware needs settling time
    /// and no timer is available this early — and restores the saved masks.
    ///
    /// The hardware offers no status register to check, so the contract
    /// carries the correctness instead: the emitted byte sequence is exactly
    /// [`spec_initialize_writes`], and it leaves both device models
    /// configured with this pair's offsets and their masks preserved.
    pub fn initialize(&self, bus: &mut Bus)
        requires
            self.wf(),
            spec_bus_wired(*self, *old(bus)),
            old(bus).primary.stage == InitStage::Ready,
            old(bus).secondary.stage == InitStage::Ready,
        ensures
            final(bus).log@ == old(bus).log@ + spec_initialize_writes(
                *self,
                old(bus).primary.mask,
                old(bus).secondary.mask,
            ),
            final(bus).primary == (PicDevice {
                stage: InitStage::Ready,
                configured: true,
                offset: self.primary.offset,
                chain: CHAIN_PRIMARY_BYTE,
                mode: MODE_8086,
                ..old(bus).primary
            }),
            final(bus).secondary == (PicDevice {
                stage: InitStage::Ready,
                configured: true,
                offset: self.secondary.offset,
                chain: CHAIN_SECONDARY_BYTE,
                mode: MODE_8086,
                ..old(bus).secondary
            }),
            final(bus).ps2_data == old(bus).ps2_data,
    {
        // Save the original interrupt masks, restored once the sequence is
        // done.
        let saved_mask_one = bus.read(self.primary.data);
        let saved_mask_two = bus.read(self.secondary.data);

        // Tell each controller that a three-byte initialization sequence
        // follows on its data port.
        bus.write(self.primary.command, CMD_INIT);
        bus.write(WAIT_PORT, 0);
        bus.write(self.secondary.command, CMD_INIT);
        bus.write(WAIT_PORT, 0);

        // Byte 1: the vector-offset bases.
        bus.write(self.primary.data, self.primary.offset);
        bus.write(WAIT_PORT, 0);
        bus.write(self.secondary.data, self.secondary.offset);
        bus.write(WAIT_PORT, 0);

        // Byte 2: the chaining between the two controllers.
        bus.write(self.primary.data, CHAIN_PRIMARY_BYTE);
        bus.write(WAIT_PORT, 0);
        bus.write(self.secondary.data, CHAIN_SECONDARY_BYTE);
        bus.write(WAIT_PORT, 0);

        // Byte 3: the operating mode.
        bus.write(self.primary.data, MODE_8086);
        bus.write(WAIT_PORT, 0);
        bus.write(self.secondary.data, MODE_8086);
        bus.write(WAIT_PORT, 0);

        // Restore the saved masks.
        bus.write(self.primary.data, saved_mask_one);
        bus.write(self.secondary.data, saved_mask_two);

        assert(bus.log@ =~= old(bus).log@ + spec_initialize_writes(
            *self,
            old(bus).primary.mask,
            old(bus).secondary.mask,
        ));
    }

    /// Acknowledge a handled interrupt towards whichever controllers of the
    /// chain need to know about it: the owning one, and — because everything
    /// from the secondary is chained through the primary — the primary as
    /// well when the secondary owns the vector, secondary first.
    ///
    /// The emitted writes are exactly [`spec_eoi_writes`], and they clear
    /// the in-service state of the controllers they address.
    pub fn notify_end_of_interrupt(&self, bus: &mut Bus, interrupt_id: u8)
        requires
            self.wf(),
            spec_bus_wired(*self, *old(bus)),
        ensures
            final(bus).log@ == old(bus).log@ + spec_eoi_writes(*self, interrupt_id),
            final(bus).primary == if self.primary.owns(interrupt_id) || self.secondary.owns(
                interrupt_id,
            ) {
                PicDevice { in_service: false, ..old(bus).primary }
            } else {
                old(bus).primary
            },
            final(bus).secondary == if self.secondary.owns(interrupt_id) {
                PicDevice { in_service: false, ..old(bus).secondary }
            } else {
                old(bus).secondary
            },
            final(bus).ps2_data == old(bus).ps2_data,
    {
        if self.handles_interrupt(interrupt_id) {
            if self.secondary.handles_interrupt(interrupt_id) {
                let eoi = self.secondary.end_of_interrupt();
                bus.write(eoi.port, eoi.value);
            }
            let eoi = self.primary.end_of_interrupt();
            bus.write(eoi.port, eoi.value);
        }
        assert(bus.log@ =~= old(bus).log@ + spec_eoi_writes(*self, interrupt_id));
    }
}

/// Acknowledging a vector owned by the secondary controller messages the
/// secondary strictly before the primary: the acknowledge sequence is
/// exactly the secondary's end-of-interrupt command followed by the
/// primary's.
pub proof fn lemma_secondary_acknowledged_first(pics: ChainedPics, interrupt_id: u8)
    requires
        pics.wf(),
        pics.secondary.owns(interrupt_id),
    ensures
        spec_eoi_writes(pics, interrupt_id).len() == 2,
        spec_eoi_writes(pics, interrupt_id)[0] == pw(pics.secondary.command, CMD_END_OF_INTERRUPT),
        spec_eoi_writes(pics, interrupt_id)[1] == pw(pics.primary.command, CMD_END_OF_INTERRUPT),
{
}

/// Each configured vector lies above the CPU-reserved range, each
/// controller's range is exactly the eight consecutive vectors from its
/// offset, and the two ranges are disjoint: no vector is owned by both.
pub proof fn lemma_controller_ranges(pics: ChainedPics)
    requires
        pics.wf(),
    ensures
        forall|v: u8| #[trigger] pics.primary.owns(v) ==> 32 <= v,
        forall|v: u8| #[trigger] pics.secondary.owns(v) ==> 32 <= v,
        forall|v: u8| pics.primary.owns(v) <==> pics.primary.offset <= v < pics.primary.offset + 8,
        forall|v: u8|
            pics.secondary.owns(v) <==> pics.secondary.offset <= v < pics.secondary.offset + 8,
        forall|v: u8| !(#[trigger] pics.primary.owns(v) && #[trigger] pics.secondary.owns(v)),
{
}

} // verus!
