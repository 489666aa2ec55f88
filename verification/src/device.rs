//! Model of the controller hardware on the I/O bus.
//!
//! A [`PicDevice`] is the device-side view of one legacy interrupt
//! controller: what state the chip reaches when a given sequence of port
//! writes arrives. The [`Bus`] couples the two devices with a log of every
//! write performed, so the driver's byte sequences are both interpreted
//! (their effect on the chips is proved) and observable (their order is a
//! plain list of values).
//!
//! The device model covers what the driver relies on: the three-byte
//! initialization sequence that follows the init command on the data port,
//! the mask register reachable through the data port outside
//! initialization, and the end-of-interrupt command that clears the
//! in-service state gating further deliveries on the same controller.

use vstd::prelude::*;

use crate::pic8259::{ChainedPics, PortWrite, CMD_END_OF_INTERRUPT, CMD_INIT};

verus! {

/// Where a controller stands in its initialization handshake: after the
/// init command it expects, on the data port, its offset byte, then its
/// chaining byte, then its mode byte, before returning to ready.
#[derive(Debug, Clone, Copy, PartialEq, Eq, Structural)]
pub enum InitStage {
    Ready,
    AwaitOffset,
    AwaitChain,
    AwaitMode,
}

/// The device-side state of one controller chip.
#[derive(Debug, Clone, Copy, PartialEq, Eq, Structural)]
pub struct PicDevice {
    /// The command port the chip is wired to.
    pub command_port: u16,
    /// The data port the chip is wired to.
    pub data_port: u16,
    /// Position in the initialization handshake.
    pub stage: InitStage,
    /// Whether a full initialization sequence has completed.
    pub configured: bool,
    /// The vector-offset base the chip was last given.
    pub offset: u8,
    /// The chaining configuration byte the chip was last given.
    pub chain: u8,
    /// The operating-mode byte the chip was last given.
    pub mode: u8,
    /// The interrupt mask register, reachable through the data port.
    pub mask: u8,
    /// Whether a delivered interrupt is still awaiting its
    /// end-of-interrupt command; while set, the chip holds back further
    /// signals of the same priority.
    pub in_service: bool,
}

/// The state of one controller after one port write arrives on the bus.
/// Writes to ports the chip is not wired to leave it unchanged.
pub open spec fn spec_apply_write(d: PicDevice, w: PortWrite) -> PicDevice {
    if w.port == d.command_port {
        if w.value == CMD_INIT {
            PicDevice { stage: InitStage::AwaitOffset, configured: false, ..d }
        } else if w.value == CMD_END_OF_INTERRUPT {
            PicDevice { in_service: false, ..d }
        } else {
            d
        }
    } else if w.port == d.data_port {
        match d.stage {
            InitStage::AwaitOffset => PicDevice { offset: w.value, stage: InitStage::AwaitChain, ..d },
            InitStage::AwaitChain => PicDevice { chain: w.value, stage: InitStage::AwaitMode, ..d },
            InitStage::AwaitMode => PicDevice {
                mode: w.value,
                stage: InitStage::Ready,
                configured: true,
                ..d
            },
            InitStage::Ready => PicDevice { mask: w.value, ..d },
        }
    } else {
        d
    }
}

/// What a read of a port returns from this device: the mask register when
/// the data port is read outside initialization; nothing meaningful
/// otherwise.
pub open spec fn spec_device_read(d: PicDevice, port: u16) -> Option<u8> {
    if port == d.data_port && d.stage == InitStage::Ready {
        Some(d.mask)
    } else {
        None
    }
}

/// A fresh chip wired to the given ports with the given power-on mask:
/// ready, not configured, nothing in service.
pub open spec fn spec_powered_on(command_port: u16, data_port: u16, mask: u8) -> PicDevice {
    PicDevice {
        command_port,
        data_port,
        stage: InitStage::Ready,
        configured: false,
        offset: 0,
        chain: 0,
        mode: 0,
        mask,
        in_service: false,
    }
}

impl PicDevice {
    /// A fresh chip wired to the given ports, with the given power-on mask,
    /// not configured and with nothing in service.
    pub fn powered_on(command_port: u16, data_port: u16, mask: u8) -> (d: PicDevice)
        ensures
            d == spec_powered_on(command_port, data_port, mask),
    {
        PicDevice {
            command_port,
            data_port,
            stage: InitStage::Ready,
            configured: false,
            offset: 0,
            chain: 0,
            mode: 0,
            mask,
            in_service: false,
        }
    }

    /// The chip latches a delivered signal into service: until the
    /// end-of-interrupt command arrives, it holds back further signals at
    /// or below that priority.
    pub fn begin_service(&mut self)
        ensures
            *final(self) == (PicDevice { in_service: true, ..*old(self) }),
    {
        self.in_service = true;
    }

    /// Receive one port write.
    pub fn apply_write(&mut self, w: PortWrite)
        ensures
            *final(self) == spec_apply_write(*old(self), w),
    {
        if w.port == self.command_port {
            if w.value == CMD_INIT {
                self.stage = InitStage::AwaitOffset;
                self.configured = false;
            } else if w.value == CMD_END_OF_INTERRUPT {
                self.in_service = false;
            }
        } else if w.port == self.data_port {
            match self.stage {
                InitStage::AwaitOffset => {
                    self.offset = w.value;
                    self.stage = InitStage::AwaitChain;
                },
                InitStage::AwaitChain => {
                    self.chain = w.value;
                    self.stage = InitStage::AwaitMode;
                },
                InitStage::AwaitMode => {
                    self.mode = w.value;
                    self.stage = InitStage::Ready;
                    self.configured = true;
                },
                InitStage::Ready => {
                    self.mask = w.value;
                },
            }
        }
    }
}

/// The I/O bus: both controller chips, the byte latched by the PS/2
/// keyboard controller on its data port, and the ordered log of every
/// write performed.
pub struct Bus {
    pub primary: PicDevice,
    pub secondary: PicDevice,
    /// The scancode currently readable on the PS/2 data port.
    pub ps2_data: u8,
    /// Every port write performed, oldest first.
    pub log: Vec<PortWrite>,
}

impl Bus {
    /// A bus with the two standard controllers powered on with the given
    /// masks, and an empty write log.
    pub fn powered_on(pics: &ChainedPics, primary_mask: u8, secondary_mask: u8) -> (b: Bus)
        ensures
            b.primary == spec_powered_on(pics.primary.command, pics.primary.data, primary_mask),
            b.secondary == spec_powered_on(
                pics.secondary.command,
                pics.secondary.data,
                secondary_mask,
            ),
            b.ps2_data == 0,
            b.log@ == Seq::<PortWrite>::empty(),
    {
        Bus {
            primary: PicDevice::powered_on(pics.primary.command, pics.primary.data, primary_mask),
            secondary: PicDevice::powered_on(
                pics.secondary.command,
                pics.secondary.data,
                secondary_mask,
            ),
            ps2_data: 0,
            log: Vec::new(),
        }
    }

    /// Write one byte to one port: both chips see the write (each ignores
    /// ports it is not wired to) and the write is appended to the log.
    pub fn write(&mut self, port: u16, value: u8)
        ensures
            final(self).primary == spec_apply_write(old(self).primary, PortWrite { port, value }),
            final(self).secondary == spec_apply_write(old(self).secondary, PortWrite { port, value }),
            final(self).log@ == old(self).log@.push(PortWrite { port, value }),
            final(self).ps2_data == old(self).ps2_data,
    {
        let w = PortWrite { port, value };
        self.primary.apply_write(w);
        self.secondary.apply_write(w);
        self.log.push(w);
    }

    /// Read one byte from one port: the mask register of whichever chip
    /// answers on that port, or 0 where nothing does.
    pub fn read(&self, port: u16) -> (r: u8)
        ensures
            spec_device_read(self.primary, port) is Some ==> r == spec_device_read(
                self.primary,
                port,
            )->Some_0,
            spec_device_read(self.primary, port) is None && spec_device_read(
                self.secondary,
                port,
            ) is Some ==> r == spec_device_read(self.secondary, port)->Some_0,
    {
        if port == self.primary.data_port && matches!(self.primary.stage, InitStage::Ready) {
            self.primary.mask
        } else if port == self.secondary.data_port && matches!(self.secondary.stage, InitStage::Ready) {
            self.secondary.mask
        } else {
            0
        }
    }

    /// Read the byte latched on the PS/2 keyboard data port.
    pub fn read_ps2(&self) -> (r: u8)
        ensures
            r == self.ps2_data,
    {
        self.ps2_data
    }

    /// Latch a byte on the PS/2 keyboard data port, as the keyboard
    /// controller does when a key is pressed or released.
    pub fn latch_ps2(&mut self, scan_code: u8)
        ensures
            *final(self) == (Bus { ps2_data: scan_code, ..*old(self) }),
    {
        self.ps2_data = scan_code;
    }
}

} // verus!
