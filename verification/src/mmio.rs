//! The MMIO bus: an optional one-byte device (plain, edge-interrupting or level-interrupting) and
//! a set of virtio-blk devices addressed by their BAR.
use crate::error::{Error, MmioError};
use crate::pci::virtio_blk::VirtioBlkDevice;
use crate::vcpu::{MmioDirection, MmioExit};
use vstd::prelude::*;

pub mod multi_device;

verus! {

pub const BYTE_DEVICE_ADDRESS: u64 = 0x2000;
pub const LEVEL_INTERRUPT_STATUS_OFFSET: u64 = 1;
pub const LEVEL_INTERRUPT_ACK_OFFSET: u64 = 2;
pub const LEVEL_INTERRUPT_STATUS_PENDING: u8 = 1;

/// How the bus answered an access.
#[derive(Debug, Clone, PartialEq, Eq)]
pub enum MmioService {
    Write,
    Read(Vec<u8>),
}

/// A device-side event the run loop must forward to the interrupt controller.
#[derive(Debug, Clone, Copy, PartialEq, Eq)]
pub enum MmioDeviceEvent {
    InterruptRequested,
    InterruptLineAsserted,
    InterruptLineDeasserted,
}

#[derive(Debug, Clone, Copy, PartialEq, Eq, Structural)]
pub enum ByteMmioDeviceMode {
    /// Captures writes and answers reads with a fixed byte.
    Plain,
    /// As `Plain`, and every accepted write requests one interrupt.
    EdgeInterrupt,
    /// A command register at offset 0, a status register at offset 1 and an acknowledge
    /// register at offset 2, driving a level-triggered interrupt line.
    LevelInterrupt,
}

/// The device's answer to an accepted access.
#[derive(Debug, Clone, Copy, PartialEq, Eq)]
pub enum ByteReply {
    Written,
    ReadByte(u8),
}

#[derive(Debug)]
pub struct ByteMmioDevice {
    pub address: u64,
    pub writes: Vec<u8>,
    pub read_value: u8,
    pub mode: ByteMmioDeviceMode,
    pub edge_interrupt_pending: bool,
    pub level_interrupt_pending: bool,
    pub level_line_asserted: bool,
}

/// The error for an access the byte device does not support.
pub open spec fn unsupported_access(exit: MmioExit) -> MmioError {
    MmioError::UnsupportedByteDeviceAccess { address: exit.address, direction: exit.direction.spec_raw(), length: exit.length }
}

/// A write must carry exactly one byte.
pub open spec fn spec_write_byte(exit: MmioExit) -> Result<u8, MmioError> {
    if exit.data@.len() != 1 {
        Err(MmioError::InvalidWritePayload { address: exit.address, expected: 1, actual: exit.data@.len() as usize })
    } else {
        Ok(exit.data@[0])
    }
}

impl ByteMmioDevice {
    /// The addresses the device answers: its address, or for the level device its three registers.
    pub open spec fn spec_handles(&self, address: u64) -> bool {
        match self.mode {
            ByteMmioDeviceMode::LevelInterrupt => self.address + LEVEL_INTERRUPT_ACK_OFFSET <= u64::MAX
                && self.address <= address <= self.address + LEVEL_INTERRUPT_ACK_OFFSET,
            _ => address == self.address,
        }
    }

    /// The answer to an access at an address the device handles.
    pub open spec fn spec_handle(&self, exit: MmioExit) -> Result<ByteReply, MmioError> {
        if exit.length != 1 {
            Err(unsupported_access(exit))
        } else {
            match self.mode {
                ByteMmioDeviceMode::LevelInterrupt => {
                    let offset = exit.address - self.address;
                    if offset == 0 && exit.direction == MmioDirection::Write {
                        match spec_write_byte(exit) { Ok(_) => Ok(ByteReply::Written), Err(e) => Err(e) }
                    } else if offset == LEVEL_INTERRUPT_STATUS_OFFSET && exit.direction == MmioDirection::Read {
                        Ok(ByteReply::ReadByte(if self.level_interrupt_pending { 1u8 } else { 0u8 }))
                    } else if offset == LEVEL_INTERRUPT_ACK_OFFSET && exit.direction == MmioDirection::Write {
                        match spec_write_byte(exit) { Ok(_) => Ok(ByteReply::Written), Err(e) => Err(e) }
                    } else {
                        Err(unsupported_access(exit))
                    }
                },
                _ => match exit.direction {
                    MmioDirection::Write => match spec_write_byte(exit) {
                        Ok(_) => Ok(ByteReply::Written),
                        Err(e) => Err(e),
                    },
                    MmioDirection::Read => Ok(ByteReply::ReadByte(self.read_value)),
                },
            }
        }
    }

    /// `after` is this device once it handled `exit`: an accepted write is recorded and, by
    /// mode, raises the edge request, raises the level (command register) or lowers it
    /// (acknowledge register); anything else changes nothing.
    pub open spec fn spec_handled(&self, after: &ByteMmioDevice, exit: MmioExit) -> bool {
        &&& after.address == self.address
        &&& after.read_value == self.read_value
        &&& after.mode == self.mode
        &&& after.level_line_asserted == self.level_line_asserted
        &&& match self.spec_handle(exit) {
            Ok(ByteReply::Written) => {
                &&& after.writes@ == self.writes@.push(exit.data@[0])
                &&& after.edge_interrupt_pending == (self.edge_interrupt_pending
                    || self.mode == ByteMmioDeviceMode::EdgeInterrupt)
                &&& after.level_interrupt_pending == if self.mode == ByteMmioDeviceMode::LevelInterrupt {
                    exit.address == self.address
                } else {
                    self.level_interrupt_pending
                }
            },
            _ => {
                &&& after.writes@ == self.writes@
                &&& after.edge_interrupt_pending == self.edge_interrupt_pending
                &&& after.level_interrupt_pending == self.level_interrupt_pending
            },
        }
    }

    /// The event a poll of the device yields: one per edge request; for the level device, one
    /// per transition of the line towards the pending state.
    pub open spec fn spec_event(&self) -> Option<MmioDeviceEvent> {
        match self.mode {
            ByteMmioDeviceMode::Plain => None,
            ByteMmioDeviceMode::EdgeInterrupt => if self.edge_interrupt_pending {
                Some(MmioDeviceEvent::InterruptRequested)
            } else {
                None
            },
            ByteMmioDeviceMode::LevelInterrupt => if self.level_interrupt_pending && !self.level_line_asserted {
                Some(MmioDeviceEvent::InterruptLineAsserted)
            } else if !self.level_interrupt_pending && self.level_line_asserted {
                Some(MmioDeviceEvent::InterruptLineDeasserted)
            } else {
                None
            },
        }
    }

    fn new(address: u64, read_value: u8, mode: ByteMmioDeviceMode) -> (r: Self)
        ensures
            r.address == address,
            r.read_value == read_value,
            r.mode == mode,
            r.writes@ == Seq::<u8>::empty(),
            !r.edge_interrupt_pending,
            !r.level_interrupt_pending,
            !r.level_line_asserted,
    {
        ByteMmioDevice {
            address,
            writes: Vec::new(),
            read_value,
            mode,
            edge_interrupt_pending: false,
            level_interrupt_pending: false,
            level_line_asserted: false,
        }
    }

    fn handles(&self, address: u64) -> (r: bool)
        ensures r == self.spec_handles(address),
    {
        match self.mode {
            ByteMmioDeviceMode::LevelInterrupt => match self.address.checked_add(LEVEL_INTERRUPT_ACK_OFFSET) {
                Some(end) => self.address <= address && address <= end,
                None => false,
            },
            _ => address == self.address,
        }
    }

    fn handle(&mut self, exit: &MmioExit) -> (r: Result<MmioService, MmioError>)
        requires old(self).spec_handles(exit.address),
        ensures
            old(self).spec_handled(final(self), *exit),
            match old(self).spec_handle(*exit) {
                Ok(ByteReply::Written) => r == Ok::<MmioService, MmioError>(MmioService::Write),
                Ok(ByteReply::ReadByte(b)) => r matches Ok(MmioService::Read(v)) && v@ == seq![b],
                Err(e) => r == Err::<MmioService, MmioError>(e),
            },
    {
        if exit.length() != 1 {
            return Err(MmioError::UnsupportedByteDeviceAccess {
                address: exit.address(),
                direction: exit.direction().raw(),
                length: exit.length(),
            });
        }
        match self.mode {
            ByteMmioDeviceMode::Plain => self.handle_plain(exit, false),
            ByteMmioDeviceMode::EdgeInterrupt => self.handle_plain(exit, true),
            ByteMmioDeviceMode::LevelInterrupt => self.handle_level(exit),
        }
    }

    fn handle_plain(&mut self, exit: &MmioExit, interrupt_on_write: bool) -> (r: Result<MmioService, MmioError>)
        requires
            old(self).spec_handles(exit.address),
            exit.length == 1,
            old(self).mode != ByteMmioDeviceMode::LevelInterrupt,
            interrupt_on_write == (old(self).mode == ByteMmioDeviceMode::EdgeInterrupt),
        ensures
            old(self).spec_handled(final(self), *exit),
            match old(self).spec_handle(*exit) {
                Ok(ByteReply::Written) => r == Ok::<MmioService, MmioError>(MmioService::Write),
                Ok(ByteReply::ReadByte(b)) => r matches Ok(MmioService::Read(v)) && v@ == seq![b],
                Err(e) => r == Err::<MmioService, MmioError>(e),
            },
    {
        match exit.direction() {
            MmioDirection::Write => {
                let value = exact_write_byte(exit)?;
                self.writes.push(value);
                if interrupt_on_write {
                    self.edge_interrupt_pending = true;
                }
                Ok(MmioService::Write)
            },
            MmioDirection::Read => Ok(MmioService::Read(vec![self.read_value])),
        }
    }

    fn handle_level(&mut self, exit: &MmioExit) -> (r: Result<MmioService, MmioError>)
        requires
            old(self).spec_handles(exit.address),
            exit.length == 1,
            old(self).mode == ByteMmioDeviceMode::LevelInterrupt,
        ensures
            old(self).spec_handled(final(self), *exit),
            match old(self).spec_handle(*exit) {
                Ok(ByteReply::Written) => r == Ok::<MmioService, MmioError>(MmioService::Write),
                Ok(ByteReply::ReadByte(b)) => r matches Ok(MmioService::Read(v)) && v@ == seq![b],
                Err(e) => r == Err::<MmioService, MmioError>(e),
            },
    {
        let offset = exit.address() - self.address;
        let direction = exit.direction();
        if offset == 0 && direction == MmioDirection::Write {
            let value = exact_write_byte(exit)?;
            self.writes.push(value);
            self.level_interrupt_pending = true;
            Ok(MmioService::Write)
        } else if offset == LEVEL_INTERRUPT_STATUS_OFFSET && direction == MmioDirection::Read {
            let status: u8 = if self.level_interrupt_pending { 1 } else { 0 };
            Ok(MmioService::Read(vec![status]))
        } else if offset == LEVEL_INTERRUPT_ACK_OFFSET && direction == MmioDirection::Write {
            let value = exact_write_byte(exit)?;
            self.writes.push(value);
            self.level_interrupt_pending = false;
            Ok(MmioService::Write)
        } else {
            Err(MmioError::UnsupportedByteDeviceAccess {
                address: exit.address(),
                direction: direction.raw(),
                length: exit.length(),
            })
        }
    }

    fn take_event(&mut self) -> (r: Option<MmioDeviceEvent>)
        ensures
            r == old(self).spec_event(),
            final(self).address == old(self).address,
            final(self).read_value == old(self).read_value,
            final(self).mode == old(self).mode,
            final(self).writes@ == old(self).writes@,
            final(self).level_interrupt_pending == old(self).level_interrupt_pending,
            final(self).edge_interrupt_pending == (old(self).edge_interrupt_pending
                && old(self).mode != ByteMmioDeviceMode::EdgeInterrupt),
            final(self).level_line_asserted == if old(self).mode == ByteMmioDeviceMode::LevelInterrupt {
                old(self).level_interrupt_pending
            } else {
                old(self).level_line_asserted
            },
    {
        match self.mode {
            ByteMmioDeviceMode::Plain => None,
            ByteMmioDeviceMode::EdgeInterrupt => {
                if self.edge_interrupt_pending {
                    self.edge_interrupt_pending = false;
                    Some(MmioDeviceEvent::InterruptRequested)
                } else {
                    None
                }
            },
            ByteMmioDeviceMode::LevelInterrupt => {
                if self.level_interrupt_pending && !self.level_line_asserted {
                    self.level_line_asserted = true;
                    Some(MmioDeviceEvent::InterruptLineAsserted)
                } else if !self.level_interrupt_pending && self.level_line_asserted {
                    self.level_line_asserted = false;
                    Some(MmioDeviceEvent::InterruptLineDeasserted)
                } else {
                    None
                }
            },
        }
    }
}

fn exact_write_byte(exit: &MmioExit) -> (r: Result<u8, MmioError>)
    ensures r == spec_write_byte(*exit),
{
    let data = exit.write_data();
    if data.len() != 1 {
        return Err(MmioError::InvalidWritePayload { address: exit.address(), expected: 1, actual: data.len() });
    }
    Ok(data[0])
}

/// The bus: at most one byte device, and virtio-blk devices told apart by their BAR.
#[derive(Debug)]
pub struct MmioBus {
    pub byte_device: Option<ByteMmioDevice>,
    pub virtio_blk_devices: Vec<VirtioBlkDevice>,
}

/// The error for an address no device on the bus answers.
pub open spec fn unhandled_address(exit: MmioExit) -> Error {
    Error::Mmio(MmioError::UnhandledAddress { address: exit.address, direction: exit.direction.spec_raw(), length: exit.length })
}

impl MmioBus {
    pub fn empty() -> (r: Self)
        ensures r.byte_device is None, r.virtio_blk_devices@ == Seq::<VirtioBlkDevice>::empty(),
    {
        MmioBus { byte_device: None, virtio_blk_devices: Vec::new() }
    }

    /// A bus with one plain byte device at the default address.
    pub fn with_byte_device(read_value: u8) -> (r: Self)
        ensures
            r.byte_device matches Some(d) && d.address == BYTE_DEVICE_ADDRESS && d.read_value == read_value
                && d.mode == ByteMmioDeviceMode::Plain && d.writes@.len() == 0 && !d.edge_interrupt_pending
                && !d.level_interrupt_pending && !d.level_line_asserted,
            r.virtio_blk_devices@.len() == 0,
    {
        Self::with_byte_device_at(BYTE_DEVICE_ADDRESS, read_value)
    }

    /// A bus with one plain byte device at `address`.
    pub fn with_byte_device_at(address: u64, read_value: u8) -> (r: Self)
        ensures
            r.byte_device matches Some(d) && d.address == address && d.read_value == read_value
                && d.mode == ByteMmioDeviceMode::Plain && d.writes@.len() == 0 && !d.edge_interrupt_pending
                && !d.level_interrupt_pending && !d.level_line_asserted,
            r.virtio_blk_devices@.len() == 0,
    {
        MmioBus {
            byte_device: Some(ByteMmioDevice::new(address, read_value, ByteMmioDeviceMode::Plain)),
            virtio_blk_devices: Vec::new(),
        }
    }

    /// A bus with one byte device at `address` that requests an interrupt on every write.
    pub fn with_interrupting_byte_device_at(address: u64, read_value: u8) -> (r: Self)
        ensures
            r.byte_device matches Some(d) && d.address == address && d.read_value == read_value
                && d.mode == ByteMmioDeviceMode::EdgeInterrupt && d.writes@.len() == 0 && !d.edge_interrupt_pending
                && !d.level_interrupt_pending && !d.level_line_asserted,
            r.virtio_blk_devices@.len() == 0,
    {
        MmioBus {
            byte_device: Some(ByteMmioDevice::new(address, read_value, ByteMmioDeviceMode::EdgeInterrupt)),
            virtio_blk_devices: Vec::new(),
        }
    }

    /// A bus with one level-interrupting byte device whose registers start at `address`.
    pub fn with_level_interrupt_byte_device_at(address: u64) -> (r: Self)
        ensures
            r.byte_device matches Some(d) && d.address == address && d.read_value == 0
                && d.mode == ByteMmioDeviceMode::LevelInterrupt && d.writes@.len() == 0 && !d.edge_interrupt_pending
                && !d.level_interrupt_pending && !d.level_line_asserted,
            r.virtio_blk_devices@.len() == 0,
    {
        MmioBus {
            byte_device: Some(ByteMmioDevice::new(address, 0, ByteMmioDeviceMode::LevelInterrupt)),
            virtio_blk_devices: Vec::new(),
        }
    }

    /// A bus with the given virtio-blk devices and no byte device.
    pub fn with_virtio_blk_devices(devices: Vec<VirtioBlkDevice>) -> (r: Self)
        ensures r.byte_device is None, r.virtio_blk_devices@ == devices@,
    {
        MmioBus { byte_device: None, virtio_blk_devices: devices }
    }

    /// Routes an access to the byte device when it handles the address; any other address is
    /// refused and the bus is left as it was.
    pub fn dispatch(&mut self, exit: &MmioExit) -> (r: Result<MmioService, Error>)
        ensures
            final(self).virtio_blk_devices@ == old(self).virtio_blk_devices@,
            match old(self).byte_device {
                Some(d) if d.spec_handles(exit.address) => {
                    &&& final(self).byte_device matches Some(after) && d.spec_handled(&after, *exit)
                    &&& match d.spec_handle(*exit) {
                        Ok(ByteReply::Written) => r == Ok::<MmioService, Error>(MmioService::Write),
                        Ok(ByteReply::ReadByte(b)) => r matches Ok(MmioService::Read(v)) && v@ == seq![b],
                        Err(e) => r == Err::<MmioService, Error>(Error::Mmio(e)),
                    }
                },
                _ => {
                    &&& r == Err::<MmioService, Error>(unhandled_address(*exit))
                    &&& final(self).byte_device == old(self).byte_device
                },
            },
    {
        let taken = self.byte_device.take();
        match taken {
            Some(mut device) => {
                if device.handles(exit.address()) {
                    let r = device.handle(exit);
                    self.byte_device = Some(device);
                    match r {
                        Ok(service) => Ok(service),
                        Err(e) => Err(Error::Mmio(e)),
                    }
                } else {
                    self.byte_device = Some(device);
                    Err(Error::Mmio(MmioError::UnhandledAddress {
                        address: exit.address(),
                        direction: exit.direction().raw(),
                        length: exit.length(),
                    }))
                }
            },
            None => Err(Error::Mmio(MmioError::UnhandledAddress {
                address: exit.address(),
                direction: exit.direction().raw(),
                length: exit.length(),
            })),
        }
    }

    /// Polls the byte device for its next interrupt event (see `ByteMmioDevice::spec_event`).
    pub fn take_device_event(&mut self) -> (r: Option<MmioDeviceEvent>)
        ensures
            final(self).virtio_blk_devices@ == old(self).virtio_blk_devices@,
            match old(self).byte_device {
                Some(d) => {
                    &&& r == d.spec_event()
                    &&& final(self).byte_device matches Some(after)
                    &&& after.writes@ == d.writes@
                    &&& after.mode == d.mode
                    &&& after.address == d.address
                    &&& after.read_value == d.read_value
                    &&& after.level_interrupt_pending == d.level_interrupt_pending
                    &&& after.edge_interrupt_pending == (d.edge_interrupt_pending
                        && d.mode != ByteMmioDeviceMode::EdgeInterrupt)
                    &&& after.level_line_asserted == if d.mode == ByteMmioDeviceMode::LevelInterrupt {
                        d.level_interrupt_pending
                    } else {
                        d.level_line_asserted
                    }
                },
                None => r is None && final(self).byte_device is None,
            },
    {
        let taken = self.byte_device.take();
        match taken {
            Some(mut device) => {
                let event = device.take_event();
                self.byte_device = Some(device);
                event
            },
            None => None,
        }
    }

    /// Every byte written to the byte device, in order.
    pub fn writes(&self) -> (r: Option<&[u8]>)
        ensures
            match self.byte_device {
                Some(d) => r matches Some(w) && w@ == d.writes@,
                None => r is None,
            },
    {
        match &self.byte_device {
            Some(device) => Some(device.writes.as_slice()),
            None => None,
        }
    }
}

} // verus!
