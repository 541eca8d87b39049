//! PCI configuration mechanism #1 (ports 0xcf8/0xcfc) in front of one synthetic function with
//! a single memory BAR.
use crate::error::PortIoError;
use crate::vcpu::{PortIoDirection, PortIoExit};
use vstd::prelude::*;

pub mod virtio_blk;
pub mod virtio_blk_checkpoint;
pub mod virtio_blk_file_backed;

verus! {

pub const PCI_CONFIG_ADDRESS_PORT: u16 = 0x0cf8;
pub const PCI_CONFIG_DATA_PORT: u16 = 0x0cfc;
pub const SYNTHETIC_PCI_BUS: u8 = 0;
pub const SYNTHETIC_PCI_DEVICE: u8 = 1;
pub const SYNTHETIC_PCI_FUNCTION: u8 = 0;
pub const SYNTHETIC_PCI_VENDOR_ID: u16 = 0xcafe;
pub const SYNTHETIC_PCI_DEVICE_ID: u16 = 0x0001;
pub const SYNTHETIC_PCI_CLASS_CODE: u8 = 0xff;
pub const SYNTHETIC_PCI_REVISION: u8 = 1;
pub const PCI_CONFIG_ENABLE: u32 = 0x8000_0000;
pub const PCI_CONFIG_REGISTER_MASK: u32 = 0xfc;

/// How the configuration mechanism answered an access.
#[derive(Debug, Clone, PartialEq, Eq)]
pub enum PciConfigService {
    Output,
    Input([u8; 4]),
}

/// The model of an accepted access: the address was latched, or a dword is returned.
#[derive(Debug, Clone, Copy, PartialEq, Eq)]
pub enum PciReply {
    Latched,
    Dword(u32),
}

/// The synthetic function: fixed identity and class, and one 16-byte-aligned BAR.
#[derive(Debug, Clone, PartialEq, Eq)]
pub struct SyntheticPciFunction {
    pub bar0: u32,
}

impl SyntheticPciFunction {
    /// A function whose BAR 0 is `bar0` with its low four (flag) bits cleared.
    pub fn new(bar0: u32) -> (r: Self)
        ensures r.bar0 == bar0 & 0xffff_fff0,
    {
        SyntheticPciFunction { bar0: bar0 & 0xffff_fff0 }
    }

    pub fn bar0(&self) -> (r: u32)
        ensures r == self.bar0,
    {
        self.bar0
    }

    /// The configuration dword at `offset`: identity, class and revision, BAR 0, else zero.
    pub open spec fn spec_read_dword(&self, offset: u8) -> u32 {
        if offset == 0x00 {
            0x0001_cafe
        } else if offset == 0x08 {
            0xff00_0001
        } else if offset == 0x10 {
            self.bar0
        } else {
            0
        }
    }

    fn read_dword(&self, offset: u8) -> (r: u32)
        ensures r == self.spec_read_dword(offset),
    {
        if offset == 0x00 {
            assert(((0x0001u32) << 16u32) | 0xcafeu32 == 0x0001_cafeu32) by (bit_vector);
            ((SYNTHETIC_PCI_DEVICE_ID as u32) << 16u32) | (SYNTHETIC_PCI_VENDOR_ID as u32)
        } else if offset == 0x08 {
            assert(((0xffu32) << 24u32) | 1u32 == 0xff00_0001u32) by (bit_vector);
            ((SYNTHETIC_PCI_CLASS_CODE as u32) << 24u32) | (SYNTHETIC_PCI_REVISION as u32)
        } else if offset == 0x10 {
            self.bar0
        } else {
            0
        }
    }
}

/// The configuration address register and the function behind it.
#[derive(Debug, Clone, PartialEq, Eq)]
pub struct PciConfigMechanism1 {
    pub address: u32,
    pub function: SyntheticPciFunction,
}

/// The error for a port access the mechanism does not serve.
pub open spec fn unhandled_port(io: PortIoExit) -> PortIoError {
    PortIoError::UnhandledPort { port: io.port, direction: io.direction.spec_raw(), size: io.size, count: io.count }
}

impl PciConfigMechanism1 {
    pub fn new(function: SyntheticPciFunction) -> (r: Self)
        ensures r.address == 0, r.function == function,
    {
        PciConfigMechanism1 { address: 0, function }
    }

    pub fn handles_port(port: u16) -> (r: bool)
        ensures r == (port == PCI_CONFIG_ADDRESS_PORT || port == PCI_CONFIG_DATA_PORT),
    {
        port == PCI_CONFIG_ADDRESS_PORT || port == PCI_CONFIG_DATA_PORT
    }

    /// The dword the data port returns: all ones unless the address register enables a
    /// configuration cycle to bus 0, device 1, function 0.
    pub open spec fn spec_selected_dword(&self) -> u32 {
        let address = self.address;
        if address & PCI_CONFIG_ENABLE == 0 {
            u32::MAX
        } else if (address >> 16u32) & 0xff != 0 || (address >> 11u32) & 0x1f != 1 || (address >> 8u32) & 0x07 != 0 {
            u32::MAX
        } else {
            self.function.spec_read_dword((address & PCI_CONFIG_REGISTER_MASK) as u8)
        }
    }

    fn read_selected_dword(&self) -> (r: u32)
        ensures r == self.spec_selected_dword(),
    {
        let address = self.address;
        if address & PCI_CONFIG_ENABLE == 0 {
            return u32::MAX;
        }
        if (address >> 16u32) & 0xff != 0 || (address >> 11u32) & 0x1f != 1 || (address >> 8u32) & 0x07 != 0 {
            return u32::MAX;
        }
        self.function.read_dword((address & PCI_CONFIG_REGISTER_MASK) as u8)
    }

    /// The answer to one access: a dword write to the address port latches the address, a
    /// dword read of it returns the latch, a dword read of the data port returns the selected
    /// dword; every other access (wrong width or count, data-port write, other port) is refused.
    pub open spec fn spec_reply(&self, io: PortIoExit) -> Result<PciReply, PortIoError> {
        let accepted_shape = io.size == 4 && io.count == 1;
        if accepted_shape && io.port == PCI_CONFIG_ADDRESS_PORT && io.direction == PortIoDirection::Out
            && io.data@.len() == 4 {
            Ok(PciReply::Latched)
        } else if accepted_shape && io.port == PCI_CONFIG_ADDRESS_PORT && io.direction == PortIoDirection::In {
            Ok(PciReply::Dword(self.address))
        } else if accepted_shape && io.port == PCI_CONFIG_DATA_PORT && io.direction == PortIoDirection::In {
            Ok(PciReply::Dword(self.spec_selected_dword()))
        } else {
            Err(unhandled_port(io))
        }
    }

    /// The address latch after an access: only an accepted address write changes it.
    pub open spec fn spec_address_after(&self, io: PortIoExit) -> u32 {
        if self.spec_reply(io) == Ok::<PciReply, PortIoError>(PciReply::Latched) {
            vstd::bytes::spec_u32_from_le_bytes(io.data@)
        } else {
            self.address
        }
    }

    /// Serves one access (see `spec_reply` and `spec_address_after`).
    pub fn dispatch(&mut self, io: &PortIoExit) -> (r: Result<PciConfigService, PortIoError>)
        ensures
            final(self).function == old(self).function,
            final(self).address == old(self).spec_address_after(*io),
            match old(self).spec_reply(*io) {
                Ok(PciReply::Latched) => r == Ok::<PciConfigService, PortIoError>(PciConfigService::Output),
                Ok(PciReply::Dword(value)) => r matches Ok(PciConfigService::Input(b))
                    && b@ == vstd::bytes::spec_u32_to_le_bytes(value),
                Err(e) => r == Err::<PciConfigService, PortIoError>(e),
            },
    {
        if io.size() != 4 || io.count() != 1 {
            return Err(unhandled(io));
        }
        let port = io.port();
        let direction = io.direction();
        if port == PCI_CONFIG_ADDRESS_PORT && direction == PortIoDirection::Out {
            let data = io.output_data();
            if data.len() != 4 {
                return Err(unhandled(io));
            }
            self.address = vstd::bytes::u32_from_le_bytes(data);
            Ok(PciConfigService::Output)
        } else if port == PCI_CONFIG_ADDRESS_PORT && direction == PortIoDirection::In {
            Ok(PciConfigService::Input(dword_bytes(self.address)))
        } else if port == PCI_CONFIG_DATA_PORT && direction == PortIoDirection::In {
            Ok(PciConfigService::Input(dword_bytes(self.read_selected_dword())))
        } else {
            Err(unhandled(io))
        }
    }
}

fn dword_bytes(value: u32) -> (r: [u8; 4])
    ensures r@ == vstd::bytes::spec_u32_to_le_bytes(value),
{
    proof { vstd::bytes::lemma_auto_spec_u32_to_from_le_bytes(); }
    let v = vstd::bytes::u32_to_le_bytes(value);
    let r = [v[0], v[1], v[2], v[3]];
    assert(r@ =~= v@);
    r
}

/// The address-register value that selects configuration register `offset` of the synthetic
/// function.
pub fn config_selector(offset: u8) -> (r: u32)
    ensures r == PCI_CONFIG_ENABLE | (1u32 << 11u32) | ((offset as u32) & PCI_CONFIG_REGISTER_MASK),
{
    let o = offset as u32;
    assert(0x8000_0000u32 | (0u32 << 16u32) | (1u32 << 11u32) | (0u32 << 8u32) | (o & 0xfcu32)
        == 0x8000_0000u32 | (1u32 << 11u32) | (o & 0xfcu32)) by (bit_vector);
    PCI_CONFIG_ENABLE
        | ((SYNTHETIC_PCI_BUS as u32) << 16u32)
        | ((SYNTHETIC_PCI_DEVICE as u32) << 11u32)
        | ((SYNTHETIC_PCI_FUNCTION as u32) << 8u32)
        | ((offset as u32) & PCI_CONFIG_REGISTER_MASK)
}

fn unhandled(io: &PortIoExit) -> (r: PortIoError)
    ensures r == unhandled_port(*io),
{
    PortIoError::UnhandledPort { port: io.port(), direction: io.direction().raw(), size: io.size(), count: io.count() }
}

/// A selector built by `config_selector` reaches the synthetic function's register `offset`.
pub proof fn lemma_selector_reaches_function(mechanism: PciConfigMechanism1, offset: u8)
    requires mechanism.address == PCI_CONFIG_ENABLE | (1u32 << 11u32) | ((offset as u32) & PCI_CONFIG_REGISTER_MASK),
    ensures mechanism.spec_selected_dword() == mechanism.function.spec_read_dword(offset & 0xfc),
{
    let a = mechanism.address;
    let o = offset;
    assert(a & 0x8000_0000 != 0 && (a >> 16u32) & 0xff == 0 && (a >> 11u32) & 0x1f == 1 && (a >> 8u32) & 0x07 == 0
        && (a & 0xfc) as u8 == o & 0xfc) by (bit_vector)
        requires a == 0x8000_0000u32 | (1u32 << 11u32) | ((o as u32) & 0xfcu32);
}

/// Only function 0 of device 1 on bus 0 answers: a data-port read with configuration cycles
/// disabled, or with the latched address selecting another bus, another device or any other
/// function (bits 8..10 non-zero), returns all ones.
pub proof fn lemma_only_function_zero_answers(mechanism: PciConfigMechanism1)
    ensures
        mechanism.address & 0x8000_0000 == 0 ==> mechanism.spec_selected_dword() == 0xffff_ffffu32,
        (mechanism.address >> 8u32) & 0x7 != 0 ==> mechanism.spec_selected_dword() == 0xffff_ffffu32,
        (mechanism.address >> 11u32) & 0x1f != 1 ==> mechanism.spec_selected_dword() == 0xffff_ffffu32,
        (mechanism.address >> 16u32) & 0xff != 0 ==> mechanism.spec_selected_dword() == 0xffff_ffffu32,
{
}

/// With configuration cycles enabled to bus 0, device 1, function 0, the data port returns the
/// synthetic function's dword at the latched register number, its low two bits ignored.
pub proof fn lemma_function_zero_reads_latched_register(mechanism: PciConfigMechanism1)
    requires
        mechanism.address & 0x8000_0000 != 0,
        (mechanism.address >> 16u32) & 0xff == 0,
        (mechanism.address >> 11u32) & 0x1f == 1,
        (mechanism.address >> 8u32) & 0x7 == 0,
    ensures
        mechanism.spec_selected_dword() == mechanism.function.spec_read_dword((mechanism.address & 0xfc) as u8),
{
}

/// A dword written to the address port 0xcf8 is latched as its little-endian value, and a dword
/// read of the address port then returns exactly that value.
pub proof fn lemma_address_port_reads_back_the_latch(mechanism: PciConfigMechanism1, write: PortIoExit,
    read: PortIoExit)
    requires
        write.port == 0xcf8,
        write.direction == PortIoDirection::Out,
        write.size == 4,
        write.count == 1,
        write.data@.len() == 4,
        read.port == 0xcf8,
        read.direction == PortIoDirection::In,
        read.size == 4,
        read.count == 1,
    ensures
        mechanism.spec_reply(write) == Ok::<PciReply, PortIoError>(PciReply::Latched),
        ({
            let after = PciConfigMechanism1 { address: mechanism.spec_address_after(write), ..mechanism };
            after.spec_reply(read) == Ok::<PciReply, PortIoError>(
                PciReply::Dword(vstd::bytes::spec_u32_from_le_bytes(write.data@)))
        }),
{
}

} // verus!
