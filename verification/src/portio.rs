//! The port-I/O bus: the debug port (0xe9) and, optionally, PCI configuration mechanism #1.
use crate::error::{Error, PortIoError};
use crate::pci::{PciConfigMechanism1, PciConfigService, PciReply, unhandled_port};
use crate::vcpu::{PortIoDirection, PortIoExit};
use vstd::prelude::*;

pub mod two_vcpu_ap_local_timer_fixture;
pub mod two_vcpu_fixture;
pub mod two_vcpu_guest_ipi_fixture;
pub mod two_vcpu_init_sipi_fixture;
pub mod two_vcpu_sipi_work_dispatch_fixture;
pub mod two_vcpu_targeted_msi_fixture;
pub mod two_vcpu_tlb_shootdown_fixture;
pub mod two_vcpu_work_dispatch_fixture;
pub mod virtio_blk_multi_sector_fixture;
pub mod vcpu_checks;
pub mod virtio_blk_multi_sector_guest;
pub mod scenario;

verus! {

pub const DEBUG_PORT: u16 = 0x00e9;
/// The byte the debug port returns to input when none was configured.
pub const DEFAULT_DEBUG_INPUT: u8 = 0x52;

/// How the bus answered an access.
#[derive(Debug, Clone, PartialEq, Eq)]
pub enum PortIoService {
    Output,
    Input(Vec<u8>),
}

/// The debug port: records every byte the guest writes, answers reads with a fixed byte.
#[derive(Debug, Clone)]
pub struct DebugPort {
    pub input_byte: u8,
    pub bytes: Vec<u8>,
}

/// The model of an accepted port access.
#[derive(Debug, Clone, Copy, PartialEq, Eq)]
pub enum PortReply {
    Output,
    Byte(u8),
    Dword(u32),
}

#[derive(Debug)]
pub struct PortIoBus {
    pub debug_port: Option<DebugPort>,
    pub pci_config: Option<PciConfigMechanism1>,
}

impl DebugPort {
    /// One-byte, single-count accesses only.
    pub open spec fn spec_reply(&self, io: PortIoExit) -> Result<PortReply, PortIoError> {
        if io.size != 1 || io.count != 1 {
            Err(PortIoError::UnsupportedAccessShape {
                port: io.port,
                direction: io.direction.spec_raw(),
                size: io.size,
                count: io.count,
            })
        } else {
            match io.direction {
                PortIoDirection::Out => Ok(PortReply::Output),
                PortIoDirection::In => Ok(PortReply::Byte(self.input_byte)),
            }
        }
    }

    fn handle(&mut self, io: &PortIoExit) -> (r: Result<PortIoService, PortIoError>)
        ensures
            final(self).input_byte == old(self).input_byte,
            match old(self).spec_reply(*io) {
                Ok(PortReply::Output) => r == Ok::<PortIoService, PortIoError>(PortIoService::Output)
                    && final(self).bytes@ == old(self).bytes@ + io.data@,
                Ok(PortReply::Byte(b)) => (r matches Ok(PortIoService::Input(v)) && v@ == seq![b])
                    && final(self).bytes@ == old(self).bytes@,
                _ => r == Err::<PortIoService, PortIoError>(old(self).spec_reply(*io)->Err_0)
                    && final(self).bytes@ == old(self).bytes@,
            },
    {
        if io.size() != 1 || io.count() != 1 {
            return Err(PortIoError::UnsupportedAccessShape {
                port: io.port(),
                direction: io.direction().raw(),
                size: io.size(),
                count: io.count(),
            });
        }
        match io.direction() {
            PortIoDirection::Out => {
                let data = io.output_data();
                let ghost before = self.bytes@;
                let mut k: usize = 0;
                while k < data.len()
                    invariant
                        0 <= k <= data@.len(),
                        data@ == io.data@,
                        self.bytes@ == before + data@.take(k as int),
                        self.input_byte == old(self).input_byte,
                    decreases data@.len() - k,
                {
                    self.bytes.push(data[k]);
                    assert(data@.take(k as int + 1) =~= data@.take(k as int).push(data@[k as int]));
                    k = k + 1;
                }
                assert(data@.take(data@.len() as int) =~= data@);
                Ok(PortIoService::Output)
            },
            PortIoDirection::In => Ok(PortIoService::Input(vec![self.input_byte])),
        }
    }
}

/// The bus's answer to an access, by port: the debug port, the PCI configuration ports, or a
/// refusal when the port has no device.
pub open spec fn spec_bus_reply(bus: &PortIoBus, io: PortIoExit) -> Result<PortReply, Error> {
    if io.port == DEBUG_PORT {
        match bus.debug_port {
            Some(d) => match d.spec_reply(io) {
                Ok(reply) => Ok(reply),
                Err(e) => Err(Error::PortIo(e)),
            },
            None => Err(Error::PortIo(unhandled_port(io))),
        }
    } else if io.port == 0x0cf8 || io.port == 0x0cfc {
        match bus.pci_config {
            Some(c) => match c.spec_reply(io) {
                Ok(PciReply::Latched) => Ok(PortReply::Output),
                Ok(PciReply::Dword(v)) => Ok(PortReply::Dword(v)),
                Err(e) => Err(Error::PortIo(e)),
            },
            None => Err(Error::PortIo(unhandled_port(io))),
        }
    } else {
        Err(Error::PortIo(unhandled_port(io)))
    }
}

impl PortIoBus {
    pub fn empty() -> (r: Self)
        ensures r.debug_port is None, r.pci_config is None,
    {
        PortIoBus { debug_port: None, pci_config: None }
    }

    /// A bus with a debug port that answers input with the default byte.
    pub fn with_debug_port() -> (r: Self)
        ensures
            r.debug_port matches Some(d) && d.input_byte == DEFAULT_DEBUG_INPUT && d.bytes@.len() == 0,
            r.pci_config is None,
    {
        PortIoBus { debug_port: Some(DebugPort { input_byte: DEFAULT_DEBUG_INPUT, bytes: Vec::new() }), pci_config: None }
    }

    /// A bus with a debug port that answers input with `input_byte`.
    pub fn with_debug_port_input(input_byte: u8) -> (r: Self)
        ensures
            r.debug_port matches Some(d) && d.input_byte == input_byte && d.bytes@.len() == 0,
            r.pci_config is None,
    {
        PortIoBus { debug_port: Some(DebugPort { input_byte, bytes: Vec::new() }), pci_config: None }
    }

    /// A bus with a debug port and the given PCI configuration mechanism.
    pub fn with_debug_port_and_pci_config(pci_config: PciConfigMechanism1) -> (r: Self)
        ensures
            r.debug_port matches Some(d) && d.input_byte == DEFAULT_DEBUG_INPUT && d.bytes@.len() == 0,
            r.pci_config == Some(pci_config),
    {
        PortIoBus {
            debug_port: Some(DebugPort { input_byte: DEFAULT_DEBUG_INPUT, bytes: Vec::new() }),
            pci_config: Some(pci_config),
        }
    }

    /// Routes an access by port (see `spec_bus_reply`). Debug-port output is appended to the
    /// recorded bytes; a PCI address write updates the latch; nothing else changes.
    pub fn dispatch(&mut self, io: &PortIoExit) -> (r: Result<PortIoService, Error>)
        ensures
            match spec_bus_reply(old(self), *io) {
                Ok(PortReply::Output) => r == Ok::<PortIoService, Error>(PortIoService::Output),
                Ok(PortReply::Byte(b)) => r matches Ok(PortIoService::Input(v)) && v@ == seq![b],
                Ok(PortReply::Dword(d)) => r matches Ok(PortIoService::Input(v))
                    && v@ == vstd::bytes::spec_u32_to_le_bytes(d),
                Err(e) => r == Err::<PortIoService, Error>(e),
            },
            match old(self).debug_port {
                Some(d) => final(self).debug_port matches Some(after) && after.input_byte == d.input_byte
                    && after.bytes@ == if io.port == DEBUG_PORT && spec_bus_reply(old(self), *io)
                        == Ok::<PortReply, Error>(PortReply::Output) {
                        d.bytes@ + io.data@
                    } else {
                        d.bytes@
                    },
                None => final(self).debug_port is None,
            },
            match old(self).pci_config {
                Some(c) => final(self).pci_config matches Some(after) && after.function == c.function
                    && after.address == if io.port == 0x0cf8 || io.port == 0x0cfc { c.spec_address_after(*io) } else { c.address },
                None => final(self).pci_config is None,
            },
    {
        if io.port() == DEBUG_PORT {
            let taken = self.debug_port.take();
            return match taken {
                Some(mut device) => {
                    let r = device.handle(io);
                    self.debug_port = Some(device);
                    match r {
                        Ok(service) => Ok(service),
                        Err(e) => Err(Error::PortIo(e)),
                    }
                },
                None => Err(Error::PortIo(PortIoError::UnhandledPort {
                    port: io.port(),
                    direction: io.direction().raw(),
                    size: io.size(),
                    count: io.count(),
                })),
            };
        }
        if PciConfigMechanism1::handles_port(io.port()) {
            let taken = self.pci_config.take();
            return match taken {
                Some(mut config) => {
                    let r = config.dispatch(io);
                    self.pci_config = Some(config);
                    match r {
                        Ok(PciConfigService::Output) => Ok(PortIoService::Output),
                        Ok(PciConfigService::Input(bytes)) => {
                            let v = vec![bytes[0], bytes[1], bytes[2], bytes[3]];
                            assert(v@ =~= bytes@);
                            Ok(PortIoService::Input(v))
                        },
                        Err(e) => Err(Error::PortIo(e)),
                    }
                },
                None => Err(Error::PortIo(PortIoError::UnhandledPort {
                    port: io.port(),
                    direction: io.direction().raw(),
                    size: io.size(),
                    count: io.count(),
                })),
            };
        }
        Err(Error::PortIo(PortIoError::UnhandledPort {
            port: io.port(),
            direction: io.direction().raw(),
            size: io.size(),
            count: io.count(),
        }))
    }

    /// Every byte written to the debug port, in order.
    pub fn debug_output(&self) -> (r: Option<&[u8]>)
        ensures
            match self.debug_port {
                Some(d) => r matches Some(b) && b@ == d.bytes@,
                None => r is None,
            },
    {
        match &self.debug_port {
            Some(device) => Some(device.bytes.as_slice()),
            None => None,
        }
    }
}

} // verus!
