//! Plain records of what a virtual CPU reports when it leaves guest mode.
use vstd::prelude::*;

verus! {

pub const KVM_EXIT_IO: u32 = 2;
pub const KVM_EXIT_HLT: u32 = 5;
pub const KVM_EXIT_MMIO: u32 = 6;
pub const KVM_EXIT_SHUTDOWN: u32 = 8;

/// A virtual CPU identifier.
#[derive(Debug, Clone, Copy, PartialEq, Eq, Hash)]
pub struct VcpuId(pub u16);

impl VcpuId {
    /// The bootstrap processor.
    pub fn boot() -> (r: Self)
        ensures r.0 == 0,
    {
        VcpuId(0)
    }

    pub fn new(value: u16) -> (r: Self)
        ensures r.0 == value,
    {
        VcpuId(value)
    }

    pub fn get(self) -> (r: u16)
        ensures r == self.0,
    {
        self.0
    }
}

/// The reason a virtual CPU stopped running guest code.
#[derive(Debug, Clone, Copy, PartialEq, Eq, Structural)]
pub enum VcpuExit {
    Io,
    Hlt,
    Mmio,
    Shutdown,
}

impl VcpuExit {
    pub open spec fn spec_reason(self) -> u32 {
        match self {
            VcpuExit::Io => KVM_EXIT_IO,
            VcpuExit::Hlt => KVM_EXIT_HLT,
            VcpuExit::Mmio => KVM_EXIT_MMIO,
            VcpuExit::Shutdown => KVM_EXIT_SHUTDOWN,
        }
    }

    /// The KVM exit-reason number of this exit.
    pub fn reason(self) -> (r: u32)
        ensures r == self.spec_reason(),
    {
        match self {
            VcpuExit::Io => KVM_EXIT_IO,
            VcpuExit::Hlt => KVM_EXIT_HLT,
            VcpuExit::Mmio => KVM_EXIT_MMIO,
            VcpuExit::Shutdown => KVM_EXIT_SHUTDOWN,
        }
    }
}

/// The terminal state observed when a virtual CPU stopped.
#[derive(Debug, Clone, Copy, PartialEq, Eq)]
pub struct VmExitReport {
    pub exit: VcpuExit,
    pub rip: u64,
    pub rflags: u64,
}

impl VmExitReport {
    pub fn new(exit: VcpuExit, rip: u64, rflags: u64) -> (r: Self)
        ensures r.exit == exit, r.rip == rip, r.rflags == rflags,
    {
        VmExitReport { exit, rip, rflags }
    }

    pub fn exit(&self) -> (r: VcpuExit)
        ensures r == self.exit,
    {
        self.exit
    }

    pub fn rip(&self) -> (r: u64)
        ensures r == self.rip,
    {
        self.rip
    }

    pub fn rflags(&self) -> (r: u64)
        ensures r == self.rflags,
    {
        self.rflags
    }
}

#[derive(Debug, Clone, Copy, PartialEq, Eq, Structural)]
pub enum PortIoDirection {
    In,
    Out,
}

impl PortIoDirection {
    pub open spec fn spec_raw(self) -> u8 {
        match self {
            PortIoDirection::In => 0,
            PortIoDirection::Out => 1,
        }
    }

    /// The KVM encoding of the direction (`KVM_EXIT_IO_IN` is 0, `KVM_EXIT_IO_OUT` is 1).
    pub fn raw(self) -> (r: u8)
        ensures r == self.spec_raw(),
    {
        match self {
            PortIoDirection::In => 0,
            PortIoDirection::Out => 1,
        }
    }
}

/// One port-I/O exit: the port, direction, access size, repeat count and, for output, the bytes.
#[derive(Debug, Clone, PartialEq, Eq)]
pub struct PortIoExit {
    pub port: u16,
    pub direction: PortIoDirection,
    pub size: u8,
    pub count: u32,
    pub data: Vec<u8>,
}

impl PortIoExit {
    pub fn new(direction: PortIoDirection, size: u8, port: u16, count: u32, data: Vec<u8>) -> (r: Self)
        ensures
            r.port == port,
            r.direction == direction,
            r.size == size,
            r.count == count,
            r.data@ == data@,
    {
        PortIoExit { port, direction, size, count, data }
    }

    pub fn new_for_test(port: u16, direction: PortIoDirection, size: u8, count: u32, data: Vec<u8>) -> (r: Self)
        ensures
            r.port == port,
            r.direction == direction,
            r.size == size,
            r.count == count,
            r.data@ == data@,
    {
        PortIoExit { port, direction, size, count, data }
    }

    pub fn port(&self) -> (r: u16)
        ensures r == self.port,
    {
        self.port
    }

    pub fn direction(&self) -> (r: PortIoDirection)
        ensures r == self.direction,
    {
        self.direction
    }

    pub fn size(&self) -> (r: u8)
        ensures r == self.size,
    {
        self.size
    }

    pub fn count(&self) -> (r: u32)
        ensures r == self.count,
    {
        self.count
    }

    pub fn output_data(&self) -> (r: &[u8])
        ensures r@ == self.data@,
    {
        self.data.as_slice()
    }
}

#[derive(Debug, Clone, Copy, PartialEq, Eq, Structural)]
pub enum MmioDirection {
    Read,
    Write,
}

impl MmioDirection {
    pub open spec fn spec_raw(self) -> u8 {
        match self {
            MmioDirection::Read => 0,
            MmioDirection::Write => 1,
        }
    }

    pub fn raw(self) -> (r: u8)
        ensures r == self.spec_raw(),
    {
        match self {
            MmioDirection::Read => 0,
            MmioDirection::Write => 1,
        }
    }
}

/// One MMIO exit: the guest-physical address, direction, access length and written bytes.
#[derive(Debug, Clone, PartialEq, Eq)]
pub struct MmioExit {
    pub address: u64,
    pub direction: MmioDirection,
    pub length: u32,
    pub data: Vec<u8>,
}

impl MmioExit {
    pub fn new_for_test(address: u64, direction: MmioDirection, length: u32, write_data: Vec<u8>) -> (r: Self)
        ensures
            r.address == address,
            r.direction == direction,
            r.length == length,
            r.data@ == write_data@,
    {
        MmioExit { address, direction, length, data: write_data }
    }

    pub fn address(&self) -> (r: u64)
        ensures r == self.address,
    {
        self.address
    }

    pub fn direction(&self) -> (r: MmioDirection)
        ensures r == self.direction,
    {
        self.direction
    }

    pub fn length(&self) -> (r: u32)
        ensures r == self.length,
    {
        self.length
    }

    pub fn write_data(&self) -> (r: &[u8])
        ensures r@ == self.data@,
    {
        self.data.as_slice()
    }
}

} // verus!
