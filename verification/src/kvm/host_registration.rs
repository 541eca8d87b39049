//! File-descriptor-free descriptions of one host registration: an ioeventfd doorbell (address,
//! width, datamatch) together with the GSI its irqfd raises.
use crate::error::{Error, HostEnvironmentError, HostIoCause};
use vstd::prelude::*;

verus! {

pub const KVM_CAP_IOEVENTFD: i32 = 36;
pub const KVM_IOEVENTFD: u64 = 0x4040_AE79;
pub const KVM_IOEVENTFD_FLAG_DATAMATCH: u32 = 1;
pub const KVM_IOEVENTFD_FLAG_DEASSIGN: u32 = 4;

/// The operation name under which an invalid registration descriptor is reported.
pub open spec fn descriptor_error() -> Error {
    Error::HostEnvironment(HostEnvironmentError::VmOperation {
        operation: "validate host registration descriptor",
        source: HostIoCause::InvalidInput,
    })
}

/// Doorbell widths that KVM's ioeventfd accepts.
pub open spec fn spec_length_supported(length: u32) -> bool {
    length == 1 || length == 2 || length == 4 || length == 8
}

/// Whether `datamatch` fits in `length` bytes.
pub open spec fn spec_datamatch_fits(length: u32, datamatch: u64) -> bool {
    if length == 1 {
        datamatch < 0x100
    } else if length == 2 {
        datamatch < 0x1_0000
    } else if length == 4 {
        datamatch < 0x1_0000_0000
    } else {
        true
    }
}

/// The Linux `struct kvm_ioeventfd` request.
#[derive(Debug, Clone, Copy, PartialEq, Eq)]
pub struct KvmIoEventFd {
    pub datamatch: u64,
    pub addr: u64,
    pub len: u32,
    pub fd: i32,
    pub flags: u32,
    pub pad: [u8; 36],
}

impl KvmIoEventFd {
    /// A datamatch assignment of `fd` to the doorbell `[addr, addr + len)`.
    pub fn assign(fd: i32, addr: u64, len: u32, datamatch: u64) -> (r: Self)
        ensures
            r.fd == fd && r.addr == addr && r.len == len && r.datamatch == datamatch,
            r.flags == KVM_IOEVENTFD_FLAG_DATAMATCH,
            forall|i: int| 0 <= i < 36 ==> r.pad@[i] == 0,
    {
        KvmIoEventFd { datamatch, addr, len, fd, flags: KVM_IOEVENTFD_FLAG_DATAMATCH, pad: [0u8; 36] }
    }

    /// The request that removes the assignment made by `assign` with the same arguments.
    pub fn deassign(fd: i32, addr: u64, len: u32, datamatch: u64) -> (r: Self)
        ensures
            r.fd == fd && r.addr == addr && r.len == len && r.datamatch == datamatch,
            r.flags == KVM_IOEVENTFD_FLAG_DATAMATCH | KVM_IOEVENTFD_FLAG_DEASSIGN,
            forall|i: int| 0 <= i < 36 ==> r.pad@[i] == 0,
    {
        KvmIoEventFd {
            datamatch,
            addr,
            len,
            fd,
            flags: KVM_IOEVENTFD_FLAG_DATAMATCH | KVM_IOEVENTFD_FLAG_DEASSIGN,
            pad: [0u8; 36],
        }
    }
}

/// A validated doorbell-plus-GSI registration descriptor.
#[derive(Debug, Clone, Copy, PartialEq, Eq)]
pub struct HostRegistrationSpec {
    pub doorbell_address: u64,
    pub doorbell_length: u32,
    pub doorbell_datamatch: u64,
    pub gsi: u32,
}

impl HostRegistrationSpec {
    /// Whether a descriptor with these fields is valid: a supported width, a datamatch that fits
    /// that width, and a doorbell range that does not wrap.
    pub open spec fn spec_valid(doorbell_address: u64, doorbell_length: u32, doorbell_datamatch: u64) -> bool {
        &&& spec_length_supported(doorbell_length)
        &&& spec_datamatch_fits(doorbell_length, doorbell_datamatch)
        &&& doorbell_address + doorbell_length <= u64::MAX
    }

    pub open spec fn wf(self) -> bool {
        Self::spec_valid(self.doorbell_address, self.doorbell_length, self.doorbell_datamatch)
    }

    pub fn new(doorbell_address: u64, doorbell_length: u32, doorbell_datamatch: u64, gsi: u32)
        -> (r: Result<Self, Error>)
        ensures
            Self::spec_valid(doorbell_address, doorbell_length, doorbell_datamatch) ==> r
                == Ok::<Self, Error>(HostRegistrationSpec { doorbell_address, doorbell_length, doorbell_datamatch, gsi }),
            !Self::spec_valid(doorbell_address, doorbell_length, doorbell_datamatch) ==> r
                == Err::<Self, Error>(descriptor_error()),
    {
        let error = Error::HostEnvironment(HostEnvironmentError::VmOperation {
            operation: "validate host registration descriptor",
            source: HostIoCause::InvalidInput,
        });
        if !(doorbell_length == 1 || doorbell_length == 2 || doorbell_length == 4 || doorbell_length == 8) {
            return Err(error);
        }
        let fits = if doorbell_length == 1 {
            doorbell_datamatch < 0x100
        } else if doorbell_length == 2 {
            doorbell_datamatch < 0x1_0000
        } else if doorbell_length == 4 {
            doorbell_datamatch < 0x1_0000_0000
        } else {
            true
        };
        if !fits {
            return Err(error);
        }
        if doorbell_address > u64::MAX - doorbell_length as u64 {
            return Err(error);
        }
        Ok(HostRegistrationSpec { doorbell_address, doorbell_length, doorbell_datamatch, gsi })
    }

    pub fn doorbell_address(self) -> (r: u64)
        ensures r == self.doorbell_address,
    {
        self.doorbell_address
    }

    pub fn doorbell_length(self) -> (r: u32)
        ensures r == self.doorbell_length,
    {
        self.doorbell_length
    }

    pub fn doorbell_datamatch(self) -> (r: u64)
        ensures r == self.doorbell_datamatch,
    {
        self.doorbell_datamatch
    }

    pub fn gsi(self) -> (r: u32)
        ensures r == self.gsi,
    {
        self.gsi
    }

    /// The ioeventfd assignment request for this descriptor with eventfd `fd`.
    pub fn ioeventfd_assign(self, fd: i32) -> (r: KvmIoEventFd)
        ensures
            r.fd == fd && r.addr == self.doorbell_address && r.len == self.doorbell_length
                && r.datamatch == self.doorbell_datamatch,
            r.flags == KVM_IOEVENTFD_FLAG_DATAMATCH,
    {
        KvmIoEventFd::assign(fd, self.doorbell_address, self.doorbell_length, self.doorbell_datamatch)
    }

    /// The ioeventfd deassignment request matching `ioeventfd_assign(fd)`.
    pub fn ioeventfd_deassign(self, fd: i32) -> (r: KvmIoEventFd)
        ensures
            r.fd == fd && r.addr == self.doorbell_address && r.len == self.doorbell_length
                && r.datamatch == self.doorbell_datamatch,
            r.flags == KVM_IOEVENTFD_FLAG_DATAMATCH | KVM_IOEVENTFD_FLAG_DEASSIGN,
    {
        KvmIoEventFd::deassign(fd, self.doorbell_address, self.doorbell_length, self.doorbell_datamatch)
    }
}

/// What survives a checkpoint of one registration: only its descriptor, no file descriptor.
#[derive(Debug, Clone, Copy, PartialEq, Eq)]
pub struct HostRegistrationCheckpoint {
    pub spec: HostRegistrationSpec,
}

impl HostRegistrationCheckpoint {
    pub fn capture(spec: HostRegistrationSpec) -> (r: Self)
        ensures r.spec == spec,
    {
        HostRegistrationCheckpoint { spec }
    }

    pub fn spec(&self) -> (r: HostRegistrationSpec)
        ensures r == self.spec,
    {
        self.spec
    }
}

} // verus!
