//! The error vocabulary shared by every part of the hypervisor model.
//!
//! Host-side failures carry a plain `HostIoCause` in place of an operating-system error object,
//! so that every error value is an ordinary, comparable datum.
use crate::text::{
    decimal_text, hex_text, option_text, push_decimal, push_hex, push_option, push_signed, signed_text,
};
use vstd::string::StringExecFns;
use vstd::prelude::*;

verus! {

/// What went wrong underneath a host-side operation.
#[derive(Debug, Clone, Copy, PartialEq, Eq)]
pub enum HostIoCause {
    /// The host reported an operating-system error number.
    Os { errno: i32 },
    /// Data handed back by the host, or observed in the guest, broke a contract.
    InvalidData,
    /// A request was malformed before it reached the host.
    InvalidInput,
}

#[derive(Debug, Clone, PartialEq, Eq)]
pub enum Error {
    HostEnvironment(HostEnvironmentError),
    KvmCapability(KvmCapabilityError),
    Configuration(ConfigurationError),
    GuestMemory(GuestMemoryError),
    GuestImage(GuestImageError),
    VmExit(VmExitError),
    PortIo(PortIoError),
    Mmio(MmioError),
}

#[derive(Debug, Clone, PartialEq, Eq)]
pub enum HostEnvironmentError {
    KvmUnavailable { source: HostIoCause },
    PermissionDenied { source: HostIoCause },
    VmCreation { source: HostIoCause },
    VcpuCreation { id: u16, source: HostIoCause },
    VcpuRunMapping { id: u16, source: HostIoCause },
    VcpuOperation { id: u16, operation: &'static str, source: HostIoCause },
    VmOperation { operation: &'static str, source: HostIoCause },
    Io { operation: &'static str, source: HostIoCause },
}

#[derive(Debug, Clone, PartialEq, Eq)]
pub enum KvmCapabilityError {
    UnsupportedApiVersion { expected: i32, actual: i32 },
    MissingExtension { name: &'static str, id: i32 },
    InvalidVcpuMmapSize { size: i32 },
}

#[derive(Debug, Clone, PartialEq, Eq)]
pub enum ConfigurationError {
    UnsupportedVcpuCount { requested: u16, supported: u16 },
    RealModeEntryOutOfRange { entry: u64, maximum: u64 },
}

#[derive(Debug, Clone, PartialEq, Eq)]
pub enum GuestMemoryError {
    ZeroSizedRegion,
    MisalignedRegion { field: &'static str, value: u64, alignment: u64 },
    AddressSpaceOverflow { base: u64, size: u64 },
    HostSizeOverflow { size: u64 },
    AccessLengthTooLarge { length: usize },
    AccessOverflow { address: u64, length: usize },
    AccessOutOfBounds { address: u64, length: usize, region_base: u64, region_size: u64 },
    ReservedRangeOverlap { region_base: u64, region_size: u64, reserved_base: u64, reserved_size: u64 },
    Mapping { source: HostIoCause },
    Registration { source: HostIoCause },
    AlreadyRegistered,
}

#[derive(Debug, Clone, PartialEq, Eq)]
pub enum GuestImageError {
    EmptyFlatBinary,
    ImageLengthTooLarge { length: usize },
    ImageRangeOverflow { load_address: u64, length: usize },
    EntryOutsideImage { entry: u64, load_address: u64, length: usize },
}

#[derive(Debug, Clone, PartialEq, Eq)]
pub enum VmExitError {
    ExitBudgetExhausted { vcpu_id: u16, budget: u32, completed: u32, last_exit_reason: Option<u32> },
    UnexpectedSequence { stage: &'static str, expected_reason: u32, actual_reason: u32 },
}

#[derive(Debug, Clone, PartialEq, Eq)]
pub enum PortIoError {
    UnhandledPort { port: u16, direction: u8, size: u8, count: u32 },
    UnsupportedAccessShape { port: u16, direction: u8, size: u8, count: u32 },
}

#[derive(Debug, Clone, PartialEq, Eq)]
pub enum MmioError {
    UnhandledAddress { address: u64, direction: u8, length: u32 },
    UnsupportedByteDeviceAccess { address: u64, direction: u8, length: u32 },
    InvalidWritePayload { address: u64, expected: usize, actual: usize },
}


impl HostEnvironmentError {
    /// The text that describes the error.
    pub open spec fn spec_message(self) -> Seq<char> {
        match self {
            HostEnvironmentError::KvmUnavailable { .. } => Seq::<char>::empty() + "/dev/kvm is unavailable"@,
            HostEnvironmentError::PermissionDenied { .. } => Seq::<char>::empty() + "permission denied while opening /dev/kvm"@,
            HostEnvironmentError::VmCreation { .. } => Seq::<char>::empty() + "KVM failed to create a VM"@,
            HostEnvironmentError::VcpuCreation { id, .. } => Seq::<char>::empty() + "KVM failed to create vCPU "@ + decimal_text(id as nat),
            HostEnvironmentError::VcpuRunMapping { id, .. } => Seq::<char>::empty() + "failed to map the kvm_run structure for vCPU "@ + decimal_text(id as nat),
            HostEnvironmentError::VcpuOperation { id, operation, .. } => Seq::<char>::empty() + "KVM vCPU "@ + decimal_text(id as nat) + " operation "@ + operation@ + " failed"@,
            HostEnvironmentError::VmOperation { operation, .. } => Seq::<char>::empty() + "KVM VM operation "@ + operation@ + " failed"@,
            HostEnvironmentError::Io { operation, .. } => Seq::<char>::empty() + "host I/O failure during "@ + operation@,
        }
    }

    pub fn message(&self) -> (r: String)
        ensures r@ == self.spec_message(),
    {
        match self {
            HostEnvironmentError::KvmUnavailable { .. } => {
                let mut s = String::new();
                s.append("/dev/kvm is unavailable");
                s
            },
            HostEnvironmentError::PermissionDenied { .. } => {
                let mut s = String::new();
                s.append("permission denied while opening /dev/kvm");
                s
            },
            HostEnvironmentError::VmCreation { .. } => {
                let mut s = String::new();
                s.append("KVM failed to create a VM");
                s
            },
            HostEnvironmentError::VcpuCreation { id, .. } => {
                let mut s = String::new();
                s.append("KVM failed to create vCPU ");
                push_decimal(&mut s, *id as u64);
                s
            },
            HostEnvironmentError::VcpuRunMapping { id, .. } => {
                let mut s = String::new();
                s.append("failed to map the kvm_run structure for vCPU ");
                push_decimal(&mut s, *id as u64);
                s
            },
            HostEnvironmentError::VcpuOperation { id, operation, .. } => {
                let mut s = String::new();
                s.append("KVM vCPU ");
                push_decimal(&mut s, *id as u64);
                s.append(" operation ");
                s.append(operation);
                s.append(" failed");
                s
            },
            HostEnvironmentError::VmOperation { operation, .. } => {
                let mut s = String::new();
                s.append("KVM VM operation ");
                s.append(operation);
                s.append(" failed");
                s
            },
            HostEnvironmentError::Io { operation, .. } => {
                let mut s = String::new();
                s.append("host I/O failure during ");
                s.append(operation);
                s
            },
        }
    }
}

impl KvmCapabilityError {
    /// The text that describes the error.
    pub open spec fn spec_message(self) -> Seq<char> {
        match self {
            KvmCapabilityError::UnsupportedApiVersion { expected, actual } => Seq::<char>::empty() + "unsupported KVM API version: expected "@ + signed_text(expected as int) + ", got "@ + signed_text(actual as int),
            KvmCapabilityError::MissingExtension { name, id } => Seq::<char>::empty() + "required KVM extension "@ + name@ + " (id "@ + signed_text(id as int) + ") is unavailable"@,
            KvmCapabilityError::InvalidVcpuMmapSize { size } => Seq::<char>::empty() + "KVM reported invalid vCPU mmap size "@ + signed_text(size as int),
        }
    }

    pub fn message(&self) -> (r: String)
        ensures r@ == self.spec_message(),
    {
        match self {
            KvmCapabilityError::UnsupportedApiVersion { expected, actual } => {
                let mut s = String::new();
                s.append("unsupported KVM API version: expected ");
                push_signed(&mut s, *expected as i64);
                s.append(", got ");
                push_signed(&mut s, *actual as i64);
                s
            },
            KvmCapabilityError::MissingExtension { name, id } => {
                let mut s = String::new();
                s.append("required KVM extension ");
                s.append(name);
                s.append(" (id ");
                push_signed(&mut s, *id as i64);
                s.append(") is unavailable");
                s
            },
            KvmCapabilityError::InvalidVcpuMmapSize { size } => {
                let mut s = String::new();
                s.append("KVM reported invalid vCPU mmap size ");
                push_signed(&mut s, *size as i64);
                s
            },
        }
    }
}

impl ConfigurationError {
    /// The text that describes the error.
    pub open spec fn spec_message(self) -> Seq<char> {
        match self {
            ConfigurationError::UnsupportedVcpuCount { requested, supported } => Seq::<char>::empty() + "requested "@ + decimal_text(requested as nat) + " vCPUs, but this milestone supports exactly "@ + decimal_text(supported as nat),
            ConfigurationError::RealModeEntryOutOfRange { entry, maximum } => Seq::<char>::empty() + "real-mode entry "@ + hex_text(entry as nat) + " exceeds the current CS=0 RIP limit "@ + hex_text(maximum as nat),
        }
    }

    pub fn message(&self) -> (r: String)
        ensures r@ == self.spec_message(),
    {
        match self {
            ConfigurationError::UnsupportedVcpuCount { requested, supported } => {
                let mut s = String::new();
                s.append("requested ");
                push_decimal(&mut s, *requested as u64);
                s.append(" vCPUs, but this milestone supports exactly ");
                push_decimal(&mut s, *supported as u64);
                s
            },
            ConfigurationError::RealModeEntryOutOfRange { entry, maximum } => {
                let mut s = String::new();
                s.append("real-mode entry ");
                push_hex(&mut s, *entry as u64);
                s.append(" exceeds the current CS=0 RIP limit ");
                push_hex(&mut s, *maximum as u64);
                s
            },
        }
    }
}

impl GuestMemoryError {
    /// The text that describes the error.
    pub open spec fn spec_message(self) -> Seq<char> {
        match self {
            GuestMemoryError::ZeroSizedRegion => Seq::<char>::empty() + "guest RAM region must be non-zero"@,
            GuestMemoryError::MisalignedRegion { field, value, alignment } => Seq::<char>::empty() + "guest RAM "@ + field@ + " "@ + hex_text(value as nat) + " is not aligned to "@ + hex_text(alignment as nat) + " bytes"@,
            GuestMemoryError::AddressSpaceOverflow { base, size } => Seq::<char>::empty() + "guest RAM range overflows the physical address space: base="@ + hex_text(base as nat) + ", size="@ + hex_text(size as nat),
            GuestMemoryError::HostSizeOverflow { size } => Seq::<char>::empty() + "guest RAM size "@ + hex_text(size as nat) + " does not fit the host address space"@,
            GuestMemoryError::AccessLengthTooLarge { length } => Seq::<char>::empty() + "guest-memory access length "@ + decimal_text(length as nat) + " does not fit in a guest address"@,
            GuestMemoryError::AccessOverflow { address, length } => Seq::<char>::empty() + "guest-memory access overflows: address="@ + hex_text(address as nat) + ", length="@ + decimal_text(length as nat),
            GuestMemoryError::AccessOutOfBounds { address, length, region_base, region_size } => Seq::<char>::empty() + "guest-memory access is outside RAM: address="@ + hex_text(address as nat) + ", length="@ + decimal_text(length as nat) + ", region="@ + hex_text(region_base as nat) + "+"@ + hex_text(region_size as nat),
            GuestMemoryError::ReservedRangeOverlap { region_base, region_size, reserved_base, reserved_size } => Seq::<char>::empty() + "guest RAM "@ + hex_text(region_base as nat) + "+"@ + hex_text(region_size as nat) + " overlaps the KVM-reserved range "@ + hex_text(reserved_base as nat) + "+"@ + hex_text(reserved_size as nat),
            GuestMemoryError::Mapping { .. } => Seq::<char>::empty() + "failed to map guest RAM on the host"@,
            GuestMemoryError::Registration { .. } => Seq::<char>::empty() + "KVM failed to register guest RAM"@,
            GuestMemoryError::AlreadyRegistered => Seq::<char>::empty() + "this VM already owns its single guest RAM region"@,
        }
    }

    pub fn message(&self) -> (r: String)
        ensures r@ == self.spec_message(),
    {
        match self {
            GuestMemoryError::ZeroSizedRegion => {
                let mut s = String::new();
                s.append("guest RAM region must be non-zero");
                s
            },
            GuestMemoryError::MisalignedRegion { field, value, alignment } => {
                let mut s = String::new();
                s.append("guest RAM ");
                s.append(field);
                s.append(" ");
                push_hex(&mut s, *value as u64);
                s.append(" is not aligned to ");
                push_hex(&mut s, *alignment as u64);
                s.append(" bytes");
                s
            },
            GuestMemoryError::AddressSpaceOverflow { base, size } => {
                let mut s = String::new();
                s.append("guest RAM range overflows the physical address space: base=");
                push_hex(&mut s, *base as u64);
                s.append(", size=");
                push_hex(&mut s, *size as u64);
                s
            },
            GuestMemoryError::HostSizeOverflow { size } => {
                let mut s = String::new();
                s.append("guest RAM size ");
                push_hex(&mut s, *size as u64);
                s.append(" does not fit the host address space");
                s
            },
            GuestMemoryError::AccessLengthTooLarge { length } => {
                let mut s = String::new();
                s.append("guest-memory access length ");
                push_decimal(&mut s, *length as u64);
                s.append(" does not fit in a guest address");
                s
            },
            GuestMemoryError::AccessOverflow { address, length } => {
                let mut s = String::new();
                s.append("guest-memory access overflows: address=");
                push_hex(&mut s, *address as u64);
                s.append(", length=");
                push_decimal(&mut s, *length as u64);
                s
            },
            GuestMemoryError::AccessOutOfBounds { address, length, region_base, region_size } => {
                let mut s = String::new();
                s.append("guest-memory access is outside RAM: address=");
                push_hex(&mut s, *address as u64);
                s.append(", length=");
                push_decimal(&mut s, *length as u64);
                s.append(", region=");
                push_hex(&mut s, *region_base as u64);
                s.append("+");
                push_hex(&mut s, *region_size as u64);
                s
            },
            GuestMemoryError::ReservedRangeOverlap { region_base, region_size, reserved_base, reserved_size } => {
                let mut s = String::new();
                s.append("guest RAM ");
                push_hex(&mut s, *region_base as u64);
                s.append("+");
                push_hex(&mut s, *region_size as u64);
                s.append(" overlaps the KVM-reserved range ");
                push_hex(&mut s, *reserved_base as u64);
                s.append("+");
                push_hex(&mut s, *reserved_size as u64);
                s
            },
            GuestMemoryError::Mapping { .. } => {
                let mut s = String::new();
                s.append("failed to map guest RAM on the host");
                s
            },
            GuestMemoryError::Registration { .. } => {
                let mut s = String::new();
                s.append("KVM failed to register guest RAM");
                s
            },
            GuestMemoryError::AlreadyRegistered => {
                let mut s = String::new();
                s.append("this VM already owns its single guest RAM region");
                s
            },
        }
    }
}

impl GuestImageError {
    /// The text that describes the error.
    pub open spec fn spec_message(self) -> Seq<char> {
        match self {
            GuestImageError::EmptyFlatBinary => Seq::<char>::empty() + "flat guest image must contain at least one byte"@,
            GuestImageError::ImageLengthTooLarge { length } => Seq::<char>::empty() + "flat guest image length "@ + decimal_text(length as nat) + " does not fit a guest address"@,
            GuestImageError::ImageRangeOverflow { load_address, length } => Seq::<char>::empty() + "flat guest image range overflows: load_address="@ + hex_text(load_address as nat) + ", length="@ + decimal_text(length as nat),
            GuestImageError::EntryOutsideImage { entry, load_address, length } => Seq::<char>::empty() + "guest entry "@ + hex_text(entry as nat) + " is outside flat image at "@ + hex_text(load_address as nat) + " with length "@ + decimal_text(length as nat),
        }
    }

    pub fn message(&self) -> (r: String)
        ensures r@ == self.spec_message(),
    {
        match self {
            GuestImageError::EmptyFlatBinary => {
                let mut s = String::new();
                s.append("flat guest image must contain at least one byte");
                s
            },
            GuestImageError::ImageLengthTooLarge { length } => {
                let mut s = String::new();
                s.append("flat guest image length ");
                push_decimal(&mut s, *length as u64);
                s.append(" does not fit a guest address");
                s
            },
            GuestImageError::ImageRangeOverflow { load_address, length } => {
                let mut s = String::new();
                s.append("flat guest image range overflows: load_address=");
                push_hex(&mut s, *load_address as u64);
                s.append(", length=");
                push_decimal(&mut s, *length as u64);
                s
            },
            GuestImageError::EntryOutsideImage { entry, load_address, length } => {
                let mut s = String::new();
                s.append("guest entry ");
                push_hex(&mut s, *entry as u64);
                s.append(" is outside flat image at ");
                push_hex(&mut s, *load_address as u64);
                s.append(" with length ");
                push_decimal(&mut s, *length as u64);
                s
            },
        }
    }
}

impl VmExitError {
    /// The text that describes the error.
    pub open spec fn spec_message(self) -> Seq<char> {
        match self {
            VmExitError::ExitBudgetExhausted { vcpu_id, budget, completed, last_exit_reason } => Seq::<char>::empty() + "vCPU "@ + decimal_text(vcpu_id as nat) + " exhausted its exit budget of "@ + decimal_text(budget as nat) + " after "@ + decimal_text(completed as nat) + " exits (last reason "@ + option_text(last_exit_reason) + ")"@,
            VmExitError::UnexpectedSequence { stage, expected_reason, actual_reason } => Seq::<char>::empty() + "unexpected exit at "@ + stage@ + ": expected reason "@ + decimal_text(expected_reason as nat) + ", got "@ + decimal_text(actual_reason as nat),
        }
    }

    pub fn message(&self) -> (r: String)
        ensures r@ == self.spec_message(),
    {
        match self {
            VmExitError::ExitBudgetExhausted { vcpu_id, budget, completed, last_exit_reason } => {
                let mut s = String::new();
                s.append("vCPU ");
                push_decimal(&mut s, *vcpu_id as u64);
                s.append(" exhausted its exit budget of ");
                push_decimal(&mut s, *budget as u64);
                s.append(" after ");
                push_decimal(&mut s, *completed as u64);
                s.append(" exits (last reason ");
                push_option(&mut s, *last_exit_reason);
                s.append(")");
                s
            },
            VmExitError::UnexpectedSequence { stage, expected_reason, actual_reason } => {
                let mut s = String::new();
                s.append("unexpected exit at ");
                s.append(stage);
                s.append(": expected reason ");
                push_decimal(&mut s, *expected_reason as u64);
                s.append(", got ");
                push_decimal(&mut s, *actual_reason as u64);
                s
            },
        }
    }
}

impl PortIoError {
    /// The text that describes the error.
    pub open spec fn spec_message(self) -> Seq<char> {
        match self {
            PortIoError::UnhandledPort { port, direction, size, count } => Seq::<char>::empty() + "unhandled port I/O: port="@ + hex_text(port as nat) + ", direction="@ + decimal_text(direction as nat) + ", size="@ + decimal_text(size as nat) + ", count="@ + decimal_text(count as nat),
            PortIoError::UnsupportedAccessShape { port, direction, size, count } => Seq::<char>::empty() + "unsupported port I/O access shape: port="@ + hex_text(port as nat) + ", direction="@ + decimal_text(direction as nat) + ", size="@ + decimal_text(size as nat) + ", count="@ + decimal_text(count as nat),
        }
    }

    pub fn message(&self) -> (r: String)
        ensures r@ == self.spec_message(),
    {
        match self {
            PortIoError::UnhandledPort { port, direction, size, count } => {
                let mut s = String::new();
                s.append("unhandled port I/O: port=");
                push_hex(&mut s, *port as u64);
                s.append(", direction=");
                push_decimal(&mut s, *direction as u64);
                s.append(", size=");
                push_decimal(&mut s, *size as u64);
                s.append(", count=");
                push_decimal(&mut s, *count as u64);
                s
            },
            PortIoError::UnsupportedAccessShape { port, direction, size, count } => {
                let mut s = String::new();
                s.append("unsupported port I/O access shape: port=");
                push_hex(&mut s, *port as u64);
                s.append(", direction=");
                push_decimal(&mut s, *direction as u64);
                s.append(", size=");
                push_decimal(&mut s, *size as u64);
                s.append(", count=");
                push_decimal(&mut s, *count as u64);
                s
            },
        }
    }
}

impl MmioError {
    /// The text that describes the error.
    pub open spec fn spec_message(self) -> Seq<char> {
        match self {
            MmioError::UnhandledAddress { address, direction, length } => Seq::<char>::empty() + "unhandled MMIO access: address="@ + hex_text(address as nat) + ", direction="@ + decimal_text(direction as nat) + ", length="@ + decimal_text(length as nat),
            MmioError::UnsupportedByteDeviceAccess { address, direction, length } => Seq::<char>::empty() + "unsupported byte-device MMIO access: address="@ + hex_text(address as nat) + ", direction="@ + decimal_text(direction as nat) + ", length="@ + decimal_text(length as nat),
            MmioError::InvalidWritePayload { address, expected, actual } => Seq::<char>::empty() + "MMIO write at "@ + hex_text(address as nat) + " carried "@ + decimal_text(actual as nat) + " bytes, expected "@ + decimal_text(expected as nat),
        }
    }

    pub fn message(&self) -> (r: String)
        ensures r@ == self.spec_message(),
    {
        match self {
            MmioError::UnhandledAddress { address, direction, length } => {
                let mut s = String::new();
                s.append("unhandled MMIO access: address=");
                push_hex(&mut s, *address as u64);
                s.append(", direction=");
                push_decimal(&mut s, *direction as u64);
                s.append(", length=");
                push_decimal(&mut s, *length as u64);
                s
            },
            MmioError::UnsupportedByteDeviceAccess { address, direction, length } => {
                let mut s = String::new();
                s.append("unsupported byte-device MMIO access: address=");
                push_hex(&mut s, *address as u64);
                s.append(", direction=");
                push_decimal(&mut s, *direction as u64);
                s.append(", length=");
                push_decimal(&mut s, *length as u64);
                s
            },
            MmioError::InvalidWritePayload { address, expected, actual } => {
                let mut s = String::new();
                s.append("MMIO write at ");
                push_hex(&mut s, *address as u64);
                s.append(" carried ");
                push_decimal(&mut s, *actual as u64);
                s.append(" bytes, expected ");
                push_decimal(&mut s, *expected as u64);
                s
            },
        }
    }
}

impl Error {
    /// The text that describes the error.
    pub open spec fn spec_message(self) -> Seq<char> {
        match self {
            Error::HostEnvironment(e) => e.spec_message(),
            Error::KvmCapability(e) => e.spec_message(),
            Error::Configuration(e) => e.spec_message(),
            Error::GuestMemory(e) => e.spec_message(),
            Error::GuestImage(e) => e.spec_message(),
            Error::VmExit(e) => e.spec_message(),
            Error::PortIo(e) => e.spec_message(),
            Error::Mmio(e) => e.spec_message(),
        }
    }

    pub fn message(&self) -> (r: String)
        ensures r@ == self.spec_message(),
    {
        match self {
            Error::HostEnvironment(e) => e.message(),
            Error::KvmCapability(e) => e.message(),
            Error::Configuration(e) => e.message(),
            Error::GuestMemory(e) => e.message(),
            Error::GuestImage(e) => e.message(),
            Error::VmExit(e) => e.message(),
            Error::PortIo(e) => e.message(),
            Error::Mmio(e) => e.message(),
        }
    }
}

} // verus!
