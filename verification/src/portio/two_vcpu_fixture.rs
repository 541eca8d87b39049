//! Two vCPUs run one after the other in one VM: the first stores a marker that the second must find before it
//! reports.
use crate::vcpu::{PortIoExit, VmExitReport};
use vstd::prelude::*;

verus! {

pub const TWO_VCPU_RAM_BASE: u64 = 0;
pub const TWO_VCPU_RAM_SIZE: u64 = 0x1_0000;
pub const FIRST_ENTRY: u64 = 0x1000;
pub const SECOND_ENTRY: u64 = 0x2000;
pub const SHARED_MARKER: u64 = 0x3000;
pub const EXIT_BUDGET_PER_VCPU: u32 = 2;
pub const FIRST_PROOF: [u8; 1] = [0x30];
pub const SECOND_PROOF: [u8; 1] = [0x31];
pub const SHARED_MARKER_VALUE: u8 = 0x41;
pub const FIRST_GUEST_BYTES: [u8; 10] = [ 0xb0, SHARED_MARKER_VALUE, 0xa2, 0x00, 0x30, 0xb0, 0x30, 0xe6, 0xe9, 0xf4, ];
/// The first vCPU stops after its last byte.
pub const FIRST_TERMINAL_RIP: u64 = FIRST_ENTRY + 10;
/// The second vCPU stops after its success branch.
pub const SECOND_TERMINAL_RIP: u64 = SECOND_ENTRY + 12;
pub const FIRST_VCPU_INDEX: u16 = 0;
pub const SECOND_VCPU_INDEX: u16 = 1;
pub const SECOND_GUEST_BYTES: [u8; 17] = [ 0xa0, 0x00, 0x30, 0x3c, SHARED_MARKER_VALUE, 0x75, 0x05, 0xb0, 0x31, 0xe6, 0xe9, 0xf4, 0xb0, 0x46, 0xe6, 0xe9, 0xf4, ];

#[derive(Debug, Clone, PartialEq, Eq)]
pub struct TwoVcpuGuestResult {
    pub first_io_exits: Vec<PortIoExit>,
    pub second_io_exits: Vec<PortIoExit>,
    pub first_proof: Vec<u8>,
    pub second_proof: Vec<u8>,
    pub shared_marker: u8,
    pub first_report: VmExitReport,
    pub second_report: VmExitReport,
}

impl TwoVcpuGuestResult {
    pub fn first_io_exits(&self) -> (r: &[PortIoExit])
        ensures r@ == self.first_io_exits@,
    {
        self.first_io_exits.as_slice()
    }

    pub fn second_io_exits(&self) -> (r: &[PortIoExit])
        ensures r@ == self.second_io_exits@,
    {
        self.second_io_exits.as_slice()
    }

    pub fn first_proof(&self) -> (r: &[u8])
        ensures r@ == self.first_proof@,
    {
        self.first_proof.as_slice()
    }

    pub fn second_proof(&self) -> (r: &[u8])
        ensures r@ == self.second_proof@,
    {
        self.second_proof.as_slice()
    }

    pub fn shared_marker(&self) -> (r: u8)
        ensures r == self.shared_marker,
    {
        self.shared_marker
    }

    pub fn first_report(&self) -> (r: VmExitReport)
        ensures r == self.first_report,
    {
        self.first_report
    }

    pub fn second_report(&self) -> (r: VmExitReport)
        ensures r == self.second_report,
    {
        self.second_report
    }
}


} // verus!
