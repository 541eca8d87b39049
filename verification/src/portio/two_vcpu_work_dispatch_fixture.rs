//! Work dispatch between two vCPUs through a mailbox in shared guest memory and a wake-up IPI.
use crate::vcpu::{PortIoExit, VmExitReport};
use vstd::prelude::*;

verus! {

pub const RAM_BASE: u64 = 0;
pub const BSP_ENTRY: u64 = 0x1_0000;
pub const AP_ENTRY: u64 = 0x1_1000;
pub const BSP_STACK: u64 = 0x1f_f000;
pub const AP_STACK: u64 = 0x1e_f000;
pub const BSP_EXIT_BUDGET: u32 = 5;
pub const AP_REMAINING_EXIT_BUDGET: u32 = 3;
pub const MAILBOX_EXTENT: usize = 0x19;
pub const WORK_MAILBOX: u64 = 0x9000;
pub const WORK_COMMAND_OFFSET: usize = 0x08;
pub const WORK_RESULT_OFFSET: usize = 0x10;
pub const WORK_ACK_OFFSET: usize = 0x18;
pub const WORK_PAYLOAD: u8 = 0x21;
pub const WORK_RESULT: u8 = 0x42;
pub const BSP_WORK_PROOF: [u8; 4] = [0x42, 0x43, 0x56, 0x44];
pub const AP_WORK_PROOF: [u8; 3] = [0x52, 0x50, 0x44];
pub const BSP_TERMINAL_RIP: u64 = 0x1_0043;
pub const AP_TERMINAL_RIP: u64 = 0x1_103c;
pub const BSP_GUEST_BYTES: [u8; 72] = [ 0x48, 0xc7, 0xc3, 0x00, 0x90, 0x00, 0x00, 0xb0, 0x42, 0xe6, 0xe9, 0xc6, 0x03, 0x21, 0xb0, 0x01, 0x86, 0x43, 0x08, 0xb0, 0x43, 0xe6, 0xe9, 0xb9, 0x00, 0x00, 0x00, 0x08, 0x80, 0x7b, 0x18, 0x01, 0x74, 0x08, 0xf3, 0x90, 0xff, 0xc9, 0x75, 0xf4, 0xeb, 0x19, 0x31, 0xc0, 0x86, 0x43, 0x18, 0x3c, 0x01, 0x75, 0x10, 0x8a, 0x43, 0x10, 0x3c, 0x42, 0x75, 0x09, 0xb0, 0x56, 0xe6, 0xe9, 0xb0, 0x44, 0xe6, 0xe9, 0xf4, 0xb0, 0x46, 0xe6, 0xe9, 0xf4, ];
pub const AP_GUEST_BYTES: [u8; 65] = [ 0x48, 0xc7, 0xc3, 0x00, 0x90, 0x00, 0x00, 0xb0, 0x52, 0xe6, 0xe9, 0xb9, 0x00, 0x00, 0x00, 0x08, 0x80, 0x7b, 0x08, 0x01, 0x74, 0x08, 0xf3, 0x90, 0xff, 0xc9, 0x75, 0xf4, 0xeb, 0x1e, 0x31, 0xc0, 0x86, 0x43, 0x08, 0x3c, 0x01, 0x75, 0x15, 0x8a, 0x03, 0x00, 0xc0, 0x88, 0x43, 0x10, 0xb0, 0x01, 0x86, 0x43, 0x18, 0xb0, 0x50, 0xe6, 0xe9, 0xb0, 0x44, 0xe6, 0xe9, 0xf4, 0xb0, 0x46, 0xe6, 0xe9, 0xf4, ];

pub const BSP_VCPU_INDEX: u16 = 0;
pub const AP_VCPU_INDEX: u16 = 1;

#[derive(Debug, Clone, Copy, PartialEq, Eq)]
pub struct WorkMailboxSnapshot {
    pub payload: u8,
    pub command: u8,
    pub result: u8,
    pub ack: u8,
}

impl WorkMailboxSnapshot {
    pub fn payload(self) -> (r: u8)
        ensures r == self.payload,
    {
        self.payload
    }

    pub fn command(self) -> (r: u8)
        ensures r == self.command,
    {
        self.command
    }

    pub fn result(self) -> (r: u8)
        ensures r == self.result,
    {
        self.result
    }

    pub fn ack(self) -> (r: u8)
        ensures r == self.ack,
    {
        self.ack
    }
}

#[derive(Debug, Clone, PartialEq, Eq)]
pub struct TwoVcpuWorkDispatchResult {
    pub bsp_io_exits: Vec<PortIoExit>,
    pub ap_io_exits: Vec<PortIoExit>,
    pub bsp_proof: Vec<u8>,
    pub ap_proof: Vec<u8>,
    pub mailbox: WorkMailboxSnapshot,
    pub bsp_report: VmExitReport,
    pub ap_report: VmExitReport,
}

impl TwoVcpuWorkDispatchResult {
    pub fn bsp_io_exits(&self) -> (r: &[PortIoExit])
        ensures r@ == self.bsp_io_exits@,
    {
        self.bsp_io_exits.as_slice()
    }

    pub fn ap_io_exits(&self) -> (r: &[PortIoExit])
        ensures r@ == self.ap_io_exits@,
    {
        self.ap_io_exits.as_slice()
    }

    pub fn bsp_proof(&self) -> (r: &[u8])
        ensures r@ == self.bsp_proof@,
    {
        self.bsp_proof.as_slice()
    }

    pub fn ap_proof(&self) -> (r: &[u8])
        ensures r@ == self.ap_proof@,
    {
        self.ap_proof.as_slice()
    }

    pub fn mailbox(&self) -> (r: WorkMailboxSnapshot)
        ensures r == self.mailbox,
    {
        self.mailbox
    }

    pub fn bsp_report(&self) -> (r: VmExitReport)
        ensures r == self.bsp_report,
    {
        self.bsp_report
    }

    pub fn ap_report(&self) -> (r: VmExitReport)
        ensures r == self.ap_report,
    {
        self.ap_report
    }
}


} // verus!
