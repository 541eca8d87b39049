//! A single-queue virtio-blk device over a four-sector in-memory disk.
//!
//! The driver publishes one request per notification: a header descriptor, a data descriptor and
//! a one-byte status descriptor, either directly in the queue's descriptor table or through one
//! indirect table. Processing a notification is all-or-nothing: every check and every guest range
//! that will be written is validated before anything changes, so a refused request leaves the
//! device and guest RAM exactly as they were.
use crate::codec::{le_u16_at, le_u32_at, le_u64_at, read_u16_le, read_u32_le, read_u64_le, slice_range};
use crate::error::Error;
use crate::pci::virtio_blk_file_backed::VirtioBlkFileIdentity;
use crate::memory::{spec_read_at, splice, GuestMemory, GuestPhysAddr};
use vstd::bytes::{spec_u16_to_le_bytes, spec_u32_to_le_bytes, u16_to_le_bytes, u32_to_le_bytes};
use vstd::prelude::*;

verus! {

pub const VIRTIO_BLK_SECTOR_SIZE: usize = 512;
pub const VIRTIO_BLK_CAPACITY_SECTORS: u64 = 4;
pub const VIRTIO_BLK_BACKING_SIZE: usize = 2048;
pub const VIRTIO_BLK_BAR_SIZE: u32 = 0x1000;
pub const VIRTIO_BLK_T_IN: u32 = 0;
pub const VIRTIO_BLK_T_OUT: u32 = 1;
pub const VIRTIO_BLK_S_OK: u8 = 0;
pub const VIRTQ_DESC_F_NEXT: u16 = 1;
pub const VIRTQ_DESC_F_WRITE: u16 = 2;
pub const VIRTQ_DESC_F_INDIRECT: u16 = 4;
pub const VIRTIO_F_VERSION_1: u64 = 0x1_0000_0000;
pub const VIRTIO_RING_F_INDIRECT_DESC: u64 = 0x1000_0000;
pub const VIRTIO_BLK_SUPPORTED_FEATURES: u64 = 0x1_1000_0000;
pub const VIRTIO_STATUS_ACKNOWLEDGE: u8 = 1;
pub const VIRTIO_STATUS_DRIVER: u8 = 2;
pub const VIRTIO_STATUS_DRIVER_OK: u8 = 4;
pub const VIRTIO_STATUS_FEATURES_OK: u8 = 8;
pub const VIRTIO_STATUS_KNOWN: u8 = 0x0f;
pub const VIRTIO_QUEUE_MAX_SIZE: u16 = 256;
pub const VIRTIO_ISR_QUEUE_INTERRUPT: u8 = 1;

/// Size in bytes of one split-ring descriptor.
pub const DESCRIPTOR_SIZE: u32 = 16;
/// A request needs a header, a data and a status descriptor.
pub const MIN_REQUEST_DESCRIPTORS: u32 = 3;
/// An indirect table can address at most this many descriptors (`u16` indices).
pub const MAX_INDIRECT_DESCRIPTORS: u32 = 65536;

/// Why the device refused a notified request.
#[derive(Debug, Clone, Copy, PartialEq, Eq)]
pub enum VirtioBlkError {
    QueueNotReady,
    UnexpectedAvailIndex { expected: u16, actual: u16 },
    DescriptorIndexOutOfRange { index: u16, queue_size: u16 },
    DescriptorChainCycle { index: u16 },
    InvalidDescriptorFlags { index: u16, flags: u16, expected: u16 },
    InvalidDescriptorLength { index: u16, length: u32, expected: u32 },
    InvalidRequestType { request_type: u32 },
    InvalidRequestReserved { reserved: u32 },
    SectorOutOfRange { sector: u64, capacity: u64 },
    InvalidDataLength { length: u32, sector_size: u32 },
    RequestRangeOutOfRange { sector: u64, data_length: u32, capacity: u64 },
    UnexpectedUsedIndex { expected: u16, actual: u16 },
    IndirectFeatureNotNegotiated,
    InvalidIndirectTableLength { length: u32, descriptor_size: u32 },
    IndirectTableTooLarge { entries: u32, maximum: u32 },
    IndirectDescriptorIndexOutOfRange { index: u16, entries: u32 },
    NestedIndirectDescriptor { index: u16 },
    AddressOverflow { base: u64, offset: u64 },
}

/// A refused request: either the device's own rules or a guest-RAM access failed.
#[derive(Debug, Clone, PartialEq, Eq)]
pub enum VirtioBlkProcessError {
    Device(VirtioBlkError),
    Memory(Error),
}

/// One split-ring descriptor as the guest wrote it.
#[derive(Debug, Clone, Copy, PartialEq, Eq)]
pub struct Descriptor {
    pub address: u64,
    pub length: u32,
    pub flags: u16,
    pub next: u16,
}

/// The three descriptors of one request, after the chain (direct or indirect) was followed.
#[derive(Debug, Clone, Copy, PartialEq, Eq)]
pub struct ResolvedRequestChain {
    pub header: Descriptor,
    pub data: Descriptor,
    pub data_index: u16,
    pub status: Descriptor,
}

/// What a completed request reported in the used ring.
#[derive(Debug, Clone, Copy, PartialEq, Eq)]
pub struct VirtioBlkQueueCompletion {
    pub descriptor_id: u32,
    pub length: u32,
    pub sector: u64,
}

impl VirtioBlkQueueCompletion {
    pub fn descriptor_id(&self) -> (r: u32)
        ensures r == self.descriptor_id,
    {
        self.descriptor_id
    }

    pub fn length(&self) -> (r: u32)
        ensures r == self.length,
    {
        self.length
    }

    pub fn sector(&self) -> (r: u64)
        ensures r == self.sector,
    {
        self.sector
    }
}

/// Everything a request will do, fixed after every check passed and before anything changes.
#[derive(Debug, Clone, Copy, PartialEq, Eq)]
pub struct RequestPlan {
    pub head: u16,
    pub avail_idx: u16,
    pub request_type: u32,
    pub sector: u64,
    pub backing_start: usize,
    pub backing_end: usize,
    pub data_address: u64,
    pub status_address: u64,
    pub used_element: u64,
    pub used_idx_address: u64,
}

/// The device's registers, queue state and disk contents.
#[derive(Debug, Clone, Copy, PartialEq, Eq)]
pub struct VirtioBlkDevice {
    pub bar0: u64,
    pub device_feature_select: u32,
    pub driver_feature_select: u32,
    pub driver_features: u64,
    pub status: u8,
    pub queue_select: u16,
    pub queue_size: u16,
    pub queue_enabled: bool,
    pub queue_desc: u64,
    pub queue_driver: u64,
    pub queue_device: u64,
    pub notify_pending: bool,
    pub last_avail_idx: u16,
    pub last_used_idx: u16,
    pub isr_status: u8,
    pub backing: [u8; 2048],
    /// The host file the disk is pinned to, when the device is file backed.
    pub file_identity: Option<VirtioBlkFileIdentity>,
}

// ---------------------------------------------------------------------------------------------
// The model of one request.
// ---------------------------------------------------------------------------------------------

/// The byte a fresh device's disk holds at offset `i`: a fixed pattern per sector.
pub open spec fn initial_backing_byte(i: int) -> u8 {
    (((i % 512) * 17 + 3 + (i / 512) * 41) % 256) as u8
}

/// The ring index after `i`, wrapping at 16 bits.
pub open spec fn next_ring_index(i: u16) -> u16 {
    if i == u16::MAX { 0 } else { (i + 1) as u16 }
}

pub open spec fn device_error(e: VirtioBlkError) -> VirtioBlkProcessError {
    VirtioBlkProcessError::Device(e)
}

/// `base + offset`, refused when it leaves the 64-bit address space.
pub open spec fn spec_checked_add(base: u64, offset: u64) -> Result<u64, VirtioBlkProcessError> {
    if base + offset > u64::MAX {
        Err(device_error(VirtioBlkError::AddressOverflow { base, offset }))
    } else {
        Ok((base + offset) as u64)
    }
}

/// The bytes of guest RAM at `[address, address + length)`, or the refusal.
pub open spec fn spec_guest_read(memory: GuestMemory, address: u64, length: int)
    -> Result<Seq<u8>, VirtioBlkProcessError>
{
    match spec_read_at(memory.region, memory.bytes@, address, length) {
        Ok(s) => Ok(s),
        Err(e) => Err(VirtioBlkProcessError::Memory(e)),
    }
}

/// The little-endian `u16` in guest RAM at `address`.
pub open spec fn spec_guest_u16(memory: GuestMemory, address: u64) -> Result<u16, VirtioBlkProcessError> {
    match spec_guest_read(memory, address, 2) {
        Ok(s) => Ok(le_u16_at(s, 0)),
        Err(e) => Err(e),
    }
}

/// Whether a write of `length` bytes at `address` would be accepted.
pub open spec fn spec_preflight(memory: GuestMemory, address: u64, length: int) -> Result<(), VirtioBlkProcessError> {
    match spec_guest_read(memory, address, length) {
        Ok(_) => Ok(()),
        Err(e) => Err(e),
    }
}

pub open spec fn descriptor_from_bytes(s: Seq<u8>) -> Descriptor {
    Descriptor {
        address: le_u64_at(s, 0),
        length: le_u32_at(s, 8),
        flags: le_u16_at(s, 12),
        next: le_u16_at(s, 14),
    }
}

/// Descriptor `index` of the table at `table`.
pub open spec fn spec_descriptor_at(memory: GuestMemory, table: u64, index: u16)
    -> Result<Descriptor, VirtioBlkProcessError>
{
    match spec_checked_add(table, (16 * index) as u64) {
        Err(e) => Err(e),
        Ok(address) => match spec_guest_read(memory, address, 16) {
            Ok(s) => Ok(descriptor_from_bytes(s)),
            Err(e) => Err(e),
        },
    }
}

/// Descriptor `index` of an indirect table of `entries` descriptors at `table`.
pub open spec fn spec_indirect_descriptor_at(memory: GuestMemory, table: u64, entries: u32, index: u16)
    -> Result<Descriptor, VirtioBlkProcessError>
{
    if index >= entries {
        Err(device_error(VirtioBlkError::IndirectDescriptorIndexOutOfRange { index, entries }))
    } else {
        spec_descriptor_at(memory, table, index)
    }
}

pub open spec fn flags_error(index: u16, flags: u16, expected: u16) -> VirtioBlkProcessError {
    device_error(VirtioBlkError::InvalidDescriptorFlags { index, flags, expected })
}

pub open spec fn length_error(index: u16, length: u32, expected: u32) -> VirtioBlkProcessError {
    device_error(VirtioBlkError::InvalidDescriptorLength { index, length, expected })
}

impl VirtioBlkDevice {
    /// The driver finished setup and enabled a non-empty queue.
    pub open spec fn spec_queue_ready(self) -> bool {
        &&& self.status & VIRTIO_STATUS_DRIVER_OK != 0
        &&& self.queue_enabled
        &&& self.queue_size != 0
    }

    pub open spec fn index_error(self, index: u16) -> VirtioBlkProcessError {
        device_error(VirtioBlkError::DescriptorIndexOutOfRange { index, queue_size: self.queue_size })
    }

    /// The next available-ring entry: the new available index and the head descriptor index.
    pub open spec fn spec_queue_head(self, memory: GuestMemory) -> Result<(u16, u16), VirtioBlkProcessError> {
        match spec_checked_add(self.queue_driver, 2) {
            Err(e) => Err(e),
            Ok(idx_address) => match spec_guest_u16(memory, idx_address) {
                Err(e) => Err(e),
                Ok(avail_idx) => {
                    let expected = next_ring_index(self.last_avail_idx);
                    if avail_idx != expected {
                        Err(device_error(VirtioBlkError::UnexpectedAvailIndex { expected, actual: avail_idx }))
                    } else {
                        let slot = self.last_avail_idx % self.queue_size;
                        match spec_checked_add(self.queue_driver, (4 + 2 * slot) as u64) {
                            Err(e) => Err(e),
                            Ok(slot_address) => match spec_guest_u16(memory, slot_address) {
                                Err(e) => Err(e),
                                Ok(head) => if head >= self.queue_size {
                                    Err(self.index_error(head))
                                } else {
                                    Ok((avail_idx, head))
                                },
                            },
                        }
                    }
                },
            },
        }
    }

    /// A chain that lives in the queue's own descriptor table, starting at `head`.
    pub open spec fn spec_resolve_direct(self, memory: GuestMemory, head: u16, header: Descriptor)
        -> Result<ResolvedRequestChain, VirtioBlkProcessError>
    {
        if header.flags != VIRTQ_DESC_F_NEXT {
            Err(flags_error(head, header.flags, VIRTQ_DESC_F_NEXT))
        } else if header.length != 16 {
            Err(length_error(head, header.length, 16))
        } else if header.next >= self.queue_size {
            Err(self.index_error(header.next))
        } else if header.next == head {
            Err(device_error(VirtioBlkError::DescriptorChainCycle { index: header.next }))
        } else {
            match spec_descriptor_at(memory, self.queue_desc, header.next) {
                Err(e) => Err(e),
                Ok(data) => if data.next >= self.queue_size {
                    Err(self.index_error(data.next))
                } else if data.next == head || data.next == header.next {
                    Err(device_error(VirtioBlkError::DescriptorChainCycle { index: data.next }))
                } else {
                    match spec_descriptor_at(memory, self.queue_desc, data.next) {
                        Err(e) => Err(e),
                        Ok(status) => if status.flags != VIRTQ_DESC_F_WRITE {
                            Err(flags_error(data.next, status.flags, VIRTQ_DESC_F_WRITE))
                        } else if status.length != 1 {
                            Err(length_error(data.next, status.length, 1))
                        } else {
                            Ok(ResolvedRequestChain { header, data, data_index: header.next, status })
                        },
                    }
                },
            }
        }
    }

    /// A chain that lives in the indirect table that the head descriptor `outer` points at.
    pub open spec fn spec_resolve_indirect(self, memory: GuestMemory, head: u16, outer: Descriptor)
        -> Result<ResolvedRequestChain, VirtioBlkProcessError>
    {
        if self.driver_features & VIRTIO_RING_F_INDIRECT_DESC == 0 {
            Err(device_error(VirtioBlkError::IndirectFeatureNotNegotiated))
        } else if outer.flags != VIRTQ_DESC_F_INDIRECT {
            Err(flags_error(head, outer.flags, VIRTQ_DESC_F_INDIRECT))
        } else if outer.length < MIN_REQUEST_DESCRIPTORS * DESCRIPTOR_SIZE || outer.length % DESCRIPTOR_SIZE != 0 {
            Err(device_error(VirtioBlkError::InvalidIndirectTableLength {
                length: outer.length,
                descriptor_size: DESCRIPTOR_SIZE,
            }))
        } else if outer.length / DESCRIPTOR_SIZE > MAX_INDIRECT_DESCRIPTORS {
            Err(device_error(VirtioBlkError::IndirectTableTooLarge {
                entries: (outer.length / DESCRIPTOR_SIZE) as u32,
                maximum: MAX_INDIRECT_DESCRIPTORS,
            }))
        } else {
            let entries = (outer.length / DESCRIPTOR_SIZE) as u32;
            match spec_indirect_descriptor_at(memory, outer.address, entries, 0) {
                Err(e) => Err(e),
                Ok(header) => if header.flags & VIRTQ_DESC_F_INDIRECT != 0 {
                    Err(device_error(VirtioBlkError::NestedIndirectDescriptor { index: 0 }))
                } else if header.flags != VIRTQ_DESC_F_NEXT {
                    Err(flags_error(0, header.flags, VIRTQ_DESC_F_NEXT))
                } else if header.length != 16 {
                    Err(length_error(0, header.length, 16))
                } else if header.next == 0 {
                    Err(device_error(VirtioBlkError::DescriptorChainCycle { index: 0 }))
                } else {
                    match spec_indirect_descriptor_at(memory, outer.address, entries, header.next) {
                        Err(e) => Err(e),
                        Ok(data) => if data.flags & VIRTQ_DESC_F_INDIRECT != 0 {
                            Err(device_error(VirtioBlkError::NestedIndirectDescriptor { index: header.next }))
                        } else if data.next == 0 || data.next == header.next {
                            Err(device_error(VirtioBlkError::DescriptorChainCycle { index: data.next }))
                        } else {
                            match spec_indirect_descriptor_at(memory, outer.address, entries, data.next) {
                                Err(e) => Err(e),
                                Ok(status) => if status.flags & VIRTQ_DESC_F_INDIRECT != 0 {
                                    Err(device_error(VirtioBlkError::NestedIndirectDescriptor { index: data.next }))
                                } else if status.flags != VIRTQ_DESC_F_WRITE {
                                    Err(flags_error(data.next, status.flags, VIRTQ_DESC_F_WRITE))
                                } else if status.length != 1 {
                                    Err(length_error(data.next, status.length, 1))
                                } else {
                                    Ok(ResolvedRequestChain { header, data, data_index: header.next, status })
                                },
                            }
                        },
                    }
                },
            }
        }
    }

    /// The request chain whose head descriptor is `head`, direct or indirect.
    pub open spec fn spec_resolve_chain(self, memory: GuestMemory, head: u16)
        -> Result<ResolvedRequestChain, VirtioBlkProcessError>
    {
        match spec_descriptor_at(memory, self.queue_desc, head) {
            Err(e) => Err(e),
            Ok(outer) => if outer.flags & VIRTQ_DESC_F_INDIRECT != 0 {
                self.spec_resolve_indirect(memory, head, outer)
            } else {
                self.spec_resolve_direct(memory, head, outer)
            },
        }
    }

    /// The used-ring index address and the address of the used element to fill.
    pub open spec fn spec_used_ring(self, memory: GuestMemory) -> Result<(u64, u64), VirtioBlkProcessError> {
        match spec_checked_add(self.queue_device, 2) {
            Err(e) => Err(e),
            Ok(used_idx_address) => match spec_guest_u16(memory, used_idx_address) {
                Err(e) => Err(e),
                Ok(used_idx) => if used_idx != self.last_used_idx {
                    Err(device_error(VirtioBlkError::UnexpectedUsedIndex {
                        expected: self.last_used_idx,
                        actual: used_idx,
                    }))
                } else {
                    let used_slot = self.last_used_idx % self.queue_size;
                    match spec_checked_add(self.queue_device, (4 + 8 * used_slot) as u64) {
                        Err(e) => Err(e),
                        Ok(element) => Ok((used_idx_address, element)),
                    }
                },
            },
        }
    }

    /// Every check a notification goes through, in order, and what the request will then do.
    pub open spec fn spec_plan(self, memory: GuestMemory) -> Result<RequestPlan, VirtioBlkProcessError> {
        if !self.spec_queue_ready() || !self.notify_pending {
            Err(device_error(VirtioBlkError::QueueNotReady))
        } else {
            match self.spec_queue_head(memory) {
                Err(e) => Err(e),
                Ok((avail_idx, head)) => match self.spec_resolve_chain(memory, head) {
                    Err(e) => Err(e),
                    Ok(chain) => match spec_request_header(memory, chain) {
                        Err(e) => Err(e),
                        Ok((request_type, sector)) => match spec_data_range(chain, request_type, sector) {
                            Err(e) => Err(e),
                            Ok((start, end)) => match self.spec_used_ring(memory) {
                                Err(e) => Err(e),
                                Ok((used_idx_address, used_element)) => match spec_preflight_outputs(
                                    memory, chain, (end - start) as int, used_element, used_idx_address) {
                                    Err(e) => Err(e),
                                    Ok(()) => Ok(RequestPlan {
                                        head,
                                        avail_idx,
                                        request_type,
                                        sector,
                                        backing_start: start,
                                        backing_end: end,
                                        data_address: chain.data.address,
                                        status_address: chain.status.address,
                                        used_element,
                                        used_idx_address,
                                    }),
                                },
                            },
                        },
                    },
                },
            }
        }
    }

    /// What a planned request reports in the used ring: the head and the bytes written to the
    /// guest (the data of a read, plus the status byte).
    pub open spec fn spec_completion(plan: RequestPlan) -> VirtioBlkQueueCompletion {
        VirtioBlkQueueCompletion {
            descriptor_id: plan.head as u32,
            length: spec_written_length(plan),
            sector: plan.sector,
        }
    }

    /// Guest RAM after a planned request completed: data (for a read), status byte, used element
    /// and used index are written in that order.
    pub open spec fn spec_completed_ram(self, memory: GuestMemory, plan: RequestPlan) -> Seq<u8> {
        let base = memory.region.base.0;
        let with_data = if plan.request_type == VIRTIO_BLK_T_IN {
            splice(memory.bytes@, plan.data_address - base,
                self.backing@.subrange(plan.backing_start as int, plan.backing_end as int))
        } else {
            memory.bytes@
        };
        let with_status = splice(with_data, plan.status_address - base, seq![VIRTIO_BLK_S_OK]);
        let with_element = splice(with_status, plan.used_element - base,
            spec_u32_to_le_bytes(plan.head as u32) + spec_u32_to_le_bytes(spec_written_length(plan)));
        splice(with_element, plan.used_idx_address - base, spec_u16_to_le_bytes(next_ring_index(self.last_used_idx)))
    }

    /// The disk after a planned request: a write stores the guest's data at the requested range.
    pub open spec fn spec_completed_backing(self, memory: GuestMemory, plan: RequestPlan) -> Seq<u8> {
        if plan.request_type == VIRTIO_BLK_T_OUT {
            splice(self.backing@, plan.backing_start as int,
                memory.spec_read(plan.data_address, (plan.backing_end - plan.backing_start) as int))
        } else {
            self.backing@
        }
    }

    /// `after` is this device once a planned request completed: the disk as above, both ring
    /// indices advanced, the notification consumed and the queue interrupt raised.
    pub open spec fn spec_completed_device(self, after: VirtioBlkDevice, memory: GuestMemory, plan: RequestPlan) -> bool {
        &&& after.backing@ == self.spec_completed_backing(memory, plan)
        &&& after.last_avail_idx == plan.avail_idx
        &&& after.last_used_idx == next_ring_index(self.last_used_idx)
        &&& !after.notify_pending
        &&& after.isr_status == self.isr_status | VIRTIO_ISR_QUEUE_INTERRUPT
        &&& after.bar0 == self.bar0
        &&& after.device_feature_select == self.device_feature_select
        &&& after.driver_feature_select == self.driver_feature_select
        &&& after.driver_features == self.driver_features
        &&& after.status == self.status
        &&& after.queue_select == self.queue_select
        &&& after.queue_size == self.queue_size
        &&& after.queue_enabled == self.queue_enabled
        &&& after.queue_desc == self.queue_desc
        &&& after.queue_driver == self.queue_driver
        &&& after.queue_device == self.queue_device
        &&& after.file_identity == self.file_identity
    }
}

/// The request header: its type (read or write) and first sector.
pub open spec fn spec_request_header(memory: GuestMemory, chain: ResolvedRequestChain)
    -> Result<(u32, u64), VirtioBlkProcessError>
{
    match spec_guest_read(memory, chain.header.address, 16) {
        Err(e) => Err(e),
        Ok(s) => {
            let request_type = le_u32_at(s, 0);
            let reserved = le_u32_at(s, 4);
            if request_type != VIRTIO_BLK_T_IN && request_type != VIRTIO_BLK_T_OUT {
                Err(device_error(VirtioBlkError::InvalidRequestType { request_type }))
            } else if reserved != 0 {
                Err(device_error(VirtioBlkError::InvalidRequestReserved { reserved }))
            } else {
                Ok((request_type, le_u64_at(s, 8)))
            }
        },
    }
}

/// The range of the disk `[start, end)` that `data_length` bytes from `sector` cover, or why it
/// is refused: the length must be a non-zero multiple of the sector size, the sector must exist,
/// and the range must end inside the disk.
pub open spec fn spec_backing_range(sector: u64, data_length: u32) -> Result<(usize, usize), VirtioBlkError> {
    if data_length == 0 || data_length % (VIRTIO_BLK_SECTOR_SIZE as u32) != 0 {
        Err(VirtioBlkError::InvalidDataLength { length: data_length, sector_size: VIRTIO_BLK_SECTOR_SIZE as u32 })
    } else if sector >= VIRTIO_BLK_CAPACITY_SECTORS {
        Err(VirtioBlkError::SectorOutOfRange { sector, capacity: VIRTIO_BLK_CAPACITY_SECTORS })
    } else if sector * 512 + data_length > VIRTIO_BLK_BACKING_SIZE {
        Err(VirtioBlkError::RequestRangeOutOfRange { sector, data_length, capacity: VIRTIO_BLK_CAPACITY_SECTORS })
    } else {
        Ok(((sector * 512) as usize, (sector * 512 + data_length) as usize))
    }
}

/// The data descriptor must be device-writable exactly for a read, and cover a valid disk range.
pub open spec fn spec_data_range(chain: ResolvedRequestChain, request_type: u32, sector: u64)
    -> Result<(usize, usize), VirtioBlkProcessError>
{
    let expected = if request_type == VIRTIO_BLK_T_IN { 3u16 } else { 1u16 };
    if chain.data.flags != expected {
        Err(flags_error(chain.data_index, chain.data.flags, expected))
    } else {
        match spec_backing_range(sector, chain.data.length) {
            Err(e) => Err(device_error(e)),
            Ok(range) => Ok(range),
        }
    }
}

/// Every guest range the request touches: the data (read for a write, to be written for a read),
/// the status byte, the used element and the used index.
pub open spec fn spec_preflight_outputs(memory: GuestMemory, chain: ResolvedRequestChain, length: int,
    used_element: u64, used_idx_address: u64) -> Result<(), VirtioBlkProcessError>
{
    match spec_preflight(memory, chain.data.address, length) {
        Err(e) => Err(e),
        Ok(()) => match spec_preflight(memory, chain.status.address, 1) {
            Err(e) => Err(e),
            Ok(()) => match spec_preflight(memory, used_element, 8) {
                Err(e) => Err(e),
                Ok(()) => spec_preflight(memory, used_idx_address, 2),
            },
        },
    }
}

/// Bytes written to the guest: a read returns the data plus the status byte.
pub open spec fn spec_written_length(plan: RequestPlan) -> u32 {
    if plan.request_type == VIRTIO_BLK_T_IN {
        (plan.backing_end - plan.backing_start + 1) as u32
    } else {
        1
    }
}

// ---------------------------------------------------------------------------------------------
// Executable steps, each equal to its model.
// ---------------------------------------------------------------------------------------------

fn checked_add(base: u64, offset: u64) -> (r: Result<u64, VirtioBlkProcessError>)
    ensures r == spec_checked_add(base, offset),
{
    match base.checked_add(offset) {
        Some(sum) => Ok(sum),
        None => Err(VirtioBlkProcessError::Device(VirtioBlkError::AddressOverflow { base, offset })),
    }
}

fn guest_read(memory: &GuestMemory, address: u64, length: usize) -> (r: Result<Vec<u8>, VirtioBlkProcessError>)
    requires memory.wf(),
    ensures
        match spec_guest_read(*memory, address, length as int) {
            Ok(s) => r is Ok && r->Ok_0@ == s,
            Err(e) => r == Err::<Vec<u8>, VirtioBlkProcessError>(e),
        },
{
    match memory.read_vec(GuestPhysAddr(address), length) {
        Ok(bytes) => Ok(bytes),
        Err(e) => Err(VirtioBlkProcessError::Memory(e)),
    }
}

fn guest_u16(memory: &GuestMemory, address: u64) -> (r: Result<u16, VirtioBlkProcessError>)
    requires memory.wf(),
    ensures r == spec_guest_u16(*memory, address),
{
    let bytes = guest_read(memory, address, 2)?;
    Ok(read_u16_le(bytes.as_slice(), 0))
}

fn preflight(memory: &GuestMemory, address: u64, length: usize) -> (r: Result<(), VirtioBlkProcessError>)
    requires memory.wf(),
    ensures r == spec_preflight(*memory, address, length as int),
{
    let _scratch = guest_read(memory, address, length)?;
    Ok(())
}

/// Reads the little-endian `u16` at `address` of guest RAM.
pub fn read_guest_u16(memory: &GuestMemory, address: u64) -> (r: Result<u16, Error>)
    requires memory.wf(),
    ensures
        match spec_read_at(memory.region, memory.bytes@, address, 2) {
            Ok(s) => r == Ok::<u16, Error>(vstd::bytes::spec_u16_from_le_bytes(s)),
            Err(e) => r == Err::<u16, Error>(e),
        },
{
    memory.read_u16(GuestPhysAddr(address))
}

fn descriptor_at(memory: &GuestMemory, table: u64, index: u16) -> (r: Result<Descriptor, VirtioBlkProcessError>)
    requires memory.wf(),
    ensures r == spec_descriptor_at(*memory, table, index),
{
    let address = checked_add(table, 16 * (index as u64))?;
    let bytes = guest_read(memory, address, 16)?;
    let s = bytes.as_slice();
    Ok(Descriptor {
        address: read_u64_le(s, 0),
        length: read_u32_le(s, 8),
        flags: read_u16_le(s, 12),
        next: read_u16_le(s, 14),
    })
}

fn indirect_descriptor_at(memory: &GuestMemory, table: u64, entries: u32, index: u16)
    -> (r: Result<Descriptor, VirtioBlkProcessError>)
    requires memory.wf(),
    ensures r == spec_indirect_descriptor_at(*memory, table, entries, index),
{
    if index as u32 >= entries {
        return Err(VirtioBlkProcessError::Device(VirtioBlkError::IndirectDescriptorIndexOutOfRange {
            index,
            entries,
        }));
    }
    descriptor_at(memory, table, index)
}

fn request_header(memory: &GuestMemory, chain: &ResolvedRequestChain) -> (r: Result<(u32, u64), VirtioBlkProcessError>)
    requires memory.wf(),
    ensures r == spec_request_header(*memory, *chain),
{
    let bytes = guest_read(memory, chain.header.address, 16)?;
    let s = bytes.as_slice();
    let request_type = read_u32_le(s, 0);
    let reserved = read_u32_le(s, 4);
    if request_type != VIRTIO_BLK_T_IN && request_type != VIRTIO_BLK_T_OUT {
        return Err(VirtioBlkProcessError::Device(VirtioBlkError::InvalidRequestType { request_type }));
    }
    if reserved != 0 {
        return Err(VirtioBlkProcessError::Device(VirtioBlkError::InvalidRequestReserved { reserved }));
    }
    Ok((request_type, read_u64_le(s, 8)))
}

/// The disk range a request of `data_length` bytes from `sector` covers (see `spec_backing_range`).
pub fn request_backing_range(sector: u64, data_length: u32) -> (r: Result<(usize, usize), VirtioBlkError>)
    ensures
        r == spec_backing_range(sector, data_length),
        r matches Ok((start, end)) ==> start < end <= VIRTIO_BLK_BACKING_SIZE,
{
    if data_length == 0 || data_length % (VIRTIO_BLK_SECTOR_SIZE as u32) != 0 {
        return Err(VirtioBlkError::InvalidDataLength {
            length: data_length,
            sector_size: VIRTIO_BLK_SECTOR_SIZE as u32,
        });
    }
    if sector >= VIRTIO_BLK_CAPACITY_SECTORS {
        return Err(VirtioBlkError::SectorOutOfRange { sector, capacity: VIRTIO_BLK_CAPACITY_SECTORS });
    }
    let start = sector * 512;
    let end = start + data_length as u64;
    if end > VIRTIO_BLK_BACKING_SIZE as u64 {
        return Err(VirtioBlkError::RequestRangeOutOfRange {
            sector,
            data_length,
            capacity: VIRTIO_BLK_CAPACITY_SECTORS,
        });
    }
    Ok((start as usize, end as usize))
}

fn data_range(chain: &ResolvedRequestChain, request_type: u32, sector: u64)
    -> (r: Result<(usize, usize), VirtioBlkProcessError>)
    ensures
        r == spec_data_range(*chain, request_type, sector),
        r matches Ok((start, end)) ==> start < end <= VIRTIO_BLK_BACKING_SIZE,
{
    let expected: u16 = if request_type == VIRTIO_BLK_T_IN {
        VIRTQ_DESC_F_NEXT | VIRTQ_DESC_F_WRITE
    } else {
        VIRTQ_DESC_F_NEXT
    };
    assert(VIRTQ_DESC_F_NEXT | VIRTQ_DESC_F_WRITE == 3u16) by (bit_vector);
    if chain.data.flags != expected {
        return Err(VirtioBlkProcessError::Device(VirtioBlkError::InvalidDescriptorFlags {
            index: chain.data_index,
            flags: chain.data.flags,
            expected,
        }));
    }
    match request_backing_range(sector, chain.data.length) {
        Ok(range) => Ok(range),
        Err(e) => Err(VirtioBlkProcessError::Device(e)),
    }
}

fn preflight_outputs(memory: &GuestMemory, chain: &ResolvedRequestChain, length: usize, used_element: u64,
    used_idx_address: u64) -> (r: Result<(), VirtioBlkProcessError>)
    requires memory.wf(),
    ensures r == spec_preflight_outputs(*memory, *chain, length as int, used_element, used_idx_address),
{
    preflight(memory, chain.data.address, length)?;
    preflight(memory, chain.status.address, 1)?;
    preflight(memory, used_element, 8)?;
    preflight(memory, used_idx_address, 2)
}

impl VirtioBlkDevice {
    /// A fresh device at `bar0`: no features, no status, no queue, the initial disk pattern.
    pub fn new(bar0: u64) -> (r: Self)
        ensures
            r.bar0 == bar0,
            r.device_feature_select == 0,
            r.driver_feature_select == 0,
            r.driver_features == 0,
            r.status == 0,
            r.queue_select == 0,
            r.queue_size == 0,
            !r.queue_enabled,
            r.queue_desc == 0,
            r.queue_driver == 0,
            r.queue_device == 0,
            !r.notify_pending,
            r.last_avail_idx == 0,
            r.last_used_idx == 0,
            r.isr_status == 0,
            r.backing@.len() == VIRTIO_BLK_BACKING_SIZE,
            forall|i: int| 0 <= i < VIRTIO_BLK_BACKING_SIZE ==> r.backing@[i] == initial_backing_byte(i),
            r.file_identity is None,
    {
        let mut backing = [0u8; 2048];
        let mut i: usize = 0;
        while i < VIRTIO_BLK_BACKING_SIZE
            invariant
                0 <= i <= VIRTIO_BLK_BACKING_SIZE,
                backing@.len() == VIRTIO_BLK_BACKING_SIZE,
                forall|j: int| 0 <= j < i ==> backing@[j] == initial_backing_byte(j),
            decreases VIRTIO_BLK_BACKING_SIZE - i,
        {
            backing[i] = (((i % 512) * 17 + 3 + (i / 512) * 41) % 256) as u8;
            i = i + 1;
        }
        VirtioBlkDevice {
            bar0,
            device_feature_select: 0,
            driver_feature_select: 0,
            driver_features: 0,
            status: 0,
            queue_select: 0,
            queue_size: 0,
            queue_enabled: false,
            queue_desc: 0,
            queue_driver: 0,
            queue_device: 0,
            notify_pending: false,
            last_avail_idx: 0,
            last_used_idx: 0,
            isr_status: 0,
            backing,
            file_identity: None,
        }
    }

    pub fn bar0(&self) -> (r: u64)
        ensures r == self.bar0,
    {
        self.bar0
    }

    /// The whole disk.
    pub fn backing_bytes(&self) -> (r: &[u8])
        ensures r@ == self.backing@,
    {
        self.backing.as_slice()
    }

    /// The first sector of the disk.
    pub fn sector0(&self) -> (r: &[u8])
        ensures r@ == self.backing@.subrange(0, VIRTIO_BLK_SECTOR_SIZE as int),
    {
        slice_range(self.backing.as_slice(), 0, VIRTIO_BLK_SECTOR_SIZE)
    }

    /// The disk bytes a request of `data_length` bytes from `sector` would cover, if it is valid.
    pub fn backing_range(&self, sector: u64, data_length: u32) -> (r: Option<&[u8]>)
        ensures
            match spec_backing_range(sector, data_length) {
                Ok((start, end)) => r is Some && r->Some_0@ == self.backing@.subrange(start as int, end as int),
                Err(_) => r is None,
            },
    {
        match request_backing_range(sector, data_length) {
            Ok((start, end)) => Some(slice_range(self.backing.as_slice(), start, end)),
            Err(_) => None,
        }
    }

    /// No notification is waiting to be processed.
    pub fn checkpoint_quiescent(&self) -> (r: bool)
        ensures r == !self.notify_pending,
    {
        !self.notify_pending
    }

    pub fn checkpoint_last_avail_idx(&self) -> (r: u16)
        ensures r == self.last_avail_idx,
    {
        self.last_avail_idx
    }

    pub fn checkpoint_last_used_idx(&self) -> (r: u16)
        ensures r == self.last_used_idx,
    {
        self.last_used_idx
    }

    fn queue_head(&self, memory: &GuestMemory) -> (r: Result<(u16, u16), VirtioBlkProcessError>)
        requires memory.wf(), self.queue_size != 0,
        ensures r == self.spec_queue_head(*memory),
    {
        let idx_address = checked_add(self.queue_driver, 2)?;
        let avail_idx = guest_u16(memory, idx_address)?;
        let expected = if self.last_avail_idx == u16::MAX { 0 } else { self.last_avail_idx + 1 };
        if avail_idx != expected {
            return Err(VirtioBlkProcessError::Device(VirtioBlkError::UnexpectedAvailIndex {
                expected,
                actual: avail_idx,
            }));
        }
        let slot = self.last_avail_idx % self.queue_size;
        let slot_address = checked_add(self.queue_driver, 4 + 2 * (slot as u64))?;
        let head = guest_u16(memory, slot_address)?;
        if head >= self.queue_size {
            return Err(VirtioBlkProcessError::Device(VirtioBlkError::DescriptorIndexOutOfRange {
                index: head,
                queue_size: self.queue_size,
            }));
        }
        Ok((avail_idx, head))
    }

    fn resolve_direct_request_chain(&self, memory: &GuestMemory, head: u16, header: Descriptor)
        -> (r: Result<ResolvedRequestChain, VirtioBlkProcessError>)
        requires memory.wf(),
        ensures r == self.spec_resolve_direct(*memory, head, header),
    {
        if header.flags != VIRTQ_DESC_F_NEXT {
            return Err(VirtioBlkProcessError::Device(VirtioBlkError::InvalidDescriptorFlags {
                index: head,
                flags: header.flags,
                expected: VIRTQ_DESC_F_NEXT,
            }));
        }
        if header.length != 16 {
            return Err(VirtioBlkProcessError::Device(VirtioBlkError::InvalidDescriptorLength {
                index: head,
                length: header.length,
                expected: 16,
            }));
        }
        let data_index = header.next;
        if data_index >= self.queue_size {
            return Err(VirtioBlkProcessError::Device(VirtioBlkError::DescriptorIndexOutOfRange {
                index: data_index,
                queue_size: self.queue_size,
            }));
        }
        if data_index == head {
            return Err(VirtioBlkProcessError::Device(VirtioBlkError::DescriptorChainCycle { index: data_index }));
        }
        let data = descriptor_at(memory, self.queue_desc, data_index)?;
        let status_index = data.next;
        if status_index >= self.queue_size {
            return Err(VirtioBlkProcessError::Device(VirtioBlkError::DescriptorIndexOutOfRange {
                index: status_index,
                queue_size: self.queue_size,
            }));
        }
        if status_index == head || status_index == data_index {
            return Err(VirtioBlkProcessError::Device(VirtioBlkError::DescriptorChainCycle { index: status_index }));
        }
        let status = descriptor_at(memory, self.queue_desc, status_index)?;
        if status.flags != VIRTQ_DESC_F_WRITE {
            return Err(VirtioBlkProcessError::Device(VirtioBlkError::InvalidDescriptorFlags {
                index: status_index,
                flags: status.flags,
                expected: VIRTQ_DESC_F_WRITE,
            }));
        }
        if status.length != 1 {
            return Err(VirtioBlkProcessError::Device(VirtioBlkError::InvalidDescriptorLength {
                index: status_index,
                length: status.length,
                expected: 1,
            }));
        }
        Ok(ResolvedRequestChain { header, data, data_index, status })
    }

    fn resolve_indirect_request_chain(&self, memory: &GuestMemory, head: u16, outer: Descriptor)
        -> (r: Result<ResolvedRequestChain, VirtioBlkProcessError>)
        requires memory.wf(),
        ensures r == self.spec_resolve_indirect(*memory, head, outer),
    {
        if self.driver_features & VIRTIO_RING_F_INDIRECT_DESC == 0 {
            return Err(VirtioBlkProcessError::Device(VirtioBlkError::IndirectFeatureNotNegotiated));
        }
        if outer.flags != VIRTQ_DESC_F_INDIRECT {
            return Err(VirtioBlkProcessError::Device(VirtioBlkError::InvalidDescriptorFlags {
                index: head,
                flags: outer.flags,
                expected: VIRTQ_DESC_F_INDIRECT,
            }));
        }
        if outer.length < MIN_REQUEST_DESCRIPTORS * DESCRIPTOR_SIZE || outer.length % DESCRIPTOR_SIZE != 0 {
            return Err(VirtioBlkProcessError::Device(VirtioBlkError::InvalidIndirectTableLength {
                length: outer.length,
                descriptor_size: DESCRIPTOR_SIZE,
            }));
        }
        let entries = outer.length / DESCRIPTOR_SIZE;
        if entries > MAX_INDIRECT_DESCRIPTORS {
            return Err(VirtioBlkProcessError::Device(VirtioBlkError::IndirectTableTooLarge {
                entries,
                maximum: MAX_INDIRECT_DESCRIPTORS,
            }));
        }
        let header = indirect_descriptor_at(memory, outer.address, entries, 0)?;
        if header.flags & VIRTQ_DESC_F_INDIRECT != 0 {
            return Err(VirtioBlkProcessError::Device(VirtioBlkError::NestedIndirectDescriptor { index: 0 }));
        }
        if header.flags != VIRTQ_DESC_F_NEXT {
            return Err(VirtioBlkProcessError::Device(VirtioBlkError::InvalidDescriptorFlags {
                index: 0,
                flags: header.flags,
                expected: VIRTQ_DESC_F_NEXT,
            }));
        }
        if header.length != 16 {
            return Err(VirtioBlkProcessError::Device(VirtioBlkError::InvalidDescriptorLength {
                index: 0,
                length: header.length,
                expected: 16,
            }));
        }
        let data_index = header.next;
        if data_index == 0 {
            return Err(VirtioBlkProcessError::Device(VirtioBlkError::DescriptorChainCycle { index: 0 }));
        }
        let data = indirect_descriptor_at(memory, outer.address, entries, data_index)?;
        if data.flags & VIRTQ_DESC_F_INDIRECT != 0 {
            return Err(VirtioBlkProcessError::Device(VirtioBlkError::NestedIndirectDescriptor { index: data_index }));
        }
        let status_index = data.next;
        if status_index == 0 || status_index == data_index {
            return Err(VirtioBlkProcessError::Device(VirtioBlkError::DescriptorChainCycle { index: status_index }));
        }
        let status = indirect_descriptor_at(memory, outer.address, entries, status_index)?;
        if status.flags & VIRTQ_DESC_F_INDIRECT != 0 {
            return Err(VirtioBlkProcessError::Device(VirtioBlkError::NestedIndirectDescriptor { index: status_index }));
        }
        if status.flags != VIRTQ_DESC_F_WRITE {
            return Err(VirtioBlkProcessError::Device(VirtioBlkError::InvalidDescriptorFlags {
                index: status_index,
                flags: status.flags,
                expected: VIRTQ_DESC_F_WRITE,
            }));
        }
        if status.length != 1 {
            return Err(VirtioBlkProcessError::Device(VirtioBlkError::InvalidDescriptorLength {
                index: status_index,
                length: status.length,
                expected: 1,
            }));
        }
        Ok(ResolvedRequestChain { header, data, data_index, status })
    }

    /// Follows the request chain that starts at descriptor `head` (see `spec_resolve_chain`).
    pub fn resolve_request_chain(&self, memory: &GuestMemory, head: u16)
        -> (r: Result<ResolvedRequestChain, VirtioBlkProcessError>)
        requires memory.wf(),
        ensures r == self.spec_resolve_chain(*memory, head),
    {
        let outer = descriptor_at(memory, self.queue_desc, head)?;
        if outer.flags & VIRTQ_DESC_F_INDIRECT != 0 {
            self.resolve_indirect_request_chain(memory, head, outer)
        } else {
            self.resolve_direct_request_chain(memory, head, outer)
        }
    }

    fn used_ring(&self, memory: &GuestMemory) -> (r: Result<(u64, u64), VirtioBlkProcessError>)
        requires memory.wf(), self.queue_size != 0,
        ensures r == self.spec_used_ring(*memory),
    {
        let used_idx_address = checked_add(self.queue_device, 2)?;
        let used_idx = guest_u16(memory, used_idx_address)?;
        if used_idx != self.last_used_idx {
            return Err(VirtioBlkProcessError::Device(VirtioBlkError::UnexpectedUsedIndex {
                expected: self.last_used_idx,
                actual: used_idx,
            }));
        }
        let used_slot = self.last_used_idx % self.queue_size;
        let element = checked_add(self.queue_device, 4 + 8 * (used_slot as u64))?;
        Ok((used_idx_address, element))
    }

    /// Runs every check of a notified request, touching nothing (see `spec_plan`).
    pub fn plan_request(&self, memory: &GuestMemory) -> (r: Result<RequestPlan, VirtioBlkProcessError>)
        requires memory.wf(),
        ensures
            r == self.spec_plan(*memory),
            r matches Ok(plan) ==> {
                &&& plan.backing_start < plan.backing_end <= VIRTIO_BLK_BACKING_SIZE
                &&& plan.request_type == VIRTIO_BLK_T_IN || plan.request_type == VIRTIO_BLK_T_OUT
                &&& memory.access_ok(plan.data_address, (plan.backing_end - plan.backing_start) as int)
                &&& memory.access_ok(plan.status_address, 1)
                &&& memory.access_ok(plan.used_element, 8)
                &&& memory.access_ok(plan.used_idx_address, 2)
            },
    {
        if !(self.status & VIRTIO_STATUS_DRIVER_OK != 0 && self.queue_enabled && self.queue_size != 0)
            || !self.notify_pending {
            return Err(VirtioBlkProcessError::Device(VirtioBlkError::QueueNotReady));
        }
        let (avail_idx, head) = self.queue_head(memory)?;
        let chain = self.resolve_request_chain(memory, head)?;
        let (request_type, sector) = request_header(memory, &chain)?;
        let (start, end) = data_range(&chain, request_type, sector)?;
        let (used_idx_address, used_element) = self.used_ring(memory)?;
        preflight_outputs(memory, &chain, end - start, used_element, used_idx_address)?;
        Ok(RequestPlan {
            head,
            avail_idx,
            request_type,
            sector,
            backing_start: start,
            backing_end: end,
            data_address: chain.data.address,
            status_address: chain.status.address,
            used_element,
            used_idx_address,
        })
    }

    /// Processes the one request announced by a pending notification. Either every check of
    /// `spec_plan` passes and the request completes in full (disk, guest data, status byte, used
    /// ring, indices, interrupt status), or the error of the first failing check is returned and
    /// neither the device nor guest RAM changes.
    pub fn process_notified_queue_atomic(&mut self, memory: &mut GuestMemory)
        -> (r: Result<VirtioBlkQueueCompletion, VirtioBlkProcessError>)
        requires old(memory).wf(),
        ensures
            final(memory).wf(),
            final(memory).region == old(memory).region,
            match old(self).spec_plan(*old(memory)) {
                Err(e) => {
                    &&& r == Err::<VirtioBlkQueueCompletion, VirtioBlkProcessError>(e)
                    &&& *final(self) == *old(self)
                    &&& final(memory).bytes@ == old(memory).bytes@
                },
                Ok(plan) => {
                    &&& r == Ok::<VirtioBlkQueueCompletion, VirtioBlkProcessError>(Self::spec_completion(plan))
                    &&& final(memory).bytes@ == old(self).spec_completed_ram(*old(memory), plan)
                    &&& old(self).spec_completed_device(*final(self), *old(memory), plan)
                },
            },
    {
        let plan = match self.plan_request(memory) {
            Ok(plan) => plan,
            Err(e) => return Err(e),
        };
        Ok(self.complete_request(memory, plan))
    }

    /// Carries out a request whose every check passed: the data of a write is read before any
    /// guest byte changes; then the data of a read, the status byte, the used element and the
    /// used index are written, and the device state advances.
    fn complete_request(&mut self, memory: &mut GuestMemory, plan: RequestPlan) -> (c: VirtioBlkQueueCompletion)
        requires
            old(memory).wf(),
            plan.backing_start < plan.backing_end <= VIRTIO_BLK_BACKING_SIZE,
            plan.request_type == VIRTIO_BLK_T_IN || plan.request_type == VIRTIO_BLK_T_OUT,
            old(memory).access_ok(plan.data_address, (plan.backing_end - plan.backing_start) as int),
            old(memory).access_ok(plan.status_address, 1),
            old(memory).access_ok(plan.used_element, 8),
            old(memory).access_ok(plan.used_idx_address, 2),
        ensures
            final(memory).wf(),
            final(memory).region == old(memory).region,
            c == Self::spec_completion(plan),
            final(memory).bytes@ == old(self).spec_completed_ram(*old(memory), plan),
            old(self).spec_completed_device(*final(self), *old(memory), plan),
    {
        proof {
            vstd::bytes::lemma_auto_spec_u32_to_from_le_bytes();
            vstd::bytes::lemma_auto_spec_u16_to_from_le_bytes();
        }
        let length = plan.backing_end - plan.backing_start;
        let outgoing: Vec<u8> = if plan.request_type == VIRTIO_BLK_T_OUT {
            match memory.read_vec(GuestPhysAddr(plan.data_address), length) {
                Ok(bytes) => bytes,
                Err(_) => Vec::new(),
            }
        } else {
            Vec::new()
        };
        if plan.request_type == VIRTIO_BLK_T_IN {
            let data = slice_range(self.backing.as_slice(), plan.backing_start, plan.backing_end);
            let _stored = memory.write(GuestPhysAddr(plan.data_address), data);
        }
        let status = vec![VIRTIO_BLK_S_OK];
        let _stored = memory.write(GuestPhysAddr(plan.status_address), status.as_slice());
        let written: u32 = if plan.request_type == VIRTIO_BLK_T_IN { (length + 1) as u32 } else { 1 };
        let mut element = u32_to_le_bytes(plan.head as u32);
        let mut tail = u32_to_le_bytes(written);
        element.append(&mut tail);
        let _stored = memory.write(GuestPhysAddr(plan.used_element), element.as_slice());
        let next_used: u16 = if self.last_used_idx == u16::MAX { 0 } else { self.last_used_idx + 1 };
        let index_bytes = u16_to_le_bytes(next_used);
        let _stored = memory.write(GuestPhysAddr(plan.used_idx_address), index_bytes.as_slice());

        if plan.request_type == VIRTIO_BLK_T_OUT {
            let mut backing = self.backing;
            let ghost before = backing@;
            let start = plan.backing_start;
            let mut i: usize = 0;
            while i < length
                invariant
                    start + length <= VIRTIO_BLK_BACKING_SIZE,
                    outgoing@.len() == length,
                    backing@.len() == before.len(),
                    before.len() == VIRTIO_BLK_BACKING_SIZE,
                    0 <= i <= length,
                    forall|j: int| 0 <= j < i ==> backing@[start + j] == outgoing@[j],
                    forall|j: int| 0 <= j < before.len() && !(start <= j < start + i) ==> backing@[j] == before[j],
                decreases length - i,
            {
                backing[start + i] = outgoing[i];
                i = i + 1;
            }
            assert(backing@ =~= splice(before, start as int, outgoing@));
            self.backing = backing;
        }
        self.last_avail_idx = plan.avail_idx;
        self.last_used_idx = next_used;
        self.notify_pending = false;
        self.isr_status = self.isr_status | VIRTIO_ISR_QUEUE_INTERRUPT;
        VirtioBlkQueueCompletion { descriptor_id: plan.head as u32, length: written, sector: plan.sector }
    }
}

/// Whether `[a, a + la)` and `[b, b + lb)` are disjoint.
pub open spec fn ranges_disjoint(a: int, la: int, b: int, lb: int) -> bool {
    a + la <= b || b + lb <= a
}

/// A completed write request stores exactly the guest's data in its disk range and leaves the
/// rest of the disk as it was.
pub proof fn lemma_write_request_stores_guest_data(device: VirtioBlkDevice, after: VirtioBlkDevice,
    memory: GuestMemory, plan: RequestPlan)
    requires
        memory.wf(),
        plan.request_type == VIRTIO_BLK_T_OUT,
        plan.backing_start < plan.backing_end <= VIRTIO_BLK_BACKING_SIZE,
        memory.access_ok(plan.data_address, (plan.backing_end - plan.backing_start) as int),
        device.spec_completed_device(after, memory, plan),
    ensures
        after.backing@.subrange(plan.backing_start as int, plan.backing_end as int)
            == memory.spec_read(plan.data_address, (plan.backing_end - plan.backing_start) as int),
        forall|i: int| 0 <= i < VIRTIO_BLK_BACKING_SIZE && !(plan.backing_start <= i < plan.backing_end)
            ==> after.backing@[i] == device.backing@[i],
{
    let data = memory.spec_read(plan.data_address, (plan.backing_end - plan.backing_start) as int);
    crate::memory::lemma_read_after_write(device.backing@, plan.backing_start as int, data);
    assert forall|i: int| 0 <= i < VIRTIO_BLK_BACKING_SIZE && !(plan.backing_start <= i < plan.backing_end)
        implies after.backing@[i] == device.backing@[i] by {
        crate::memory::lemma_write_preserves_other_bytes(device.backing@, plan.backing_start as int, data, i);
    }
}

/// A completed read request leaves the requested disk range in the guest's data buffer, as long
/// as the status byte and the used-ring entries the device writes afterwards lie elsewhere.
pub proof fn lemma_read_request_returns_disk_data(device: VirtioBlkDevice, memory: GuestMemory, plan: RequestPlan)
    requires
        memory.wf(),
        plan.request_type == VIRTIO_BLK_T_IN,
        plan.backing_start < plan.backing_end <= VIRTIO_BLK_BACKING_SIZE,
        memory.access_ok(plan.data_address, (plan.backing_end - plan.backing_start) as int),
        memory.access_ok(plan.status_address, 1),
        memory.access_ok(plan.used_element, 8),
        memory.access_ok(plan.used_idx_address, 2),
        ranges_disjoint(plan.data_address as int, (plan.backing_end - plan.backing_start) as int,
            plan.status_address as int, 1),
        ranges_disjoint(plan.data_address as int, (plan.backing_end - plan.backing_start) as int,
            plan.used_element as int, 8),
        ranges_disjoint(plan.data_address as int, (plan.backing_end - plan.backing_start) as int,
            plan.used_idx_address as int, 2),
    ensures
        ({
            let offset = plan.data_address - memory.region.base.0;
            device.spec_completed_ram(memory, plan).subrange(offset, offset + plan.backing_end - plan.backing_start)
                == device.backing@.subrange(plan.backing_start as int, plan.backing_end as int)
        }),
{
    vstd::bytes::lemma_auto_spec_u32_to_from_le_bytes();
    vstd::bytes::lemma_auto_spec_u16_to_from_le_bytes();
    let base = memory.region.base.0;
    let length = (plan.backing_end - plan.backing_start) as int;
    let offset = plan.data_address - base;
    let data = device.backing@.subrange(plan.backing_start as int, plan.backing_end as int);
    let s1 = splice(memory.bytes@, offset, data);
    crate::memory::lemma_read_after_write(memory.bytes@, offset, data);
    let s2 = splice(s1, plan.status_address - base, seq![VIRTIO_BLK_S_OK]);
    let element = spec_u32_to_le_bytes(plan.head as u32) + spec_u32_to_le_bytes(spec_written_length(plan));
    let s3 = splice(s2, plan.used_element - base, element);
    let index = spec_u16_to_le_bytes(next_ring_index(device.last_used_idx));
    let s4 = splice(s3, plan.used_idx_address - base, index);
    assert(s4 == device.spec_completed_ram(memory, plan));
    assert forall|j: int| 0 <= j < length implies #[trigger] s4[offset + j] == data[j] by {
        crate::memory::lemma_write_preserves_other_bytes(s1, plan.status_address - base, seq![VIRTIO_BLK_S_OK], offset + j);
        crate::memory::lemma_write_preserves_other_bytes(s2, plan.used_element - base, element, offset + j);
        crate::memory::lemma_write_preserves_other_bytes(s3, plan.used_idx_address - base, index, offset + j);
    }
    assert(s4.subrange(offset, offset + length) =~= data);
}

/// Writing a range of the disk and then reading the same range back returns the bytes that were
/// written, when the read's status byte and used-ring entries do not overlap its data buffer.
pub proof fn lemma_write_then_read_round_trips(device: VirtioBlkDevice, written: VirtioBlkDevice,
    write_memory: GuestMemory, write: RequestPlan, read_memory: GuestMemory, read: RequestPlan)
    requires
        write_memory.wf(),
        read_memory.wf(),
        write.request_type == VIRTIO_BLK_T_OUT,
        write.backing_start < write.backing_end <= VIRTIO_BLK_BACKING_SIZE,
        write_memory.access_ok(write.data_address, (write.backing_end - write.backing_start) as int),
        device.spec_completed_device(written, write_memory, write),
        read.request_type == VIRTIO_BLK_T_IN,
        read.backing_start == write.backing_start,
        read.backing_end == write.backing_end,
        read_memory.access_ok(read.data_address, (read.backing_end - read.backing_start) as int),
        read_memory.access_ok(read.status_address, 1),
        read_memory.access_ok(read.used_element, 8),
        read_memory.access_ok(read.used_idx_address, 2),
        ranges_disjoint(read.data_address as int, (read.backing_end - read.backing_start) as int,
            read.status_address as int, 1),
        ranges_disjoint(read.data_address as int, (read.backing_end - read.backing_start) as int,
            read.used_element as int, 8),
        ranges_disjoint(read.data_address as int, (read.backing_end - read.backing_start) as int,
            read.used_idx_address as int, 2),
    ensures
        ({
            let offset = read.data_address - read_memory.region.base.0;
            written.spec_completed_ram(read_memory, read).subrange(offset, offset + read.backing_end - read.backing_start)
                == write_memory.spec_read(write.data_address, (write.backing_end - write.backing_start) as int)
        }),
{
    lemma_write_request_stores_guest_data(device, written, write_memory, write);
    lemma_read_request_returns_disk_data(written, read_memory, read);
}


/// A notified request whose head descriptor points at an indirect table that is refused (the
/// indirect feature was not negotiated, the table length is not a whole number of at least three
/// descriptors, or an entry is itself indirect) fails with exactly that refusal; by the contract
/// of `process_notified_queue_atomic` the device and guest RAM then stay as they were.
pub proof fn lemma_refused_indirect_table_fails_the_request(device: VirtioBlkDevice, memory: GuestMemory)
    requires
        device.spec_queue_ready(),
        device.notify_pending,
        device.spec_queue_head(memory) is Ok,
        spec_descriptor_at(memory, device.queue_desc, device.spec_queue_head(memory)->Ok_0.1) is Ok,
        spec_descriptor_at(memory, device.queue_desc, device.spec_queue_head(memory)->Ok_0.1)->Ok_0.flags
            & VIRTQ_DESC_F_INDIRECT != 0,
        device.spec_resolve_indirect(
            memory,
            device.spec_queue_head(memory)->Ok_0.1,
            spec_descriptor_at(memory, device.queue_desc, device.spec_queue_head(memory)->Ok_0.1)->Ok_0,
        ) is Err,
    ensures
        device.spec_plan(memory) == Err::<RequestPlan, VirtioBlkProcessError>(device.spec_resolve_indirect(
            memory,
            device.spec_queue_head(memory)->Ok_0.1,
            spec_descriptor_at(memory, device.queue_desc, device.spec_queue_head(memory)->Ok_0.1)->Ok_0,
        )->Err_0),
        device.driver_features & VIRTIO_RING_F_INDIRECT_DESC == 0 ==> device.spec_plan(memory)
            == Err::<RequestPlan, VirtioBlkProcessError>(device_error(VirtioBlkError::IndirectFeatureNotNegotiated)),
{
}


/// A notified request whose used element the guest RAM cannot hold fails, whatever else the
/// request holds: every read and range check comes before the first write, so by the contract
/// of `process_notified_queue_atomic` the device and guest RAM then stay as they were.
pub proof fn lemma_used_element_outside_ram_fails_the_request(device: VirtioBlkDevice, memory: GuestMemory)
    requires
        device.spec_used_ring(memory) is Ok,
        spec_preflight(memory, device.spec_used_ring(memory)->Ok_0.1, 8) is Err,
    ensures
        device.spec_plan(memory) is Err,
{
}

/// The used element a request completes lies in the used ring's slot for the device's used
/// index, counted modulo the ring size: `queue_device + 4 + 8 * (last_used_idx % queue_size)`,
/// so it is always one of the ring's `queue_size` entries after the flags and index words; the
/// used index itself is the word at `queue_device + 2`.
pub proof fn lemma_used_element_is_the_ring_slot(device: VirtioBlkDevice, memory: GuestMemory)
    requires
        device.spec_plan(memory) is Ok,
    ensures
        ({
            let plan = device.spec_plan(memory)->Ok_0;
            &&& device.queue_size != 0
            &&& plan.used_idx_address == device.queue_device + 2
            &&& plan.used_element == device.queue_device + 4 + 8 * (device.last_used_idx % device.queue_size)
            &&& device.queue_device + 4 <= plan.used_element
            &&& plan.used_element + 8 <= device.queue_device + 4 + 8 * device.queue_size
        }),
{
    let slot = device.last_used_idx % device.queue_size;
    assert(slot < device.queue_size);
}

proof fn lemma_splice_keeps_length(s: Seq<u8>, offset: int, data: Seq<u8>)
    requires
        0 <= offset,
        offset + data.len() <= s.len(),
    ensures
        splice(s, offset, data).len() == s.len(),
        splice(s, offset, data).subrange(offset, offset + data.len()) =~= data,
        forall|x: int| 0 <= x < s.len() && !(offset <= x < offset + data.len())
            ==> #[trigger] splice(s, offset, data)[x] == s[x],
{
}

/// A completed request leaves in guest RAM, at its used element, the head descriptor's index
/// and the number of bytes written to the guest as two little-endian `u32`s, and at the used
/// index word the device's used index plus one (wrapping at 2^16); the RAM keeps its size.
pub proof fn lemma_completion_fills_used_element_and_index(device: VirtioBlkDevice, memory: GuestMemory)
    requires
        memory.wf(),
        device.spec_plan(memory) is Ok,
    ensures
        ({
            let plan = device.spec_plan(memory)->Ok_0;
            let ram = device.spec_completed_ram(memory, plan);
            let element = plan.used_element - memory.region.base.0;
            let index = plan.used_idx_address - memory.region.base.0;
            &&& ram.len() == memory.bytes@.len()
            &&& ram.subrange(element, element + 8)
                == spec_u32_to_le_bytes(plan.head as u32) + spec_u32_to_le_bytes(spec_written_length(plan))
            &&& ram.subrange(index, index + 2)
                == spec_u16_to_le_bytes(((device.last_used_idx as int + 1) % 0x1_0000) as u16)
        }),
{
    let plan = device.spec_plan(memory)->Ok_0;
    let base = memory.region.base.0 as int;
    lemma_used_element_is_the_ring_slot(device, memory);
    vstd::bytes::lemma_auto_spec_u32_to_from_le_bytes();
    vstd::bytes::lemma_auto_spec_u16_to_from_le_bytes();
    let s0 = memory.bytes@;
    let with_data = if plan.request_type == VIRTIO_BLK_T_IN {
        lemma_splice_keeps_length(s0, plan.data_address - base,
            device.backing@.subrange(plan.backing_start as int, plan.backing_end as int));
        splice(s0, plan.data_address - base,
            device.backing@.subrange(plan.backing_start as int, plan.backing_end as int))
    } else {
        s0
    };
    lemma_splice_keeps_length(with_data, plan.status_address - base, seq![VIRTIO_BLK_S_OK]);
    let with_status = splice(with_data, plan.status_address - base, seq![VIRTIO_BLK_S_OK]);
    let element_bytes = spec_u32_to_le_bytes(plan.head as u32) + spec_u32_to_le_bytes(spec_written_length(plan));
    lemma_splice_keeps_length(with_status, plan.used_element - base, element_bytes);
    let with_element = splice(with_status, plan.used_element - base, element_bytes);
    let index_bytes = spec_u16_to_le_bytes(next_ring_index(device.last_used_idx));
    lemma_splice_keeps_length(with_element, plan.used_idx_address - base, index_bytes);
    let ram = splice(with_element, plan.used_idx_address - base, index_bytes);
    assert(ram == device.spec_completed_ram(memory, plan));
    let e = plan.used_element - base;
    assert(ram.subrange(e, e + 8) =~= with_element.subrange(e, e + 8));
    assert(next_ring_index(device.last_used_idx) == ((device.last_used_idx as int + 1) % 0x1_0000) as u16);
}

/// A planned request is the one the driver published next: the avail index word at
/// `queue_driver + 2` is the device's avail index plus one (wrapping at 2^16), the head is the
/// avail-ring entry at `queue_driver + 4 + 2 * (last_avail_idx % queue_size)` and names one of
/// the queue's descriptors, and the used index word at `queue_device + 2` still holds the
/// device's used index.
pub proof fn lemma_request_comes_from_the_avail_slot(device: VirtioBlkDevice, memory: GuestMemory)
    requires
        memory.wf(),
        device.spec_plan(memory) is Ok,
    ensures
        ({
            let plan = device.spec_plan(memory)->Ok_0;
            let base = memory.region.base.0 as int;
            &&& plan.avail_idx == ((device.last_avail_idx as int + 1) % 0x1_0000) as u16
            &&& le_u16_at(memory.bytes@, device.queue_driver + 2 - base) == plan.avail_idx
            &&& le_u16_at(memory.bytes@, device.queue_driver + 4 + 2 * (device.last_avail_idx % device.queue_size) - base)
                == plan.head
            &&& plan.head < device.queue_size
            &&& le_u16_at(memory.bytes@, device.queue_device + 2 - base) == device.last_used_idx
        }),
{
    let plan = device.spec_plan(memory)->Ok_0;
    let base = memory.region.base.0 as int;
    let s = memory.bytes@;
    let a = device.queue_driver + 2 - base;
    let h = device.queue_driver + 4 + 2 * (device.last_avail_idx % device.queue_size) - base;
    let u = device.queue_device + 2 - base;
    assert(memory.access_ok((device.queue_driver + 2) as u64, 2));
    assert(memory.access_ok((device.queue_driver + 4 + 2 * (device.last_avail_idx % device.queue_size)) as u64, 2));
    assert(memory.access_ok((device.queue_device + 2) as u64, 2));
    assert(s.subrange(a, a + 2).subrange(0, 2) =~= s.subrange(a, a + 2));
    assert(s.subrange(h, h + 2).subrange(0, 2) =~= s.subrange(h, h + 2));
    assert(s.subrange(u, u + 2).subrange(0, 2) =~= s.subrange(u, u + 2));
}

} // verus!
