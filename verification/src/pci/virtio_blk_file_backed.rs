//! File-backed virtio-blk disks: the identity of the host file a device's disk is pinned to,
//! what a persisted write must satisfy, the fixed request harness of the persistence proofs,
//! and their reports.
//!
//! The host file itself is opened, written and synced by the program around this library; a
//! file-backed device here carries the file's identity, and refuses to be checkpointed.
use crate::error::{Error, HostEnvironmentError, HostIoCause};
use crate::memory::{lemma_read_after_write, lemma_write_preserves_other_bytes, lemma_write_keeps_disjoint_range, spec_read_at, splice, GuestMemory, GuestPhysAddr};
use crate::pci::virtio_blk::{
    descriptor_from_bytes, spec_descriptor_at, Descriptor, VirtioBlkDevice, VirtioBlkQueueCompletion,
    VIRTIO_BLK_BACKING_SIZE, VIRTIO_F_VERSION_1, VIRTIO_STATUS_ACKNOWLEDGE, VIRTIO_STATUS_DRIVER,
    VIRTIO_STATUS_DRIVER_OK, VIRTIO_STATUS_FEATURES_OK, VIRTQ_DESC_F_NEXT, VIRTQ_DESC_F_WRITE,
};
use vstd::bytes::{
    lemma_auto_spec_u16_to_from_le_bytes, lemma_auto_spec_u32_to_from_le_bytes, lemma_auto_spec_u64_to_from_le_bytes,
    spec_u16_to_le_bytes, spec_u32_to_le_bytes, spec_u64_to_le_bytes, u16_to_le_bytes, u32_to_le_bytes,
    u64_to_le_bytes,
};
use vstd::prelude::*;

verus! {

/// "FWSDR": written, synced, device dropped, reopened, read back.
pub const FILE_BACKED_VIRTIO_BLK_PROOF: [u8; 5] = [0x46, 0x57, 0x53, 0x44, 0x52];
/// "FPINW": file created, pinned, path replaced, identity kept, write landed.
pub const FILE_BACKED_IDENTITY_PIN_PROOF: [u8; 5] = [0x46, 0x50, 0x49, 0x4e, 0x57];

pub const PROOF_BAR: u64 = 0x1000_0000;
pub const PROOF_DESC: u64 = 0x18000;
pub const PROOF_AVAIL: u64 = 0x18100;
pub const PROOF_USED: u64 = 0x18200;
pub const PROOF_HEADER: u64 = 0x18300;
pub const PROOF_DATA: u64 = 0x18400;
pub const PROOF_STATUS: u64 = 0x18600;
pub const PROOF_MEMORY_SIZE: u64 = 0x20_000;

/// The host file a disk is pinned to: its device and inode numbers.
#[derive(Debug, Clone, Copy, PartialEq, Eq)]
pub struct VirtioBlkFileIdentity {
    pub device_id: u64,
    pub inode: u64,
}

impl VirtioBlkFileIdentity {
    pub fn new(device_id: u64, inode: u64) -> (r: Self)
        ensures r.device_id == device_id, r.inode == inode,
    {
        VirtioBlkFileIdentity { device_id, inode }
    }

    pub fn device_id(self) -> (r: u64)
        ensures r == self.device_id,
    {
        self.device_id
    }

    pub fn inode(self) -> (r: u64)
        ensures r == self.inode,
    {
        self.inode
    }

    /// Whether two identities name the same host file.
    pub fn same_file(self, other: Self) -> (r: bool)
        ensures r == (self == other),
    {
        self.device_id == other.device_id && self.inode == other.inode
    }
}

/// A host-side failure of the file backing at `operation`.
pub open spec fn backing_error(operation: &'static str, source: HostIoCause) -> Error {
    Error::HostEnvironment(HostEnvironmentError::Io { operation, source })
}

fn make_backing_error(operation: &'static str, source: HostIoCause) -> (r: Error)
    ensures r == backing_error(operation, source),
{
    Error::HostEnvironment(HostEnvironmentError::Io { operation, source })
}

/// A host file can back a disk only when it holds exactly the disk's bytes.
pub fn validate_file_backing_length(length: u64) -> (r: Result<(), Error>)
    ensures
        length == VIRTIO_BLK_BACKING_SIZE ==> r is Ok,
        length != VIRTIO_BLK_BACKING_SIZE ==> r == Err::<(), Error>(
            backing_error("validate virtio-blk file backing length", HostIoCause::InvalidData)),
{
    if length != VIRTIO_BLK_BACKING_SIZE as u64 {
        return Err(make_backing_error("validate virtio-blk file backing length", HostIoCause::InvalidData));
    }
    Ok(())
}

impl VirtioBlkDevice {
    /// A fresh device at `bar0` whose disk holds `backing` and is pinned to the host file
    /// `identity`.
    pub fn with_file_backing(bar0: u64, backing: [u8; 2048], identity: VirtioBlkFileIdentity) -> (r: Self)
        ensures
            r.bar0 == bar0,
            r.device_feature_select == 0,
            r.driver_feature_select == 0,
            r.driver_features == 0,
            r.status == 0,
            r.queue_select == 0,
            r.queue_size == 0,
            !r.queue_enabled,
            r.queue_desc == 0,
            r.queue_driver == 0,
            r.queue_device == 0,
            !r.notify_pending,
            r.last_avail_idx == 0,
            r.last_used_idx == 0,
            r.isr_status == 0,
            r.backing == backing,
            r.file_identity == Some(identity),
    {
        let mut device = VirtioBlkDevice::new(bar0);
        device.backing = backing;
        device.file_identity = Some(identity);
        device
    }

    pub fn file_backed(&self) -> (r: bool)
        ensures r == self.file_identity is Some,
    {
        self.file_identity.is_some()
    }

    pub fn file_backing_identity(&self) -> (r: Option<VirtioBlkFileIdentity>)
        ensures r == self.file_identity,
    {
        self.file_identity
    }

    /// Decides what persisting the disk bytes `[start, end)` (`length` bytes handed over) to the
    /// host file means: nothing for a device that is not file backed (`None`), the file offset
    /// to write at when the range lies inside the disk and matches the bytes, an error
    /// otherwise.
    pub fn persist_backing_range(&self, start: usize, end: usize, length: usize) -> (r: Result<Option<u64>, Error>)
        ensures
            self.file_identity is None ==> r == Ok::<Option<u64>, Error>(None),
            self.file_identity is Some && end <= VIRTIO_BLK_BACKING_SIZE
                && (if end > start { end - start } else { 0 }) == length
                ==> r == Ok::<Option<u64>, Error>(Some(start as u64)),
            self.file_identity is Some && !(end <= VIRTIO_BLK_BACKING_SIZE
                && (if end > start { end - start } else { 0 }) == length)
                ==> r == Err::<Option<u64>, Error>(
                    backing_error("validate virtio-blk file write range", HostIoCause::InvalidInput)),
    {
        if self.file_identity.is_none() {
            return Ok(None);
        }
        let range_length = if end > start { end - start } else { 0 };
        if end > VIRTIO_BLK_BACKING_SIZE || range_length != length {
            return Err(make_backing_error("validate virtio-blk file write range", HostIoCause::InvalidInput));
        }
        Ok(Some(start as u64))
    }
}


/// Puts a device into the state the persistence proofs drive it from: version 1 negotiated,
/// the whole status handshake done, a four-entry queue at the proof's ring addresses, nothing
/// pending and no interrupt raised. The disk and its file pinning stay as they were.
pub fn prepare_ready_device(device: &mut VirtioBlkDevice)
    ensures
        *final(device) == (VirtioBlkDevice {
            driver_features: VIRTIO_F_VERSION_1,
            status: VIRTIO_STATUS_ACKNOWLEDGE | VIRTIO_STATUS_DRIVER | VIRTIO_STATUS_FEATURES_OK
                | VIRTIO_STATUS_DRIVER_OK,
            queue_size: 4,
            queue_enabled: true,
            queue_desc: PROOF_DESC,
            queue_driver: PROOF_AVAIL,
            queue_device: PROOF_USED,
            notify_pending: false,
            last_avail_idx: 0,
            last_used_idx: 0,
            isr_status: 0,
            ..*old(device)
        }),
{
    device.driver_features = VIRTIO_F_VERSION_1;
    device.status = VIRTIO_STATUS_ACKNOWLEDGE | VIRTIO_STATUS_DRIVER | VIRTIO_STATUS_FEATURES_OK
        | VIRTIO_STATUS_DRIVER_OK;
    device.queue_size = 4;
    device.queue_enabled = true;
    device.queue_desc = PROOF_DESC;
    device.queue_driver = PROOF_AVAIL;
    device.queue_device = PROOF_USED;
    device.notify_pending = false;
    device.last_avail_idx = 0;
    device.last_used_idx = 0;
    device.isr_status = 0;
}

/// The sixteen bytes of a split-ring descriptor as the guest lays it out.
pub open spec fn spec_encoded_descriptor(d: Descriptor) -> Seq<u8> {
    spec_u64_to_le_bytes(d.address) + spec_u32_to_le_bytes(d.length) + spec_u16_to_le_bytes(d.flags)
        + spec_u16_to_le_bytes(d.next)
}

/// Decoding an encoded descriptor gives it back.
pub proof fn lemma_descriptor_round_trip(d: Descriptor)
    ensures
        spec_encoded_descriptor(d).len() == 16,
        descriptor_from_bytes(spec_encoded_descriptor(d)) == d,
{
    lemma_auto_spec_u16_to_from_le_bytes();
    lemma_auto_spec_u32_to_from_le_bytes();
    lemma_auto_spec_u64_to_from_le_bytes();
    let s = spec_encoded_descriptor(d);
    assert(s.subrange(0, 8) =~= spec_u64_to_le_bytes(d.address));
    assert(s.subrange(8, 12) =~= spec_u32_to_le_bytes(d.length));
    assert(s.subrange(12, 14) =~= spec_u16_to_le_bytes(d.flags));
    assert(s.subrange(14, 16) =~= spec_u16_to_le_bytes(d.next));
}

fn encode_descriptor(d: Descriptor) -> (r: Vec<u8>)
    ensures r@ == spec_encoded_descriptor(d),
{
    let mut bytes = u64_to_le_bytes(d.address);
    let mut length = u32_to_le_bytes(d.length);
    let mut flags = u16_to_le_bytes(d.flags);
    let mut next = u16_to_le_bytes(d.next);
    bytes.append(&mut length);
    bytes.append(&mut flags);
    bytes.append(&mut next);
    bytes
}

/// Writes descriptor `index` of the proof's descriptor table.
pub fn write_descriptor(memory: &mut GuestMemory, index: u16, address: u64, length: u32, flags: u16, next: u16)
    -> (r: Result<(), Error>)
    requires old(memory).wf(),
    ensures
        final(memory).wf(),
        final(memory).region == old(memory).region,
        r is Ok <==> old(memory).access_ok((PROOF_DESC + 16 * index) as u64, 16),
        r is Ok ==> final(memory).bytes@ == splice(old(memory).bytes@,
            PROOF_DESC + 16 * index - old(memory).region.base.0,
            spec_encoded_descriptor(Descriptor { address, length, flags, next })),
        r is Ok ==> spec_descriptor_at(*final(memory), PROOF_DESC, index)
            == Ok::<Descriptor, crate::pci::virtio_blk::VirtioBlkProcessError>(Descriptor { address, length, flags, next }),
        r is Err ==> final(memory).bytes@ == old(memory).bytes@,
{
    let d = Descriptor { address, length, flags, next };
    let bytes = encode_descriptor(d);
    proof { lemma_descriptor_round_trip(d); }
    let r = memory.write(GuestPhysAddr::new(PROOF_DESC + 16 * (index as u64)), bytes.as_slice());
    proof {
        if r is Ok {
            lemma_read_after_write(old(memory).bytes@, PROOF_DESC + 16 * index - old(memory).region.base.0, bytes@);
        }
    }
    r
}

/// The sixteen-byte request header: the request type, zero reserved word, sector 0.
pub open spec fn spec_request_header_bytes(request_type: u32) -> Seq<u8> {
    spec_u32_to_le_bytes(request_type) + Seq::new(12, |_i: int| 0u8)
}

fn request_header_bytes(request_type: u32) -> (r: Vec<u8>)
    ensures r@ == spec_request_header_bytes(request_type),
{
    proof { lemma_auto_spec_u32_to_from_le_bytes(); }
    let mut bytes = u32_to_le_bytes(request_type);
    let mut i: usize = 0;
    while i < 12
        invariant
            0 <= i <= 12,
            bytes@ == spec_u32_to_le_bytes(request_type) + Seq::new(i as nat, |_i: int| 0u8),
        decreases 12 - i,
    {
        bytes.push(0u8);
        i = i + 1;
        assert(bytes@ =~= spec_u32_to_le_bytes(request_type) + Seq::new(i as nat, |_i: int| 0u8));
    }
    bytes
}

/// Whether guest RAM holds `data` at `address`.
pub open spec fn holds(memory: GuestMemory, address: u64, data: Seq<u8>) -> bool {
    spec_read_at(memory.region, memory.bytes@, address, data.len() as int) == Ok::<Seq<u8>, Error>(data)
}

/// Whether guest address `a` lies in a range the request layout writes: the three descriptors,
/// the header, the data, the status byte, the avail index and ring entry, and the used index.
pub open spec fn in_request_area(a: int) -> bool {
    ||| PROOF_DESC <= a < PROOF_DESC + 48
    ||| PROOF_HEADER <= a < PROOF_HEADER + 16
    ||| PROOF_DATA <= a < PROOF_DATA + 512
    ||| PROOF_STATUS <= a < PROOF_STATUS + 1
    ||| PROOF_AVAIL + 2 <= a < PROOF_AVAIL + 6
    ||| PROOF_USED + 2 <= a < PROOF_USED + 4
}

/// `after` holds the bytes of `before` at every RAM offset whose guest address (from `base`)
/// lies outside the request area.
pub open spec fn unchanged_outside_request_area(before: Seq<u8>, after: Seq<u8>, base: int) -> bool {
    &&& after.len() == before.len()
    &&& forall|i: int| 0 <= i < before.len() && !in_request_area(base + i) ==> #[trigger] after[i] == before[i]
}

/// Whether the guest range `[start, start + length)` lies inside one range of the request area.
pub open spec fn range_in_request_area(start: int, length: int) -> bool {
    ||| PROOF_DESC <= start && start + length <= PROOF_DESC + 48
    ||| PROOF_HEADER <= start && start + length <= PROOF_HEADER + 16
    ||| PROOF_DATA <= start && start + length <= PROOF_DATA + 512
    ||| PROOF_STATUS <= start && start + length <= PROOF_STATUS + 1
    ||| PROOF_AVAIL + 2 <= start && start + length <= PROOF_AVAIL + 6
    ||| PROOF_USED + 2 <= start && start + length <= PROOF_USED + 4
}

proof fn lemma_area_write_keeps_frame(before: Seq<u8>, prev: Seq<u8>, offset: int, data: Seq<u8>, base: int)
    requires
        unchanged_outside_request_area(before, prev, base),
        0 <= offset,
        offset + data.len() <= prev.len(),
        range_in_request_area(base + offset, data.len() as int),
    ensures
        unchanged_outside_request_area(before, splice(prev, offset, data), base),
{
    assert forall|i: int| 0 <= i < before.len() && !in_request_area(base + i)
        implies #[trigger] splice(prev, offset, data)[i] == before[i] by {
        lemma_write_preserves_other_bytes(prev, offset, data, i);
    }
}

/// Lays out one request for sector 0 in guest RAM (header, data and status descriptors, the header,
/// the data, a status sentinel 0xff, the avail index `avail_idx` with ring entry 0, and a zero
/// used index) and marks the queue notified.
///
/// Succeeds whenever guest RAM covers the proof's ring area; a refused write stops the layout
/// there and leaves the device as it was.
pub fn prepare_request(
    memory: &mut GuestMemory,
    device: &mut VirtioBlkDevice,
    request_type: u32,
    data_flags: u16,
    avail_idx: u16,
    payload: &[u8; 512],
) -> (r: Result<(), Error>)
    requires old(memory).wf(),
    ensures
        final(memory).wf(),
        final(memory).region == old(memory).region,
        old(memory).access_ok(PROOF_DESC, (PROOF_STATUS + 1 - PROOF_DESC) as int) ==> r is Ok,
        r is Ok ==> *final(device) == (VirtioBlkDevice { notify_pending: true, ..*old(device) }),
        r is Err ==> *final(device) == *old(device),
        unchanged_outside_request_area(old(memory).bytes@, final(memory).bytes@, old(memory).region.base.0 as int),
        r is Ok ==> {
            &&& spec_descriptor_at(*final(memory), PROOF_DESC, 0) == Ok::<Descriptor, crate::pci::virtio_blk::VirtioBlkProcessError>(
                Descriptor { address: PROOF_HEADER, length: 16, flags: VIRTQ_DESC_F_NEXT, next: 1 })
            &&& spec_descriptor_at(*final(memory), PROOF_DESC, 1) == Ok::<Descriptor, crate::pci::virtio_blk::VirtioBlkProcessError>(
                Descriptor { address: PROOF_DATA, length: 512, flags: data_flags, next: 2 })
            &&& spec_descriptor_at(*final(memory), PROOF_DESC, 2) == Ok::<Descriptor, crate::pci::virtio_blk::VirtioBlkProcessError>(
                Descriptor { address: PROOF_STATUS, length: 1, flags: VIRTQ_DESC_F_WRITE, next: 0 })
            &&& holds(*final(memory), PROOF_HEADER, spec_request_header_bytes(request_type))
            &&& holds(*final(memory), PROOF_DATA, payload@)
            &&& holds(*final(memory), PROOF_STATUS, seq![0xffu8])
            &&& holds(*final(memory), (PROOF_AVAIL + 2) as u64, spec_u16_to_le_bytes(avail_idx))
            &&& holds(*final(memory), (PROOF_AVAIL + 4) as u64, spec_u16_to_le_bytes(0u16))
            &&& holds(*final(memory), (PROOF_USED + 2) as u64, spec_u16_to_le_bytes(0u16))
        },
{
    let ghost base = old(memory).region.base.0 as int;
    let ghost b0 = memory.bytes@;
    assert(unchanged_outside_request_area(b0, b0, base));
    proof { lemma_auto_spec_u16_to_from_le_bytes(); lemma_auto_spec_u32_to_from_le_bytes(); lemma_auto_spec_u64_to_from_le_bytes(); }
    write_descriptor(memory, 0, PROOF_HEADER, 16, VIRTQ_DESC_F_NEXT, 1)?;
    let ghost b1 = memory.bytes@;
    assert(b1 == splice(b0, PROOF_DESC - base, spec_encoded_descriptor(Descriptor { address: PROOF_HEADER, length: 16, flags: VIRTQ_DESC_F_NEXT, next: 1 })) && spec_encoded_descriptor(Descriptor { address: PROOF_HEADER, length: 16, flags: VIRTQ_DESC_F_NEXT, next: 1 }).len() == 16 && old(memory).access_ok(PROOF_DESC, 16));
    proof { lemma_area_write_keeps_frame(b0, b0, PROOF_DESC - base, spec_encoded_descriptor(Descriptor { address: PROOF_HEADER, length: 16, flags: VIRTQ_DESC_F_NEXT, next: 1 }), base); }
    write_descriptor(memory, 1, PROOF_DATA, 512, data_flags, 2)?;
    let ghost b2 = memory.bytes@;
    assert(b2 == splice(b1, (PROOF_DESC + 16) as u64 - base, spec_encoded_descriptor(Descriptor { address: PROOF_DATA, length: 512, flags: data_flags, next: 2 })) && spec_encoded_descriptor(Descriptor { address: PROOF_DATA, length: 512, flags: data_flags, next: 2 }).len() == 16 && old(memory).access_ok((PROOF_DESC + 16) as u64, 16));
    proof { lemma_area_write_keeps_frame(b0, b1, (PROOF_DESC + 16) as u64 - base, spec_encoded_descriptor(Descriptor { address: PROOF_DATA, length: 512, flags: data_flags, next: 2 }), base); }
    write_descriptor(memory, 2, PROOF_STATUS, 1, VIRTQ_DESC_F_WRITE, 0)?;
    let ghost b3 = memory.bytes@;
    assert(b3 == splice(b2, (PROOF_DESC + 32) as u64 - base, spec_encoded_descriptor(Descriptor { address: PROOF_STATUS, length: 1, flags: VIRTQ_DESC_F_WRITE, next: 0 })) && spec_encoded_descriptor(Descriptor { address: PROOF_STATUS, length: 1, flags: VIRTQ_DESC_F_WRITE, next: 0 }).len() == 16 && old(memory).access_ok((PROOF_DESC + 32) as u64, 16));
    proof { lemma_area_write_keeps_frame(b0, b2, (PROOF_DESC + 32) as u64 - base, spec_encoded_descriptor(Descriptor { address: PROOF_STATUS, length: 1, flags: VIRTQ_DESC_F_WRITE, next: 0 }), base); }
    let header = request_header_bytes(request_type);
    memory.write(GuestPhysAddr::new(PROOF_HEADER), header.as_slice())?;
    let ghost b4 = memory.bytes@;
    assert(b4 == splice(b3, PROOF_HEADER - base, spec_request_header_bytes(request_type)) && spec_request_header_bytes(request_type).len() == 16 && old(memory).access_ok(PROOF_HEADER, 16));
    proof { lemma_area_write_keeps_frame(b0, b3, PROOF_HEADER - base, spec_request_header_bytes(request_type), base); }
    memory.write(GuestPhysAddr::new(PROOF_DATA), payload.as_slice())?;
    let ghost b5 = memory.bytes@;
    assert(b5 == splice(b4, PROOF_DATA - base, payload@) && payload@.len() == 512 && old(memory).access_ok(PROOF_DATA, 512));
    proof { lemma_area_write_keeps_frame(b0, b4, PROOF_DATA - base, payload@, base); }
    let status = [0xffu8];
    assert(status@ =~= seq![0xffu8]);
    memory.write(GuestPhysAddr::new(PROOF_STATUS), status.as_slice())?;
    let ghost b6 = memory.bytes@;
    assert(b6 == splice(b5, PROOF_STATUS - base, seq![0xffu8]) && seq![0xffu8].len() == 1 && old(memory).access_ok(PROOF_STATUS, 1));
    proof { lemma_area_write_keeps_frame(b0, b5, PROOF_STATUS - base, seq![0xffu8], base); }
    let avail = u16_to_le_bytes(avail_idx);
    memory.write(GuestPhysAddr::new(PROOF_AVAIL + 2), avail.as_slice())?;
    let ghost b7 = memory.bytes@;
    assert(b7 == splice(b6, (PROOF_AVAIL + 2) as u64 - base, spec_u16_to_le_bytes(avail_idx)) && spec_u16_to_le_bytes(avail_idx).len() == 2 && old(memory).access_ok((PROOF_AVAIL + 2) as u64, 2));
    proof { lemma_area_write_keeps_frame(b0, b6, (PROOF_AVAIL + 2) as u64 - base, spec_u16_to_le_bytes(avail_idx), base); }
    let ring = u16_to_le_bytes(0u16);
    memory.write(GuestPhysAddr::new(PROOF_AVAIL + 4), ring.as_slice())?;
    let ghost b8 = memory.bytes@;
    assert(b8 == splice(b7, (PROOF_AVAIL + 4) as u64 - base, spec_u16_to_le_bytes(0u16)) && spec_u16_to_le_bytes(0u16).len() == 2 && old(memory).access_ok((PROOF_AVAIL + 4) as u64, 2));
    proof { lemma_area_write_keeps_frame(b0, b7, (PROOF_AVAIL + 4) as u64 - base, spec_u16_to_le_bytes(0u16), base); }
    let used = u16_to_le_bytes(0u16);
    memory.write(GuestPhysAddr::new(PROOF_USED + 2), used.as_slice())?;
    let ghost b9 = memory.bytes@;
    assert(b9 == splice(b8, (PROOF_USED + 2) as u64 - base, spec_u16_to_le_bytes(0u16)) && spec_u16_to_le_bytes(0u16).len() == 2 && old(memory).access_ok((PROOF_USED + 2) as u64, 2));
    proof { lemma_area_write_keeps_frame(b0, b8, (PROOF_USED + 2) as u64 - base, spec_u16_to_le_bytes(0u16), base); }
    proof {
        lemma_read_after_write(b0, PROOF_DESC - base, spec_encoded_descriptor(Descriptor { address: PROOF_HEADER, length: 16, flags: VIRTQ_DESC_F_NEXT, next: 1 }));
        lemma_write_keeps_disjoint_range(b1, (PROOF_DESC + 16) as u64 - base, spec_encoded_descriptor(Descriptor { address: PROOF_DATA, length: 512, flags: data_flags, next: 2 }), PROOF_DESC - base, 16);
        lemma_write_keeps_disjoint_range(b2, (PROOF_DESC + 32) as u64 - base, spec_encoded_descriptor(Descriptor { address: PROOF_STATUS, length: 1, flags: VIRTQ_DESC_F_WRITE, next: 0 }), PROOF_DESC - base, 16);
        lemma_write_keeps_disjoint_range(b3, PROOF_HEADER - base, spec_request_header_bytes(request_type), PROOF_DESC - base, 16);
        lemma_write_keeps_disjoint_range(b4, PROOF_DATA - base, payload@, PROOF_DESC - base, 16);
        lemma_write_keeps_disjoint_range(b5, PROOF_STATUS - base, seq![0xffu8], PROOF_DESC - base, 16);
        lemma_write_keeps_disjoint_range(b6, (PROOF_AVAIL + 2) as u64 - base, spec_u16_to_le_bytes(avail_idx), PROOF_DESC - base, 16);
        lemma_write_keeps_disjoint_range(b7, (PROOF_AVAIL + 4) as u64 - base, spec_u16_to_le_bytes(0u16), PROOF_DESC - base, 16);
        lemma_write_keeps_disjoint_range(b8, (PROOF_USED + 2) as u64 - base, spec_u16_to_le_bytes(0u16), PROOF_DESC - base, 16);
        assert(b9.subrange(PROOF_DESC - base, PROOF_DESC - base + 16) == spec_encoded_descriptor(Descriptor { address: PROOF_HEADER, length: 16, flags: VIRTQ_DESC_F_NEXT, next: 1 }));
        lemma_read_after_write(b1, (PROOF_DESC + 16) as u64 - base, spec_encoded_descriptor(Descriptor { address: PROOF_DATA, length: 512, flags: data_flags, next: 2 }));
        lemma_write_keeps_disjoint_range(b2, (PROOF_DESC + 32) as u64 - base, spec_encoded_descriptor(Descriptor { address: PROOF_STATUS, length: 1, flags: VIRTQ_DESC_F_WRITE, next: 0 }), (PROOF_DESC + 16) as u64 - base, 16);
        lemma_write_keeps_disjoint_range(b3, PROOF_HEADER - base, spec_request_header_bytes(request_type), (PROOF_DESC + 16) as u64 - base, 16);
        lemma_write_keeps_disjoint_range(b4, PROOF_DATA - base, payload@, (PROOF_DESC + 16) as u64 - base, 16);
        lemma_write_keeps_disjoint_range(b5, PROOF_STATUS - base, seq![0xffu8], (PROOF_DESC + 16) as u64 - base, 16);
        lemma_write_keeps_disjoint_range(b6, (PROOF_AVAIL + 2) as u64 - base, spec_u16_to_le_bytes(avail_idx), (PROOF_DESC + 16) as u64 - base, 16);
        lemma_write_keeps_disjoint_range(b7, (PROOF_AVAIL + 4) as u64 - base, spec_u16_to_le_bytes(0u16), (PROOF_DESC + 16) as u64 - base, 16);
        lemma_write_keeps_disjoint_range(b8, (PROOF_USED + 2) as u64 - base, spec_u16_to_le_bytes(0u16), (PROOF_DESC + 16) as u64 - base, 16);
        assert(b9.subrange((PROOF_DESC + 16) as u64 - base, (PROOF_DESC + 16) as u64 - base + 16) == spec_encoded_descriptor(Descriptor { address: PROOF_DATA, length: 512, flags: data_flags, next: 2 }));
        lemma_read_after_write(b2, (PROOF_DESC + 32) as u64 - base, spec_encoded_descriptor(Descriptor { address: PROOF_STATUS, length: 1, flags: VIRTQ_DESC_F_WRITE, next: 0 }));
        lemma_write_keeps_disjoint_range(b3, PROOF_HEADER - base, spec_request_header_bytes(request_type), (PROOF_DESC + 32) as u64 - base, 16);
        lemma_write_keeps_disjoint_range(b4, PROOF_DATA - base, payload@, (PROOF_DESC + 32) as u64 - base, 16);
        lemma_write_keeps_disjoint_range(b5, PROOF_STATUS - base, seq![0xffu8], (PROOF_DESC + 32) as u64 - base, 16);
        lemma_write_keeps_disjoint_range(b6, (PROOF_AVAIL + 2) as u64 - base, spec_u16_to_le_bytes(avail_idx), (PROOF_DESC + 32) as u64 - base, 16);
        lemma_write_keeps_disjoint_range(b7, (PROOF_AVAIL + 4) as u64 - base, spec_u16_to_le_bytes(0u16), (PROOF_DESC + 32) as u64 - base, 16);
        lemma_write_keeps_disjoint_range(b8, (PROOF_USED + 2) as u64 - base, spec_u16_to_le_bytes(0u16), (PROOF_DESC + 32) as u64 - base, 16);
        assert(b9.subrange((PROOF_DESC + 32) as u64 - base, (PROOF_DESC + 32) as u64 - base + 16) == spec_encoded_descriptor(Descriptor { address: PROOF_STATUS, length: 1, flags: VIRTQ_DESC_F_WRITE, next: 0 }));
        lemma_read_after_write(b3, PROOF_HEADER - base, spec_request_header_bytes(request_type));
        lemma_write_keeps_disjoint_range(b4, PROOF_DATA - base, payload@, PROOF_HEADER - base, 16);
        lemma_write_keeps_disjoint_range(b5, PROOF_STATUS - base, seq![0xffu8], PROOF_HEADER - base, 16);
        lemma_write_keeps_disjoint_range(b6, (PROOF_AVAIL + 2) as u64 - base, spec_u16_to_le_bytes(avail_idx), PROOF_HEADER - base, 16);
        lemma_write_keeps_disjoint_range(b7, (PROOF_AVAIL + 4) as u64 - base, spec_u16_to_le_bytes(0u16), PROOF_HEADER - base, 16);
        lemma_write_keeps_disjoint_range(b8, (PROOF_USED + 2) as u64 - base, spec_u16_to_le_bytes(0u16), PROOF_HEADER - base, 16);
        assert(b9.subrange(PROOF_HEADER - base, PROOF_HEADER - base + 16) == spec_request_header_bytes(request_type));
        lemma_read_after_write(b4, PROOF_DATA - base, payload@);
        lemma_write_keeps_disjoint_range(b5, PROOF_STATUS - base, seq![0xffu8], PROOF_DATA - base, 512);
        lemma_write_keeps_disjoint_range(b6, (PROOF_AVAIL + 2) as u64 - base, spec_u16_to_le_bytes(avail_idx), PROOF_DATA - base, 512);
        lemma_write_keeps_disjoint_range(b7, (PROOF_AVAIL + 4) as u64 - base, spec_u16_to_le_bytes(0u16), PROOF_DATA - base, 512);
        lemma_write_keeps_disjoint_range(b8, (PROOF_USED + 2) as u64 - base, spec_u16_to_le_bytes(0u16), PROOF_DATA - base, 512);
        assert(b9.subrange(PROOF_DATA - base, PROOF_DATA - base + 512) == payload@);
        lemma_read_after_write(b5, PROOF_STATUS - base, seq![0xffu8]);
        lemma_write_keeps_disjoint_range(b6, (PROOF_AVAIL + 2) as u64 - base, spec_u16_to_le_bytes(avail_idx), PROOF_STATUS - base, 1);
        lemma_write_keeps_disjoint_range(b7, (PROOF_AVAIL + 4) as u64 - base, spec_u16_to_le_bytes(0u16), PROOF_STATUS - base, 1);
        lemma_write_keeps_disjoint_range(b8, (PROOF_USED + 2) as u64 - base, spec_u16_to_le_bytes(0u16), PROOF_STATUS - base, 1);
        assert(b9.subrange(PROOF_STATUS - base, PROOF_STATUS - base + 1) == seq![0xffu8]);
        lemma_read_after_write(b6, (PROOF_AVAIL + 2) as u64 - base, spec_u16_to_le_bytes(avail_idx));
        lemma_write_keeps_disjoint_range(b7, (PROOF_AVAIL + 4) as u64 - base, spec_u16_to_le_bytes(0u16), (PROOF_AVAIL + 2) as u64 - base, 2);
        lemma_write_keeps_disjoint_range(b8, (PROOF_USED + 2) as u64 - base, spec_u16_to_le_bytes(0u16), (PROOF_AVAIL + 2) as u64 - base, 2);
        assert(b9.subrange((PROOF_AVAIL + 2) as u64 - base, (PROOF_AVAIL + 2) as u64 - base + 2) == spec_u16_to_le_bytes(avail_idx));
        lemma_read_after_write(b7, (PROOF_AVAIL + 4) as u64 - base, spec_u16_to_le_bytes(0u16));
        lemma_write_keeps_disjoint_range(b8, (PROOF_USED + 2) as u64 - base, spec_u16_to_le_bytes(0u16), (PROOF_AVAIL + 4) as u64 - base, 2);
        assert(b9.subrange((PROOF_AVAIL + 4) as u64 - base, (PROOF_AVAIL + 4) as u64 - base + 2) == spec_u16_to_le_bytes(0u16));
        lemma_read_after_write(b8, (PROOF_USED + 2) as u64 - base, spec_u16_to_le_bytes(0u16));
        assert(b9.subrange((PROOF_USED + 2) as u64 - base, (PROOF_USED + 2) as u64 - base + 2) == spec_u16_to_le_bytes(0u16));
        lemma_descriptor_round_trip(Descriptor { address: PROOF_HEADER, length: 16, flags: VIRTQ_DESC_F_NEXT, next: 1 });
        lemma_descriptor_round_trip(Descriptor { address: PROOF_DATA, length: 512, flags: data_flags, next: 2 });
        lemma_descriptor_round_trip(Descriptor { address: PROOF_STATUS, length: 1, flags: VIRTQ_DESC_F_WRITE, next: 0 });
    }
    device.notify_pending = true;
    Ok(())
}


/// What the identity-pin proof reports.
#[derive(Debug, Clone, PartialEq, Eq)]
pub struct VirtioBlkFileIdentityPinProof {
    pub write_completion: VirtioBlkQueueCompletion,
    pub payload: [u8; 512],
    pub original_identity: VirtioBlkFileIdentity,
    pub replacement_identity: VirtioBlkFileIdentity,
    pub pinned_sector: [u8; 512],
    pub replacement_sector: [u8; 512],
    pub checkpoint_rejected: bool,
    pub proof: Vec<u8>,
}

impl VirtioBlkFileIdentityPinProof {
    pub fn write_completion(&self) -> (r: VirtioBlkQueueCompletion)
        ensures r == self.write_completion,
    {
        self.write_completion
    }

    pub fn payload(&self) -> (r: &[u8; 512])
        ensures *r == self.payload,
    {
        &self.payload
    }

    pub fn original_identity(&self) -> (r: VirtioBlkFileIdentity)
        ensures r == self.original_identity,
    {
        self.original_identity
    }

    pub fn replacement_identity(&self) -> (r: VirtioBlkFileIdentity)
        ensures r == self.replacement_identity,
    {
        self.replacement_identity
    }

    pub fn pinned_sector(&self) -> (r: &[u8; 512])
        ensures *r == self.pinned_sector,
    {
        &self.pinned_sector
    }

    pub fn replacement_sector(&self) -> (r: &[u8; 512])
        ensures *r == self.replacement_sector,
    {
        &self.replacement_sector
    }

    pub fn checkpoint_rejected(&self) -> (r: bool)
        ensures r == self.checkpoint_rejected,
    {
        self.checkpoint_rejected
    }

    pub fn proof_bytes(&self) -> (r: &[u8])
        ensures r@ == self.proof@,
    {
        self.proof.as_slice()
    }
}

/// What the write, sync and reopen proof reports.
#[derive(Debug, Clone, PartialEq, Eq)]
pub struct VirtioBlkFileBackedProof {
    pub write_completion: VirtioBlkQueueCompletion,
    pub read_completion: VirtioBlkQueueCompletion,
    pub persisted_sector: [u8; 512],
    pub readback: [u8; 512],
    pub checkpoint_rejected: bool,
    pub proof: Vec<u8>,
}

impl VirtioBlkFileBackedProof {
    pub fn write_completion(&self) -> (r: VirtioBlkQueueCompletion)
        ensures r == self.write_completion,
    {
        self.write_completion
    }

    pub fn read_completion(&self) -> (r: VirtioBlkQueueCompletion)
        ensures r == self.read_completion,
    {
        self.read_completion
    }

    pub fn persisted_sector(&self) -> (r: &[u8; 512])
        ensures *r == self.persisted_sector,
    {
        &self.persisted_sector
    }

    pub fn readback(&self) -> (r: &[u8; 512])
        ensures *r == self.readback,
    {
        &self.readback
    }

    pub fn checkpoint_rejected(&self) -> (r: bool)
        ensures r == self.checkpoint_rejected,
    {
        self.checkpoint_rejected
    }

    pub fn proof_bytes(&self) -> (r: &[u8])
        ensures r@ == self.proof@,
    {
        self.proof.as_slice()
    }
}

/// A sector whose bytes follow `(i * multiplier + offset) mod 256`, with a 16-byte signature at
/// its start and an 8-byte one at its end.
pub open spec fn signed_sector_byte(i: int, multiplier: int, offset: int, head: Seq<u8>, tail: Seq<u8>) -> u8 {
    if i < 16 {
        head[i]
    } else if i >= 504 {
        tail[i - 504]
    } else {
        (((i % 256) * multiplier + offset) % 256) as u8
    }
}

pub open spec fn file_payload_head() -> Seq<u8> {
    seq![0x46, 0x49, 0x4c, 0x45, 0x2d, 0x42, 0x4c, 0x4b, 0x2d, 0x30, 0x30, 0x30, 0x30, 0x30, 0x30, 0x21]
}

pub open spec fn file_payload_tail() -> Seq<u8> {
    seq![0x46, 0x53, 0x59, 0x4e, 0x43, 0x45, 0x44, 0x21]
}

pub open spec fn identity_payload_head() -> Seq<u8> {
    seq![0x46, 0x49, 0x4c, 0x45, 0x2d, 0x50, 0x49, 0x4e, 0x2d, 0x30, 0x30, 0x30, 0x30, 0x30, 0x30, 0x21]
}

pub open spec fn identity_payload_tail() -> Seq<u8> {
    seq![0x50, 0x49, 0x4e, 0x4e, 0x45, 0x44, 0x21, 0x21]
}

fn signed_sector(multiplier: usize, offset: usize, head: &[u8], tail: &[u8]) -> (r: [u8; 512])
    requires
        multiplier < 256,
        offset < 256,
        head@.len() == 16,
        tail@.len() == 8,
    ensures
        forall|i: int| 0 <= i < 512 ==> r@[i] == signed_sector_byte(i, multiplier as int, offset as int, head@, tail@),
{
    let mut bytes = [0u8; 512];
    let mut i: usize = 0;
    while i < 512
        invariant
            0 <= i <= 512,
            multiplier < 256,
            offset < 256,
            head@.len() == 16,
            tail@.len() == 8,
            bytes@.len() == 512,
            forall|j: int| 0 <= j < i ==> bytes@[j] == signed_sector_byte(j, multiplier as int, offset as int, head@, tail@),
        decreases 512 - i,
    {
        let value: u8 = if i < 16 {
            head[i]
        } else if i >= 504 {
            tail[i - 504]
        } else {
            let low = i % 256;
            assert(low * multiplier <= 255 * 255) by (nonlinear_arith)
                requires low < 256, multiplier < 256;
            ((low * multiplier + offset) % 256) as u8
        };
        bytes[i] = value;
        i = i + 1;
    }
    bytes
}

/// The sector the write, sync and reopen proof writes: bytes `43 i + 9`, signed
/// "FILE-BLK-000000!" ... "FSYNCED!".
pub fn deterministic_file_payload() -> (r: [u8; 512])
    ensures
        forall|i: int| 0 <= i < 512 ==> r@[i] == signed_sector_byte(i, 43, 9, file_payload_head(), file_payload_tail()),
{
    let head: [u8; 16] = [0x46, 0x49, 0x4c, 0x45, 0x2d, 0x42, 0x4c, 0x4b, 0x2d, 0x30, 0x30, 0x30, 0x30, 0x30, 0x30, 0x21];
    let tail: [u8; 8] = [0x46, 0x53, 0x59, 0x4e, 0x43, 0x45, 0x44, 0x21];
    assert(head@ =~= file_payload_head());
    assert(tail@ =~= file_payload_tail());
    signed_sector(43, 9, head.as_slice(), tail.as_slice())
}

/// The sector the identity-pin proof writes: bytes `29 i + 0x31`, signed "FILE-PIN-000000!" ...
/// "PINNED!!".
pub fn deterministic_identity_payload() -> (r: [u8; 512])
    ensures
        forall|i: int| 0 <= i < 512
            ==> r@[i] == signed_sector_byte(i, 29, 0x31, identity_payload_head(), identity_payload_tail()),
{
    let head: [u8; 16] = [0x46, 0x49, 0x4c, 0x45, 0x2d, 0x50, 0x49, 0x4e, 0x2d, 0x30, 0x30, 0x30, 0x30, 0x30, 0x30, 0x21];
    let tail: [u8; 8] = [0x50, 0x49, 0x4e, 0x4e, 0x45, 0x44, 0x21, 0x21];
    assert(head@ =~= identity_payload_head());
    assert(tail@ =~= identity_payload_tail());
    signed_sector(29, 0x31, head.as_slice(), tail.as_slice())
}

/// A persistence proof whose observation broke its contract.
pub open spec fn proof_error() -> Error {
    backing_error("verify file-backed virtio-blk persistence proof", HostIoCause::InvalidData)
}

fn make_proof_error() -> (r: Error)
    ensures r == proof_error(),
{
    make_backing_error("verify file-backed virtio-blk persistence proof", HostIoCause::InvalidData)
}

/// Whether a whole host file holds exactly the disk's size and starts with `expected`.
pub open spec fn file_starts_with(raw: Seq<u8>, expected: Seq<u8>) -> bool {
    raw.len() == VIRTIO_BLK_BACKING_SIZE && raw.subrange(0, 512) == expected
}

fn first_sector(raw: &[u8]) -> (r: [u8; 512])
    requires raw@.len() >= 512,
    ensures r@ == raw@.subrange(0, 512),
{
    let mut sector = [0u8; 512];
    let mut i: usize = 0;
    while i < 512
        invariant
            0 <= i <= 512,
            raw@.len() >= 512,
            sector@.len() == 512,
            forall|j: int| 0 <= j < i ==> sector@[j] == raw@[j],
        decreases 512 - i,
    {
        sector[i] = raw[i];
        i = i + 1;
    }
    assert(sector@ =~= raw@.subrange(0, 512));
    sector
}

fn sectors_equal(a: &[u8; 512], b: &[u8; 512]) -> (r: bool)
    ensures r == (a@ == b@),
{
    let mut i: usize = 0;
    while i < 512
        invariant
            0 <= i <= 512,
            a@.len() == 512,
            b@.len() == 512,
            forall|j: int| 0 <= j < i ==> a@[j] == b@[j],
        decreases 512 - i,
    {
        if a[i] != b[i] {
            return false;
        }
        i = i + 1;
    }
    assert(a@ =~= b@);
    true
}

/// The host file read back after a synced guest write must hold exactly the disk's size and
/// start with the written payload; its first sector is returned.
pub fn check_persisted_sector(raw: &[u8], payload: &[u8; 512]) -> (r: Result<[u8; 512], Error>)
    ensures
        file_starts_with(raw@, payload@) ==> r == Ok::<[u8; 512], Error>(*payload),
        !file_starts_with(raw@, payload@) ==> r == Err::<[u8; 512], Error>(proof_error()),
{
    if raw.len() != VIRTIO_BLK_BACKING_SIZE {
        return Err(make_proof_error());
    }
    let sector = first_sector(raw);
    if !sectors_equal(&sector, payload) {
        return Err(make_proof_error());
    }
    assert(sector =~= *payload);
    Ok(sector)
}

/// After the origin path was renamed away and a fresh file created under it: the renamed file
/// must still be the one the device pinned, and the fresh file must be another one.
pub fn check_identity_pin(
    original: VirtioBlkFileIdentity,
    renamed: VirtioBlkFileIdentity,
    replacement: VirtioBlkFileIdentity,
) -> (r: Result<(), Error>)
    ensures
        renamed == original && replacement != original ==> r is Ok,
        !(renamed == original && replacement != original) ==> r == Err::<(), Error>(proof_error()),
{
    if !renamed.same_file(original) || replacement.same_file(original) {
        return Err(make_proof_error());
    }
    Ok(())
}

/// After the guest's write: the renamed (pinned) file must start with the payload, and the
/// file now under the origin path must still start with a fresh disk's first sector.
pub fn check_pinned_sectors(pinned_raw: &[u8], replacement_raw: &[u8], payload: &[u8; 512], fresh: &[u8; 512])
    -> (r: Result<([u8; 512], [u8; 512]), Error>)
    ensures
        file_starts_with(pinned_raw@, payload@) && file_starts_with(replacement_raw@, fresh@)
            ==> r == Ok::<([u8; 512], [u8; 512]), Error>((*payload, *fresh)),
        !(file_starts_with(pinned_raw@, payload@) && file_starts_with(replacement_raw@, fresh@))
            ==> r == Err::<([u8; 512], [u8; 512]), Error>(proof_error()),
{
    let pinned = check_persisted_sector(pinned_raw, payload)?;
    let replacement = check_persisted_sector(replacement_raw, fresh)?;
    Ok((pinned, replacement))
}


/// Writing the range a completed request touched, taken from the disk after the request, into
/// a host file that held the disk before the request leaves the file holding exactly the disk
/// after it.
pub proof fn lemma_persisted_range_keeps_file_equal_to_disk(
    device: VirtioBlkDevice,
    after: VirtioBlkDevice,
    memory: GuestMemory,
    plan: crate::pci::virtio_blk::RequestPlan,
)
    requires
        memory.wf(),
        plan.backing_start < plan.backing_end <= VIRTIO_BLK_BACKING_SIZE,
        memory.access_ok(plan.data_address, (plan.backing_end - plan.backing_start) as int),
        device.spec_completed_device(after, memory, plan),
    ensures
        splice(device.backing@, plan.backing_start as int,
            after.backing@.subrange(plan.backing_start as int, plan.backing_end as int)) == after.backing@,
{
    if plan.request_type == crate::pci::virtio_blk::VIRTIO_BLK_T_OUT {
        crate::pci::virtio_blk::lemma_write_request_stores_guest_data(device, after, memory, plan);
    }
    assert(splice(device.backing@, plan.backing_start as int,
        after.backing@.subrange(plan.backing_start as int, plan.backing_end as int)) =~= after.backing@);
}

/// A completed write, persisted to the host file, survives dropping the device: a device
/// reopened over that file returns the written data to a later read of the same range.
pub proof fn lemma_persisted_write_survives_reopen(
    device: VirtioBlkDevice,
    written: VirtioBlkDevice,
    write_memory: GuestMemory,
    write: crate::pci::virtio_blk::RequestPlan,
    reopened: VirtioBlkDevice,
    read_memory: GuestMemory,
    read: crate::pci::virtio_blk::RequestPlan,
)
    requires
        write_memory.wf(),
        read_memory.wf(),
        write.request_type == crate::pci::virtio_blk::VIRTIO_BLK_T_OUT,
        write.backing_start < write.backing_end <= VIRTIO_BLK_BACKING_SIZE,
        write_memory.access_ok(write.data_address, (write.backing_end - write.backing_start) as int),
        device.spec_completed_device(written, write_memory, write),
        reopened.backing == written.backing,
        read.request_type == crate::pci::virtio_blk::VIRTIO_BLK_T_IN,
        read.backing_start == write.backing_start,
        read.backing_end == write.backing_end,
        read_memory.access_ok(read.data_address, (read.backing_end - read.backing_start) as int),
        read_memory.access_ok(read.status_address, 1),
        read_memory.access_ok(read.used_element, 8),
        read_memory.access_ok(read.used_idx_address, 2),
        crate::pci::virtio_blk::ranges_disjoint(read.data_address as int,
            (read.backing_end - read.backing_start) as int, read.status_address as int, 1),
        crate::pci::virtio_blk::ranges_disjoint(read.data_address as int,
            (read.backing_end - read.backing_start) as int, read.used_element as int, 8),
        crate::pci::virtio_blk::ranges_disjoint(read.data_address as int,
            (read.backing_end - read.backing_start) as int, read.used_idx_address as int, 2),
    ensures
        ({
            let offset = read.data_address - read_memory.region.base.0;
            reopened.spec_completed_ram(read_memory, read).subrange(offset, offset + read.backing_end - read.backing_start)
                == write_memory.spec_read(write.data_address, (write.backing_end - write.backing_start) as int)
        }),
{
    crate::pci::virtio_blk::lemma_write_request_stores_guest_data(device, written, write_memory, write);
    crate::pci::virtio_blk::lemma_read_request_returns_disk_data(reopened, read_memory, read);
}

} // verus!
