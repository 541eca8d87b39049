//! A guest drives a two-sector virtio-blk request through PCI configuration and MMIO and halts when the
//! completion arrives.
use crate::error::{Error, HostEnvironmentError, HostIoCause};
use crate::pci::{config_selector, PCI_CONFIG_ADDRESS_PORT, PCI_CONFIG_DATA_PORT, PCI_CONFIG_ENABLE, PCI_CONFIG_REGISTER_MASK};
use crate::portio::vcpu_checks::is_debug_output;
use crate::portio::DEBUG_PORT;
use crate::vcpu::{MmioDirection, MmioExit, PortIoDirection, PortIoExit, VcpuExit, VmExitReport};
use crate::pci::virtio_blk::VIRTIO_BLK_S_OK;
use crate::pci::virtio_blk::VirtioBlkQueueCompletion;
use crate::memory::splice;
use vstd::prelude::*;

verus! {

pub const VIRTIO_BLK_MULTI_SECTOR_PROOF: [u8; 7] = [0x50, 0x42, 0x57, 0x4f, 0x4e, 0x52, 0x44];
pub const VIRTIO_BLK_MULTI_SECTOR_START: u64 = 1;
/// Two sectors of data.
pub const VIRTIO_BLK_MULTI_SECTOR_DATA_LEN: u32 = 1024;
pub const VIRTIO_BLK_MULTI_SECTOR_STATUS_GPA: u64 = 0x0001_8800;
pub const VIRTIO_BLK_MULTI_SECTOR_EXIT_BUDGET: u32 = 44;
pub const VIRTIO_QUEUE_SIZE: u16 = 4;
pub const VIRTIO_QUEUE_INDEX: u16 = 0;
pub const X86_RFLAGS_RESERVED_BIT: u64 = 1 << 1;
pub const WRITE_NOTIFY_BARRIER: u8 = 0x57;
pub const READ_NOTIFY_BARRIER: u8 = 0x4e;
pub const READ_USED_LEN: u32 = VIRTIO_BLK_MULTI_SECTOR_DATA_LEN + 1;

/// The byte of the payload pattern at `index`, before the signatures are placed.
pub open spec fn payload_pattern_byte(index: int) -> u8 {
    (((index % 256) * 37 + 11) % 256) as u8
}

pub open spec fn head_signature() -> Seq<u8> {
    seq![0x42u8, 0x4c, 0x4b, 0x2d, 0x4d, 0x55, 0x4c, 0x54, 0x49, 0x2d, 0x30, 0x30, 0x30, 0x31, 0x21, 0x21]
}

pub open spec fn boundary_signature() -> Seq<u8> {
    seq![0x45u8, 0x4e, 0x44, 0x31, 0x42, 0x45, 0x47, 0x32]
}

pub open spec fn cross_signature() -> Seq<u8> {
    seq![0x2du8, 0x43, 0x52, 0x4f, 0x53, 0x53, 0x21, 0x21]
}

pub open spec fn tail_signature() -> Seq<u8> {
    seq![0x4du8, 0x55, 0x4c, 0x54, 0x45, 0x4e, 0x44, 0x21]
}

/// The two-sector payload: the repeating pattern with signatures at its start, on both sides
/// of the sector boundary and at its end.
pub open spec fn spec_multi_sector_payload() -> Seq<u8> {
    let base = Seq::new(1024, |i: int| payload_pattern_byte(i));
    splice(splice(splice(splice(base, 0, head_signature()), 504, boundary_signature()), 512, cross_signature()),
        1016, tail_signature())
}

fn overwrite(bytes: &mut Vec<u8>, offset: usize, data: &[u8])
    requires offset + data@.len() <= old(bytes)@.len(),
    ensures final(bytes)@ == splice(old(bytes)@, offset as int, data@),
{
    let ghost before = bytes@;
    let _length = bytes.len();
    let mut k: usize = 0;
    while k < data.len()
        invariant
            0 <= k <= data@.len(),
            before.len() <= usize::MAX,
            offset + data@.len() <= before.len(),
            bytes@.len() == before.len(),
            forall|j: int| 0 <= j < k ==> bytes@[offset + j] == data@[j],
            forall|j: int| 0 <= j < before.len() && !(offset <= j < offset + k) ==> bytes@[j] == before[j],
        decreases data@.len() - k,
    {
        bytes.set(offset + k, data[k]);
        k = k + 1;
    }
    assert(bytes@ =~= splice(before, offset as int, data@));
}

/// The payload the guest writes across sectors 1 and 2 and reads back.
pub fn deterministic_multi_sector_payload() -> (r: Vec<u8>)
    ensures r@ == spec_multi_sector_payload(),
{
    let mut bytes: Vec<u8> = Vec::new();
    let mut i: usize = 0;
    while i < 1024
        invariant
            0 <= i <= 1024,
            bytes@ == Seq::new(i as nat, |j: int| payload_pattern_byte(j)),
        decreases 1024 - i,
    {
        let b: u8 = (((i % 256) * 37 + 11) % 256) as u8;
        bytes.push(b);
        assert(bytes@ =~= Seq::new(i as nat + 1, |j: int| payload_pattern_byte(j)));
        i = i + 1;
    }
    let head = [0x42u8, 0x4c, 0x4b, 0x2d, 0x4d, 0x55, 0x4c, 0x54, 0x49, 0x2d, 0x30, 0x30, 0x30, 0x31, 0x21, 0x21];
    let boundary = [0x45u8, 0x4e, 0x44, 0x31, 0x42, 0x45, 0x47, 0x32];
    let cross = [0x2du8, 0x43, 0x52, 0x4f, 0x53, 0x53, 0x21, 0x21];
    let tail = [0x4du8, 0x55, 0x4c, 0x54, 0x45, 0x4e, 0x44, 0x21];
    assert(head@ =~= head_signature());
    assert(boundary@ =~= boundary_signature());
    assert(cross@ =~= cross_signature());
    assert(tail@ =~= tail_signature());
    overwrite(&mut bytes, 0, head.as_slice());
    overwrite(&mut bytes, 504, boundary.as_slice());
    overwrite(&mut bytes, 512, cross.as_slice());
    overwrite(&mut bytes, 1016, tail.as_slice());
    bytes
}

fn bytes_equal(a: &Vec<u8>, b: &Vec<u8>) -> (r: bool)
    ensures r == (a@ == b@),
{
    if a.len() != b.len() {
        return false;
    }
    let mut i: usize = 0;
    while i < a.len()
        invariant
            0 <= i <= a@.len(),
            a@.len() == b@.len(),
            forall|j: int| 0 <= j < i ==> a@[j] == b@[j],
        decreases a@.len() - i,
    {
        if a[i] != b[i] {
            return false;
        }
        i = i + 1;
    }
    assert(a@ =~= b@);
    true
}

#[derive(Debug, Clone, PartialEq, Eq)]
pub struct VirtioBlkMultiSectorGuestResult {
    pub io_exits: Vec<PortIoExit>,
    pub mmio_exits: Vec<MmioExit>,
    pub proof: Vec<u8>,
    pub write_completion: VirtioBlkQueueCompletion,
    pub read_completion: VirtioBlkQueueCompletion,
    pub backing: Vec<u8>,
    pub readback: Vec<u8>,
    pub request_status: u8,
    pub used_idx: u16,
    pub first_used_id: u32,
    pub first_used_len: u32,
    pub second_used_id: u32,
    pub second_used_len: u32,
    pub sector0_before: Vec<u8>,
    pub sector0_after: Vec<u8>,
    pub sector3_before: Vec<u8>,
    pub sector3_after: Vec<u8>,
    pub report: VmExitReport,
}

impl VirtioBlkMultiSectorGuestResult {
    pub fn io_exits(&self) -> (r: &[PortIoExit])
        ensures r@ == self.io_exits@,
    {
        self.io_exits.as_slice()
    }

    pub fn mmio_exits(&self) -> (r: &[MmioExit])
        ensures r@ == self.mmio_exits@,
    {
        self.mmio_exits.as_slice()
    }

    pub fn proof_bytes(&self) -> (r: &[u8])
        ensures r@ == self.proof@,
    {
        self.proof.as_slice()
    }

    pub fn write_completion(&self) -> (r: VirtioBlkQueueCompletion)
        ensures r == self.write_completion,
    {
        self.write_completion
    }

    pub fn read_completion(&self) -> (r: VirtioBlkQueueCompletion)
        ensures r == self.read_completion,
    {
        self.read_completion
    }

    pub fn backing(&self) -> (r: &[u8])
        ensures r@ == self.backing@,
    {
        self.backing.as_slice()
    }

    pub fn readback(&self) -> (r: &[u8])
        ensures r@ == self.readback@,
    {
        self.readback.as_slice()
    }

    pub fn request_status(&self) -> (r: u8)
        ensures r == self.request_status,
    {
        self.request_status
    }

    pub fn used_idx(&self) -> (r: u16)
        ensures r == self.used_idx,
    {
        self.used_idx
    }

    pub fn first_used_id(&self) -> (r: u32)
        ensures r == self.first_used_id,
    {
        self.first_used_id
    }

    pub fn first_used_len(&self) -> (r: u32)
        ensures r == self.first_used_len,
    {
        self.first_used_len
    }

    pub fn second_used_id(&self) -> (r: u32)
        ensures r == self.second_used_id,
    {
        self.second_used_id
    }

    pub fn second_used_len(&self) -> (r: u32)
        ensures r == self.second_used_len,
    {
        self.second_used_len
    }

    /// Sector 0, outside the request, was left as it was.
    pub fn sector0_unchanged(&self) -> (r: bool)
        ensures r == (self.sector0_before@ == self.sector0_after@),
    {
        bytes_equal(&self.sector0_before, &self.sector0_after)
    }

    /// Sector 3, outside the request, was left as it was.
    pub fn sector3_unchanged(&self) -> (r: bool)
        ensures r == (self.sector3_before@ == self.sector3_after@),
    {
        bytes_equal(&self.sector3_before, &self.sector3_after)
    }

    pub fn report(&self) -> (r: VmExitReport)
        ensures r == self.report,
    {
        self.report
    }
}



/// A check of the multi-sector run that failed.
pub open spec fn multi_sector_error() -> Error {
    Error::HostEnvironment(HostEnvironmentError::VcpuOperation {
        id: 0,
        operation: "virtio-blk multi-sector proof",
        source: HostIoCause::InvalidData,
    })
}

fn make_multi_sector_error() -> (r: Error)
    ensures r == multi_sector_error(),
{
    Error::HostEnvironment(HostEnvironmentError::VcpuOperation {
        id: 0,
        operation: "virtio-blk multi-sector proof",
        source: HostIoCause::InvalidData,
    })
}

/// The configuration registers the guest reads, in order: IDs, capability pointer, the four
/// virtio capabilities, BAR0.
pub open spec fn probed_config_offsets() -> Seq<u8> {
    seq![0x00u8, 0x34u8, 0x40u8, 0x50u8, 0x64u8, 0x74u8, 0x10u8]
}

/// The address-register value that selects configuration register `offset`.
pub open spec fn spec_config_selector(offset: u8) -> u32 {
    PCI_CONFIG_ENABLE | (1u32 << 11u32) | ((offset as u32) & PCI_CONFIG_REGISTER_MASK)
}

/// One configuration read: a dword write of `selector` to the address port, then a dword read
/// of the data port.
pub open spec fn is_config_read(address: PortIoExit, data: PortIoExit, selector: u32) -> bool {
    &&& address.direction == PortIoDirection::Out
    &&& address.port == PCI_CONFIG_ADDRESS_PORT
    &&& address.size == 4
    &&& address.count == 1
    &&& address.data@ == vstd::bytes::spec_u32_to_le_bytes(selector)
    &&& data.direction == PortIoDirection::In
    &&& data.port == PCI_CONFIG_DATA_PORT
    &&& data.size == 4
    &&& data.count == 1
    &&& data.data@.len() == 0
}

/// The port-I/O exits of a correct run: the seven configuration reads, then one debug-port
/// byte per proof byte.
pub open spec fn io_sequence_valid(exits: Seq<PortIoExit>) -> bool {
    &&& exits.len() == 21
    &&& forall|c: int| 0 <= c < 7 ==> #[trigger] is_config_read(exits[2 * c], exits[2 * c + 1],
        spec_config_selector(probed_config_offsets()[c]))
    &&& forall|k: int| 0 <= k < 7 ==> #[trigger] is_debug_output(exits[14 + k], VIRTIO_BLK_MULTI_SECTOR_PROOF@[k])
}

fn selector_bytes(selector: u32) -> (r: Vec<u8>)
    ensures r@ == vstd::bytes::spec_u32_to_le_bytes(selector),
{
    vstd::bytes::u32_to_le_bytes(selector)
}

fn bytes_match(a: &[u8], b: &[u8]) -> (r: bool)
    ensures r == (a@ == b@),
{
    if a.len() != b.len() {
        return false;
    }
    let mut i: usize = 0;
    while i < a.len()
        invariant
            0 <= i <= a@.len(),
            a@.len() == b@.len(),
            forall|j: int| 0 <= j < i ==> a@[j] == b@[j],
        decreases a@.len() - i,
    {
        if a[i] != b[i] {
            return false;
        }
        i = i + 1;
    }
    assert(a@ =~= b@);
    true
}

/// Accepts the port-I/O exits of a run exactly when they are those of a correct run.
pub fn validate_io_sequence(exits: &[PortIoExit]) -> (r: Result<(), Error>)
    ensures
        io_sequence_valid(exits@) ==> r is Ok,
        !io_sequence_valid(exits@) ==> r == Err::<(), Error>(multi_sector_error()),
{
    if exits.len() != 21 {
        return Err(make_multi_sector_error());
    }
    let offsets: [u8; 7] = [0x00, 0x34, 0x40, 0x50, 0x64, 0x74, 0x10];
    assert(offsets@ =~= probed_config_offsets());
    let mut c: usize = 0;
    while c < 7
        invariant
            0 <= c <= 7,
            exits@.len() == 21,
            offsets@ == probed_config_offsets(),
            forall|k: int| 0 <= k < c ==> #[trigger] is_config_read(exits@[2 * k], exits@[2 * k + 1],
                spec_config_selector(probed_config_offsets()[k])),
        decreases 7 - c,
    {
        let selector = config_selector(offsets[c]);
        let expected = selector_bytes(selector);
        let address = &exits[2 * c];
        let data = &exits[2 * c + 1];
        let ok = address.direction() == PortIoDirection::Out && address.port() == PCI_CONFIG_ADDRESS_PORT
            && address.size() == 4 && address.count() == 1
            && bytes_match(address.output_data(), expected.as_slice())
            && data.direction() == PortIoDirection::In && data.port() == PCI_CONFIG_DATA_PORT
            && data.size() == 4 && data.count() == 1 && data.output_data().len() == 0;
        if !ok {
            proof {
                assert(!is_config_read(exits@[2 * c as int], exits@[2 * c as int + 1],
                    spec_config_selector(probed_config_offsets()[c as int])));
            }
            return Err(make_multi_sector_error());
        }
        c = c + 1;
    }
    let proof_bytes = VIRTIO_BLK_MULTI_SECTOR_PROOF;
    let mut k: usize = 0;
    while k < 7
        invariant
            0 <= k <= 7,
            exits@.len() == 21,
            proof_bytes@ == VIRTIO_BLK_MULTI_SECTOR_PROOF@,
            forall|j: int| 0 <= j < k ==> #[trigger] is_debug_output(exits@[14 + j], VIRTIO_BLK_MULTI_SECTOR_PROOF@[j]),
        decreases 7 - k,
    {
        let exit = &exits[14 + k];
        let data = exit.output_data();
        let ok = exit.direction() == PortIoDirection::Out && exit.port() == DEBUG_PORT && exit.size() == 1
            && exit.count() == 1 && data.len() == 1 && data[0] == proof_bytes[k];
        proof {
            if data@.len() == 1 && data@[0] == proof_bytes@[k as int] {
                assert(data@ =~= seq![proof_bytes@[k as int]]);
            }
        }
        if !ok {
            proof {
                assert(!is_debug_output(exits@[14 + k as int], VIRTIO_BLK_MULTI_SECTOR_PROOF@[k as int]));
            }
            return Err(make_multi_sector_error());
        }
        k = k + 1;
    }
    Ok(())
}

/// The debug byte that marks a queue notification ("W" before the write request, "N" before
/// the read), when the exit is one.
pub open spec fn spec_notify_barrier(io: PortIoExit) -> Option<u8> {
    if is_debug_output(io, WRITE_NOTIFY_BARRIER) {
        Some(WRITE_NOTIFY_BARRIER)
    } else if is_debug_output(io, READ_NOTIFY_BARRIER) {
        Some(READ_NOTIFY_BARRIER)
    } else {
        None
    }
}

pub fn notify_barrier(io: &PortIoExit) -> (r: Option<u8>)
    ensures r == spec_notify_barrier(*io),
{
    let data = io.output_data();
    if io.direction() == PortIoDirection::Out && io.port() == DEBUG_PORT && io.size() == 1 && io.count() == 1
        && data.len() == 1 && (data[0] == WRITE_NOTIFY_BARRIER || data[0] == READ_NOTIFY_BARRIER) {
        assert(data@ =~= seq![data@[0]]);
        Some(data[0])
    } else {
        proof {
            if data@ == seq![WRITE_NOTIFY_BARRIER] || data@ == seq![READ_NOTIFY_BARRIER] {
                assert(data@.len() == 1);
            }
        }
        None
    }
}


/// Where the virtio-blk function's registers and rings sit for the multi-sector run.
#[derive(Debug, Clone, Copy, PartialEq, Eq)]
pub struct VirtioBlkMmioLayout {
    pub bar0: u64,
    pub descriptor_gpa: u64,
    pub avail_gpa: u64,
    pub used_gpa: u64,
    pub isr_offset: u64,
}

/// MMIO exit `i` of a correct run, as (offset in BAR0, direction, length, written bytes): the
/// capacity read, the status handshake, feature negotiation, queue setup, DRIVER_OK, the
/// status read-back, the two queue notifications and the ISR read.
pub open spec fn spec_expected_mmio_exit(layout: VirtioBlkMmioLayout, i: int) -> (u64, MmioDirection, u32, Seq<u8>) {
    seq![
        (0x300u64, MmioDirection::Read, 8u32, Seq::<u8>::empty()),
        (0x14u64, MmioDirection::Write, 1u32, seq![1u8]),
        (0x14u64, MmioDirection::Write, 1u32, seq![3u8]),
        (0x00u64, MmioDirection::Write, 4u32, vstd::bytes::spec_u32_to_le_bytes(1u32)),
        (0x04u64, MmioDirection::Read, 4u32, Seq::<u8>::empty()),
        (0x08u64, MmioDirection::Write, 4u32, vstd::bytes::spec_u32_to_le_bytes(1u32)),
        (0x0cu64, MmioDirection::Write, 4u32, vstd::bytes::spec_u32_to_le_bytes(1u32)),
        (0x14u64, MmioDirection::Write, 1u32, seq![11u8]),
        (0x16u64, MmioDirection::Write, 2u32, vstd::bytes::spec_u16_to_le_bytes(0u16)),
        (0x18u64, MmioDirection::Write, 2u32, vstd::bytes::spec_u16_to_le_bytes(VIRTIO_QUEUE_SIZE)),
        (0x20u64, MmioDirection::Write, 4u32, vstd::bytes::spec_u32_to_le_bytes(layout.descriptor_gpa as u32)),
        (0x24u64, MmioDirection::Write, 4u32, vstd::bytes::spec_u32_to_le_bytes(0u32)),
        (0x28u64, MmioDirection::Write, 4u32, vstd::bytes::spec_u32_to_le_bytes(layout.avail_gpa as u32)),
        (0x2cu64, MmioDirection::Write, 4u32, vstd::bytes::spec_u32_to_le_bytes(0u32)),
        (0x30u64, MmioDirection::Write, 4u32, vstd::bytes::spec_u32_to_le_bytes(layout.used_gpa as u32)),
        (0x34u64, MmioDirection::Write, 4u32, vstd::bytes::spec_u32_to_le_bytes(0u32)),
        (0x1cu64, MmioDirection::Write, 2u32, vstd::bytes::spec_u16_to_le_bytes(1u16)),
        (0x14u64, MmioDirection::Write, 1u32, seq![15u8]),
        (0x14u64, MmioDirection::Read, 1u32, Seq::<u8>::empty()),
        (0x100u64, MmioDirection::Write, 2u32, vstd::bytes::spec_u16_to_le_bytes(0u16)),
        (0x100u64, MmioDirection::Write, 2u32, vstd::bytes::spec_u16_to_le_bytes(0u16)),
        (layout.isr_offset, MmioDirection::Read, 1u32, Seq::<u8>::empty()),
    ][i]
}

fn expected_mmio_exit(layout: VirtioBlkMmioLayout, i: usize) -> (r: (u64, MmioDirection, u32, Vec<u8>))
    requires i < 22,
    ensures
        r.0 == spec_expected_mmio_exit(layout, i as int).0,
        r.1 == spec_expected_mmio_exit(layout, i as int).1,
        r.2 == spec_expected_mmio_exit(layout, i as int).2,
        r.3@ == spec_expected_mmio_exit(layout, i as int).3,
{
    let r = match i {
        0 => (0x300u64, MmioDirection::Read, 8u32, Vec::new()),
        1 => (0x14u64, MmioDirection::Write, 1u32, vec![1u8]),
        2 => (0x14u64, MmioDirection::Write, 1u32, vec![3u8]),
        3 => (0x00u64, MmioDirection::Write, 4u32, vstd::bytes::u32_to_le_bytes(1u32)),
        4 => (0x04u64, MmioDirection::Read, 4u32, Vec::new()),
        5 => (0x08u64, MmioDirection::Write, 4u32, vstd::bytes::u32_to_le_bytes(1u32)),
        6 => (0x0cu64, MmioDirection::Write, 4u32, vstd::bytes::u32_to_le_bytes(1u32)),
        7 => (0x14u64, MmioDirection::Write, 1u32, vec![11u8]),
        8 => (0x16u64, MmioDirection::Write, 2u32, vstd::bytes::u16_to_le_bytes(0u16)),
        9 => (0x18u64, MmioDirection::Write, 2u32, vstd::bytes::u16_to_le_bytes(VIRTIO_QUEUE_SIZE)),
        10 => (0x20u64, MmioDirection::Write, 4u32, vstd::bytes::u32_to_le_bytes(layout.descriptor_gpa as u32)),
        11 => (0x24u64, MmioDirection::Write, 4u32, vstd::bytes::u32_to_le_bytes(0u32)),
        12 => (0x28u64, MmioDirection::Write, 4u32, vstd::bytes::u32_to_le_bytes(layout.avail_gpa as u32)),
        13 => (0x2cu64, MmioDirection::Write, 4u32, vstd::bytes::u32_to_le_bytes(0u32)),
        14 => (0x30u64, MmioDirection::Write, 4u32, vstd::bytes::u32_to_le_bytes(layout.used_gpa as u32)),
        15 => (0x34u64, MmioDirection::Write, 4u32, vstd::bytes::u32_to_le_bytes(0u32)),
        16 => (0x1cu64, MmioDirection::Write, 2u32, vstd::bytes::u16_to_le_bytes(1u16)),
        17 => (0x14u64, MmioDirection::Write, 1u32, vec![15u8]),
        18 => (0x14u64, MmioDirection::Read, 1u32, Vec::new()),
        19 => (0x100u64, MmioDirection::Write, 2u32, vstd::bytes::u16_to_le_bytes(0u16)),
        20 => (0x100u64, MmioDirection::Write, 2u32, vstd::bytes::u16_to_le_bytes(0u16)),
        _ => (layout.isr_offset, MmioDirection::Read, 1u32, Vec::new()),
    };
    proof {
        if i <= 20 && (i == 1 || i == 2 || i == 7 || i == 17) {
            assert(r.3@ =~= spec_expected_mmio_exit(layout, i as int).3);
        }
    }
    r
}

/// Whether exit `exit` is the expected MMIO exit `i`.
pub open spec fn matches_expected_mmio(exit: MmioExit, layout: VirtioBlkMmioLayout, i: int) -> bool {
    let e = spec_expected_mmio_exit(layout, i);
    &&& exit.address == layout.bar0 + e.0
    &&& exit.direction == e.1
    &&& exit.length == e.2
    &&& exit.data@ == e.3
}

/// The MMIO exits of a correct run: exactly the 22 expected ones, in order.
pub open spec fn mmio_sequence_valid(exits: Seq<MmioExit>, layout: VirtioBlkMmioLayout) -> bool {
    &&& exits.len() == 22
    &&& forall|i: int| 0 <= i < 22 ==> #[trigger] matches_expected_mmio(exits[i], layout, i)
}

/// Accepts the MMIO exits of a run exactly when they are those of a correct run.
pub fn validate_mmio_sequence(exits: &[MmioExit], layout: VirtioBlkMmioLayout) -> (r: Result<(), Error>)
    requires
        layout.bar0 + 0x300 <= u64::MAX,
        layout.bar0 + layout.isr_offset <= u64::MAX,
    ensures
        mmio_sequence_valid(exits@, layout) ==> r is Ok,
        !mmio_sequence_valid(exits@, layout) ==> r == Err::<(), Error>(multi_sector_error()),
{
    if exits.len() != 22 {
        return Err(make_multi_sector_error());
    }
    let mut i: usize = 0;
    while i < 22
        invariant
            0 <= i <= 22,
            exits@.len() == 22,
            layout.bar0 + 0x300 <= u64::MAX,
            layout.bar0 + layout.isr_offset <= u64::MAX,
            forall|j: int| 0 <= j < i ==> #[trigger] matches_expected_mmio(exits@[j], layout, j),
        decreases 22 - i,
    {
        let (offset, direction, length, payload) = expected_mmio_exit(layout, i);
        let exit = &exits[i];
        let ok = exit.address() == layout.bar0 + offset && exit.direction() == direction && exit.length() == length
            && bytes_match(exit.write_data(), payload.as_slice());
        if !ok {
            proof {
                assert(!matches_expected_mmio(exits@[i as int], layout, i as int));
            }
            return Err(make_multi_sector_error());
        }
        i = i + 1;
    }
    Ok(())
}


/// The queue completions the host has taken at the guest's notify barriers so far.
#[derive(Debug, Clone, Copy, PartialEq, Eq)]
pub struct MultiSectorBarrierState {
    pub write_completion: Option<VirtioBlkQueueCompletion>,
    pub read_completion: Option<VirtioBlkQueueCompletion>,
}

impl MultiSectorBarrierState {
    /// No barrier seen yet.
    pub fn new() -> (r: Self)
        ensures r.write_completion is None, r.read_completion is None,
    {
        MultiSectorBarrierState { write_completion: None, read_completion: None }
    }
}

/// What a notify barrier leads to. At each barrier the device must have recorded exactly the
/// queue notification, and processing the queue must have completed a request. The write
/// barrier must come first and leave the sectors holding the payload; the read barrier must
/// come after exactly one write completion; no barrier may come twice.
pub open spec fn spec_multi_sector_barrier_step(
    state: MultiSectorBarrierState,
    barrier: u8,
    queue_notified: bool,
    completion: Option<VirtioBlkQueueCompletion>,
    backing: Seq<u8>,
) -> Result<MultiSectorBarrierState, Error> {
    if !queue_notified || completion is None {
        Err(multi_sector_error())
    } else if barrier == WRITE_NOTIFY_BARRIER {
        if state.write_completion is Some || state.read_completion is Some
            || backing != spec_multi_sector_payload() {
            Err(multi_sector_error())
        } else {
            Ok(MultiSectorBarrierState { write_completion: completion, read_completion: None })
        }
    } else if barrier == READ_NOTIFY_BARRIER {
        if state.write_completion is None || state.read_completion is Some {
            Err(multi_sector_error())
        } else {
            Ok(MultiSectorBarrierState { write_completion: state.write_completion, read_completion: completion })
        }
    } else {
        Err(multi_sector_error())
    }
}

/// Takes the host's observation at a notify barrier: whether the device recorded the queue
/// notification, the completion that processing the queue gave (None where it gave none), and
/// the backing sectors the request covers after processing.
pub fn multi_sector_barrier_step(
    state: MultiSectorBarrierState,
    barrier: u8,
    queue_notified: bool,
    completion: Option<VirtioBlkQueueCompletion>,
    backing: &[u8],
) -> (r: Result<MultiSectorBarrierState, Error>)
    ensures r == spec_multi_sector_barrier_step(state, barrier, queue_notified, completion, backing@),
{
    if !queue_notified || completion.is_none() {
        return Err(make_multi_sector_error());
    }
    if barrier == WRITE_NOTIFY_BARRIER {
        if state.write_completion.is_some() || state.read_completion.is_some() {
            return Err(make_multi_sector_error());
        }
        let payload = deterministic_multi_sector_payload();
        let mut same = backing.len() == payload.len();
        let mut i: usize = 0;
        while same && i < backing.len()
            invariant
                payload@ == spec_multi_sector_payload(),
                same ==> backing@.len() == payload@.len(),
                i <= backing@.len(),
                same ==> forall|k: int| 0 <= k < i ==> backing@[k] == payload@[k],
                !same ==> backing@ != payload@,
            decreases backing.len() - i,
        {
            if backing[i] != payload[i] {
                same = false;
            }
            i = i + 1;
        }
        proof {
            if same {
                assert(backing@ =~= payload@);
            }
        }
        if !same {
            return Err(make_multi_sector_error());
        }
        Ok(MultiSectorBarrierState { write_completion: completion, read_completion: None })
    } else if barrier == READ_NOTIFY_BARRIER {
        if state.write_completion.is_none() || state.read_completion.is_some() {
            return Err(make_multi_sector_error());
        }
        Ok(MultiSectorBarrierState { write_completion: state.write_completion, read_completion: completion })
    } else {
        Err(make_multi_sector_error())
    }
}

/// After the run both requests must have been processed and no device event left over; the two
/// completions are returned, write first.
pub fn multi_sector_barriers_complete(state: MultiSectorBarrierState, unconsumed_event: bool)
    -> (r: Result<(VirtioBlkQueueCompletion, VirtioBlkQueueCompletion), Error>)
    ensures
        match r {
            Ok((write, read)) => !unconsumed_event && state.write_completion == Some(write)
                && state.read_completion == Some(read),
            Err(e) => e == multi_sector_error() && (unconsumed_event || state.write_completion is None
                || state.read_completion is None),
        },
{
    match (state.write_completion, state.read_completion) {
        (Some(write), Some(read)) => {
            if unconsumed_event {
                return Err(make_multi_sector_error());
            }
            Ok((write, read))
        },
        _ => Err(make_multi_sector_error()),
    }
}


/// What a correct multi-sector run leaves: the write committed the payload to sectors 1 and 2
/// and the read brought it back into guest memory; sectors 0 and 3 kept their contents; both
/// completions used descriptor 0 at the request's start sector, the write with a one-byte used
/// length and the read with the data plus status; the used ring holds exactly those two entries;
/// the status byte is OK; the guest printed its proof; and it halted at `terminal_rip` with RFLAGS
/// bit 1 set.
pub open spec fn multi_sector_result_valid(r: VirtioBlkMultiSectorGuestResult, terminal_rip: u64) -> bool {
    &&& r.backing@ == spec_multi_sector_payload()
    &&& r.readback@ == spec_multi_sector_payload()
    &&& r.sector0_before@ == r.sector0_after@
    &&& r.sector3_before@ == r.sector3_after@
    &&& r.write_completion == (VirtioBlkQueueCompletion { descriptor_id: 0, length: 1, sector: VIRTIO_BLK_MULTI_SECTOR_START })
    &&& r.read_completion == (VirtioBlkQueueCompletion {
        descriptor_id: 0,
        length: READ_USED_LEN,
        sector: VIRTIO_BLK_MULTI_SECTOR_START,
    })
    &&& r.used_idx == 2
    &&& r.first_used_id == 0
    &&& r.first_used_len == 1
    &&& r.second_used_id == 0
    &&& r.second_used_len == READ_USED_LEN
    &&& r.request_status == VIRTIO_BLK_S_OK
    &&& r.proof@ == VIRTIO_BLK_MULTI_SECTOR_PROOF@
    &&& r.report.exit == VcpuExit::Hlt
    &&& r.report.rip == terminal_rip
    &&& r.report.rflags & 2 == 2
}

fn same_bytes(a: &[u8], b: &[u8]) -> (r: bool)
    ensures r == (a@ == b@),
{
    if a.len() != b.len() {
        return false;
    }
    let mut i: usize = 0;
    while i < a.len()
        invariant
            a@.len() == b@.len(),
            i <= a@.len(),
            forall|k: int| 0 <= k < i ==> a@[k] == b@[k],
        decreases a.len() - i,
    {
        if a[i] != b[i] {
            return false;
        }
        i = i + 1;
    }
    assert(a@ =~= b@);
    true
}

/// The final verification of a multi-sector run: the result is accepted exactly when
/// `multi_sector_result_valid` holds of it.
pub fn check_multi_sector_result(r: &VirtioBlkMultiSectorGuestResult, terminal_rip: u64) -> (res: Result<(), Error>)
    ensures
        multi_sector_result_valid(*r, terminal_rip) ==> res is Ok,
        !multi_sector_result_valid(*r, terminal_rip) ==> res == Err::<(), Error>(multi_sector_error()),
{
    let payload = deterministic_multi_sector_payload();
    let proof_bytes = VIRTIO_BLK_MULTI_SECTOR_PROOF;
    proof {
        assert(proof_bytes@ == VIRTIO_BLK_MULTI_SECTOR_PROOF@);
    }
    let valid = same_bytes(&r.backing, &payload) && same_bytes(&r.readback, &payload)
        && same_bytes(&r.sector0_before, &r.sector0_after) && same_bytes(&r.sector3_before, &r.sector3_after)
        && r.write_completion.descriptor_id == 0 && r.write_completion.length == 1
        && r.write_completion.sector == VIRTIO_BLK_MULTI_SECTOR_START && r.read_completion.descriptor_id == 0
        && r.read_completion.length == READ_USED_LEN && r.read_completion.sector == VIRTIO_BLK_MULTI_SECTOR_START
        && r.used_idx == 2 && r.first_used_id == 0 && r.first_used_len == 1 && r.second_used_id == 0
        && r.second_used_len == READ_USED_LEN && r.request_status == VIRTIO_BLK_S_OK
        && same_bytes(&r.proof, &proof_bytes) && r.report.exit == VcpuExit::Hlt && r.report.rip == terminal_rip
        && r.report.rflags & 2 == 2;
    if !valid {
        return Err(make_multi_sector_error());
    }
    Ok(())
}

} // verus!
