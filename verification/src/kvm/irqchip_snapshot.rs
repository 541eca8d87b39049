//! Checkpoints of the in-kernel interrupt controllers: the two PICs (sixteen bytes each) and the
//! IOAPIC (216 bytes), decoded from and encoded into the kernel's 512-byte irqchip payload.
//! Encoding a decoded state gives back the payload's semantic bytes, and decoding an encoded
//! state gives back the state; the rest of the payload is left alone.
use crate::codec::{le_u32_at, le_u64_at, read_u32_le, read_u64_le};
use crate::error::{Error, HostEnvironmentError, HostIoCause};
use crate::memory::splice;
use vstd::bytes::{spec_u32_to_le_bytes, spec_u64_to_le_bytes, u32_to_le_bytes, u64_to_le_bytes};
use vstd::prelude::*;

verus! {

pub const KVM_GET_IRQCHIP: u64 = 0xC208_AE62;
pub const KVM_SET_IRQCHIP: u64 = 0x8208_AE63;
pub const KVM_IRQCHIP_PIC_MASTER: u32 = 0;
pub const KVM_IRQCHIP_PIC_SLAVE: u32 = 1;
pub const KVM_IRQCHIP_IOAPIC: u32 = 2;
pub const KVM_IRQCHIP_PAYLOAD_SIZE: usize = 512;
pub const KVM_IOAPIC_NUM_PINS: usize = 24;
pub const KVM_IOAPIC_STATE_SIZE: usize = 216;
pub const KVM_PIC_STATE_SIZE: usize = 16;

/// `struct kvm_pic_state`.
#[derive(Debug, Clone, Copy, Default, PartialEq, Eq)]
pub struct KvmPicState {
    pub last_irr: u8,
    pub irr: u8,
    pub imr: u8,
    pub isr: u8,
    pub priority_add: u8,
    pub irq_base: u8,
    pub read_reg_select: u8,
    pub poll: u8,
    pub special_mask: u8,
    pub init_state: u8,
    pub auto_eoi: u8,
    pub rotate_on_auto_eoi: u8,
    pub special_fully_nested_mode: u8,
    pub init4: u8,
    pub elcr: u8,
    pub elcr_mask: u8,
}

/// `struct kvm_ioapic_state`.
#[derive(Debug, Clone, Copy, Default, PartialEq, Eq)]
pub struct KvmIoapicState {
    pub base_address: u64,
    pub ioregsel: u32,
    pub id: u32,
    pub irr: u32,
    pub pad: u32,
    pub redirtbl: [u64; 24],
}

/// `struct kvm_irqchip`: which chip, and its state in a fixed payload.
#[derive(Debug, Clone, PartialEq, Eq)]
pub struct KvmIrqchip {
    pub chip_id: u32,
    pub pad: u32,
    pub chip: [u8; 512],
}

impl KvmIrqchip {
    /// A zeroed request for chip `chip_id`.
    pub fn request(chip_id: u32) -> (r: Self)
        ensures
            r.chip_id == chip_id,
            r.pad == 0,
            r.chip@.len() == KVM_IRQCHIP_PAYLOAD_SIZE,
            forall|i: int| 0 <= i < KVM_IRQCHIP_PAYLOAD_SIZE ==> r.chip@[i] == 0,
    {
        KvmIrqchip { chip_id, pad: 0, chip: [0u8; 512] }
    }
}

/// The sixteen bytes of a PIC state, in field order.
pub open spec fn pic_image(s: KvmPicState) -> Seq<u8> {
    seq![s.last_irr, s.irr, s.imr, s.isr, s.priority_add, s.irq_base, s.read_reg_select, s.poll,
        s.special_mask, s.init_state, s.auto_eoi, s.rotate_on_auto_eoi, s.special_fully_nested_mode, s.init4,
        s.elcr, s.elcr_mask]
}

/// The PIC state held in the first sixteen bytes of a payload.
pub open spec fn spec_decode_pic(b: Seq<u8>) -> KvmPicState {
    KvmPicState {
        last_irr: b[0],
        irr: b[1],
        imr: b[2],
        isr: b[3],
        priority_add: b[4],
        irq_base: b[5],
        read_reg_select: b[6],
        poll: b[7],
        special_mask: b[8],
        init_state: b[9],
        auto_eoi: b[10],
        rotate_on_auto_eoi: b[11],
        special_fully_nested_mode: b[12],
        init4: b[13],
        elcr: b[14],
        elcr_mask: b[15],
    }
}

pub fn decode_pic_state(bytes: &[u8; 512]) -> (r: KvmPicState)
    ensures r == spec_decode_pic(bytes@),
{
    KvmPicState {
        last_irr: bytes[0],
        irr: bytes[1],
        imr: bytes[2],
        isr: bytes[3],
        priority_add: bytes[4],
        irq_base: bytes[5],
        read_reg_select: bytes[6],
        poll: bytes[7],
        special_mask: bytes[8],
        init_state: bytes[9],
        auto_eoi: bytes[10],
        rotate_on_auto_eoi: bytes[11],
        special_fully_nested_mode: bytes[12],
        init4: bytes[13],
        elcr: bytes[14],
        elcr_mask: bytes[15],
    }
}

/// Copies `image` over the start of `bytes`.
fn overwrite_prefix(bytes: &mut [u8; 512], image: &Vec<u8>)
    requires image@.len() <= KVM_IRQCHIP_PAYLOAD_SIZE,
    ensures final(bytes)@ == splice(old(bytes)@, 0, image@),
{
    let ghost before = bytes@;
    let mut k: usize = 0;
    while k < image.len()
        invariant
            0 <= k <= image@.len() <= KVM_IRQCHIP_PAYLOAD_SIZE,
            bytes@.len() == KVM_IRQCHIP_PAYLOAD_SIZE,
            before.len() == KVM_IRQCHIP_PAYLOAD_SIZE,
            forall|j: int| 0 <= j < k ==> bytes@[j] == image@[j],
            forall|j: int| k <= j < KVM_IRQCHIP_PAYLOAD_SIZE ==> bytes@[j] == before[j],
        decreases image@.len() - k,
    {
        bytes[k] = image[k];
        k = k + 1;
    }
    assert(bytes@ =~= splice(before, 0, image@));
}

/// Writes a PIC state into the first sixteen bytes of a payload; the rest is unchanged.
pub fn encode_pic_state(state: KvmPicState, bytes: &mut [u8; 512])
    ensures final(bytes)@ == splice(old(bytes)@, 0, pic_image(state)),
{
    let image = vec![state.last_irr, state.irr, state.imr, state.isr, state.priority_add, state.irq_base,
        state.read_reg_select, state.poll, state.special_mask, state.init_state, state.auto_eoi,
        state.rotate_on_auto_eoi, state.special_fully_nested_mode, state.init4, state.elcr, state.elcr_mask];
    assert(image@ =~= pic_image(state));
    overwrite_prefix(bytes, &image);
}

/// Decoding an encoded PIC state gives the state back, and encoding a decoded payload leaves
/// the payload as it was.
pub proof fn lemma_pic_round_trip(state: KvmPicState, bytes: Seq<u8>)
    requires bytes.len() == KVM_IRQCHIP_PAYLOAD_SIZE,
    ensures
        spec_decode_pic(splice(bytes, 0, pic_image(state))) == state,
        splice(bytes, 0, pic_image(spec_decode_pic(bytes))) == bytes,
{
    let encoded = splice(bytes, 0, pic_image(state));
    assert(encoded[2] == state.imr);
    assert(splice(bytes, 0, pic_image(spec_decode_pic(bytes))) =~= bytes);
}

/// The redirection table, eight little-endian bytes per pin.
pub open spec fn table_image(t: Seq<u64>) -> Seq<u8>
    decreases t.len(),
{
    if t.len() == 0 { Seq::empty() } else { table_image(t.drop_last()) + spec_u64_to_le_bytes(t.last()) }
}

/// The 216 bytes of an IOAPIC state: base, selector, id, irr, pad, then the table.
pub open spec fn ioapic_image(s: KvmIoapicState) -> Seq<u8> {
    spec_u64_to_le_bytes(s.base_address) + spec_u32_to_le_bytes(s.ioregsel) + spec_u32_to_le_bytes(s.id)
        + spec_u32_to_le_bytes(s.irr) + spec_u32_to_le_bytes(s.pad) + table_image(s.redirtbl@)
}

/// `state` is the IOAPIC state held in the first 216 bytes of payload `b`.
pub open spec fn is_decoded_ioapic(b: Seq<u8>, state: KvmIoapicState) -> bool {
    &&& state.base_address == le_u64_at(b, 0)
    &&& state.ioregsel == le_u32_at(b, 8)
    &&& state.id == le_u32_at(b, 12)
    &&& state.irr == le_u32_at(b, 16)
    &&& state.pad == le_u32_at(b, 20)
    &&& forall|i: int| 0 <= i < KVM_IOAPIC_NUM_PINS ==> #[trigger] state.redirtbl@[i] == le_u64_at(b, 24 + 8 * i)
}

proof fn lemma_table_image(t: Seq<u64>)
    ensures
        table_image(t).len() == 8 * t.len(),
        forall|i: int| 0 <= i < t.len() ==> #[trigger] table_image(t).subrange(8 * i, 8 * i + 8)
            == spec_u64_to_le_bytes(t[i]),
    decreases t.len(),
{
    vstd::bytes::lemma_auto_spec_u64_to_from_le_bytes();
    if t.len() > 0 {
        let prefix = t.drop_last();
        lemma_table_image(prefix);
        let head = table_image(prefix);
        let tail = spec_u64_to_le_bytes(t.last());
        assert(tail.len() == 8);
        assert forall|i: int| 0 <= i < t.len() implies #[trigger] table_image(t).subrange(8 * i, 8 * i + 8)
            == spec_u64_to_le_bytes(t[i]) by {
            if i < prefix.len() {
                assert(head.subrange(8 * i, 8 * i + 8) == spec_u64_to_le_bytes(prefix[i]));
                assert((head + tail).subrange(8 * i, 8 * i + 8) =~= head.subrange(8 * i, 8 * i + 8));
            } else {
                assert((head + tail).subrange(8 * i, 8 * i + 8) =~= tail);
            }
        }
    }
}

pub fn decode_ioapic_state(bytes: &[u8; 512]) -> (r: KvmIoapicState)
    ensures is_decoded_ioapic(bytes@, r),
{
    let s = bytes.as_slice();
    let mut redirtbl = [0u64; 24];
    let mut i: usize = 0;
    while i < KVM_IOAPIC_NUM_PINS
        invariant
            0 <= i <= KVM_IOAPIC_NUM_PINS,
            s@ == bytes@,
            s@.len() == KVM_IRQCHIP_PAYLOAD_SIZE,
            redirtbl@.len() == KVM_IOAPIC_NUM_PINS,
            forall|j: int| 0 <= j < i ==> #[trigger] redirtbl@[j] == le_u64_at(bytes@, 24 + 8 * j),
        decreases KVM_IOAPIC_NUM_PINS - i,
    {
        redirtbl[i] = read_u64_le(s, 24 + 8 * i);
        i = i + 1;
    }
    KvmIoapicState {
        base_address: read_u64_le(s, 0),
        ioregsel: read_u32_le(s, 8),
        id: read_u32_le(s, 12),
        irr: read_u32_le(s, 16),
        pad: read_u32_le(s, 20),
        redirtbl,
    }
}

/// Writes an IOAPIC state into the first 216 bytes of a payload; the rest is unchanged.
pub fn encode_ioapic_state(state: KvmIoapicState, bytes: &mut [u8; 512])
    ensures final(bytes)@ == splice(old(bytes)@, 0, ioapic_image(state)),
{
    proof {
        vstd::bytes::lemma_auto_spec_u64_to_from_le_bytes();
        vstd::bytes::lemma_auto_spec_u32_to_from_le_bytes();
    }
    let mut image = u64_to_le_bytes(state.base_address);
    let mut field = u32_to_le_bytes(state.ioregsel);
    image.append(&mut field);
    let mut field = u32_to_le_bytes(state.id);
    image.append(&mut field);
    let mut field = u32_to_le_bytes(state.irr);
    image.append(&mut field);
    let mut field = u32_to_le_bytes(state.pad);
    image.append(&mut field);
    let ghost header = image@;
    assert(header.len() == 24);
    let mut i: usize = 0;
    while i < KVM_IOAPIC_NUM_PINS
        invariant
            0 <= i <= KVM_IOAPIC_NUM_PINS,
            state.redirtbl@.len() == KVM_IOAPIC_NUM_PINS,
            header.len() == 24,
            image@ == header + table_image(state.redirtbl@.take(i as int)),
            image@.len() == 24 + 8 * i,
        decreases KVM_IOAPIC_NUM_PINS - i,
    {
        let mut entry = u64_to_le_bytes(state.redirtbl[i]);
        image.append(&mut entry);
        proof {
            let t = state.redirtbl@.take(i as int + 1);
            assert(t.drop_last() =~= state.redirtbl@.take(i as int));
            assert(t.last() == state.redirtbl@[i as int]);
            assert(image@ =~= header + table_image(t));
        }
        i = i + 1;
    }
    assert(state.redirtbl@.take(24) =~= state.redirtbl@);
    assert(image@ =~= ioapic_image(state));
    overwrite_prefix(bytes, &image);
}

/// Decoding an encoded IOAPIC state gives the state back.
pub proof fn lemma_ioapic_decode_encode(state: KvmIoapicState, bytes: Seq<u8>)
    requires bytes.len() == KVM_IRQCHIP_PAYLOAD_SIZE,
    ensures is_decoded_ioapic(splice(bytes, 0, ioapic_image(state)), state),
{
    vstd::bytes::lemma_auto_spec_u64_to_from_le_bytes();
    vstd::bytes::lemma_auto_spec_u32_to_from_le_bytes();
    lemma_table_image(state.redirtbl@);
    let image = ioapic_image(state);
    let encoded = splice(bytes, 0, image);
    let table = table_image(state.redirtbl@);
    assert(image.len() == 216);
    assert(encoded.subrange(0, 8) =~= spec_u64_to_le_bytes(state.base_address));
    assert(encoded.subrange(8, 12) =~= spec_u32_to_le_bytes(state.ioregsel));
    assert(encoded.subrange(12, 16) =~= spec_u32_to_le_bytes(state.id));
    assert(encoded.subrange(16, 20) =~= spec_u32_to_le_bytes(state.irr));
    assert(encoded.subrange(20, 24) =~= spec_u32_to_le_bytes(state.pad));
    assert forall|i: int| 0 <= i < KVM_IOAPIC_NUM_PINS implies #[trigger] state.redirtbl@[i]
        == le_u64_at(encoded, 24 + 8 * i) by {
        assert(table.subrange(8 * i, 8 * i + 8) == spec_u64_to_le_bytes(state.redirtbl@[i]));
        assert(encoded.subrange(24 + 8 * i, 24 + 8 * i + 8) =~= table.subrange(8 * i, 8 * i + 8));
    }
}

/// Encoding a decoded payload leaves the payload as it was.
pub proof fn lemma_ioapic_encode_decode(state: KvmIoapicState, bytes: Seq<u8>)
    requires
        bytes.len() == KVM_IRQCHIP_PAYLOAD_SIZE,
        is_decoded_ioapic(bytes, state),
    ensures splice(bytes, 0, ioapic_image(state)) == bytes,
{
    vstd::bytes::lemma_auto_spec_u64_to_from_le_bytes();
    vstd::bytes::lemma_auto_spec_u32_to_from_le_bytes();
    lemma_table_image(state.redirtbl@);
    let image = ioapic_image(state);
    let table = table_image(state.redirtbl@);
    assert(spec_u64_to_le_bytes(state.base_address) == bytes.subrange(0, 8));
    assert(spec_u32_to_le_bytes(state.ioregsel) == bytes.subrange(8, 12));
    assert(spec_u32_to_le_bytes(state.id) == bytes.subrange(12, 16));
    assert(spec_u32_to_le_bytes(state.irr) == bytes.subrange(16, 20));
    assert(spec_u32_to_le_bytes(state.pad) == bytes.subrange(20, 24));
    assert forall|k: int| 24 <= k < 216 implies image[k] == bytes[k] by {
        let i = (k - 24) / 8;
        let j = (k - 24) % 8;
        assert(0 <= i < 24);
        assert(state.redirtbl@[i] == le_u64_at(bytes, 24 + 8 * i));
        assert(spec_u64_to_le_bytes(state.redirtbl@[i]) == bytes.subrange(24 + 8 * i, 24 + 8 * i + 8));
        assert(table.subrange(8 * i, 8 * i + 8) == spec_u64_to_le_bytes(state.redirtbl@[i]));
        assert(image[k] == table[k - 24]);
        assert(table[k - 24] == table.subrange(8 * i, 8 * i + 8)[j]);
    }
    assert forall|k: int| 0 <= k < 24 implies image[k] == bytes[k] by {
        if k < 8 {
            assert(image[k] == spec_u64_to_le_bytes(state.base_address)[k]);
        } else if k < 12 {
            assert(image[k] == spec_u32_to_le_bytes(state.ioregsel)[k - 8]);
        } else if k < 16 {
            assert(image[k] == spec_u32_to_le_bytes(state.id)[k - 12]);
        } else if k < 20 {
            assert(image[k] == spec_u32_to_le_bytes(state.irr)[k - 16]);
        } else {
            assert(image[k] == spec_u32_to_le_bytes(state.pad)[k - 20]);
        }
    }
    assert(splice(bytes, 0, image) =~= bytes);
}

/// A checkpoint of the master PIC.
#[derive(Debug, Clone, PartialEq, Eq)]
pub struct MasterPicStateSnapshot {
    pub state: KvmPicState,
}

impl MasterPicStateSnapshot {
    pub fn imr(&self) -> (r: u8)
        ensures r == self.state.imr,
    {
        self.state.imr
    }

    /// The same checkpoint with another interrupt mask.
    pub fn with_imr(&self, imr: u8) -> (r: Self)
        ensures r.state == (KvmPicState { imr, ..self.state }),
    {
        let mut state = self.state;
        state.imr = imr;
        MasterPicStateSnapshot { state }
    }
}

/// A checkpoint of the slave PIC.
#[derive(Debug, Clone, PartialEq, Eq)]
pub struct SlavePicStateSnapshot {
    pub state: KvmPicState,
}

impl SlavePicStateSnapshot {
    pub fn imr(&self) -> (r: u8)
        ensures r == self.state.imr,
    {
        self.state.imr
    }

    /// The same checkpoint with another interrupt mask.
    pub fn with_imr(&self, imr: u8) -> (r: Self)
        ensures r.state == (KvmPicState { imr, ..self.state }),
    {
        let mut state = self.state;
        state.imr = imr;
        SlavePicStateSnapshot { state }
    }
}

/// A checkpoint of the IOAPIC.
#[derive(Debug, Clone, PartialEq, Eq)]
pub struct IoapicStateSnapshot {
    pub state: KvmIoapicState,
}

impl IoapicStateSnapshot {
    pub fn base_address(&self) -> (r: u64)
        ensures r == self.state.base_address,
    {
        self.state.base_address
    }

    pub fn ioregsel(&self) -> (r: u32)
        ensures r == self.state.ioregsel,
    {
        self.state.ioregsel
    }

    pub fn id(&self) -> (r: u32)
        ensures r == self.state.id,
    {
        self.state.id
    }

    pub fn irr(&self) -> (r: u32)
        ensures r == self.state.irr,
    {
        self.state.irr
    }

    pub fn pad(&self) -> (r: u32)
        ensures r == self.state.pad,
    {
        self.state.pad
    }

    /// The redirection entry of `pin`, if the IOAPIC has that pin.
    pub fn redirection_entry(&self, pin: usize) -> (r: Option<u64>)
        ensures
            pin < KVM_IOAPIC_NUM_PINS ==> r == Some(self.state.redirtbl@[pin as int]),
            pin >= KVM_IOAPIC_NUM_PINS ==> r is None,
    {
        if pin < KVM_IOAPIC_NUM_PINS {
            Some(self.state.redirtbl[pin])
        } else {
            None
        }
    }

    /// The same checkpoint with the entry of `pin` replaced, if the IOAPIC has that pin.
    pub fn with_redirection_entry(&self, pin: usize, entry: u64) -> (r: Option<Self>)
        ensures
            pin < KVM_IOAPIC_NUM_PINS ==> (r matches Some(s) && s.state.redirtbl@ == self.state.redirtbl@.update(
                pin as int, entry) && s.state.base_address == self.state.base_address
                && s.state.ioregsel == self.state.ioregsel && s.state.id == self.state.id
                && s.state.irr == self.state.irr && s.state.pad == self.state.pad),
            pin >= KVM_IOAPIC_NUM_PINS ==> r is None,
    {
        if pin >= KVM_IOAPIC_NUM_PINS {
            return None;
        }
        let mut state = self.state;
        state.redirtbl[pin] = entry;
        Some(IoapicStateSnapshot { state })
    }
}

/// Which kernel irqchip operation failed.
#[derive(Debug, Clone, Copy, PartialEq, Eq)]
pub enum IrqchipOperation {
    Get,
    Restore,
    ValidateGet,
}

/// Which controller an irqchip operation concerned.
#[derive(Debug, Clone, Copy, PartialEq, Eq)]
pub enum IrqchipChip {
    MasterPic,
    SlavePic,
    Ioapic,
}

impl IrqchipChip {
    pub open spec fn spec_id(self) -> u32 {
        match self {
            IrqchipChip::MasterPic => KVM_IRQCHIP_PIC_MASTER,
            IrqchipChip::SlavePic => KVM_IRQCHIP_PIC_SLAVE,
            IrqchipChip::Ioapic => KVM_IRQCHIP_IOAPIC,
        }
    }

    /// The kernel's number for this controller.
    pub fn id(self) -> (r: u32)
        ensures r == self.spec_id(),
    {
        match self {
            IrqchipChip::MasterPic => KVM_IRQCHIP_PIC_MASTER,
            IrqchipChip::SlavePic => KVM_IRQCHIP_PIC_SLAVE,
            IrqchipChip::Ioapic => KVM_IRQCHIP_IOAPIC,
        }
    }
}

/// The name an irqchip failure is reported under.
pub open spec fn spec_irqchip_operation_name(operation: IrqchipOperation, chip: IrqchipChip) -> &'static str {
    match (operation, chip) {
        (IrqchipOperation::Get, IrqchipChip::MasterPic) => "KVM_GET_IRQCHIP master PIC",
        (IrqchipOperation::Restore, IrqchipChip::MasterPic) => "KVM_SET_IRQCHIP master PIC",
        (IrqchipOperation::ValidateGet, IrqchipChip::MasterPic) => "validate KVM_GET_IRQCHIP master PIC",
        (IrqchipOperation::Get, IrqchipChip::SlavePic) => "KVM_GET_IRQCHIP slave PIC",
        (IrqchipOperation::Restore, IrqchipChip::SlavePic) => "KVM_SET_IRQCHIP slave PIC",
        (IrqchipOperation::ValidateGet, IrqchipChip::SlavePic) => "validate KVM_GET_IRQCHIP slave PIC",
        (IrqchipOperation::Get, IrqchipChip::Ioapic) => "KVM_GET_IRQCHIP IOAPIC",
        (IrqchipOperation::Restore, IrqchipChip::Ioapic) => "KVM_SET_IRQCHIP IOAPIC",
        (IrqchipOperation::ValidateGet, IrqchipChip::Ioapic) => "validate KVM_GET_IRQCHIP IOAPIC",
    }
}

/// The error of a failed irqchip operation.
pub fn irqchip_operation_error(operation: IrqchipOperation, chip: IrqchipChip, source: HostIoCause) -> (r: Error)
    ensures
        r == Error::HostEnvironment(HostEnvironmentError::VmOperation {
            operation: spec_irqchip_operation_name(operation, chip),
            source,
        }),
{
    let name = match (operation, chip) {
        (IrqchipOperation::Get, IrqchipChip::MasterPic) => "KVM_GET_IRQCHIP master PIC",
        (IrqchipOperation::Restore, IrqchipChip::MasterPic) => "KVM_SET_IRQCHIP master PIC",
        (IrqchipOperation::ValidateGet, IrqchipChip::MasterPic) => "validate KVM_GET_IRQCHIP master PIC",
        (IrqchipOperation::Get, IrqchipChip::SlavePic) => "KVM_GET_IRQCHIP slave PIC",
        (IrqchipOperation::Restore, IrqchipChip::SlavePic) => "KVM_SET_IRQCHIP slave PIC",
        (IrqchipOperation::ValidateGet, IrqchipChip::SlavePic) => "validate KVM_GET_IRQCHIP slave PIC",
        (IrqchipOperation::Get, IrqchipChip::Ioapic) => "KVM_GET_IRQCHIP IOAPIC",
        (IrqchipOperation::Restore, IrqchipChip::Ioapic) => "KVM_SET_IRQCHIP IOAPIC",
        (IrqchipOperation::ValidateGet, IrqchipChip::Ioapic) => "validate KVM_GET_IRQCHIP IOAPIC",
    };
    Error::HostEnvironment(HostEnvironmentError::VmOperation { operation: name, source })
}

/// The kernel's answer to a get request must name the requested chip and keep the outer pad zero.
pub fn validate_irqchip_response(response: &KvmIrqchip, chip: IrqchipChip) -> (r: Result<(), Error>)
    ensures
        (response.chip_id == chip.spec_id() && response.pad == 0) ==> r is Ok,
        !(response.chip_id == chip.spec_id() && response.pad == 0) ==> r == Err::<(), Error>(
            Error::HostEnvironment(HostEnvironmentError::VmOperation {
                operation: spec_irqchip_operation_name(IrqchipOperation::ValidateGet, chip),
                source: HostIoCause::InvalidData,
            })),
{
    if response.chip_id != chip.id() || response.pad != 0 {
        return Err(irqchip_operation_error(IrqchipOperation::ValidateGet, chip, HostIoCause::InvalidData));
    }
    Ok(())
}

} // verus!
