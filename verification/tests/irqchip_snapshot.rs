use mini_hypervisor::error::{Error, HostEnvironmentError, HostIoCause};
use mini_hypervisor::kvm::irqchip_snapshot::{
    decode_ioapic_state, decode_pic_state, encode_ioapic_state, encode_pic_state, irqchip_operation_error,
    validate_irqchip_response, IoapicStateSnapshot, IrqchipChip, IrqchipOperation, KvmIoapicState, KvmIrqchip,
    KvmPicState, MasterPicStateSnapshot, SlavePicStateSnapshot, KVM_GET_IRQCHIP, KVM_IOAPIC_NUM_PINS,
    KVM_IOAPIC_STATE_SIZE, KVM_IRQCHIP_IOAPIC, KVM_IRQCHIP_PAYLOAD_SIZE, KVM_IRQCHIP_PIC_MASTER,
    KVM_IRQCHIP_PIC_SLAVE, KVM_SET_IRQCHIP,
};

#[test]
fn irqchip_snapshot_uapi_matches_linux_x86_kvm() {
    assert_eq!(KVM_GET_IRQCHIP, 0xC208_AE62);
    assert_eq!(KVM_SET_IRQCHIP, 0x8208_AE63);
    assert_eq!(KVM_IRQCHIP_PIC_MASTER, 0);
    assert_eq!(KVM_IRQCHIP_PIC_SLAVE, 1);
    assert_eq!(KVM_IRQCHIP_IOAPIC, 2);
    assert_eq!(KVM_IOAPIC_NUM_PINS, 24);
    assert_eq!(std::mem::size_of::<KvmPicState>(), 16);
    assert_eq!(std::mem::size_of::<KvmIoapicState>(), 216);
    assert_eq!(std::mem::size_of::<KvmIrqchip>(), 520);
}

#[test]
fn master_pic_snapshot_round_trips_exact_sixteen_byte_state() {
    let mut request = KvmIrqchip::request(KVM_IRQCHIP_PIC_MASTER);
    for (index, byte) in request.chip[..16].iter_mut().enumerate() {
        *byte = index as u8;
    }
    request.chip[16] = 0xee;
    let snapshot = MasterPicStateSnapshot { state: decode_pic_state(&request.chip) };
    assert_eq!(snapshot.imr(), 2);

    let mutated = snapshot.with_imr(0xfe);
    let mut encoded = KvmIrqchip::request(KVM_IRQCHIP_PIC_MASTER);
    encode_pic_state(mutated.state, &mut encoded.chip);
    assert_eq!(encoded.chip[0], 0);
    assert_eq!(encoded.chip[1], 1);
    assert_eq!(encoded.chip[2], 0xfe);
    assert_eq!(encoded.chip[3..16], request.chip[3..16]);
    assert_eq!(encoded.chip[16..], [0; KVM_IRQCHIP_PAYLOAD_SIZE - 16]);
}

#[test]
fn slave_pic_snapshot_uses_the_same_exact_sixteen_byte_state() {
    let mut request = KvmIrqchip::request(KVM_IRQCHIP_PIC_SLAVE);
    for (index, byte) in request.chip[..16].iter_mut().enumerate() {
        *byte = (0x80 + index) as u8;
    }
    let snapshot = SlavePicStateSnapshot { state: decode_pic_state(&request.chip) };
    assert_eq!(snapshot.imr(), 0x82);
    let mutated = snapshot.with_imr(0xfe);
    let mut encoded = KvmIrqchip::request(KVM_IRQCHIP_PIC_SLAVE);
    encode_pic_state(mutated.state, &mut encoded.chip);
    assert_eq!(encoded.chip[2], 0xfe);
    assert_eq!(encoded.chip[0..2], request.chip[0..2]);
    assert_eq!(encoded.chip[3..16], request.chip[3..16]);
}

#[test]
fn ioapic_snapshot_round_trips_only_the_216_byte_semantic_state() {
    let state = KvmIoapicState {
        base_address: 0xfec0_0000,
        ioregsel: 0x12,
        id: 0x0f00_0000,
        irr: 0,
        pad: 0,
        redirtbl: std::array::from_fn(|index| 0x0001_0000_0000_0040 + index as u64),
    };
    let mut payload = [0xa5; KVM_IRQCHIP_PAYLOAD_SIZE];
    encode_ioapic_state(state, &mut payload);
    assert_eq!(decode_ioapic_state(&payload), state);
    assert_eq!(payload[KVM_IOAPIC_STATE_SIZE..], [0xa5; KVM_IRQCHIP_PAYLOAD_SIZE - KVM_IOAPIC_STATE_SIZE]);

    let snapshot = IoapicStateSnapshot { state };
    assert_eq!(snapshot.base_address(), 0xfec0_0000);
    assert_eq!(snapshot.ioregsel(), 0x12);
    assert_eq!(snapshot.id(), 0x0f00_0000);
    assert_eq!(snapshot.irr(), 0);
    assert_eq!(snapshot.pad(), 0);
    assert_eq!(snapshot.redirection_entry(16), Some(state.redirtbl[16]));
    assert_eq!(snapshot.redirection_entry(KVM_IOAPIC_NUM_PINS), None);

    let changed = snapshot.with_redirection_entry(16, 0x50).unwrap();
    assert_eq!(changed.redirection_entry(16), Some(0x50));
    assert_eq!(snapshot.redirection_entry(16), Some(state.redirtbl[16]));
    assert!(snapshot.with_redirection_entry(KVM_IOAPIC_NUM_PINS, 0).is_none());
}

#[test]
fn ioapic_encoding_is_little_endian_field_by_field() {
    let mut state = KvmIoapicState::default();
    state.base_address = 0x0102_0304_0506_0708;
    state.ioregsel = 0x1122_3344;
    state.redirtbl[23] = 0xaabb;
    let mut payload = [0u8; KVM_IRQCHIP_PAYLOAD_SIZE];
    encode_ioapic_state(state, &mut payload);
    assert_eq!(payload[0..8], [8, 7, 6, 5, 4, 3, 2, 1]);
    assert_eq!(payload[8..12], [0x44, 0x33, 0x22, 0x11]);
    assert_eq!(payload[24 + 8 * 23..24 + 8 * 23 + 2], [0xbb, 0xaa]);
}

#[test]
fn irqchip_response_must_name_the_requested_chip() {
    let mut response = KvmIrqchip::request(KVM_IRQCHIP_IOAPIC);
    assert_eq!(validate_irqchip_response(&response, IrqchipChip::Ioapic), Ok(()));
    response.pad = 1;
    assert_eq!(
        validate_irqchip_response(&response, IrqchipChip::Ioapic),
        Err(Error::HostEnvironment(HostEnvironmentError::VmOperation {
            operation: "validate KVM_GET_IRQCHIP IOAPIC",
            source: HostIoCause::InvalidData,
        }))
    );
    assert!(validate_irqchip_response(&KvmIrqchip::request(0), IrqchipChip::SlavePic).is_err());
    assert_eq!(
        irqchip_operation_error(IrqchipOperation::Restore, IrqchipChip::MasterPic, HostIoCause::Os { errno: 22 }),
        Error::HostEnvironment(HostEnvironmentError::VmOperation {
            operation: "KVM_SET_IRQCHIP master PIC",
            source: HostIoCause::Os { errno: 22 },
        })
    );
}
