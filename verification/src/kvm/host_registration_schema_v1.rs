//! Version 1 of the byte format of one host-registration descriptor.
//!
//! Layout (48 bytes, little-endian): magic `MHVHREG\0`, version `u16` = 1, header length `u16`
//! = 48, total length `u32` = 48, doorbell address `u64`, doorbell length `u32`, GSI `u32`,
//! datamatch `u64`, flags `u32` = 0, reserved `u32` = 0. Decoding accepts exactly the encodings
//! of valid descriptors.
use crate::codec::{le_u16_at, le_u32_at, le_u64_at, put_bytes, read_u16_le, read_u32_le, read_u64_le};
use crate::error::Error;
use crate::kvm::host_registration::{descriptor_error, HostRegistrationSpec};
use crate::kvm::host_registration_pair::append_bytes;
use vstd::bytes::*;
use crate::text::{decimal_text, hex_text, push_decimal, push_hex};
use vstd::string::StringExecFns;
use vstd::prelude::*;

verus! {

pub const VERSIONED_HOST_REGISTRATION_SPEC_VERSION: u16 = 1;
pub const VERSIONED_HOST_REGISTRATION_SPEC_LEN: usize = 48;

#[derive(Debug, Clone, PartialEq, Eq)]
pub enum VersionedHostRegistrationSpecError {
    Truncated { actual: usize },
    InvalidMagic,
    UnsupportedVersion(u16),
    InvalidHeaderLength(u16),
    InvalidTotalLength(u32),
    NonZeroFlags(u32),
    NonZeroReserved(u32),
    InvalidSpec(Error),
}

pub open spec fn registration_magic() -> Seq<u8> {
    seq![0x4du8, 0x48, 0x56, 0x48, 0x52, 0x45, 0x47, 0x00]
}

/// The canonical 48-byte encoding of a descriptor.
pub open spec fn spec_encode_registration(s: HostRegistrationSpec) -> Seq<u8> {
    registration_magic()
        + spec_u16_to_le_bytes(VERSIONED_HOST_REGISTRATION_SPEC_VERSION)
        + spec_u16_to_le_bytes(48)
        + spec_u32_to_le_bytes(48)
        + spec_u64_to_le_bytes(s.doorbell_address)
        + spec_u32_to_le_bytes(s.doorbell_length)
        + spec_u32_to_le_bytes(s.gsi)
        + spec_u64_to_le_bytes(s.doorbell_datamatch)
        + spec_u32_to_le_bytes(0)
        + spec_u32_to_le_bytes(0)
}

/// The descriptor a byte string decodes to, or the first check it fails.
pub open spec fn spec_decode_registration(b: Seq<u8>) -> Result<HostRegistrationSpec, VersionedHostRegistrationSpecError> {
    if b.len() != VERSIONED_HOST_REGISTRATION_SPEC_LEN {
        Err(VersionedHostRegistrationSpecError::Truncated { actual: b.len() as usize })
    } else if b.subrange(0, 8) != registration_magic() {
        Err(VersionedHostRegistrationSpecError::InvalidMagic)
    } else if le_u16_at(b, 8) != VERSIONED_HOST_REGISTRATION_SPEC_VERSION {
        Err(VersionedHostRegistrationSpecError::UnsupportedVersion(le_u16_at(b, 8)))
    } else if le_u16_at(b, 10) != 48 {
        Err(VersionedHostRegistrationSpecError::InvalidHeaderLength(le_u16_at(b, 10)))
    } else if le_u32_at(b, 12) != 48 {
        Err(VersionedHostRegistrationSpecError::InvalidTotalLength(le_u32_at(b, 12)))
    } else if le_u32_at(b, 40) != 0 {
        Err(VersionedHostRegistrationSpecError::NonZeroFlags(le_u32_at(b, 40)))
    } else if le_u32_at(b, 44) != 0 {
        Err(VersionedHostRegistrationSpecError::NonZeroReserved(le_u32_at(b, 44)))
    } else if !HostRegistrationSpec::spec_valid(le_u64_at(b, 16), le_u32_at(b, 24), le_u64_at(b, 32)) {
        Err(VersionedHostRegistrationSpecError::InvalidSpec(descriptor_error()))
    } else {
        Ok(HostRegistrationSpec {
            doorbell_address: le_u64_at(b, 16),
            doorbell_length: le_u32_at(b, 24),
            doorbell_datamatch: le_u64_at(b, 32),
            gsi: le_u32_at(b, 28),
        })
    }
}

/// Every encoding is 48 bytes long.
pub proof fn lemma_registration_length(s: HostRegistrationSpec)
    ensures spec_encode_registration(s).len() == VERSIONED_HOST_REGISTRATION_SPEC_LEN,
{
    lemma_auto_spec_u16_to_from_le_bytes();
    lemma_auto_spec_u32_to_from_le_bytes();
    lemma_auto_spec_u64_to_from_le_bytes();
}

/// Decoding the encoding of a valid descriptor gives the descriptor back.
pub proof fn lemma_registration_decode_encode(s: HostRegistrationSpec)
    requires s.wf(),
    ensures
        spec_encode_registration(s).len() == VERSIONED_HOST_REGISTRATION_SPEC_LEN,
        spec_decode_registration(spec_encode_registration(s)) == Ok::<HostRegistrationSpec, VersionedHostRegistrationSpecError>(s),
{
    lemma_auto_spec_u16_to_from_le_bytes();
    lemma_auto_spec_u32_to_from_le_bytes();
    lemma_auto_spec_u64_to_from_le_bytes();
    let b = spec_encode_registration(s);
    assert(b.subrange(0, 8) =~= registration_magic());
    assert(b.subrange(8, 10) =~= spec_u16_to_le_bytes(VERSIONED_HOST_REGISTRATION_SPEC_VERSION));
    assert(b.subrange(10, 12) =~= spec_u16_to_le_bytes(48));
    assert(b.subrange(12, 16) =~= spec_u32_to_le_bytes(48));
    assert(b.subrange(16, 24) =~= spec_u64_to_le_bytes(s.doorbell_address));
    assert(b.subrange(24, 28) =~= spec_u32_to_le_bytes(s.doorbell_length));
    assert(b.subrange(28, 32) =~= spec_u32_to_le_bytes(s.gsi));
    assert(b.subrange(32, 40) =~= spec_u64_to_le_bytes(s.doorbell_datamatch));
    assert(b.subrange(40, 44) =~= spec_u32_to_le_bytes(0));
    assert(b.subrange(44, 48) =~= spec_u32_to_le_bytes(0));
}

/// Every accepted byte string is the canonical encoding of what it decodes to.
pub proof fn lemma_registration_encode_decode(b: Seq<u8>)
    requires spec_decode_registration(b) is Ok,
    ensures spec_encode_registration(spec_decode_registration(b)->Ok_0) == b,
{
    lemma_auto_spec_u16_to_from_le_bytes();
    lemma_auto_spec_u32_to_from_le_bytes();
    lemma_auto_spec_u64_to_from_le_bytes();
    let s = spec_decode_registration(b)->Ok_0;
    assert(spec_u16_to_le_bytes(spec_u16_from_le_bytes(b.subrange(8, 10))) == b.subrange(8, 10));
    assert(spec_u16_to_le_bytes(spec_u16_from_le_bytes(b.subrange(10, 12))) == b.subrange(10, 12));
    assert(spec_u32_to_le_bytes(spec_u32_from_le_bytes(b.subrange(12, 16))) == b.subrange(12, 16));
    assert(spec_u64_to_le_bytes(spec_u64_from_le_bytes(b.subrange(16, 24))) == b.subrange(16, 24));
    assert(spec_u32_to_le_bytes(spec_u32_from_le_bytes(b.subrange(24, 28))) == b.subrange(24, 28));
    assert(spec_u32_to_le_bytes(spec_u32_from_le_bytes(b.subrange(28, 32))) == b.subrange(28, 32));
    assert(spec_u64_to_le_bytes(spec_u64_from_le_bytes(b.subrange(32, 40))) == b.subrange(32, 40));
    assert(spec_u32_to_le_bytes(spec_u32_from_le_bytes(b.subrange(40, 44))) == b.subrange(40, 44));
    assert(spec_u32_to_le_bytes(spec_u32_from_le_bytes(b.subrange(44, 48))) == b.subrange(44, 48));
    assert(spec_encode_registration(s) =~= b);
}

/// A descriptor in its version-1 byte form.
#[derive(Debug, Clone, Copy, PartialEq, Eq)]
pub struct VersionedHostRegistrationSpecV1 {
    pub spec: HostRegistrationSpec,
}

/// The canonical encoding as a vector.
pub fn encode_registration_vec(s: HostRegistrationSpec) -> (r: Vec<u8>)
    ensures r@ == spec_encode_registration(s),
{
    let mut out: Vec<u8> = Vec::new();
    let magic = [0x4du8, 0x48, 0x56, 0x48, 0x52, 0x45, 0x47, 0x00];
    append_bytes(&mut out, &magic);
    assert(magic@ =~= registration_magic());
    let mut piece = u16_to_le_bytes(VERSIONED_HOST_REGISTRATION_SPEC_VERSION);
    out.append(&mut piece);
    let mut piece = u16_to_le_bytes(48);
    out.append(&mut piece);
    let mut piece = u32_to_le_bytes(48);
    out.append(&mut piece);
    let mut piece = u64_to_le_bytes(s.doorbell_address);
    out.append(&mut piece);
    let mut piece = u32_to_le_bytes(s.doorbell_length);
    out.append(&mut piece);
    let mut piece = u32_to_le_bytes(s.gsi);
    out.append(&mut piece);
    let mut piece = u64_to_le_bytes(s.doorbell_datamatch);
    out.append(&mut piece);
    let mut piece = u32_to_le_bytes(0);
    out.append(&mut piece);
    let mut piece = u32_to_le_bytes(0);
    out.append(&mut piece);
    out
}

impl VersionedHostRegistrationSpecV1 {
    pub fn from_spec(spec: HostRegistrationSpec) -> (r: Self)
        ensures r.spec == spec,
    {
        VersionedHostRegistrationSpecV1 { spec }
    }

    pub fn version(&self) -> (r: u16)
        ensures r == VERSIONED_HOST_REGISTRATION_SPEC_VERSION,
    {
        VERSIONED_HOST_REGISTRATION_SPEC_VERSION
    }

    pub fn spec(&self) -> (r: HostRegistrationSpec)
        ensures r == self.spec,
    {
        self.spec
    }

    /// The canonical 48-byte encoding.
    pub fn encode(&self) -> (r: [u8; 48])
        ensures r@ == spec_encode_registration(self.spec),
    {
        proof {
            lemma_auto_spec_u16_to_from_le_bytes();
            lemma_auto_spec_u32_to_from_le_bytes();
            lemma_auto_spec_u64_to_from_le_bytes();
        }
        let encoded = encode_registration_vec(self.spec);
        let mut bytes = [0u8; 48];
        put_bytes(&mut bytes, 0, encoded.as_slice());
        assert(bytes@ =~= spec_encode_registration(self.spec));
        bytes
    }

    /// Decodes exactly `spec_decode_registration(bytes@)`.
    pub fn decode(bytes: &[u8]) -> (r: Result<Self, VersionedHostRegistrationSpecError>)
        ensures
            match spec_decode_registration(bytes@) {
                Ok(spec) => r == Ok::<Self, VersionedHostRegistrationSpecError>(VersionedHostRegistrationSpecV1 { spec }),
                Err(e) => r == Err::<Self, VersionedHostRegistrationSpecError>(e),
            },
            r is Ok ==> r->Ok_0.spec.wf(),
    {
        let length = bytes.len();
        if length != VERSIONED_HOST_REGISTRATION_SPEC_LEN {
            return Err(VersionedHostRegistrationSpecError::Truncated { actual: length });
        }
        if !(bytes[0] == 0x4d && bytes[1] == 0x48 && bytes[2] == 0x56 && bytes[3] == 0x48 && bytes[4] == 0x52
            && bytes[5] == 0x45 && bytes[6] == 0x47 && bytes[7] == 0x00) {
            assert(bytes@.subrange(0, 8) != registration_magic()) by {
                if bytes@.subrange(0, 8) == registration_magic() {
                    assert(bytes@.subrange(0, 8)[0] == bytes@[0]);
                    assert(bytes@.subrange(0, 8)[1] == bytes@[1]);
                    assert(bytes@.subrange(0, 8)[2] == bytes@[2]);
                    assert(bytes@.subrange(0, 8)[3] == bytes@[3]);
                    assert(bytes@.subrange(0, 8)[4] == bytes@[4]);
                    assert(bytes@.subrange(0, 8)[5] == bytes@[5]);
                    assert(bytes@.subrange(0, 8)[6] == bytes@[6]);
                    assert(bytes@.subrange(0, 8)[7] == bytes@[7]);
                }
            }
            return Err(VersionedHostRegistrationSpecError::InvalidMagic);
        }
        assert(bytes@.subrange(0, 8) =~= registration_magic());
        let version = read_u16_le(bytes, 8);
        if version != VERSIONED_HOST_REGISTRATION_SPEC_VERSION {
            return Err(VersionedHostRegistrationSpecError::UnsupportedVersion(version));
        }
        let header_length = read_u16_le(bytes, 10);
        if header_length != 48 {
            return Err(VersionedHostRegistrationSpecError::InvalidHeaderLength(header_length));
        }
        let total_length = read_u32_le(bytes, 12);
        if total_length != 48 {
            return Err(VersionedHostRegistrationSpecError::InvalidTotalLength(total_length));
        }
        let doorbell_address = read_u64_le(bytes, 16);
        let doorbell_length = read_u32_le(bytes, 24);
        let gsi = read_u32_le(bytes, 28);
        let doorbell_datamatch = read_u64_le(bytes, 32);
        let flags = read_u32_le(bytes, 40);
        if flags != 0 {
            return Err(VersionedHostRegistrationSpecError::NonZeroFlags(flags));
        }
        let reserved = read_u32_le(bytes, 44);
        if reserved != 0 {
            return Err(VersionedHostRegistrationSpecError::NonZeroReserved(reserved));
        }
        match HostRegistrationSpec::new(doorbell_address, doorbell_length, doorbell_datamatch, gsi) {
            Ok(spec) => Ok(VersionedHostRegistrationSpecV1 { spec }),
            Err(error) => Err(VersionedHostRegistrationSpecError::InvalidSpec(error)),
        }
    }
}


impl VersionedHostRegistrationSpecError {
    /// The text that describes the refusal.
    pub open spec fn spec_message(self) -> Seq<char> {
        match self {
            VersionedHostRegistrationSpecError::Truncated { actual } => Seq::<char>::empty() + "versioned host-registration spec is truncated: "@ + decimal_text(actual as nat) + " bytes, expected "@ + decimal_text(VERSIONED_HOST_REGISTRATION_SPEC_LEN as nat),
            VersionedHostRegistrationSpecError::InvalidMagic => Seq::<char>::empty() + "versioned host-registration spec has invalid magic"@,
            VersionedHostRegistrationSpecError::UnsupportedVersion(version) => Seq::<char>::empty() + "versioned host-registration spec version "@ + decimal_text(version as nat) + " is unsupported"@,
            VersionedHostRegistrationSpecError::InvalidHeaderLength(length) => Seq::<char>::empty() + "versioned host-registration header length "@ + decimal_text(length as nat) + " is invalid"@,
            VersionedHostRegistrationSpecError::InvalidTotalLength(length) => Seq::<char>::empty() + "versioned host-registration total length "@ + decimal_text(length as nat) + " is invalid"@,
            VersionedHostRegistrationSpecError::NonZeroFlags(flags) => Seq::<char>::empty() + "versioned host-registration flags must be zero, got "@ + hex_text(flags as nat),
            VersionedHostRegistrationSpecError::NonZeroReserved(reserved) => Seq::<char>::empty() + "versioned host-registration reserved field must be zero, got "@ + hex_text(reserved as nat),
            VersionedHostRegistrationSpecError::InvalidSpec(detail) => Seq::<char>::empty() + "versioned host-registration semantic spec is invalid: "@ + detail.spec_message(),
        }
    }

    pub fn message(&self) -> (r: String)
        ensures r@ == self.spec_message(),
    {
        match self {
            VersionedHostRegistrationSpecError::Truncated { actual } => {
                let mut s = String::new();
                s.append("versioned host-registration spec is truncated: ");
                push_decimal(&mut s, *actual as u64);
                s.append(" bytes, expected ");
                push_decimal(&mut s, VERSIONED_HOST_REGISTRATION_SPEC_LEN as u64);
                s
            },
            VersionedHostRegistrationSpecError::InvalidMagic => {
                let mut s = String::new();
                s.append("versioned host-registration spec has invalid magic");
                s
            },
            VersionedHostRegistrationSpecError::UnsupportedVersion(version) => {
                let mut s = String::new();
                s.append("versioned host-registration spec version ");
                push_decimal(&mut s, *version as u64);
                s.append(" is unsupported");
                s
            },
            VersionedHostRegistrationSpecError::InvalidHeaderLength(length) => {
                let mut s = String::new();
                s.append("versioned host-registration header length ");
                push_decimal(&mut s, *length as u64);
                s.append(" is invalid");
                s
            },
            VersionedHostRegistrationSpecError::InvalidTotalLength(length) => {
                let mut s = String::new();
                s.append("versioned host-registration total length ");
                push_decimal(&mut s, *length as u64);
                s.append(" is invalid");
                s
            },
            VersionedHostRegistrationSpecError::NonZeroFlags(flags) => {
                let mut s = String::new();
                s.append("versioned host-registration flags must be zero, got ");
                push_hex(&mut s, *flags as u64);
                s
            },
            VersionedHostRegistrationSpecError::NonZeroReserved(reserved) => {
                let mut s = String::new();
                s.append("versioned host-registration reserved field must be zero, got ");
                push_hex(&mut s, *reserved as u64);
                s
            },
            VersionedHostRegistrationSpecError::InvalidSpec(detail) => {
                let mut s = String::new();
                s.append("versioned host-registration semantic spec is invalid: ");
                let inner = detail.message();
                s.append(inner.as_str());
                s
            },
        }
    }
}

} // verus!
