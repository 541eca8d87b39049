//! Version 1 of the byte format of a registration pair.
//!
//! Layout (128 bytes, little-endian): a 32-byte header (magic `MHVHR2\0\0`, version `u16` = 1,
//! header length `u16` = 32, total length `u32` = 128, member count `u16` = 2, flags `u16` = 0,
//! reserved `u32` = 0, member lengths `u32` = 48 twice), then the two member descriptors in their
//! own version-1 form, in ascending doorbell order. Decoding accepts exactly the encodings of
//! valid pairs.
use crate::codec::{le_u16_at, le_u32_at, put_bytes, read_u16_le, read_u32_le, slice_range};
use crate::error::Error;
use crate::kvm::host_registration::HostRegistrationSpec;
use crate::kvm::host_registration_pair::{append_bytes, pair_error, HostRegistrationSpecPair, TwoHostRegistrationAccelerationResult};
use crate::kvm::host_registration_schema_v1::{
    encode_registration_vec, lemma_registration_decode_encode, lemma_registration_length, lemma_registration_encode_decode,
    spec_decode_registration, spec_encode_registration, VersionedHostRegistrationSpecError,
    VersionedHostRegistrationSpecV1, VERSIONED_HOST_REGISTRATION_SPEC_VERSION,
};
use vstd::bytes::*;
use crate::kvm::host_registration_schema_v1::VERSIONED_HOST_REGISTRATION_SPEC_LEN;
use crate::text::{decimal_text, hex_text, push_decimal, push_hex};
use vstd::string::StringExecFns;
use vstd::prelude::*;

verus! {

pub const VERSIONED_HOST_REGISTRATION_PAIR_VERSION: u16 = 1;
pub const VERSIONED_HOST_REGISTRATION_PAIR_HEADER_LEN: usize = 32;
pub const VERSIONED_HOST_REGISTRATION_PAIR_COUNT: u16 = 2;
pub const VERSIONED_HOST_REGISTRATION_PAIR_LEN: usize = 128;

#[derive(Debug, Clone, PartialEq, Eq)]
pub enum VersionedHostRegistrationPairError {
    Truncated { actual: usize },
    InvalidMagic,
    UnsupportedVersion(u16),
    InvalidHeaderLength(u16),
    InvalidTotalLength(u32),
    InvalidRegistrationCount(u16),
    NonZeroFlags(u16),
    NonZeroReserved(u32),
    InvalidRegistrationLength { index: u8, length: u32 },
    Registration { index: u8, error: VersionedHostRegistrationSpecError },
    NonCanonicalOrder,
    InvalidPair(Error),
}

pub open spec fn pair_magic() -> Seq<u8> {
    seq![0x4du8, 0x48, 0x56, 0x48, 0x52, 0x32, 0x00, 0x00]
}

pub open spec fn pair_header() -> Seq<u8> {
    pair_magic()
        + spec_u16_to_le_bytes(VERSIONED_HOST_REGISTRATION_PAIR_VERSION)
        + spec_u16_to_le_bytes(32)
        + spec_u32_to_le_bytes(128)
        + spec_u16_to_le_bytes(VERSIONED_HOST_REGISTRATION_PAIR_COUNT)
        + spec_u16_to_le_bytes(0)
        + spec_u32_to_le_bytes(0)
        + spec_u32_to_le_bytes(48)
        + spec_u32_to_le_bytes(48)
}

/// The canonical 128-byte encoding of a pair.
pub open spec fn spec_encode_pair(p: HostRegistrationSpecPair) -> Seq<u8> {
    pair_header() + spec_encode_registration(p.specs[0]) + spec_encode_registration(p.specs[1])
}

/// The pair a byte string decodes to, or the first check it fails.
pub open spec fn spec_decode_pair(b: Seq<u8>) -> Result<HostRegistrationSpecPair, VersionedHostRegistrationPairError> {
    if b.len() != VERSIONED_HOST_REGISTRATION_PAIR_LEN {
        Err(VersionedHostRegistrationPairError::Truncated { actual: b.len() as usize })
    } else if b.subrange(0, 8) != pair_magic() {
        Err(VersionedHostRegistrationPairError::InvalidMagic)
    } else if le_u16_at(b, 8) != VERSIONED_HOST_REGISTRATION_PAIR_VERSION {
        Err(VersionedHostRegistrationPairError::UnsupportedVersion(le_u16_at(b, 8)))
    } else if le_u16_at(b, 10) != 32 {
        Err(VersionedHostRegistrationPairError::InvalidHeaderLength(le_u16_at(b, 10)))
    } else if le_u32_at(b, 12) != 128 {
        Err(VersionedHostRegistrationPairError::InvalidTotalLength(le_u32_at(b, 12)))
    } else if le_u16_at(b, 16) != VERSIONED_HOST_REGISTRATION_PAIR_COUNT {
        Err(VersionedHostRegistrationPairError::InvalidRegistrationCount(le_u16_at(b, 16)))
    } else if le_u16_at(b, 18) != 0 {
        Err(VersionedHostRegistrationPairError::NonZeroFlags(le_u16_at(b, 18)))
    } else if le_u32_at(b, 20) != 0 {
        Err(VersionedHostRegistrationPairError::NonZeroReserved(le_u32_at(b, 20)))
    } else if le_u32_at(b, 24) != 48 {
        Err(VersionedHostRegistrationPairError::InvalidRegistrationLength { index: 0, length: le_u32_at(b, 24) })
    } else if le_u32_at(b, 28) != 48 {
        Err(VersionedHostRegistrationPairError::InvalidRegistrationLength { index: 1, length: le_u32_at(b, 28) })
    } else {
        match spec_decode_registration(b.subrange(32, 80)) {
            Err(error) => Err(VersionedHostRegistrationPairError::Registration { index: 0, error }),
            Ok(first) => match spec_decode_registration(b.subrange(80, 128)) {
                Err(error) => Err(VersionedHostRegistrationPairError::Registration { index: 1, error }),
                Ok(second) => if first.doorbell_address >= second.doorbell_address {
                    Err(VersionedHostRegistrationPairError::NonCanonicalOrder)
                } else if !HostRegistrationSpecPair::spec_valid(first, second) {
                    Err(VersionedHostRegistrationPairError::InvalidPair(pair_error()))
                } else {
                    Ok(HostRegistrationSpecPair { specs: [first, second] })
                },
            },
        }
    }
}

proof fn lemma_header_fields()
    ensures
        pair_header().len() == 32,
        pair_header().subrange(0, 8) == pair_magic(),
        le_u16_at(pair_header(), 8) == VERSIONED_HOST_REGISTRATION_PAIR_VERSION,
        le_u16_at(pair_header(), 10) == 32,
        le_u32_at(pair_header(), 12) == 128,
        le_u16_at(pair_header(), 16) == VERSIONED_HOST_REGISTRATION_PAIR_COUNT,
        le_u16_at(pair_header(), 18) == 0,
        le_u32_at(pair_header(), 20) == 0,
        le_u32_at(pair_header(), 24) == 48,
        le_u32_at(pair_header(), 28) == 48,
{
    lemma_auto_spec_u16_to_from_le_bytes();
    lemma_auto_spec_u32_to_from_le_bytes();
    let h = pair_header();
    assert(h.subrange(0, 8) =~= pair_magic());
    assert(h.subrange(8, 10) =~= spec_u16_to_le_bytes(VERSIONED_HOST_REGISTRATION_PAIR_VERSION));
    assert(h.subrange(10, 12) =~= spec_u16_to_le_bytes(32));
    assert(h.subrange(12, 16) =~= spec_u32_to_le_bytes(128));
    assert(h.subrange(16, 18) =~= spec_u16_to_le_bytes(VERSIONED_HOST_REGISTRATION_PAIR_COUNT));
    assert(h.subrange(18, 20) =~= spec_u16_to_le_bytes(0));
    assert(h.subrange(20, 24) =~= spec_u32_to_le_bytes(0));
    assert(h.subrange(24, 28) =~= spec_u32_to_le_bytes(48));
    assert(h.subrange(28, 32) =~= spec_u32_to_le_bytes(48));
}

/// Decoding the encoding of a valid pair gives the pair back.
pub proof fn lemma_pair_decode_encode(p: HostRegistrationSpecPair)
    requires p.wf(),
    ensures
        spec_encode_pair(p).len() == VERSIONED_HOST_REGISTRATION_PAIR_LEN,
        spec_decode_pair(spec_encode_pair(p)) == Ok::<HostRegistrationSpecPair, VersionedHostRegistrationPairError>(p),
{
    lemma_header_fields();
    lemma_registration_decode_encode(p.specs[0]);
    lemma_registration_decode_encode(p.specs[1]);
    let b = spec_encode_pair(p);
    let h = pair_header();
    assert(b.subrange(0, 32) =~= h);
    assert(b.subrange(0, 8) =~= h.subrange(0, 8));
    assert(b.subrange(8, 10) =~= h.subrange(8, 10));
    assert(b.subrange(10, 12) =~= h.subrange(10, 12));
    assert(b.subrange(12, 16) =~= h.subrange(12, 16));
    assert(b.subrange(16, 18) =~= h.subrange(16, 18));
    assert(b.subrange(18, 20) =~= h.subrange(18, 20));
    assert(b.subrange(20, 24) =~= h.subrange(20, 24));
    assert(b.subrange(24, 28) =~= h.subrange(24, 28));
    assert(b.subrange(28, 32) =~= h.subrange(28, 32));
    assert(b.subrange(32, 80) =~= spec_encode_registration(p.specs[0]));
    assert(b.subrange(80, 128) =~= spec_encode_registration(p.specs[1]));
    let q = HostRegistrationSpecPair { specs: [p.specs[0], p.specs[1]] };
    assert(q.specs =~= p.specs);
}

/// Every accepted byte string is the canonical encoding of the pair it decodes to.
pub proof fn lemma_pair_encode_decode(b: Seq<u8>)
    requires spec_decode_pair(b) is Ok,
    ensures spec_encode_pair(spec_decode_pair(b)->Ok_0) == b,
{
    lemma_auto_spec_u16_to_from_le_bytes();
    lemma_auto_spec_u32_to_from_le_bytes();
    let p = spec_decode_pair(b)->Ok_0;
    lemma_registration_encode_decode(b.subrange(32, 80));
    lemma_registration_encode_decode(b.subrange(80, 128));
    assert(spec_u16_to_le_bytes(spec_u16_from_le_bytes(b.subrange(8, 10))) == b.subrange(8, 10));
    assert(spec_u16_to_le_bytes(spec_u16_from_le_bytes(b.subrange(10, 12))) == b.subrange(10, 12));
    assert(spec_u32_to_le_bytes(spec_u32_from_le_bytes(b.subrange(12, 16))) == b.subrange(12, 16));
    assert(spec_u16_to_le_bytes(spec_u16_from_le_bytes(b.subrange(16, 18))) == b.subrange(16, 18));
    assert(spec_u16_to_le_bytes(spec_u16_from_le_bytes(b.subrange(18, 20))) == b.subrange(18, 20));
    assert(spec_u32_to_le_bytes(spec_u32_from_le_bytes(b.subrange(20, 24))) == b.subrange(20, 24));
    assert(spec_u32_to_le_bytes(spec_u32_from_le_bytes(b.subrange(24, 28))) == b.subrange(24, 28));
    assert(spec_u32_to_le_bytes(spec_u32_from_le_bytes(b.subrange(28, 32))) == b.subrange(28, 32));
    assert(pair_header() =~= b.subrange(0, 32));
    assert(spec_encode_pair(p) =~= b);
}

/// A registration pair in its version-1 byte form.
#[derive(Debug, Clone, Copy, PartialEq, Eq)]
pub struct VersionedHostRegistrationPairV1 {
    pub pair: HostRegistrationSpecPair,
}

impl VersionedHostRegistrationPairV1 {
    pub fn from_pair(pair: HostRegistrationSpecPair) -> (r: Self)
        ensures r.pair == pair,
    {
        VersionedHostRegistrationPairV1 { pair }
    }

    pub fn version(&self) -> (r: u16)
        ensures r == VERSIONED_HOST_REGISTRATION_PAIR_VERSION,
    {
        VERSIONED_HOST_REGISTRATION_PAIR_VERSION
    }

    pub fn registration_versions(&self) -> (r: [u16; 2])
        ensures r@ == seq![VERSIONED_HOST_REGISTRATION_SPEC_VERSION, VERSIONED_HOST_REGISTRATION_SPEC_VERSION],
    {
        let r = [VERSIONED_HOST_REGISTRATION_SPEC_VERSION, VERSIONED_HOST_REGISTRATION_SPEC_VERSION];
        assert(r@ =~= seq![VERSIONED_HOST_REGISTRATION_SPEC_VERSION, VERSIONED_HOST_REGISTRATION_SPEC_VERSION]);
        r
    }

    /// The canonical 128-byte encoding.
    pub fn encode(&self) -> (r: [u8; 128])
        ensures r@ == spec_encode_pair(self.pair),
    {
        proof {
            lemma_auto_spec_u16_to_from_le_bytes();
            lemma_auto_spec_u32_to_from_le_bytes();
        }
        let mut out: Vec<u8> = Vec::new();
        let magic = [0x4du8, 0x48, 0x56, 0x48, 0x52, 0x32, 0x00, 0x00];
        append_bytes(&mut out, &magic);
        assert(magic@ =~= pair_magic());
        let mut piece = u16_to_le_bytes(VERSIONED_HOST_REGISTRATION_PAIR_VERSION);
        out.append(&mut piece);
        let mut piece = u16_to_le_bytes(32);
        out.append(&mut piece);
        let mut piece = u32_to_le_bytes(128);
        out.append(&mut piece);
        let mut piece = u16_to_le_bytes(VERSIONED_HOST_REGISTRATION_PAIR_COUNT);
        out.append(&mut piece);
        let mut piece = u16_to_le_bytes(0);
        out.append(&mut piece);
        let mut piece = u32_to_le_bytes(0);
        out.append(&mut piece);
        let mut piece = u32_to_le_bytes(48);
        out.append(&mut piece);
        let mut piece = u32_to_le_bytes(48);
        out.append(&mut piece);
        let mut first = encode_registration_vec(self.pair.specs[0]);
        out.append(&mut first);
        let mut second = encode_registration_vec(self.pair.specs[1]);
        out.append(&mut second);
        assert(out@ =~= spec_encode_pair(self.pair));
        proof {
            lemma_header_fields();
            lemma_registration_length(self.pair.specs[0]);
            lemma_registration_length(self.pair.specs[1]);
        }
        let mut bytes = [0u8; 128];
        put_bytes(&mut bytes, 0, out.as_slice());
        assert(bytes@ =~= spec_encode_pair(self.pair));
        bytes
    }

    /// Decodes exactly `spec_decode_pair(bytes@)`.
    pub fn decode(bytes: &[u8]) -> (r: Result<Self, VersionedHostRegistrationPairError>)
        ensures
            match spec_decode_pair(bytes@) {
                Ok(pair) => r == Ok::<Self, VersionedHostRegistrationPairError>(VersionedHostRegistrationPairV1 { pair }),
                Err(e) => r == Err::<Self, VersionedHostRegistrationPairError>(e),
            },
            r is Ok ==> r->Ok_0.pair.wf(),
    {
        let length = bytes.len();
        if length != VERSIONED_HOST_REGISTRATION_PAIR_LEN {
            return Err(VersionedHostRegistrationPairError::Truncated { actual: length });
        }
        if !(bytes[0] == 0x4d && bytes[1] == 0x48 && bytes[2] == 0x56 && bytes[3] == 0x48 && bytes[4] == 0x52
            && bytes[5] == 0x32 && bytes[6] == 0x00 && bytes[7] == 0x00) {
            assert(bytes@.subrange(0, 8) != pair_magic()) by {
                if bytes@.subrange(0, 8) == pair_magic() {
                    assert(bytes@.subrange(0, 8)[0] == bytes@[0]);
                    assert(bytes@.subrange(0, 8)[1] == bytes@[1]);
                    assert(bytes@.subrange(0, 8)[2] == bytes@[2]);
                    assert(bytes@.subrange(0, 8)[3] == bytes@[3]);
                    assert(bytes@.subrange(0, 8)[4] == bytes@[4]);
                    assert(bytes@.subrange(0, 8)[5] == bytes@[5]);
                    assert(bytes@.subrange(0, 8)[6] == bytes@[6]);
                    assert(bytes@.subrange(0, 8)[7] == bytes@[7]);
                }
            }
            return Err(VersionedHostRegistrationPairError::InvalidMagic);
        }
        assert(bytes@.subrange(0, 8) =~= pair_magic());
        let version = read_u16_le(bytes, 8);
        if version != VERSIONED_HOST_REGISTRATION_PAIR_VERSION {
            return Err(VersionedHostRegistrationPairError::UnsupportedVersion(version));
        }
        let header_length = read_u16_le(bytes, 10);
        if header_length != 32 {
            return Err(VersionedHostRegistrationPairError::InvalidHeaderLength(header_length));
        }
        let total_length = read_u32_le(bytes, 12);
        if total_length != 128 {
            return Err(VersionedHostRegistrationPairError::InvalidTotalLength(total_length));
        }
        let count = read_u16_le(bytes, 16);
        if count != VERSIONED_HOST_REGISTRATION_PAIR_COUNT {
            return Err(VersionedHostRegistrationPairError::InvalidRegistrationCount(count));
        }
        let flags = read_u16_le(bytes, 18);
        if flags != 0 {
            return Err(VersionedHostRegistrationPairError::NonZeroFlags(flags));
        }
        let reserved = read_u32_le(bytes, 20);
        if reserved != 0 {
            return Err(VersionedHostRegistrationPairError::NonZeroReserved(reserved));
        }
        let first_length = read_u32_le(bytes, 24);
        if first_length != 48 {
            return Err(VersionedHostRegistrationPairError::InvalidRegistrationLength { index: 0, length: first_length });
        }
        let second_length = read_u32_le(bytes, 28);
        if second_length != 48 {
            return Err(VersionedHostRegistrationPairError::InvalidRegistrationLength { index: 1, length: second_length });
        }
        let first = match VersionedHostRegistrationSpecV1::decode(slice_range(bytes, 32, 80)) {
            Ok(schema) => schema.spec,
            Err(error) => return Err(VersionedHostRegistrationPairError::Registration { index: 0, error }),
        };
        let second = match VersionedHostRegistrationSpecV1::decode(slice_range(bytes, 80, 128)) {
            Ok(schema) => schema.spec,
            Err(error) => return Err(VersionedHostRegistrationPairError::Registration { index: 1, error }),
        };
        if first.doorbell_address >= second.doorbell_address {
            return Err(VersionedHostRegistrationPairError::NonCanonicalOrder);
        }
        match HostRegistrationSpecPair::new([first, second]) {
            Ok(_) => Ok(VersionedHostRegistrationPairV1 { pair: HostRegistrationSpecPair { specs: [first, second] } }),
            Err(error) => Err(VersionedHostRegistrationPairError::InvalidPair(error)),
        }
    }

    /// Revalidates the carried pair.
    pub fn materialize(&self) -> (r: Result<HostRegistrationSpecPair, VersionedHostRegistrationPairError>)
        requires
            self.pair.specs[0].wf(),
            self.pair.specs[1].wf(),
        ensures
            match HostRegistrationSpecPair::spec_new(self.pair.specs) {
                Ok(pair) => r == Ok::<HostRegistrationSpecPair, VersionedHostRegistrationPairError>(pair),
                Err(e) => r == Err::<HostRegistrationSpecPair, VersionedHostRegistrationPairError>(
                    VersionedHostRegistrationPairError::InvalidPair(e)),
            },
    {
        match HostRegistrationSpecPair::new(self.pair.specs) {
            Ok(pair) => Ok(pair),
            Err(error) => Err(VersionedHostRegistrationPairError::InvalidPair(error)),
        }
    }
}

/// What the versioned two-registration run observed, beside the run itself.
#[derive(Debug, Clone, PartialEq, Eq)]
pub struct VersionedTwoHostRegistrationAccelerationResult {
    pub acceleration: TwoHostRegistrationAccelerationResult,
    pub schema_version: u16,
    pub encoded_len: usize,
    pub registration_versions: [u16; 2],
    pub canonical_roundtrip: bool,
}

impl VersionedTwoHostRegistrationAccelerationResult {
    pub fn acceleration(&self) -> (r: &TwoHostRegistrationAccelerationResult)
        ensures *r == self.acceleration,
    {
        &self.acceleration
    }

    pub fn schema_version(&self) -> (r: u16)
        ensures r == self.schema_version,
    {
        self.schema_version
    }

    pub fn encoded_len(&self) -> (r: usize)
        ensures r == self.encoded_len,
    {
        self.encoded_len
    }

    pub fn registration_versions(&self) -> (r: [u16; 2])
        ensures r == self.registration_versions,
    {
        self.registration_versions
    }

    pub fn canonical_roundtrip(&self) -> (r: bool)
        ensures r == self.canonical_roundtrip,
    {
        self.canonical_roundtrip
    }
}


impl VersionedHostRegistrationPairError {
    /// The text that describes the refusal.
    pub open spec fn spec_message(self) -> Seq<char> {
        match self {
            VersionedHostRegistrationPairError::Truncated { actual } => Seq::<char>::empty() + "versioned host-registration pair is truncated: "@ + decimal_text(actual as nat) + " bytes, expected "@ + decimal_text(VERSIONED_HOST_REGISTRATION_PAIR_LEN as nat),
            VersionedHostRegistrationPairError::InvalidMagic => Seq::<char>::empty() + "versioned host-registration pair has invalid magic"@,
            VersionedHostRegistrationPairError::UnsupportedVersion(version) => Seq::<char>::empty() + "versioned host-registration pair version "@ + decimal_text(version as nat) + " is unsupported"@,
            VersionedHostRegistrationPairError::InvalidHeaderLength(length) => Seq::<char>::empty() + "versioned host-registration pair header length "@ + decimal_text(length as nat) + " is invalid"@,
            VersionedHostRegistrationPairError::InvalidTotalLength(length) => Seq::<char>::empty() + "versioned host-registration pair total length "@ + decimal_text(length as nat) + " is invalid"@,
            VersionedHostRegistrationPairError::InvalidRegistrationCount(count) => Seq::<char>::empty() + "versioned host-registration pair count "@ + decimal_text(count as nat) + " is not "@ + decimal_text(VERSIONED_HOST_REGISTRATION_PAIR_COUNT as nat),
            VersionedHostRegistrationPairError::NonZeroFlags(flags) => Seq::<char>::empty() + "versioned host-registration pair flags must be zero, got "@ + hex_text(flags as nat),
            VersionedHostRegistrationPairError::NonZeroReserved(reserved) => Seq::<char>::empty() + "versioned host-registration pair reserved field must be zero, got "@ + hex_text(reserved as nat),
            VersionedHostRegistrationPairError::InvalidRegistrationLength { index, length } => Seq::<char>::empty() + "versioned host-registration pair member "@ + decimal_text(index as nat) + " length "@ + decimal_text(length as nat) + " is not "@ + decimal_text(VERSIONED_HOST_REGISTRATION_SPEC_LEN as nat),
            VersionedHostRegistrationPairError::Registration { index, error } => Seq::<char>::empty() + "versioned host-registration pair member "@ + decimal_text(index as nat) + " is invalid: "@ + error.spec_message(),
            VersionedHostRegistrationPairError::NonCanonicalOrder => Seq::<char>::empty() + "versioned host-registration pair members are not in ascending doorbell order"@,
            VersionedHostRegistrationPairError::InvalidPair(detail) => Seq::<char>::empty() + "versioned host-registration pair semantics are invalid: "@ + detail.spec_message(),
        }
    }

    pub fn message(&self) -> (r: String)
        ensures r@ == self.spec_message(),
    {
        match self {
            VersionedHostRegistrationPairError::Truncated { actual } => {
                let mut s = String::new();
                s.append("versioned host-registration pair is truncated: ");
                push_decimal(&mut s, *actual as u64);
                s.append(" bytes, expected ");
                push_decimal(&mut s, VERSIONED_HOST_REGISTRATION_PAIR_LEN as u64);
                s
            },
            VersionedHostRegistrationPairError::InvalidMagic => {
                let mut s = String::new();
                s.append("versioned host-registration pair has invalid magic");
                s
            },
            VersionedHostRegistrationPairError::UnsupportedVersion(version) => {
                let mut s = String::new();
                s.append("versioned host-registration pair version ");
                push_decimal(&mut s, *version as u64);
                s.append(" is unsupported");
                s
            },
            VersionedHostRegistrationPairError::InvalidHeaderLength(length) => {
                let mut s = String::new();
                s.append("versioned host-registration pair header length ");
                push_decimal(&mut s, *length as u64);
                s.append(" is invalid");
                s
            },
            VersionedHostRegistrationPairError::InvalidTotalLength(length) => {
                let mut s = String::new();
                s.append("versioned host-registration pair total length ");
                push_decimal(&mut s, *length as u64);
                s.append(" is invalid");
                s
            },
            VersionedHostRegistrationPairError::InvalidRegistrationCount(count) => {
                let mut s = String::new();
                s.append("versioned host-registration pair count ");
                push_decimal(&mut s, *count as u64);
                s.append(" is not ");
                push_decimal(&mut s, VERSIONED_HOST_REGISTRATION_PAIR_COUNT as u64);
                s
            },
            VersionedHostRegistrationPairError::NonZeroFlags(flags) => {
                let mut s = String::new();
                s.append("versioned host-registration pair flags must be zero, got ");
                push_hex(&mut s, *flags as u64);
                s
            },
            VersionedHostRegistrationPairError::NonZeroReserved(reserved) => {
                let mut s = String::new();
                s.append("versioned host-registration pair reserved field must be zero, got ");
                push_hex(&mut s, *reserved as u64);
                s
            },
            VersionedHostRegistrationPairError::InvalidRegistrationLength { index, length } => {
                let mut s = String::new();
                s.append("versioned host-registration pair member ");
                push_decimal(&mut s, *index as u64);
                s.append(" length ");
                push_decimal(&mut s, *length as u64);
                s.append(" is not ");
                push_decimal(&mut s, VERSIONED_HOST_REGISTRATION_SPEC_LEN as u64);
                s
            },
            VersionedHostRegistrationPairError::Registration { index, error } => {
                let mut s = String::new();
                s.append("versioned host-registration pair member ");
                push_decimal(&mut s, *index as u64);
                s.append(" is invalid: ");
                let inner = error.message();
                s.append(inner.as_str());
                s
            },
            VersionedHostRegistrationPairError::NonCanonicalOrder => {
                let mut s = String::new();
                s.append("versioned host-registration pair members are not in ascending doorbell order");
                s
            },
            VersionedHostRegistrationPairError::InvalidPair(detail) => {
                let mut s = String::new();
                s.append("versioned host-registration pair semantics are invalid: ");
                let inner = detail.message();
                s.append(inner.as_str());
                s
            },
        }
    }
}

} // verus!
